//! The settings value bridge: hands the scalars of a settings mapping to a
//! catalog that asks for them kind by kind.

use vstd::prelude::*;
use vstd::string::StringExecFns;

use crate::foreign::{SettingEntry, SettingKey, SettingValue};

verus! {

/// The three kinds of settings scalar.
#[derive(Copy, Clone, Debug, PartialEq, Eq, Structural)]
pub enum ScalarKind {
    Bool,
    Number,
    Text,
}

/// What a catalog can ask of a settings value.
#[derive(Copy, Clone, Debug, PartialEq, Eq, Structural)]
pub enum Request {
    /// Whatever the value is.
    Any,
    Bool,
    Number,
    Text,
    /// Nothing: the value is passed over.
    Ignored,
}

/// How a request is answered.
#[derive(Copy, Clone, Debug, PartialEq, Eq, Structural)]
pub enum Visit {
    /// The value is handed over as the scalar of this kind that it is.
    Scalar(ScalarKind),
    /// The value is passed over.
    Unit,
}

/// Why a settings mapping cannot be handed over.
#[derive(Copy, Clone, Debug, PartialEq, Eq, Structural)]
pub enum BridgeError {
    /// A key that is no text.
    KeyNotText,
    /// A value that is none of the three kinds of scalar.
    NotScalar,
    /// A scalar of one kind where the catalog asked for another.
    InvalidType { found: ScalarKind, expected: ScalarKind },
}

impl ScalarKind {
    pub open spec fn spec_name(self) -> Seq<char> {
        match self {
            ScalarKind::Bool => "boolean"@,
            ScalarKind::Number => "number"@,
            ScalarKind::Text => "string"@,
        }
    }

    pub fn name(self) -> (name: &'static str)
        ensures
            name@ == self.spec_name(),
    {
        match self {
            ScalarKind::Bool => "boolean",
            ScalarKind::Number => "number",
            ScalarKind::Text => "string",
        }
    }
}

impl SettingValue {
    /// The kind of scalar that a value is, if it is one.
    pub open spec fn spec_kind(self) -> Option<ScalarKind> {
        match self {
            SettingValue::Bool(_) => Some(ScalarKind::Bool),
            SettingValue::Number(_) => Some(ScalarKind::Number),
            SettingValue::Text(_) => Some(ScalarKind::Text),
            SettingValue::Other { .. } => None,
        }
    }

    /// The kind of scalar that the value is, if it is one.
    pub fn kind(&self) -> (kind: Option<ScalarKind>)
        ensures
            kind == self.spec_kind(),
    {
        match self {
            SettingValue::Bool(_) => Some(ScalarKind::Bool),
            SettingValue::Number(_) => Some(ScalarKind::Number),
            SettingValue::Text(_) => Some(ScalarKind::Text),
            SettingValue::Other { .. } => None,
        }
    }
}

/// The kind that a request names, if it names one.
pub open spec fn requested_kind(request: Request) -> Option<ScalarKind> {
    match request {
        Request::Bool => Some(ScalarKind::Bool),
        Request::Number => Some(ScalarKind::Number),
        Request::Text => Some(ScalarKind::Text),
        _ => None,
    }
}

/// The answer to a request: a value that is no scalar is refused whatever is
/// asked; a scalar is passed over if nothing is asked of it, handed over if
/// any kind or its own kind is asked for, and refused with both kinds named
/// otherwise.
pub open spec fn answer(value: SettingValue, request: Request) -> Result<Visit, BridgeError> {
    match value.spec_kind() {
        None => Err(BridgeError::NotScalar),
        Some(found) => if request == Request::Ignored {
            Ok(Visit::Unit)
        } else {
            match requested_kind(request) {
                None => Ok(Visit::Scalar(found)),
                Some(expected) => if found == expected {
                    Ok(Visit::Scalar(found))
                } else {
                    Err(BridgeError::InvalidType { found, expected })
                },
            }
        },
    }
}

/// Answers a request of the catalog for a settings value.
pub fn supply(value: &SettingValue, request: Request) -> (outcome: Result<Visit, BridgeError>)
    ensures
        outcome == answer(*value, request),
{
    let found = match value.kind() {
        None => {
            return Err(BridgeError::NotScalar);
        },
        Some(found) => found,
    };
    let expected = match request {
        Request::Ignored => {
            return Ok(Visit::Unit);
        },
        Request::Any => {
            return Ok(Visit::Scalar(found));
        },
        Request::Bool => ScalarKind::Bool,
        Request::Number => ScalarKind::Number,
        Request::Text => ScalarKind::Text,
    };
    if found == expected {
        Ok(Visit::Scalar(found))
    } else {
        Err(BridgeError::InvalidType { found, expected })
    }
}

/// What is wrong with an entry by itself, if anything: its key is no text,
/// or its value is no scalar.
pub open spec fn entry_fault(entry: SettingEntry) -> Option<BridgeError> {
    if !(entry.key is Text) {
        Some(BridgeError::KeyNotText)
    } else if entry.value.spec_kind() is None {
        Some(BridgeError::NotScalar)
    } else {
        None
    }
}

/// Looks at one entry of a settings mapping by itself.
pub fn check_entry(entry: &SettingEntry) -> (fault: Option<BridgeError>)
    ensures
        fault == entry_fault(*entry),
{
    match &entry.key {
        SettingKey::Text(_) => match entry.value.kind() {
            Some(_) => None,
            None => Some(BridgeError::NotScalar),
        },
        SettingKey::Other { .. } => Some(BridgeError::KeyNotText),
    }
}

/// What the walk over a settings mapping meets at a position: the end of
/// the mapping, an entry that can be handed over, or the message of the
/// fault of the entry there. Entries are looked at one by one, when the
/// walk reaches them; a fault ends the walk for the whole mapping.
pub open spec fn entry_reached(
    entries: Seq<SettingEntry>,
    position: int,
    outcome: Result<Option<&SettingEntry>, String>,
) -> bool {
    if position >= entries.len() {
        outcome == Ok::<Option<&SettingEntry>, String>(None)
    } else {
        match entry_fault(entries[position]) {
            None => outcome == Ok::<Option<&SettingEntry>, String>(Some(&entries[position])),
            Some(fault) => outcome matches Err(message) && message@ == fault_message(
                entries[position],
                fault,
            ),
        }
    }
}

/// Reaches for the entry at a position of a settings mapping.
pub fn next_entry(entries: &Vec<SettingEntry>, position: usize) -> (outcome: Result<Option<&SettingEntry>, String>)
    ensures
        entry_reached(entries@, position as int, outcome),
{
    if position >= entries.len() {
        return Ok(None);
    }
    let entry = &entries[position];
    match check_entry(entry) {
        None => Ok(Some(entry)),
        Some(fault) => Err(describe_fault(entry, fault)),
    }
}

impl BridgeError {
    /// The message of a fault: for a mismatch of kinds it names the kind
    /// that was found and the kind that was asked for.
    pub open spec fn spec_message(self) -> Seq<char> {
        match self {
            BridgeError::KeyNotText => "invalid type: settings key is no string"@,
            BridgeError::NotScalar => "invalid type: expected a boolean, a number or a string"@,
            BridgeError::InvalidType { found, expected } => "invalid type: "@ + found.spec_name()
                + ", expected "@ + expected.spec_name(),
        }
    }

    pub fn message(&self) -> (text: String)
        ensures
            text@ == self.spec_message(),
    {
        match self {
            BridgeError::KeyNotText => String::from_str("invalid type: settings key is no string"),
            BridgeError::NotScalar => String::from_str(
                "invalid type: expected a boolean, a number or a string",
            ),
            BridgeError::InvalidType { found, expected } => {
                let mut text = String::from_str("invalid type: ");
                text.append(found.name());
                text.append(", expected ");
                text.append(expected.name());
                text
            },
        }
    }
}

/// The message of a fault of an entry: where the key is text the message
/// names it.
pub open spec fn fault_message(entry: SettingEntry, fault: BridgeError) -> Seq<char> {
    match entry.key {
        SettingKey::Text(key) => "setting `"@ + key@ + "`: "@ + fault.spec_message(),
        SettingKey::Other { .. } => fault.spec_message(),
    }
}

/// Renders the fault of an entry.
pub fn describe_fault(entry: &SettingEntry, fault: BridgeError) -> (text: String)
    ensures
        text@ == fault_message(*entry, fault),
{
    let shown = fault.message();
    match &entry.key {
        SettingKey::Text(key) => {
            let mut text = String::from_str("setting `");
            text.append(key.as_str());
            text.append("`: ");
            text.append(shown.as_str());
            text
        },
        SettingKey::Other { .. } => shown,
    }
}

/// A request for a kind is met by the values of that kind and by no others.
pub proof fn lemma_kind_decides(value: SettingValue, request: Request)
    requires
        requested_kind(request) is Some,
    ensures
        answer(value, request) is Ok <==> value.spec_kind() == requested_kind(request),
        answer(value, request) is Ok ==> answer(value, request) == Ok::<Visit, BridgeError>(
            Visit::Scalar(requested_kind(request)->Some_0),
        ),
{
}

/// Every scalar answers an open request with its own kind, and is passed
/// over where nothing is asked of it.
pub proof fn lemma_scalar_always_answers(value: SettingValue)
    requires
        value.spec_kind() is Some,
    ensures
        answer(value, Request::Any) == Ok::<Visit, BridgeError>(
            Visit::Scalar(value.spec_kind()->Some_0),
        ),
        answer(value, Request::Ignored) == Ok::<Visit, BridgeError>(Visit::Unit),
{
}

} // verus!

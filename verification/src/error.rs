//! How a resolution can fail.

use vstd::prelude::*;
use vstd::string::StringExecFns;

use crate::foreign::{Mismatch, Shape};
use crate::format::{decimal_text, push_decimal};

verus! {

/// One interpretation that was tried on a value, and why the value does not
/// have its shape.
#[derive(Copy, Clone, Debug, PartialEq, Eq, Structural)]
pub struct ShapeMismatch {
    pub shape: Shape,
    pub reason: Mismatch,
}

/// Why a foreign value could not be resolved. A failed resolution never
/// comes with a model, in part or in whole.
#[derive(Debug)]
pub enum ResolveError {
    /// The value has none of the four shapes. Holds the name of the kind of
    /// value that was found and, for each shape in the order in which they
    /// are tried, why the value does not have it.
    Unsupported { kind_name: String, attempts: Vec<ShapeMismatch> },
    /// The value has one of the shapes, but what it holds was refused.
    Deserialize { message: String },
}

impl Shape {
    /// The form of the model that a value of this shape resolves to.
    pub open spec fn spec_variant(self) -> Seq<char> {
        match self {
            Shape::Integer => "Legacy"@,
            Shape::Text => "Intermode"@,
            Shape::Modifier => "GameMods"@,
            Shape::List => "GameMods"@,
        }
    }

    /// What a value of this shape looks like.
    pub open spec fn spec_description(self) -> Seq<char> {
        match self {
            Shape::Integer => "int"@,
            Shape::Text => "str"@,
            Shape::Modifier => "GameMod"@,
            Shape::List => "List[GameMod | str | int]"@,
        }
    }

    pub fn variant(self) -> (name: &'static str)
        ensures
            name@ == self.spec_variant(),
    {
        match self {
            Shape::Integer => "Legacy",
            Shape::Text => "Intermode",
            Shape::Modifier => "GameMods",
            Shape::List => "GameMods",
        }
    }

    pub fn description(self) -> (text: &'static str)
        ensures
            text@ == self.spec_description(),
    {
        match self {
            Shape::Integer => "int",
            Shape::Text => "str",
            Shape::Modifier => "GameMod",
            Shape::List => "List[GameMod | str | int]",
        }
    }
}

impl Mismatch {
    /// The reason in words, for a value of the kind with the given name.
    pub open spec fn spec_message(self, kind_name: Seq<char>) -> Seq<char> {
        match self {
            Mismatch::WrongType => "'"@ + kind_name + "' object cannot be converted"@,
            Mismatch::MissingAcronym => "missing field `acronym`"@,
            Mismatch::AcronymNotText => "field `acronym` must be str"@,
            Mismatch::SettingsNotMapping => "field `settings` must be dict or None"@,
            Mismatch::Element { index } => "element "@ + decimal_text(index as nat)
                + " must be GameMod, str or int"@,
        }
    }

    pub fn message(self, kind_name: &str) -> (text: String)
        ensures
            text@ == self.spec_message(kind_name@),
    {
        match self {
            Mismatch::WrongType => {
                let mut text = String::from_str("'");
                text.append(kind_name);
                text.append("' object cannot be converted");
                text
            },
            Mismatch::MissingAcronym => String::from_str("missing field `acronym`"),
            Mismatch::AcronymNotText => String::from_str("field `acronym` must be str"),
            Mismatch::SettingsNotMapping => String::from_str(
                "field `settings` must be dict or None",
            ),
            Mismatch::Element { index } => {
                let mut text = String::from_str("element ");
                push_decimal(&mut text, index as u64);
                text.append(" must be GameMod, str or int");
                text
            },
        }
    }
}

/// The line that reports one attempt.
pub open spec fn attempt_line(kind_name: Seq<char>, attempt: ShapeMismatch) -> Seq<char> {
    "\n- variant "@ + attempt.shape.spec_variant() + " ("@ + attempt.shape.spec_description()
        + "): "@ + attempt.reason.spec_message(kind_name)
}

/// The lines that report the first `upto` attempts.
pub open spec fn attempt_lines(
    kind_name: Seq<char>,
    attempts: Seq<ShapeMismatch>,
    upto: int,
) -> Seq<char>
    decreases upto,
{
    if upto <= 0 {
        Seq::empty()
    } else {
        attempt_lines(kind_name, attempts, upto - 1) + attempt_line(kind_name, attempts[upto - 1])
    }
}

/// The first line of the report on a value that has none of the shapes.
pub open spec fn unsupported_head() -> Seq<char> {
    "failed to extract enum PyGameMods ('int | str | GameMod | List[GameMod | str | int]')"@
}

impl ResolveError {
    /// The error in words. A refusal of what a value holds is shown by its
    /// own message; a value of no shape by the shapes that were tried, one
    /// line for each, with the reason why the value does not have it.
    pub open spec fn spec_message(self) -> Seq<char> {
        match self {
            ResolveError::Unsupported { kind_name, attempts } => unsupported_head() + attempt_lines(
                kind_name@,
                attempts@,
                attempts@.len() as int,
            ),
            ResolveError::Deserialize { message } => message@,
        }
    }

    /// Renders the error for the one who handed the value in.
    pub fn message(&self) -> (text: String)
        ensures
            text@ == self.spec_message(),
    {
        match self {
            ResolveError::Deserialize { message } => message.clone(),
            ResolveError::Unsupported { kind_name, attempts } => {
                let mut text = String::from_str(
                    "failed to extract enum PyGameMods ('int | str | GameMod | List[GameMod | str | int]')",
                );
                let mut index: usize = 0;
                while index < attempts.len()
                    invariant
                        index <= attempts@.len(),
                        text@ == unsupported_head() + attempt_lines(
                            kind_name@,
                            attempts@,
                            index as int,
                        ),
                    decreases attempts@.len() - index,
                {
                    let attempt = attempts[index];
                    let reason = attempt.reason.message(kind_name.as_str());
                    text.append("\n- variant ");
                    text.append(attempt.shape.variant());
                    text.append(" (");
                    text.append(attempt.shape.description());
                    text.append("): ");
                    text.append(reason.as_str());
                    proof {
                        assert(text@ =~= unsupported_head() + attempt_lines(
                            kind_name@,
                            attempts@,
                            index as int + 1,
                        ));
                    }
                    index = index + 1;
                }
                text
            },
        }
    }
}

/// The lines that name the first `upto` causes of a failure, outermost
/// first.
pub open spec fn cause_lines(causes: Seq<String>, upto: int) -> Seq<char>
    decreases upto,
{
    if upto <= 0 {
        Seq::empty()
    } else {
        cause_lines(causes, upto - 1) + "\n  - caused by: "@ + causes[upto - 1]@
    }
}

/// The report on a beatmap that could not be parsed: a head line, then one
/// line for every cause.
pub open spec fn parse_failure_text(causes: Seq<String>) -> Seq<char> {
    "Failed to parse beatmap"@ + cause_lines(causes, causes.len() as int)
}

/// Renders the failure to parse a beatmap from the chain of its causes.
pub fn parse_failure_message(causes: &Vec<String>) -> (text: String)
    ensures
        text@ == parse_failure_text(causes@),
{
    let mut text = String::from_str("Failed to parse beatmap");
    let mut index: usize = 0;
    while index < causes.len()
        invariant
            index <= causes@.len(),
            text@ == "Failed to parse beatmap"@ + cause_lines(causes@, index as int),
        decreases causes@.len() - index,
    {
        text.append("\n  - caused by: ");
        text.append(causes[index].as_str());
        proof {
            assert(text@ =~= "Failed to parse beatmap"@ + cause_lines(causes@, index as int + 1));
        }
        index = index + 1;
    }
    text
}

} // verus!

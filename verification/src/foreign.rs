//! The loosely typed values that resolution starts from, in the closed form
//! that the library can match on.

use vstd::prelude::*;
use vstd::string::StringExecFns;

verus! {

/// One value of a settings mapping, as it was found.
#[derive(Debug)]
pub enum SettingValue {
    Bool(bool),
    /// A number, held as the bit pattern of its double precision form.
    Number(u64),
    Text(String),
    /// Anything else, with the name of its type.
    Other { kind_name: String },
}

/// One key of a settings mapping, as it was found.
#[derive(Debug)]
pub enum SettingKey {
    Text(String),
    /// A key that is no text, with the name of its type.
    Other { kind_name: String },
}

/// One entry of a settings mapping.
#[derive(Debug)]
pub struct SettingEntry {
    pub key: SettingKey,
    pub value: SettingValue,
}

/// What stands under one field name of a foreign object.
#[derive(Debug)]
pub enum RawField {
    /// The object has no such field.
    Absent,
    /// The field is there and holds the null value.
    Null,
    Text(String),
    Mapping(Vec<SettingEntry>),
    Other { kind_name: String },
}

/// A foreign object, read by the two field names that matter.
#[derive(Debug)]
pub struct RawObject {
    pub acronym: RawField,
    pub settings: RawField,
}

/// A modifier reference: an acronym and, optionally, a settings mapping.
#[derive(Debug)]
pub struct ForeignMod {
    pub acronym: String,
    pub settings: Option<Vec<SettingEntry>>,
}

/// One element of a foreign list.
#[derive(Debug)]
pub enum ListElement {
    Object(RawObject),
    Text(String),
    Integer(u32),
    Other { kind_name: String },
}

/// A foreign value of unknown shape.
#[derive(Debug)]
pub enum ForeignValue {
    Integer(u32),
    Text(String),
    Object(RawObject),
    List(Vec<ListElement>),
    Other { kind_name: String },
}

/// One element of a list whose every element has a supported shape.
#[derive(Debug)]
pub enum ModSource {
    Mod(ForeignMod),
    Acronym(String),
    Bits(u32),
}

/// The four interpretations of a foreign value, in the order in which they
/// are tried.
#[derive(Copy, Clone, Debug, PartialEq, Eq, Structural)]
pub enum Shape {
    Integer,
    Text,
    Modifier,
    List,
}

/// Why a foreign value does not have a shape.
#[derive(Copy, Clone, Debug, PartialEq, Eq, Structural)]
pub enum Mismatch {
    /// The value is of another kind altogether.
    WrongType,
    /// An object without the field `acronym`.
    MissingAcronym,
    /// An object whose `acronym` is no text.
    AcronymNotText,
    /// An object whose `settings` is neither absent, null nor a mapping.
    SettingsNotMapping,
    /// A list whose element at this position has none of the element shapes.
    Element { index: usize },
}

/// Why an object is no modifier reference, if it is none.
pub open spec fn object_mismatch(object: RawObject) -> Option<Mismatch> {
    if object.acronym is Absent {
        Some(Mismatch::MissingAcronym)
    } else if !(object.acronym is Text) {
        Some(Mismatch::AcronymNotText)
    } else if object.settings is Text || object.settings is Other {
        Some(Mismatch::SettingsNotMapping)
    } else {
        None
    }
}

/// The settings of a modifier reference: a mapping where the field holds
/// one, none where it is absent or null.
pub open spec fn settings_of(field: RawField) -> Option<Vec<SettingEntry>> {
    match field {
        RawField::Mapping(entries) => Some(entries),
        _ => None,
    }
}

/// Reads an object as a modifier reference. The acronym is required and must
/// be text; the settings may be missing.
pub fn extract_mod(object: RawObject) -> (outcome: Result<ForeignMod, Mismatch>)
    ensures
        match object_mismatch(object) {
            Some(mismatch) => outcome == Err::<ForeignMod, Mismatch>(mismatch),
            None => outcome matches Ok(found) && found.acronym == object.acronym->Text_0
                && found.settings == settings_of(object.settings),
        },
{
    let RawObject { acronym, settings } = object;
    let acronym = match acronym {
        RawField::Absent => { return Err(Mismatch::MissingAcronym); },
        RawField::Text(text) => text,
        _ => { return Err(Mismatch::AcronymNotText); },
    };
    let settings = match settings {
        RawField::Absent => None,
        RawField::Null => None,
        RawField::Mapping(entries) => Some(entries),
        _ => { return Err(Mismatch::SettingsNotMapping); },
    };
    Ok(ForeignMod { acronym, settings })
}

/// The source that a list element is, if it has one of the element shapes:
/// a modifier reference, an acronym or a bit value.
pub open spec fn element_source(element: ListElement) -> Option<ModSource> {
    match element {
        ListElement::Object(object) => if object_mismatch(object) is None {
            Some(
                ModSource::Mod(
                    ForeignMod {
                        acronym: object.acronym->Text_0,
                        settings: settings_of(object.settings),
                    },
                ),
            )
        } else {
            None
        },
        ListElement::Text(text) => Some(ModSource::Acronym(text)),
        ListElement::Integer(bits) => Some(ModSource::Bits(bits)),
        ListElement::Other { .. } => None,
    }
}

/// Reads one element of a list.
pub fn classify_element(element: ListElement) -> (source: Option<ModSource>)
    ensures
        source == element_source(element),
{
    match element {
        ListElement::Object(object) => match extract_mod(object) {
            Ok(found) => Some(ModSource::Mod(found)),
            Err(_) => None,
        },
        ListElement::Text(text) => Some(ModSource::Acronym(text)),
        ListElement::Integer(bits) => Some(ModSource::Bits(bits)),
        ListElement::Other { .. } => None,
    }
}

/// Every element before `upto` has one of the element shapes.
pub open spec fn all_supported(elements: Seq<ListElement>, upto: int) -> bool {
    forall|i: int| 0 <= i < upto ==> (#[trigger] element_source(elements[i])) is Some
}

/// Reads a list element by element. The outcome is the sources in the
/// order of the elements, or the position of the first element that has
/// none of the element shapes.
pub fn classify_list(elements: Vec<ListElement>) -> (outcome: Result<Vec<ModSource>, usize>)
    ensures
        match outcome {
            Ok(sources) => {
                &&& all_supported(elements@, elements@.len() as int)
                &&& sources@.len() == elements@.len()
                &&& forall|i: int|
                    0 <= i < elements@.len() ==> Some(#[trigger] sources@[i]) == element_source(
                        elements@[i],
                    )
            },
            Err(index) => {
                &&& index < elements@.len()
                &&& all_supported(elements@, index as int)
                &&& element_source(elements@[index as int]) is None
            },
        },
{
    let ghost all = elements@;
    let mut sources: Vec<ModSource> = Vec::new();
    for element in iter: elements
        invariant
            iter.seq() == all,
            sources@.len() == iter.index(),
            all_supported(all, iter.index() as int),
            forall|i: int|
                0 <= i < iter.index() ==> Some(#[trigger] sources@[i]) == element_source(all[i]),
    {
        let index = sources.len();
        match classify_element(element) {
            Some(source) => {
                sources.push(source);
            },
            None => {
                return Err(index);
            },
        }
    }
    Ok(sources)
}

impl ForeignValue {
    /// The name of the kind of value, as shown in messages.
    pub open spec fn spec_kind_name(self) -> Seq<char> {
        match self {
            ForeignValue::Integer(_) => "int"@,
            ForeignValue::Text(_) => "str"@,
            ForeignValue::Object(_) => "dict"@,
            ForeignValue::List(_) => "list"@,
            ForeignValue::Other { kind_name } => kind_name@,
        }
    }

    /// The name of the kind of value, as messages show it.
    pub fn kind_name(&self) -> (name: String)
        ensures
            name@ == self.spec_kind_name(),
    {
        match self {
            ForeignValue::Integer(_) => String::from_str("int"),
            ForeignValue::Text(_) => String::from_str("str"),
            ForeignValue::Object(_) => String::from_str("dict"),
            ForeignValue::List(_) => String::from_str("list"),
            ForeignValue::Other { kind_name } => kind_name.clone(),
        }
    }
}

impl ForeignValue {
    /// The value that the probes of a foreign value stand for. The shapes
    /// are taken in a fixed order, integer, text, object, list, and the
    /// first one whose probe found something decides, whatever the later
    /// probes found; a value of which no probe found anything is another
    /// kind of value, known by the name of its kind.
    pub open spec fn first_shape(
        integer: Option<u32>,
        text: Option<String>,
        object: Option<RawObject>,
        list: Option<Vec<ListElement>>,
        kind_name: String,
    ) -> ForeignValue {
        if integer is Some {
            ForeignValue::Integer(integer->Some_0)
        } else if text is Some {
            ForeignValue::Text(text->Some_0)
        } else if object is Some {
            ForeignValue::Object(object->Some_0)
        } else if list is Some {
            ForeignValue::List(list->Some_0)
        } else {
            ForeignValue::Other { kind_name }
        }
    }

    /// Picks the shape of a foreign value from what the probes of the four
    /// shapes found.
    pub fn classify(
        integer: Option<u32>,
        text: Option<String>,
        object: Option<RawObject>,
        list: Option<Vec<ListElement>>,
        kind_name: String,
    ) -> (value: ForeignValue)
        ensures
            value == Self::first_shape(integer, text, object, list, kind_name),
    {
        match (integer, text, object, list) {
            (Some(bits), _, _, _) => ForeignValue::Integer(bits),
            (None, Some(text), _, _) => ForeignValue::Text(text),
            (None, None, Some(object), _) => ForeignValue::Object(object),
            (None, None, None, Some(elements)) => ForeignValue::List(elements),
            (None, None, None, None) => ForeignValue::Other { kind_name },
        }
    }
}

impl ListElement {
    /// The element that the probes of a list element stand for. The shapes
    /// are taken in the order object, text, integer, and the first one
    /// whose probe found something decides.
    pub open spec fn first_shape(
        object: Option<RawObject>,
        text: Option<String>,
        integer: Option<u32>,
        kind_name: String,
    ) -> ListElement {
        if object is Some {
            ListElement::Object(object->Some_0)
        } else if text is Some {
            ListElement::Text(text->Some_0)
        } else if integer is Some {
            ListElement::Integer(integer->Some_0)
        } else {
            ListElement::Other { kind_name }
        }
    }

    /// Picks the shape of a list element from what the probes found.
    pub fn classify(
        object: Option<RawObject>,
        text: Option<String>,
        integer: Option<u32>,
        kind_name: String,
    ) -> (element: ListElement)
        ensures
            element == Self::first_shape(object, text, integer, kind_name),
    {
        match (object, text, integer) {
            (Some(object), _, _) => ListElement::Object(object),
            (None, Some(text), _) => ListElement::Text(text),
            (None, None, Some(bits)) => ListElement::Integer(bits),
            (None, None, None) => ListElement::Other { kind_name },
        }
    }
}

impl RawField {
    /// The field that the probes of a field of an object stand for: absent
    /// where the object has no such field, null where it holds the null
    /// value, else the first of text and mapping whose probe found
    /// something.
    pub open spec fn first_shape(
        present: bool,
        null: bool,
        text: Option<String>,
        mapping: Option<Vec<SettingEntry>>,
        kind_name: String,
    ) -> RawField {
        if !present {
            RawField::Absent
        } else if null {
            RawField::Null
        } else if text is Some {
            RawField::Text(text->Some_0)
        } else if mapping is Some {
            RawField::Mapping(mapping->Some_0)
        } else {
            RawField::Other { kind_name }
        }
    }

    /// Picks the shape of a field of an object from what the probes found.
    pub fn classify(
        present: bool,
        null: bool,
        text: Option<String>,
        mapping: Option<Vec<SettingEntry>>,
        kind_name: String,
    ) -> (field: RawField)
        ensures
            field == Self::first_shape(present, null, text, mapping, kind_name),
    {
        if !present {
            return RawField::Absent;
        }
        if null {
            return RawField::Null;
        }
        match (text, mapping) {
            (Some(text), _) => RawField::Text(text),
            (None, Some(entries)) => RawField::Mapping(entries),
            (None, None) => RawField::Other { kind_name },
        }
    }
}

impl SettingValue {
    /// The value that the probes of a settings value stand for. The kinds
    /// are taken in the order boolean, number, text, and the first one
    /// whose probe found something decides.
    pub open spec fn first_shape(
        flag: Option<bool>,
        number: Option<u64>,
        text: Option<String>,
        kind_name: String,
    ) -> SettingValue {
        if flag is Some {
            SettingValue::Bool(flag->Some_0)
        } else if number is Some {
            SettingValue::Number(number->Some_0)
        } else if text is Some {
            SettingValue::Text(text->Some_0)
        } else {
            SettingValue::Other { kind_name }
        }
    }

    /// Picks the kind of a settings value from what the probes found.
    pub fn classify(
        flag: Option<bool>,
        number: Option<u64>,
        text: Option<String>,
        kind_name: String,
    ) -> (value: SettingValue)
        ensures
            value == Self::first_shape(flag, number, text, kind_name),
    {
        match (flag, number, text) {
            (Some(flag), _, _) => SettingValue::Bool(flag),
            (None, Some(bits), _) => SettingValue::Number(bits),
            (None, None, Some(text)) => SettingValue::Text(text),
            (None, None, None) => SettingValue::Other { kind_name },
        }
    }
}

impl SettingKey {
    /// The key that the probe of a settings key stands for.
    pub open spec fn first_shape(text: Option<String>, kind_name: String) -> SettingKey {
        if text is Some {
            SettingKey::Text(text->Some_0)
        } else {
            SettingKey::Other { kind_name }
        }
    }

    /// Picks the shape of a settings key from what the probe found.
    pub fn classify(text: Option<String>, kind_name: String) -> (key: SettingKey)
        ensures
            key == Self::first_shape(text, kind_name),
    {
        match text {
            Some(text) => SettingKey::Text(text),
            None => SettingKey::Other { kind_name },
        }
    }
}

} // verus!

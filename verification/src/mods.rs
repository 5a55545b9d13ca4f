//! The canonical modifier model and the resolution of foreign values into it.

use vstd::prelude::*;
use vstd::string::{StrSliceExecFns, StringExecFns};

use crate::adapter::PyGameModMap;
use crate::catalog::{
    acronym_known, acronyms_parsed, bits_acronym, catalog_key, deserialize_acronym, deserialize_bare,
    deserialize_bits,
    gamemod_acronym, gamemod_is_known, gamemod_mode, intermode_checked_bits, intermode_entries,
    has_bit, intermode_from_acronyms, intermode_items, intermode_order, intermode_same,
    is_checked_bits, lazer_insert, lazer_keys,
    lazer_new, legacy_bits, legacy_from_bits, mod_key, readable, IntermodeEntry, ModKey,
    LEGACY_MASK,
};
use crate::error::{ResolveError, ShapeMismatch};
use crate::foreign::{
    all_supported, classify_list, element_source, extract_mod, object_mismatch,
    ForeignMod, ForeignValue, ListElement, Mismatch, ModSource, Shape,
};
use crate::kwargs::same_text;
use crate::mode::PyGameMode;

verus! {

/// A resolved modifier combination, in exactly one of three forms.
pub enum PyGameMods {
    /// Fully typed modifiers of one mode, each with its settings.
    Lazer(rosu_mods::GameMods),
    /// A set of mode-independent modifiers.
    Intermode(rosu_mods::GameModsIntermode),
    /// A bitmask over the legacy modifiers.
    Legacy(rosu_mods::GameModsLegacy),
}

/// A source whose modifier only the caller can have typed: a reference
/// that comes with settings.
pub open spec fn awaits_verdict(source: ModSource) -> bool {
    source matches ModSource::Mod(reference) && reference.settings is Some
}

/// The key that a source contributes to a full collection of the given mode:
/// for an acronym, for a bit value and for a reference without settings
/// what the catalog has, for a reference with settings the known modifier of
/// its acronym. A bit value that no single modifier has contributes none.
pub open spec fn source_key(mode: PyGameMode, source: ModSource) -> Option<ModKey> {
    match source {
        ModSource::Mod(reference) => if reference.settings is Some {
            Some(ModKey { mode, acronym: reference.acronym@, known: true })
        } else {
            Some(catalog_key(mode.spec_index(), reference.acronym@))
        },
        ModSource::Acronym(acronym) => Some(catalog_key(mode.spec_index(), acronym@)),
        ModSource::Bits(bits) => match bits_acronym(bits) {
            Some(acronym) => Some(catalog_key(mode.spec_index(), acronym)),
            None => None,
        },
    }
}

/// A key that may enter a full collection of the given mode: one of a
/// modifier that the catalog knows for that mode.
pub open spec fn key_admitted(mode: PyGameMode, key: ModKey) -> bool {
    key.known && key.mode == mode
}

/// The catalog accepts the source for the mode.
pub open spec fn source_admitted(mode: PyGameMode, source: ModSource) -> bool {
    source_key(mode, source) is Some && key_admitted(mode, source_key(mode, source)->Some_0)
}

/// Every key of the set may be in a full collection of the mode.
pub open spec fn all_admitted(mode: PyGameMode, keys: Set<ModKey>) -> bool {
    forall|key: ModKey| #[trigger] keys.contains(key) ==> key_admitted(mode, key)
}

/// The keys that the first `upto` sources contribute.
pub open spec fn keys_of(mode: PyGameMode, sources: Seq<ModSource>, upto: int) -> Set<ModKey> {
    Set::new(
        |key: ModKey|
            exists|i: int| 0 <= i < upto && #[trigger] source_key(mode, sources[i]) == Some(key),
    )
}

/// What a walk over the sources meets first.
pub enum Scan {
    /// A reference with settings at this position: its verdict has to be
    /// asked for.
    Ask(int),
    /// A source at this position that the catalog does not accept.
    Fail(int),
    /// The end of the sources.
    End,
}

/// Walks the sources from `start` on, past every source that the catalog
/// accepts by itself.
pub open spec fn scan(mode: PyGameMode, sources: Seq<ModSource>, start: int) -> Scan
    decreases sources.len() - start,
{
    if start < 0 || start >= sources.len() {
        Scan::End
    } else if awaits_verdict(sources[start]) {
        Scan::Ask(start)
    } else if source_admitted(mode, sources[start]) {
        scan(mode, sources, start + 1)
    } else {
        Scan::Fail(start)
    }
}

/// A resolution that waits for the verdict on one modifier reference.
/// Settings hold numbers, and only the catalog's own deserializer can type
/// them against the schema of a modifier; the caller runs it, over the
/// adapter and the bridge, which hand the fields and the entries out one by
/// one. `request` names the reference and `supply` takes the verdict.
pub struct PendingMods {
    mode: PyGameMode,
    collected: rosu_mods::GameMods,
    sources: Vec<ModSource>,
    position: usize,
}

/// How far a resolution has come.
pub enum Resolution {
    Done(PyGameMods),
    Pending(PendingMods),
}

impl PendingMods {
    #[verifier::type_invariant]
    spec fn well_formed(self) -> bool {
        &&& self.position < self.sources@.len()
        &&& awaits_verdict(self.sources@[self.position as int])
        &&& lazer_keys(self.collected) == keys_of(self.mode, self.sources@, self.position as int)
        &&& all_admitted(self.mode, lazer_keys(self.collected))
    }

    /// The mode that the value is resolved for.
    pub closed spec fn mode(self) -> PyGameMode {
        self.mode
    }

    /// All sources of the value that is being resolved, in their order.
    pub closed spec fn sources(self) -> Seq<ModSource> {
        self.sources@
    }

    /// The position of the reference whose verdict is waited for.
    pub closed spec fn position(self) -> int {
        self.position as int
    }

    /// The keys of the modifiers collected so far.
    pub closed spec fn keys(self) -> Set<ModKey> {
        lazer_keys(self.collected)
    }

    /// The reference whose verdict is waited for.
    pub open spec fn spec_request(self) -> ForeignMod {
        self.sources()[self.position()]->Mod_0
    }

    /// The reference whose verdict the resolution waits for.
    pub fn request(&self) -> (reference: &ForeignMod)
        ensures
            0 <= self.position() < self.sources().len(),
            awaits_verdict(self.sources()[self.position()]),
            self.keys() == keys_of(self.mode(), self.sources(), self.position()),
            *reference == self.spec_request(),
    {
        proof {
            use_type_invariant(self);
        }
        match &self.sources[self.position] {
            ModSource::Mod(reference) => reference,
            _ => vstd::pervasive::unreached(),
        }
    }
}

/// `outcome` is what resolution comes to when it goes on at position `start`:
/// the full collection of all sources if the walk reaches the end, a pending
/// resolution at the next modifier reference, or the refusal of a source.
pub open spec fn continues(
    mode: PyGameMode,
    sources: Seq<ModSource>,
    start: int,
    outcome: Result<Resolution, ResolveError>,
) -> bool {
    match scan(mode, sources, start) {
        Scan::End => outcome matches Ok(Resolution::Done(PyGameMods::Lazer(mods))) && lazer_keys(
            mods,
        ) == keys_of(mode, sources, sources.len() as int) && all_admitted(mode, lazer_keys(mods)),
        Scan::Ask(at) => outcome matches Ok(Resolution::Pending(pending)) && pending.mode() == mode
            && pending.sources() == sources && pending.position() == at,
        Scan::Fail(at) => outcome matches Err(ResolveError::Deserialize { message }) && refusal_of(
            mode,
            sources[at],
            message@,
        ),
    }
}

/// The message of the refusal of a modifier that the catalog does not know
/// for a mode.
pub open spec fn unknown_message(acronym: Seq<char>, mode: PyGameMode) -> Seq<char> {
    "unknown modifier `"@ + acronym + "` for "@ + mode.spec_repr()
}

/// `message` is the message with which a source is refused: it names the
/// modifier that the catalog does not know for the mode. The message for a
/// bit value that no modifier has is the catalog's own.
pub open spec fn refusal_of(mode: PyGameMode, source: ModSource, message: Seq<char>) -> bool {
    match source {
        ModSource::Mod(reference) => message == unknown_message(
            catalog_key(mode.spec_index(), reference.acronym@).acronym,
            mode,
        ),
        ModSource::Acronym(acronym) => message == unknown_message(
            catalog_key(mode.spec_index(), acronym@).acronym,
            mode,
        ),
        ModSource::Bits(bits) => bits_acronym(bits) matches Some(acronym) ==> message
            == unknown_message(catalog_key(mode.spec_index(), acronym).acronym, mode),
    }
}

/// The message of the refusal of a verdict that is on another modifier than
/// the one that was asked about.
pub open spec fn stray_message(found: Seq<char>, requested: Seq<char>) -> Seq<char> {
    "verdict on `"@ + found + "` where `"@ + requested + "` was asked about"@
}

/// The refusal of a modifier that the catalog does not know for a mode.
pub fn unknown_modifier(acronym: &str, mode: PyGameMode) -> (error: ResolveError)
    ensures
        error matches ResolveError::Deserialize { message } && message@ == unknown_message(
            acronym@,
            mode,
        ),
{
    let mut message = String::from_str("unknown modifier `");
    message.append(acronym);
    message.append("` for ");
    let shown = mode.repr();
    message.append(shown.as_str());
    ResolveError::Deserialize { message }
}

/// One more source adds its key to the keys of those before it.
proof fn lemma_keys_step(mode: PyGameMode, sources: Seq<ModSource>, at: int)
    requires
        0 <= at < sources.len(),
        source_key(mode, sources[at]) is Some,
    ensures
        keys_of(mode, sources, at + 1) == keys_of(mode, sources, at).insert(
            source_key(mode, sources[at])->Some_0,
        ),
{
    let added = source_key(mode, sources[at])->Some_0;
    let before = keys_of(mode, sources, at);
    let after = keys_of(mode, sources, at + 1);
    assert forall|key: ModKey| after.contains(key) <==> before.insert(added).contains(key) by {
        if after.contains(key) {
            let i = choose|i: int|
                0 <= i < at + 1 && #[trigger] source_key(mode, sources[i]) == Some(key);
            if i < at {
                assert(before.contains(key));
            }
        }
        if before.contains(key) {
            let i = choose|i: int| 0 <= i < at && #[trigger] source_key(mode, sources[i]) == Some(key);
            assert(0 <= i < at + 1 && source_key(mode, sources[i]) == Some(key));
        }
        if key == added {
            assert(0 <= at < at + 1 && source_key(mode, sources[at]) == Some(key));
        }
    }
    assert(after =~= before.insert(added));
}

fn needs_verdict(source: &ModSource) -> (needed: bool)
    ensures
        needed == awaits_verdict(*source),
{
    match source {
        ModSource::Mod(reference) => reference.settings.is_some(),
        _ => false,
    }
}

/// Asks the catalog for the modifier of a source that it can type by itself.
fn look_up(mode: PyGameMode, source: &ModSource) -> (outcome: Result<rosu_mods::GameMod, String>)
    requires
        !awaits_verdict(*source),
    ensures
        outcome is Ok <==> source_key(mode, *source) is Some,
        outcome matches Ok(gamemod) ==> Some(mod_key(gamemod)) == source_key(mode, *source),
{
    match source {
        ModSource::Acronym(acronym) => deserialize_acronym(mode.index(), acronym.as_str()),
        ModSource::Bits(bits) => deserialize_bits(mode.index(), *bits),
        ModSource::Mod(reference) => {
            let mut fields = PyGameModMap::start();
            match fields.next_key() {
                Some(field) => {
                    fields.next_value(reference);
                    assert(fields.spec_next_key() is None);
                    deserialize_bare(mode.index(), field.name(), reference.acronym.as_str())
                },
                None => vstd::pervasive::unreached(),
            }
        },
    }
}

/// Walks the sources from `start` on and collects what the catalog gives
/// for them, up to the next modifier reference or the first refusal.
fn advance(
    mode: PyGameMode,
    collected: rosu_mods::GameMods,
    sources: Vec<ModSource>,
    start: usize,
) -> (outcome: Result<Resolution, ResolveError>)
    requires
        start <= sources@.len(),
        lazer_keys(collected) == keys_of(mode, sources@, start as int),
        all_admitted(mode, lazer_keys(collected)),
    ensures
        continues(mode, sources@, start as int, outcome),
{
    let mut collected = collected;
    let mut at = start;
    while at < sources.len()
        invariant
            start <= at <= sources@.len(),
            lazer_keys(collected) == keys_of(mode, sources@, at as int),
            all_admitted(mode, lazer_keys(collected)),
            scan(mode, sources@, start as int) == scan(mode, sources@, at as int),
        decreases sources@.len() - at,
    {
        if needs_verdict(&sources[at]) {
            return Ok(Resolution::Pending(PendingMods { mode, collected, sources, position: at }));
        }
        match look_up(mode, &sources[at]) {
            Err(message) => {
                return Err(ResolveError::Deserialize { message });
            },
            Ok(gamemod) => {
                if !gamemod_is_known(&gamemod) || gamemod_mode(&gamemod) != mode {
                    let acronym = gamemod_acronym(&gamemod);
                    return Err(unknown_modifier(acronym.as_str(), mode));
                }
                proof {
                    lemma_keys_step(mode, sources@, at as int);
                }
                lazer_insert(&mut collected, gamemod);
            },
        }
        at = at + 1;
    }
    Ok(Resolution::Done(PyGameMods::Lazer(collected)))
}

impl PendingMods {
    /// Takes the verdict on the reference that `request` names. A failure is
    /// the failure of the whole resolution, with the same message. A
    /// modifier is accepted if it is the known modifier of the requested
    /// acronym in the mode of the resolution, which then goes on behind the
    /// reference. A modifier that the catalog does not know for the mode is
    /// refused as unknown, a known one of another acronym as astray.
    pub fn supply(self, verdict: Result<rosu_mods::GameMod, String>) -> (outcome: Result<Resolution, ResolveError>)
        ensures
            match verdict {
                Err(refusal) => outcome matches Err(ResolveError::Deserialize { message })
                    && message == refusal,
                Ok(gamemod) => if !key_admitted(self.mode(), mod_key(gamemod)) {
                    outcome matches Err(ResolveError::Deserialize { message }) && message@
                        == unknown_message(mod_key(gamemod).acronym, self.mode())
                } else if mod_key(gamemod).acronym != self.spec_request().acronym@ {
                    outcome matches Err(ResolveError::Deserialize { message }) && message@
                        == stray_message(mod_key(gamemod).acronym, self.spec_request().acronym@)
                } else {
                    continues(self.mode(), self.sources(), self.position() + 1, outcome)
                },
            },
    {
        proof {
            use_type_invariant(&self);
        }
        let PendingMods { mode, collected, sources, position } = self;
        match verdict {
            Err(message) => Err(ResolveError::Deserialize { message }),
            Ok(gamemod) => {
                let acronym = gamemod_acronym(&gamemod);
                if !gamemod_is_known(&gamemod) || gamemod_mode(&gamemod) != mode {
                    return Err(unknown_modifier(acronym.as_str(), mode));
                }
                let requested = match &sources[position] {
                    ModSource::Mod(reference) => reference.acronym.as_str(),
                    _ => vstd::pervasive::unreached(),
                };
                if !same_text(requested, acronym.as_str()) {
                    let mut message = String::from_str("verdict on `");
                    message.append(acronym.as_str());
                    message.append("` where `");
                    message.append(requested);
                    message.append("` was asked about");
                    return Err(ResolveError::Deserialize { message });
                }
                let mut collected = collected;
                proof {
                    lemma_keys_step(mode, sources@, position as int);
                    assert(mod_key(gamemod) == source_key(mode, sources@[position as int])->Some_0);
                }
                lazer_insert(&mut collected, gamemod);
                let count = sources.len();
                assert(position < count);
                advance(mode, collected, sources, position + 1)
            },
        }
    }
}

/// The sources of a list whose every element has one of the element shapes.
pub open spec fn list_sources(elements: Seq<ListElement>) -> Seq<ModSource> {
    Seq::new(elements.len(), |i: int| element_source(elements[i])->Some_0)
}

/// `reason` says why the value is no modifier reference.
pub open spec fn modifier_reason(value: ForeignValue, reason: Mismatch) -> bool {
    match value {
        ForeignValue::Object(object) => object_mismatch(object) == Some(reason),
        _ => reason == Mismatch::WrongType,
    }
}

/// `reason` says why the value is no list of sources: it is no list, or
/// `reason` names the first element that has none of the element shapes.
pub open spec fn list_reason(value: ForeignValue, reason: Mismatch) -> bool {
    match value {
        ForeignValue::List(elements) => reason matches Mismatch::Element { index }
            && index < elements@.len() && all_supported(elements@, index as int) && element_source(
            elements@[index as int],
        ) is None,
        _ => reason == Mismatch::WrongType,
    }
}

/// `error` reports that the value has none of the four shapes: it names the
/// kind of value and holds one attempt per shape, in the order in which the
/// shapes are tried.
pub open spec fn reports_unsupported(value: ForeignValue, error: ResolveError) -> bool {
    &&& error matches ResolveError::Unsupported { kind_name, attempts }
    &&& kind_name@ == value.spec_kind_name()
    &&& attempts@.len() == 4
    &&& attempts@[0] == ShapeMismatch { shape: Shape::Integer, reason: Mismatch::WrongType }
    &&& attempts@[1] == ShapeMismatch { shape: Shape::Text, reason: Mismatch::WrongType }
    &&& attempts@[2].shape == Shape::Modifier
    &&& modifier_reason(value, attempts@[2].reason)
    &&& attempts@[3].shape == Shape::List
    &&& list_reason(value, attempts@[3].reason)
}

/// Every modifier that the text holds is one the catalog knows.
pub open spec fn all_known(entries: Set<IntermodeEntry>) -> bool {
    forall|e: IntermodeEntry| #[trigger] entries.contains(e) ==> e.known
}

/// Every modifier of the set has a legacy bit value, and one that the legacy
/// form keeps, so that the set can be written as a legacy bitmask without
/// loss.
pub open spec fn legacy_representable(entries: Set<IntermodeEntry>) -> bool {
    forall|e: IntermodeEntry| #[trigger]
        entries.contains(e) ==> e.bits is Some && e.bits->Some_0 & LEGACY_MASK == e.bits->Some_0
}

/// `outcome` is what a text resolves to.
pub open spec fn text_resolved(text: Seq<char>, outcome: Result<Resolution, ResolveError>) -> bool {
    let entries = acronyms_parsed(text);
    if !readable(text) {
        outcome matches Err(ResolveError::Deserialize { message }) && message@
            == "unknown modifier in `"@ + text + "`"@
    } else if !all_known(entries) {
        outcome matches Err(ResolveError::Deserialize { message }) && exists|e: IntermodeEntry|
            #[trigger] entries.contains(e) && !e.known && message@ == "unknown modifier `"@
                + e.acronym + "`"@
    } else if legacy_representable(entries) {
        outcome matches Ok(Resolution::Done(PyGameMods::Legacy(mods))) && exists|union: u32|
            is_checked_bits(entries, Some(union)) && legacy_bits(mods) == union
    } else {
        outcome matches Ok(Resolution::Done(PyGameMods::Intermode(mods))) && intermode_entries(mods)
            == entries
    }
}

/// `outcome` is what the value resolves to for the mode. The shapes are
/// tried in a fixed order and the first one that the value has decides: once
/// a shape is met, a failure in what the value holds is the failure of the
/// whole resolution.
pub open spec fn resolved(
    value: Option<ForeignValue>,
    mode: PyGameMode,
    outcome: Result<Resolution, ResolveError>,
) -> bool {
    match value {
        None => outcome matches Ok(Resolution::Done(PyGameMods::Legacy(mods))) && legacy_bits(mods)
            == 0,
        Some(ForeignValue::Integer(bits)) => outcome matches Ok(
            Resolution::Done(PyGameMods::Legacy(mods)),
        ) && legacy_bits(mods) == bits & LEGACY_MASK,
        Some(ForeignValue::Text(text)) => text_resolved(text@, outcome),
        Some(ForeignValue::Object(object)) => if object_mismatch(object) is None {
            continues(mode, seq![element_source(ListElement::Object(object))->Some_0], 0, outcome)
        } else {
            outcome matches Err(error) && reports_unsupported(value->Some_0, error)
        },
        Some(ForeignValue::List(elements)) => if all_supported(
            elements@,
            elements@.len() as int,
        ) {
            continues(mode, list_sources(elements@), 0, outcome)
        } else {
            outcome matches Err(error) && reports_unsupported(value->Some_0, error)
        },
        Some(ForeignValue::Other { .. }) => outcome matches Err(error) && reports_unsupported(
            value->Some_0,
            error,
        ),
    }
}

/// The low thirty bits of a bitmask are what the legacy form keeps.
pub proof fn lemma_legacy_mask(bits: u32)
    ensures
        bits <= LEGACY_MASK ==> bits & LEGACY_MASK == bits,
        bits & LEGACY_MASK <= LEGACY_MASK,
        0u32 & LEGACY_MASK == 0,
{
    assert(bits <= 0x3FFF_FFFFu32 ==> bits & 0x3FFF_FFFFu32 == bits) by (bit_vector);
    assert(bits & 0x3FFF_FFFFu32 <= 0x3FFF_FFFFu32) by (bit_vector);
    assert(0u32 & 0x3FFF_FFFFu32 == 0) by (bit_vector);
}

fn unsupported(kind_name: String, modifier: Mismatch, list: Mismatch) -> (error: ResolveError)
    ensures
        error matches ResolveError::Unsupported { kind_name: name, attempts } && name == kind_name
            && attempts@ == seq![
            ShapeMismatch { shape: Shape::Integer, reason: Mismatch::WrongType },
            ShapeMismatch { shape: Shape::Text, reason: Mismatch::WrongType },
            ShapeMismatch { shape: Shape::Modifier, reason: modifier },
            ShapeMismatch { shape: Shape::List, reason: list },
        ],
{
    let mut attempts: Vec<ShapeMismatch> = Vec::new();
    attempts.push(ShapeMismatch { shape: Shape::Integer, reason: Mismatch::WrongType });
    attempts.push(ShapeMismatch { shape: Shape::Text, reason: Mismatch::WrongType });
    attempts.push(ShapeMismatch { shape: Shape::Modifier, reason: modifier });
    attempts.push(ShapeMismatch { shape: Shape::List, reason: list });
    ResolveError::Unsupported { kind_name, attempts }
}

/// A bitmask is one that the legacy form keeps exactly if neither of its two
/// highest bits is set.
pub proof fn lemma_within_mask(bits: u32)
    ensures
        bits & LEGACY_MASK == bits <==> !has_bit(bits, 30) && !has_bit(bits, 31),
{
    assert(bits & 0x3FFF_FFFFu32 == bits <==> !((bits >> 30u32) & 1 == 1) && !((bits >> 31u32) & 1
        == 1)) by (bit_vector);
}

/// The union of the bit values of a set is one that the legacy form keeps
/// exactly if the set has a legacy bitmask without loss; a set of which one
/// modifier has no bit value has none.
pub proof fn lemma_union_decides(entries: Set<IntermodeEntry>, bits: Option<u32>)
    requires
        is_checked_bits(entries, bits),
    ensures
        legacy_representable(entries) <==> bits is Some && bits->Some_0 & LEGACY_MASK
            == bits->Some_0,
{
    match bits {
        None => {
            let e = choose|e: IntermodeEntry| #[trigger] entries.contains(e) && e.bits is None;
            assert(entries.contains(e));
        },
        Some(union) => {
            lemma_within_mask(union);
            if union & LEGACY_MASK == union {
                assert forall|e: IntermodeEntry| #[trigger] entries.contains(e) implies e.bits
                    is Some && e.bits->Some_0 & LEGACY_MASK == e.bits->Some_0 by {
                    let own = e.bits->Some_0;
                    lemma_within_mask(own);
                    if has_bit(own, 30) {
                        assert(has_bit(union, 30));
                    }
                    if has_bit(own, 31) {
                        assert(has_bit(union, 31));
                    }
                }
            } else {
                let high: u32 = if has_bit(union, 30) {
                    30
                } else {
                    31
                };
                assert(has_bit(union, high));
                let e = choose|e: IntermodeEntry| #[trigger]
                    entries.contains(e) && e.bits is Some && has_bit(e.bits->Some_0, high);
                lemma_within_mask(e.bits->Some_0);
                assert(entries.contains(e));
            }
        },
    }
}

/// Looks for the first item that is no known modifier.
fn first_unknown(items: &Vec<(String, bool)>) -> (found: Option<usize>)
    ensures
        match found {
            Some(index) => index < items@.len() && !items@[index as int].1,
            None => forall|i: int| 0 <= i < items@.len() ==> (#[trigger] items@[i]).1,
        },
{
    let mut index: usize = 0;
    while index < items.len()
        invariant
            index <= items@.len(),
            forall|i: int| 0 <= i < index ==> (#[trigger] items@[i]).1,
        decreases items@.len() - index,
    {
        if !items[index].1 {
            return Some(index);
        }
        index = index + 1;
    }
    None
}

/// Whether the catalog's reader can take the text.
fn is_readable(text: &str) -> (fine: bool)
    ensures
        fine == readable(text@),
{
    if !text.is_ascii() {
        return false;
    }
    let count = text.unicode_len();
    if count < 4 {
        return true;
    }
    !acronym_known(text.substring_ascii(count - 4, count - 1))
}

/// Resolves a text: the catalog reads the acronyms out of it; a text that
/// is not readable, or one that holds an acronym the catalog does not know,
/// fails the resolution; a set that has a legacy bitmask without loss
/// becomes that bitmask, any other stays a set.
pub fn resolve_text(text: &str) -> (outcome: Result<Resolution, ResolveError>)
    ensures
        text_resolved(text@, outcome),
{
    if !is_readable(text) {
        let mut message = String::from_str("unknown modifier in `");
        message.append(text);
        message.append("`");
        return Err(ResolveError::Deserialize { message });
    }
    let mods = intermode_from_acronyms(text);
    let items = intermode_items(&mods);
    match first_unknown(&items) {
        Some(index) => {
            let mut message = String::from_str("unknown modifier `");
            message.append(items[index].0.as_str());
            message.append("`");
            Err(ResolveError::Deserialize { message })
        },
        None => {
            let union = intermode_checked_bits(&mods);
            proof {
                lemma_union_decides(intermode_entries(mods), union);
            }
            match union {
                Some(bits) => if bits & LEGACY_MASK == bits {
                    Ok(Resolution::Done(PyGameMods::Legacy(legacy_from_bits(bits))))
                } else {
                    Ok(Resolution::Done(PyGameMods::Intermode(mods)))
                },
                None => Ok(Resolution::Done(PyGameMods::Intermode(mods))),
            }
        },
    }
}

/// The acronyms of the first `upto` items, one after the other.
pub open spec fn written_upto(order: Seq<(Seq<char>, bool)>, upto: int) -> Seq<char>
    decreases upto,
{
    if upto <= 0 {
        Seq::empty()
    } else {
        written_upto(order, upto - 1) + order[upto - 1].0
    }
}

/// A set written as text: the acronyms of its modifiers, one after the
/// other in the order in which the set hands them out.
pub open spec fn set_text(mods: rosu_mods::GameModsIntermode) -> Seq<char> {
    written_upto(intermode_order(mods), intermode_order(mods).len() as int)
}

/// The text of a set reads back as the same set.
pub open spec fn reads_back(mods: rosu_mods::GameModsIntermode) -> bool {
    readable(set_text(mods)) && acronyms_parsed(set_text(mods)) == intermode_entries(mods)
}

/// Writes the acronyms of the items one after the other.
fn write_acronyms(items: &Vec<(String, bool)>, Ghost(order): Ghost<Seq<(Seq<char>, bool)>>) -> (written: String)
    requires
        items@.len() == order.len(),
        forall|i: int| 0 <= i < items@.len() ==> (#[trigger] items@[i]).0@ == order[i].0,
    ensures
        written@ == written_upto(order, order.len() as int),
{
    let mut written = String::new();
    let mut index: usize = 0;
    while index < items.len()
        invariant
            index <= items@.len(),
            items@.len() == order.len(),
            forall|i: int| 0 <= i < items@.len() ==> (#[trigger] items@[i]).0@ == order[i].0,
            written@ == written_upto(order, index as int),
        decreases items@.len() - index,
    {
        written.append(items[index].0.as_str());
        proof {
            assert(written@ =~= written_upto(order, index as int + 1));
        }
        index = index + 1;
    }
    written
}

/// Writes a set as text, the acronyms of its modifiers one after the other
/// as the set hands them out, if that text reads back as the same set. The
/// text is read again before it is given: it is given exactly if the
/// catalog's reader can take it and reads the same set out of it.
pub fn acronym_text(mods: &rosu_mods::GameModsIntermode) -> (text: Option<String>)
    ensures
        text is Some <==> reads_back(*mods),
        text matches Some(written) ==> written@ == set_text(*mods),
{
    let items = intermode_items(mods);
    let written = write_acronyms(&items, Ghost(intermode_order(*mods)));
    if !is_readable(written.as_str()) {
        return None;
    }
    let again = intermode_from_acronyms(written.as_str());
    if intermode_same(&again, mods) {
        Some(written)
    } else {
        None
    }
}

/// Resolves a foreign value for a mode. Without a value the outcome is the
/// combination of no modifiers, whatever the mode.
pub fn resolve(value: Option<ForeignValue>, mode: PyGameMode) -> (outcome: Result<Resolution, ResolveError>)
    ensures
        resolved(value, mode, outcome),
        value is None ==> (outcome matches Ok(Resolution::Done(PyGameMods::Legacy(mods)))
            && legacy_bits(mods) == 0),
        value matches Some(ForeignValue::Integer(bits)) ==> bits <= LEGACY_MASK ==> (
        outcome matches Ok(Resolution::Done(PyGameMods::Legacy(mods))) && legacy_bits(mods)
            == bits),
{
    let value = match value {
        None => {
            proof {
                lemma_legacy_mask(0);
            }
            return Ok(Resolution::Done(PyGameMods::Legacy(legacy_from_bits(0))));
        },
        Some(value) => value,
    };
    match value {
        ForeignValue::Integer(bits) => {
            proof {
                lemma_legacy_mask(bits);
            }
            Ok(Resolution::Done(PyGameMods::Legacy(legacy_from_bits(bits))))
        },
        ForeignValue::Text(text) => resolve_text(text.as_str()),
        ForeignValue::Object(object) => match extract_mod(object) {
            Ok(reference) => {
                let mut sources: Vec<ModSource> = Vec::new();
                sources.push(ModSource::Mod(reference));
                let ghost expected = seq![element_source(ListElement::Object(object))->Some_0];
                assert(sources@ =~= expected);
                proof {
                    assert(keys_of(mode, sources@, 0) =~= Set::<ModKey>::empty());
                }
                advance(mode, lazer_new(), sources, 0)
            },
            Err(reason) => Err(
                unsupported(String::from_str("dict"), reason, Mismatch::WrongType),
            ),
        },
        ForeignValue::List(elements) => match classify_list(elements) {
            Ok(sources) => {
                proof {
                    assert(sources@ =~= list_sources(elements@));
                    assert(keys_of(mode, sources@, 0) =~= Set::<ModKey>::empty());
                }
                advance(mode, lazer_new(), sources, 0)
            },
            Err(index) => Err(
                unsupported(
                    String::from_str("list"),
                    Mismatch::WrongType,
                    Mismatch::Element { index },
                ),
            ),
        },
        ForeignValue::Other { kind_name } => Err(
            unsupported(kind_name, Mismatch::WrongType, Mismatch::WrongType),
        ),
    }
}

impl Default for PyGameMods {
    fn default() -> (mods: Self)
        ensures
            mods matches PyGameMods::Legacy(legacy) && legacy_bits(legacy) == 0,
    {
        proof {
            lemma_legacy_mask(0);
        }
        PyGameMods::Legacy(legacy_from_bits(0))
    }
}

} // verus!

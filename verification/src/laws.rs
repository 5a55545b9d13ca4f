//! What holds of every resolution, stated over the contracts of `resolve`
//! and of `PendingMods::supply`.

use vstd::prelude::*;

use crate::catalog::{
    acronyms_parsed, catalog_key, has_bit, intermode_entries, is_checked_bits, lazer_keys, legacy_bits,
    readable, IntermodeEntry, LEGACY_MASK,
};
use crate::error::ResolveError;
use crate::foreign::{
    element_source, object_mismatch, settings_of, ForeignValue, ListElement, ModSource, RawObject,
};
use crate::mode::PyGameMode;
use crate::mods::{
    all_known, awaits_verdict, continues, key_admitted, keys_of, legacy_representable,
    lemma_legacy_mask, lemma_union_decides, reads_back, resolved, scan, set_text,
    source_admitted, source_key, text_resolved, PyGameMods, Resolution, Scan,
};

verus! {

/// A source that a walk goes past: one that needs no verdict and that the
/// catalog accepts for the mode.
pub open spec fn passed(mode: PyGameMode, source: ModSource) -> bool {
    !awaits_verdict(source) && source_admitted(mode, source)
}

/// A walk stops at the first source that it cannot go past, and goes past
/// every source before it: it asks at a reference with settings, fails at
/// a source that the catalog does not accept, and ends only behind the last.
pub proof fn law_walk_stops_at_first(mode: PyGameMode, sources: Seq<ModSource>, start: int)
    requires
        0 <= start <= sources.len(),
    ensures
        match scan(mode, sources, start) {
            Scan::End => forall|i: int| start <= i < sources.len() ==> passed(mode, #[trigger] sources[i]),
            Scan::Ask(at) => {
                &&& start <= at < sources.len()
                &&& awaits_verdict(sources[at])
                &&& forall|i: int| start <= i < at ==> passed(mode, #[trigger] sources[i])
            },
            Scan::Fail(at) => {
                &&& start <= at < sources.len()
                &&& !awaits_verdict(sources[at])
                &&& !source_admitted(mode, sources[at])
                &&& forall|i: int| start <= i < at ==> passed(mode, #[trigger] sources[i])
            },
        },
    decreases sources.len() - start,
{
    if start < sources.len() && passed(mode, sources[start]) {
        law_walk_stops_at_first(mode, sources, start + 1);
    }
}

/// An integer within the legacy bits resolves to the legacy form with
/// exactly its bits, whatever the mode.
pub proof fn law_integer_keeps_its_bits(
    bits: u32,
    mode: PyGameMode,
    outcome: Result<Resolution, ResolveError>,
)
    requires
        resolved(Some(ForeignValue::Integer(bits)), mode, outcome),
        bits <= LEGACY_MASK,
    ensures
        outcome matches Ok(Resolution::Done(PyGameMods::Legacy(mods))) && legacy_bits(mods) == bits,
{
    lemma_legacy_mask(bits);
}

/// A readable text of known acronyms resolves to the legacy form if every
/// one of them has a legacy bit value that the legacy form keeps, with the
/// union of these values as its bits, and else to the set form with exactly
/// the modifiers that the text holds. What the text holds is a set, so the
/// order of its acronyms makes no difference.
pub proof fn law_text_is_legacy_or_set(
    text: String,
    mode: PyGameMode,
    outcome: Result<Resolution, ResolveError>,
)
    requires
        resolved(Some(ForeignValue::Text(text)), mode, outcome),
        readable(text@),
        all_known(acronyms_parsed(text@)),
    ensures
        legacy_representable(acronyms_parsed(text@)) ==> (outcome matches Ok(
            Resolution::Done(PyGameMods::Legacy(mods)),
        ) && exists|union: u32|
            is_checked_bits(acronyms_parsed(text@), Some(union)) && legacy_bits(mods) == union),
        !legacy_representable(acronyms_parsed(text@)) ==> (outcome matches Ok(
            Resolution::Done(PyGameMods::Intermode(mods)),
        ) && intermode_entries(mods) == acronyms_parsed(text@)),
{
}

/// Two texts that hold the same modifiers resolve to the same form, and in
/// the set form to equal sets.
pub proof fn law_text_order_is_irrelevant(
    first: Seq<char>,
    second: Seq<char>,
    one: Result<Resolution, ResolveError>,
    other: Result<Resolution, ResolveError>,
)
    requires
        text_resolved(first, one),
        text_resolved(second, other),
        readable(first),
        readable(second),
        acronyms_parsed(first) == acronyms_parsed(second),
        all_known(acronyms_parsed(first)),
    ensures
        one matches Ok(Resolution::Done(PyGameMods::Legacy(left))) ==> (other matches Ok(
            Resolution::Done(PyGameMods::Legacy(right)),
        ) && legacy_bits(left) == legacy_bits(right)),
        other matches Ok(Resolution::Done(PyGameMods::Legacy(_))) ==> one matches Ok(
            Resolution::Done(PyGameMods::Legacy(_)),
        ),
        one matches Ok(Resolution::Done(PyGameMods::Intermode(left))) ==> (other matches Ok(
            Resolution::Done(PyGameMods::Intermode(right)),
        ) && intermode_entries(left) == intermode_entries(right)),
{
    if one matches Ok(Resolution::Done(PyGameMods::Legacy(_))) {
        let entries = acronyms_parsed(first);
        let left = one->Ok_0->Done_0->Legacy_0;
        let right = other->Ok_0->Done_0->Legacy_0;
        let mine = choose|union: u32|
            is_checked_bits(entries, Some(union)) && legacy_bits(left) == union;
        let theirs = choose|union: u32|
            is_checked_bits(entries, Some(union)) && legacy_bits(right) == union;
        law_union_is_unique(entries, mine, theirs);
    }
}

/// Without a value the outcome is the legacy form with no bit set, whatever
/// the mode.
pub proof fn law_absent_is_no_mod(mode: PyGameMode, outcome: Result<Resolution, ResolveError>)
    requires
        resolved(None, mode, outcome),
    ensures
        outcome matches Ok(Resolution::Done(PyGameMods::Legacy(mods))) && legacy_bits(mods) == 0,
{
}

/// A text that holds an acronym the catalog does not know fails with a
/// deserialization error.
pub proof fn law_unknown_in_text_fails(
    text: String,
    mode: PyGameMode,
    outcome: Result<Resolution, ResolveError>,
    unknown: IntermodeEntry,
)
    requires
        resolved(Some(ForeignValue::Text(text)), mode, outcome),
        acronyms_parsed(text@).contains(unknown),
        !unknown.known,
    ensures
        outcome matches Err(ResolveError::Deserialize { .. }),
{
}

/// A resolution never completes over a source that the catalog does not
/// accept: where one of the sources from `start` on needs no verdict and is
/// not accepted, the outcome is a deserialization error or a pending
/// resolution at a reference before that source.
pub proof fn law_unknown_in_sources_is_never_dropped(
    mode: PyGameMode,
    sources: Seq<ModSource>,
    start: int,
    outcome: Result<Resolution, ResolveError>,
    at: int,
)
    requires
        0 <= start <= at < sources.len(),
        continues(mode, sources, start, outcome),
        !awaits_verdict(sources[at]),
        !source_admitted(mode, sources[at]),
    ensures
        !(outcome matches Ok(Resolution::Done(_))),
        outcome matches Ok(Resolution::Pending(pending)) ==> pending.position() < at,
{
    law_walk_stops_at_first(mode, sources, start);
    match scan(mode, sources, start) {
        Scan::End => {
            assert(passed(mode, sources[at]));
        },
        Scan::Ask(stop) => {
            if stop >= at {
                if stop > at {
                    assert(passed(mode, sources[at]));
                }
            }
        },
        Scan::Fail(_) => {},
    }
}

/// A completed full collection holds a modifier for every source and no
/// other: nothing is collected in part.
pub proof fn law_full_collection_is_complete(
    mode: PyGameMode,
    sources: Seq<ModSource>,
    start: int,
    outcome: Result<Resolution, ResolveError>,
)
    requires
        0 <= start <= sources.len(),
        continues(mode, sources, start, outcome),
        outcome matches Ok(Resolution::Done(_)),
    ensures
        outcome matches Ok(Resolution::Done(PyGameMods::Lazer(mods))) && lazer_keys(mods)
            == keys_of(mode, sources, sources.len() as int),
        forall|i: int| start <= i < sources.len() ==> passed(mode, #[trigger] sources[i]),
{
    law_walk_stops_at_first(mode, sources, start);
}

/// A single reference without settings, whose acronym the catalog knows
/// for the mode, resolves to the full form with that one modifier.
pub proof fn law_bare_reference_is_one_modifier(
    object: RawObject,
    mode: PyGameMode,
    outcome: Result<Resolution, ResolveError>,
)
    requires
        resolved(Some(ForeignValue::Object(object)), mode, outcome),
        object_mismatch(object) is None,
        settings_of(object.settings) is None,
        key_admitted(mode, catalog_key(mode.spec_index(), object.acronym->Text_0@)),
    ensures
        outcome matches Ok(Resolution::Done(PyGameMods::Lazer(mods))) && lazer_keys(mods)
            == set![catalog_key(mode.spec_index(), object.acronym->Text_0@)],
{
    let key = catalog_key(mode.spec_index(), object.acronym->Text_0@);
    let source = element_source(ListElement::Object(object))->Some_0;
    let sources = seq![source];
    reveal_with_fuel(scan, 3);
    assert(scan(mode, sources, 0) == Scan::End);
    assert(keys_of(mode, sources, 1) =~= set![key]) by {
        assert(source_key(mode, sources[0]) == Some(key));
    }
}

/// The legacy form never holds a bit outside the legacy bits.
pub proof fn law_legacy_form_is_within_its_bits(
    value: Option<ForeignValue>,
    mode: PyGameMode,
    outcome: Result<Resolution, ResolveError>,
)
    requires
        resolved(value, mode, outcome),
        outcome matches Ok(Resolution::Done(PyGameMods::Legacy(_))),
    ensures
        outcome matches Ok(Resolution::Done(PyGameMods::Legacy(mods))) && legacy_bits(mods)
            <= LEGACY_MASK,
{
    match value {
        None => {},
        Some(ForeignValue::Integer(bits)) => {
            lemma_legacy_mask(bits);
        },
        Some(ForeignValue::Text(text)) => {
            let entries = acronyms_parsed(text@);
            let mods = outcome->Ok_0->Done_0->Legacy_0;
            let union = choose|union: u32|
                is_checked_bits(entries, Some(union)) && legacy_bits(mods) == union;
            lemma_union_decides(entries, Some(union));
            lemma_legacy_mask(union);
        },
        Some(ForeignValue::Object(object)) => {},
        Some(ForeignValue::List(elements)) => {},
        Some(ForeignValue::Other { .. }) => {},
    }
}

/// A set that can be written as a legacy bitmask without loss is never left
/// in the set form.
pub proof fn law_set_form_has_no_legacy_bitmask(
    value: Option<ForeignValue>,
    mode: PyGameMode,
    outcome: Result<Resolution, ResolveError>,
)
    requires
        resolved(value, mode, outcome),
        outcome matches Ok(Resolution::Done(PyGameMods::Intermode(_))),
    ensures
        outcome matches Ok(Resolution::Done(PyGameMods::Intermode(mods)))
            && !legacy_representable(intermode_entries(mods)) && all_known(intermode_entries(mods)),
{
}

/// Two bitmasks that agree in every bit are the same.
proof fn lemma_bits_decide(one: u32, other: u32)
    requires
        forall|index: u32| index < 32 ==> has_bit(one, index) == has_bit(other, index),
    ensures
        one == other,
{
    assert(has_bit(one, 0) == has_bit(other, 0));
    assert(has_bit(one, 1) == has_bit(other, 1));
    assert(has_bit(one, 2) == has_bit(other, 2));
    assert(has_bit(one, 3) == has_bit(other, 3));
    assert(has_bit(one, 4) == has_bit(other, 4));
    assert(has_bit(one, 5) == has_bit(other, 5));
    assert(has_bit(one, 6) == has_bit(other, 6));
    assert(has_bit(one, 7) == has_bit(other, 7));
    assert(has_bit(one, 8) == has_bit(other, 8));
    assert(has_bit(one, 9) == has_bit(other, 9));
    assert(has_bit(one, 10) == has_bit(other, 10));
    assert(has_bit(one, 11) == has_bit(other, 11));
    assert(has_bit(one, 12) == has_bit(other, 12));
    assert(has_bit(one, 13) == has_bit(other, 13));
    assert(has_bit(one, 14) == has_bit(other, 14));
    assert(has_bit(one, 15) == has_bit(other, 15));
    assert(has_bit(one, 16) == has_bit(other, 16));
    assert(has_bit(one, 17) == has_bit(other, 17));
    assert(has_bit(one, 18) == has_bit(other, 18));
    assert(has_bit(one, 19) == has_bit(other, 19));
    assert(has_bit(one, 20) == has_bit(other, 20));
    assert(has_bit(one, 21) == has_bit(other, 21));
    assert(has_bit(one, 22) == has_bit(other, 22));
    assert(has_bit(one, 23) == has_bit(other, 23));
    assert(has_bit(one, 24) == has_bit(other, 24));
    assert(has_bit(one, 25) == has_bit(other, 25));
    assert(has_bit(one, 26) == has_bit(other, 26));
    assert(has_bit(one, 27) == has_bit(other, 27));
    assert(has_bit(one, 28) == has_bit(other, 28));
    assert(has_bit(one, 29) == has_bit(other, 29));
    assert(has_bit(one, 30) == has_bit(other, 30));
    assert(has_bit(one, 31) == has_bit(other, 31));
    assert(one == other) by (bit_vector)
        requires
            ((one >> 0u32) & 1 == 1) == ((other >> 0u32) & 1 == 1),
            ((one >> 1u32) & 1 == 1) == ((other >> 1u32) & 1 == 1),
            ((one >> 2u32) & 1 == 1) == ((other >> 2u32) & 1 == 1),
            ((one >> 3u32) & 1 == 1) == ((other >> 3u32) & 1 == 1),
            ((one >> 4u32) & 1 == 1) == ((other >> 4u32) & 1 == 1),
            ((one >> 5u32) & 1 == 1) == ((other >> 5u32) & 1 == 1),
            ((one >> 6u32) & 1 == 1) == ((other >> 6u32) & 1 == 1),
            ((one >> 7u32) & 1 == 1) == ((other >> 7u32) & 1 == 1),
            ((one >> 8u32) & 1 == 1) == ((other >> 8u32) & 1 == 1),
            ((one >> 9u32) & 1 == 1) == ((other >> 9u32) & 1 == 1),
            ((one >> 10u32) & 1 == 1) == ((other >> 10u32) & 1 == 1),
            ((one >> 11u32) & 1 == 1) == ((other >> 11u32) & 1 == 1),
            ((one >> 12u32) & 1 == 1) == ((other >> 12u32) & 1 == 1),
            ((one >> 13u32) & 1 == 1) == ((other >> 13u32) & 1 == 1),
            ((one >> 14u32) & 1 == 1) == ((other >> 14u32) & 1 == 1),
            ((one >> 15u32) & 1 == 1) == ((other >> 15u32) & 1 == 1),
            ((one >> 16u32) & 1 == 1) == ((other >> 16u32) & 1 == 1),
            ((one >> 17u32) & 1 == 1) == ((other >> 17u32) & 1 == 1),
            ((one >> 18u32) & 1 == 1) == ((other >> 18u32) & 1 == 1),
            ((one >> 19u32) & 1 == 1) == ((other >> 19u32) & 1 == 1),
            ((one >> 20u32) & 1 == 1) == ((other >> 20u32) & 1 == 1),
            ((one >> 21u32) & 1 == 1) == ((other >> 21u32) & 1 == 1),
            ((one >> 22u32) & 1 == 1) == ((other >> 22u32) & 1 == 1),
            ((one >> 23u32) & 1 == 1) == ((other >> 23u32) & 1 == 1),
            ((one >> 24u32) & 1 == 1) == ((other >> 24u32) & 1 == 1),
            ((one >> 25u32) & 1 == 1) == ((other >> 25u32) & 1 == 1),
            ((one >> 26u32) & 1 == 1) == ((other >> 26u32) & 1 == 1),
            ((one >> 27u32) & 1 == 1) == ((other >> 27u32) & 1 == 1),
            ((one >> 28u32) & 1 == 1) == ((other >> 28u32) & 1 == 1),
            ((one >> 29u32) & 1 == 1) == ((other >> 29u32) & 1 == 1),
            ((one >> 30u32) & 1 == 1) == ((other >> 30u32) & 1 == 1),
            ((one >> 31u32) & 1 == 1) == ((other >> 31u32) & 1 == 1),
    ;
}

/// A bit that is set in one union of a set is set in every union of it.
proof fn lemma_bit_carries(entries: Set<IntermodeEntry>, one: u32, other: u32, index: u32)
    requires
        is_checked_bits(entries, Some(one)),
        is_checked_bits(entries, Some(other)),
        index < 32,
        has_bit(one, index),
    ensures
        has_bit(other, index),
{
    let e = choose|e: IntermodeEntry| #[trigger]
        entries.contains(e) && e.bits is Some && has_bit(e.bits->Some_0, index);
    assert(entries.contains(e) && e.bits is Some && has_bit(e.bits->Some_0, index));
}

/// A set has at most one union of bit values: the bits of the legacy form
/// that a text resolves to are fixed by the modifiers that the text holds.
pub proof fn law_union_is_unique(entries: Set<IntermodeEntry>, one: u32, other: u32)
    requires
        is_checked_bits(entries, Some(one)),
        is_checked_bits(entries, Some(other)),
    ensures
        one == other,
{
    assert forall|index: u32| index < 32 implies has_bit(one, index) == has_bit(other, index) by {
        if has_bit(one, index) {
            lemma_bit_carries(entries, one, other, index);
        }
        if has_bit(other, index) {
            lemma_bit_carries(entries, other, one, index);
        }
    }
    lemma_bits_decide(one, other);
}

/// Any text that reads as the set of an already resolved set form, in
/// whatever order it names the acronyms, resolves again to the set form
/// with an equal set.
pub proof fn law_set_form_resolves_again(
    value: Option<ForeignValue>,
    mode: PyGameMode,
    first: Result<Resolution, ResolveError>,
    written: Seq<char>,
    second: Result<Resolution, ResolveError>,
)
    requires
        resolved(value, mode, first),
        first matches Ok(Resolution::Done(PyGameMods::Intermode(_))),
        readable(written),
        acronyms_parsed(written) == intermode_entries(first->Ok_0->Done_0->Intermode_0),
        text_resolved(written, second),
    ensures
        second matches Ok(Resolution::Done(PyGameMods::Intermode(again))) && intermode_entries(
            again,
        ) == intermode_entries(first->Ok_0->Done_0->Intermode_0),
{
    law_set_form_has_no_legacy_bitmask(value, mode, first);
}

/// The text that `acronym_text` gives for the set of an already resolved
/// set form resolves again to the set form with an equal set.
pub proof fn law_written_set_resolves_again(
    value: Option<ForeignValue>,
    mode: PyGameMode,
    first: Result<Resolution, ResolveError>,
    second: Result<Resolution, ResolveError>,
)
    requires
        resolved(value, mode, first),
        first matches Ok(Resolution::Done(PyGameMods::Intermode(_))),
        reads_back(first->Ok_0->Done_0->Intermode_0),
        text_resolved(set_text(first->Ok_0->Done_0->Intermode_0), second),
    ensures
        second matches Ok(Resolution::Done(PyGameMods::Intermode(again))) && intermode_entries(
            again,
        ) == intermode_entries(first->Ok_0->Done_0->Intermode_0),
{
    law_set_form_resolves_again(
        value,
        mode,
        first,
        set_text(first->Ok_0->Done_0->Intermode_0),
        second,
    );
}

} // verus!

//! The modifier catalog: the types of `rosu_mods` that the library works
//! with, what each of them holds, and one trusted entry point per catalog
//! function. Nothing in this file is proved; the rest of the library is
//! proved against the contracts stated here.

use vstd::prelude::*;

use crate::adapter::ModField;
use crate::mode::PyGameMode;

verus! {

/// Mask of the bits that `GameModsLegacy::from_bits` keeps.
pub const LEGACY_MASK: u32 = 0x3FFF_FFFF;

/// What identifies one mode-independent modifier: its acronym, whether the
/// catalog knows it, and the bit value it has among the legacy modifiers.
pub struct IntermodeEntry {
    pub acronym: Seq<char>,
    pub known: bool,
    pub bits: Option<u32>,
}

/// What identifies one modifier of a full collection: the mode it belongs
/// to, its acronym, and whether the catalog knows it for that mode.
pub struct ModKey {
    pub mode: PyGameMode,
    pub acronym: Seq<char>,
    pub known: bool,
}

/// `rosu_mods::GameModsLegacy`: a bitmask over the legacy modifiers. Opaque
/// here; `legacy_bits` names what it holds.
#[verifier::external_type_specification]
#[verifier::external_body]
pub struct ExGameModsLegacy(rosu_mods::GameModsLegacy);

/// `rosu_mods::GameModsIntermode`: a set of mode-independent modifiers.
/// Opaque here; `intermode_entries` names what it holds.
#[verifier::external_type_specification]
#[verifier::external_body]
pub struct ExGameModsIntermode(rosu_mods::GameModsIntermode);

/// `rosu_mods::GameMods`: a collection of typed modifiers. Opaque here;
/// `lazer_keys` names the keys of what it holds.
#[verifier::external_type_specification]
#[verifier::external_body]
pub struct ExGameMods(rosu_mods::GameMods);

/// `rosu_mods::GameMod`: one typed modifier with its settings. Opaque here;
/// `mod_key` names what identifies it.
#[verifier::external_type_specification]
#[verifier::external_body]
pub struct ExGameMod(rosu_mods::GameMod);

/// The bitmask that a `GameModsLegacy` holds.
pub uninterp spec fn legacy_bits(mods: rosu_mods::GameModsLegacy) -> u32;

/// The modifiers that a `GameModsIntermode` holds.
pub uninterp spec fn intermode_entries(mods: rosu_mods::GameModsIntermode) -> Set<IntermodeEntry>;

/// The modifiers that a `GameModsIntermode` holds, in the order in which it
/// hands them out, each as its acronym and whether the catalog knows it.
pub uninterp spec fn intermode_order(mods: rosu_mods::GameModsIntermode) -> Seq<(Seq<char>, bool)>;

/// The keys of the modifiers that a `GameMods` holds; it holds at most one
/// modifier per key.
pub uninterp spec fn lazer_keys(mods: rosu_mods::GameMods) -> Set<ModKey>;

/// The key under which a `GameMods` files a modifier.
pub uninterp spec fn mod_key(gamemod: rosu_mods::GameMod) -> ModKey;

/// The catalog has a mode-independent modifier of this acronym, letter case
/// aside.
pub uninterp spec fn known_acronym(acronym: Seq<char>) -> bool;

/// A text whose end the catalog's reader cannot take: one character is left
/// over behind a known acronym of three letters.
pub open spec fn stray_tail(text: Seq<char>) -> bool {
    text.len() >= 4 && known_acronym(text.subrange(text.len() - 4, text.len() - 1))
}

/// A text that the catalog's reader can take: plain ASCII without a stray
/// tail.
pub open spec fn readable(text: Seq<char>) -> bool {
    vstd::utf8::is_ascii_chars(text) && !stray_tail(text)
}

/// The modifiers that `GameModsIntermode::from_acronyms` reads out of a text.
pub uninterp spec fn acronyms_parsed(text: Seq<char>) -> Set<IntermodeEntry>;

/// The key of the modifier that the catalog gives for an acronym in the mode
/// that `GameMode::from` gives for the numeric tag.
pub uninterp spec fn catalog_key(mode: u8, acronym: Seq<char>) -> ModKey;

/// The acronym of the single modifier with exactly this legacy bit value, if
/// there is one.
pub uninterp spec fn bits_acronym(bits: u32) -> Option<Seq<char>>;

/// Bit `index` of `bits` is set.
pub open spec fn has_bit(bits: u32, index: u32) -> bool {
    (bits >> index) & 1 == 1
}

/// `all` is the union of the legacy bit values of `entries`: a bit is set in
/// it exactly if it is set in the bit value of one of them.
pub open spec fn is_union(entries: Set<IntermodeEntry>, all: u32) -> bool {
    forall|index: u32|
        index < 32 ==> (#[trigger] has_bit(all, index) <==> exists|e: IntermodeEntry|
            #[trigger] entries.contains(e) && e.bits is Some && has_bit(e.bits->Some_0, index))
}

/// `outcome` is what accumulating the legacy bit values of `entries` gives:
/// nothing if one of them has no bit value, else the union of all of them.
pub open spec fn is_checked_bits(entries: Set<IntermodeEntry>, outcome: Option<u32>) -> bool {
    match outcome {
        None => exists|e: IntermodeEntry| #[trigger] entries.contains(e) && e.bits is None,
        Some(all) => {
            &&& forall|e: IntermodeEntry| #[trigger] entries.contains(e) ==> e.bits is Some
            &&& is_union(entries, all)
        },
    }
}

/// `GameModsLegacy::from_bits`: the result holds the given bits without the
/// two highest ones.
#[verifier::external_body]
pub(crate) fn legacy_from_bits(bits: u32) -> (mods: rosu_mods::GameModsLegacy)
    ensures
        legacy_bits(mods) == bits & LEGACY_MASK,
{
    rosu_mods::GameModsLegacy::from_bits(bits)
}

/// `Acronym::from_str` and `GameModIntermode::from_acronym`: whether a text
/// is an acronym of two or three bytes that, in upper case, the catalog has
/// a modifier for.
#[verifier::external_body]
pub(crate) fn acronym_known(acronym: &str) -> (known: bool)
    ensures
        known == known_acronym(acronym@),
{
    acronym.parse::<rosu_mods::Acronym>().map_or(
        false,
        |a| !matches!(
            rosu_mods::GameModIntermode::from_acronym(a),
            rosu_mods::GameModIntermode::Unknown(_)
        ),
    )
}

/// `GameModsIntermode::from_acronyms`: the result holds what the catalog
/// reads out of the text. It never fails; what it cannot place is held as
/// an unknown modifier. The reader cuts the text into pieces of two or
/// three bytes and looks past the end of a piece of one byte, which only a
/// stray tail leaves; a text that is not readable is kept away from it.
#[verifier::external_body]
pub(crate) fn intermode_from_acronyms(text: &str) -> (mods: rosu_mods::GameModsIntermode)
    requires
        readable(text@),
    ensures
        intermode_entries(mods) == acronyms_parsed(text@),
{
    rosu_mods::GameModsIntermode::from_acronyms(text)
}

/// `GameModsIntermode::checked_bits`: the union of the bit values of all
/// held modifiers, or nothing if one of them has none.
#[verifier::external_body]
pub(crate) fn intermode_checked_bits(mods: &rosu_mods::GameModsIntermode) -> (bits: Option<u32>)
    ensures
        is_checked_bits(intermode_entries(*mods), bits),
{
    mods.checked_bits()
}

/// `GameModsIntermode::iter`: hands the held modifiers out in the set's own
/// order, each as its acronym and whether it is one the catalog knows, that
/// is, not the `Unknown` variant. Every item stands for a held modifier and
/// every held modifier has an item.
#[verifier::external_body]
pub(crate) fn intermode_items(mods: &rosu_mods::GameModsIntermode) -> (items: Vec<(String, bool)>)
    ensures
        items@.len() == intermode_order(*mods).len(),
        forall|i: int|
            0 <= i < items@.len() ==> (#[trigger] items@[i]).0@ == intermode_order(*mods)[i].0
                && items@[i].1 == intermode_order(*mods)[i].1,
        forall|i: int|
            0 <= i < items@.len() ==> exists|e: IntermodeEntry|
                #[trigger] intermode_entries(*mods).contains(e) && e.acronym == (
                #[trigger] items@[i]).0@ && e.known == items@[i].1,
        forall|e: IntermodeEntry| #[trigger]
            intermode_entries(*mods).contains(e) ==> exists|i: int|
                0 <= i < items@.len() && (#[trigger] items@[i]).0@ == e.acronym && items@[i].1
                    == e.known,
{
    mods.iter().map(
        |m| (
            m.acronym().as_str().to_owned(),
            !matches!(m, rosu_mods::GameModIntermode::Unknown(_)),
        ),
    ).collect()
}

/// `PartialEq::eq` of `GameModsIntermode`, which compares what two sets hold,
/// modifier by modifier: they are equal exactly if they hold the same
/// modifiers.
#[verifier::external_body]
pub(crate) fn intermode_same(left: &rosu_mods::GameModsIntermode, right: &rosu_mods::GameModsIntermode) -> (same: bool)
    ensures
        same == (intermode_entries(*left) == intermode_entries(*right)),
{
    left == right
}

/// `GameModSeed::deserialize` on an acronym, for the mode that
/// `GameMode::from` gives for the tag: always gives a modifier, the one the
/// catalog has for the acronym in that mode, which is an unknown one where
/// it has none.
#[verifier::external_body]
pub(crate) fn deserialize_acronym(tag: u8, acronym: &str) -> (outcome: Result<rosu_mods::GameMod, String>)
    ensures
        outcome is Ok,
        mod_key(outcome->Ok_0) == catalog_key(tag, acronym@),
{
    let seed = rosu_mods::serde::GameModSeed::Mode {
        mode: rosu_mods::GameMode::from(tag),
        deny_unknown_fields: false,
    };
    let source = serde::de::value::StrDeserializer::<serde::de::value::Error>::new(acronym);
    serde::de::DeserializeSeed::deserialize(seed, source).map_err(|e| e.to_string())
}

/// `GameModSeed::deserialize` on a mapping of one field, for the mode that
/// `GameMode::from` gives for the tag. Where the field is the acronym field
/// it always gives a modifier, the one the catalog has for the acronym in
/// that mode, which is an unknown one where it has none. The contract names
/// the modifier by its key; of its settings it says nothing.
#[verifier::external_body]
pub(crate) fn deserialize_bare(tag: u8, field: &str, acronym: &str) -> (outcome: Result<rosu_mods::GameMod, String>)
    requires
        field@ == ModField::Acronym.spec_name(),
    ensures
        outcome is Ok,
        mod_key(outcome->Ok_0) == catalog_key(tag, acronym@),
{
    let seed = rosu_mods::serde::GameModSeed::Mode {
        mode: rosu_mods::GameMode::from(tag),
        deny_unknown_fields: false,
    };
    let fields = std::iter::once((field, acronym));
    let source = serde::de::value::MapDeserializer::<_, serde::de::value::Error>::new(fields);
    serde::de::DeserializeSeed::deserialize(seed, source).map_err(|e| e.to_string())
}

/// `GameModSeed::deserialize` on a bit value, for the mode that
/// `GameMode::from` gives for the tag: fails unless exactly one modifier has
/// this bit value, and then gives what the catalog has for that modifier's
/// acronym in the mode.
#[verifier::external_body]
pub(crate) fn deserialize_bits(tag: u8, bits: u32) -> (outcome: Result<rosu_mods::GameMod, String>)
    ensures
        outcome is Ok <==> bits_acronym(bits) is Some,
        outcome matches Ok(gamemod) ==> mod_key(gamemod) == catalog_key(
            tag,
            bits_acronym(bits)->Some_0,
        ),
{
    let seed = rosu_mods::serde::GameModSeed::Mode {
        mode: rosu_mods::GameMode::from(tag),
        deny_unknown_fields: false,
    };
    let source = serde::de::value::U32Deserializer::<serde::de::value::Error>::new(bits);
    serde::de::DeserializeSeed::deserialize(seed, source).map_err(|e| e.to_string())
}

/// `GameMod::mode`: the mode a modifier belongs to.
#[verifier::external_body]
pub(crate) fn gamemod_mode(gamemod: &rosu_mods::GameMod) -> (mode: PyGameMode)
    ensures
        mode == mod_key(*gamemod).mode,
{
    match gamemod.mode() {
        rosu_mods::GameMode::Osu => PyGameMode::Osu,
        rosu_mods::GameMode::Taiko => PyGameMode::Taiko,
        rosu_mods::GameMode::Catch => PyGameMode::Catch,
        rosu_mods::GameMode::Mania => PyGameMode::Mania,
    }
}

/// `GameMod::acronym`: the acronym of a modifier.
#[verifier::external_body]
pub(crate) fn gamemod_acronym(gamemod: &rosu_mods::GameMod) -> (acronym: String)
    ensures
        acronym@ == mod_key(*gamemod).acronym,
{
    gamemod.acronym().as_str().to_owned()
}

/// `GameMod::intermode`: whether a modifier is one the catalog knows, that
/// is, not the `Unknown` variant.
#[verifier::external_body]
pub(crate) fn gamemod_is_known(gamemod: &rosu_mods::GameMod) -> (known: bool)
    ensures
        known == mod_key(*gamemod).known,
{
    !matches!(gamemod.intermode(), rosu_mods::GameModIntermode::Unknown(_))
}

/// `GameMods::new`: a collection that holds nothing.
#[verifier::external_body]
pub(crate) fn lazer_new() -> (mods: rosu_mods::GameMods)
    ensures
        lazer_keys(mods) == Set::<ModKey>::empty(),
{
    rosu_mods::GameMods::new()
}

/// `GameMods::insert`: files the modifier under its key, in place of one
/// that was filed under the same key before. The collection files by mode
/// and by kind and acronym of the modifier, which tells known modifiers
/// apart exactly as their keys do; so this is stated of known modifiers.
#[verifier::external_body]
pub(crate) fn lazer_insert(mods: &mut rosu_mods::GameMods, gamemod: rosu_mods::GameMod)
    requires
        mod_key(gamemod).known,
        forall|key: ModKey| #[trigger] lazer_keys(*old(mods)).contains(key) ==> key.known,
    ensures
        lazer_keys(*final(mods)) == lazer_keys(*old(mods)).insert(mod_key(gamemod)),
{
    mods.insert(gamemod)
}

} // verus!

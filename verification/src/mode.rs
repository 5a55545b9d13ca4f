//! The four rulesets a modifier can belong to.

use vstd::prelude::*;
use vstd::string::StringExecFns;

verus! {

/// Mode tag: selects the modifier catalog that structured modifiers are
/// resolved against.
#[derive(Copy, Clone, Debug, PartialEq, Eq, Structural)]
pub enum PyGameMode {
    Osu,
    Taiko,
    Catch,
    Mania,
}

impl PyGameMode {
    /// The numeric tag of a mode: 0 for Osu up to 3 for Mania.
    pub open spec fn spec_index(self) -> u8 {
        match self {
            PyGameMode::Osu => 0,
            PyGameMode::Taiko => 1,
            PyGameMode::Catch => 2,
            PyGameMode::Mania => 3,
        }
    }

    /// The mode that a numeric tag stands for; tags above 3 fall back to Osu.
    pub open spec fn spec_from_index(index: u8) -> PyGameMode {
        if index == 1 {
            PyGameMode::Taiko
        } else if index == 2 {
            PyGameMode::Catch
        } else if index == 3 {
            PyGameMode::Mania
        } else {
            PyGameMode::Osu
        }
    }

    /// The text shown for a mode, `GameMode.` followed by the variant's name.
    pub open spec fn spec_repr(self) -> Seq<char> {
        match self {
            PyGameMode::Osu => "GameMode.Osu"@,
            PyGameMode::Taiko => "GameMode.Taiko"@,
            PyGameMode::Catch => "GameMode.Catch"@,
            PyGameMode::Mania => "GameMode.Mania"@,
        }
    }

    /// The numeric tag of the mode.
    #[verifier::when_used_as_spec(spec_index)]
    pub fn index(self) -> (index: u8)
        ensures
            index == self.spec_index(),
            index <= 3,
    {
        match self {
            PyGameMode::Osu => 0,
            PyGameMode::Taiko => 1,
            PyGameMode::Catch => 2,
            PyGameMode::Mania => 3,
        }
    }

    /// The mode of a numeric tag; a tag above 3 gives Osu.
    pub fn from_index(index: u8) -> (mode: PyGameMode)
        ensures
            mode == Self::spec_from_index(index),
            index <= 3 ==> mode.spec_index() == index,
    {
        if index == 1 {
            PyGameMode::Taiko
        } else if index == 2 {
            PyGameMode::Catch
        } else if index == 3 {
            PyGameMode::Mania
        } else {
            PyGameMode::Osu
        }
    }

    /// The text shown for the mode.
    pub fn repr(&self) -> (text: String)
        ensures
            text@ == self.spec_repr(),
    {
        match self {
            PyGameMode::Osu => String::from_str("GameMode.Osu"),
            PyGameMode::Taiko => String::from_str("GameMode.Taiko"),
            PyGameMode::Catch => String::from_str("GameMode.Catch"),
            PyGameMode::Mania => String::from_str("GameMode.Mania"),
        }
    }
}

impl Default for PyGameMode {
    fn default() -> (mode: Self)
        ensures
            mode == PyGameMode::Osu,
    {
        PyGameMode::Osu
    }
}

/// Every mode is the one its own numeric tag stands for.
pub proof fn index_round_trip(mode: PyGameMode)
    ensures
        PyGameMode::spec_from_index(mode.spec_index()) == mode,
{
}

} // verus!

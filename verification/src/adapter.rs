//! The single-modifier adapter: presents a modifier reference to a catalog
//! as a mapping of at most two fields, `acronym` first and `settings` second.

use vstd::prelude::*;

use crate::foreign::ForeignMod;

verus! {

/// The two fields of a modifier reference.
#[derive(Copy, Clone, Debug, PartialEq, Eq, Structural)]
pub enum ModField {
    Acronym,
    Settings,
}

/// Where the walk over the fields of a reference stands.
#[derive(Copy, Clone, Debug, PartialEq, Eq, Structural)]
pub enum PyGameModMap {
    /// Nothing was handed out yet.
    Full,
    /// The acronym was handed out and the settings are still to come.
    Settings,
    /// Every field was handed out.
    Done,
}

impl ModField {
    pub open spec fn spec_name(self) -> Seq<char> {
        match self {
            ModField::Acronym => "acronym"@,
            ModField::Settings => "settings"@,
        }
    }

    pub fn name(self) -> (name: &'static str)
        ensures
            name@ == self.spec_name(),
    {
        match self {
            ModField::Acronym => "acronym",
            ModField::Settings => "settings",
        }
    }
}

impl PyGameModMap {
    /// The field that is handed out next, if one is left.
    pub open spec fn spec_next_key(self) -> Option<ModField> {
        match self {
            PyGameModMap::Full => Some(ModField::Acronym),
            PyGameModMap::Settings => Some(ModField::Settings),
            PyGameModMap::Done => None,
        }
    }

    /// The state after the value of the next field was handed out.
    pub open spec fn spec_next_value(self, reference: ForeignMod) -> PyGameModMap {
        match self {
            PyGameModMap::Full => if reference.settings is Some {
                PyGameModMap::Settings
            } else {
                PyGameModMap::Done
            },
            _ => PyGameModMap::Done,
        }
    }

    /// The state before any field was handed out.
    pub fn start() -> (state: PyGameModMap)
        ensures
            state == PyGameModMap::Full,
    {
        PyGameModMap::Full
    }

    /// The field that is handed out next, if one is left.
    pub fn next_key(&self) -> (field: Option<ModField>)
        ensures
            field == self.spec_next_key(),
    {
        match self {
            PyGameModMap::Full => Some(ModField::Acronym),
            PyGameModMap::Settings => Some(ModField::Settings),
            PyGameModMap::Done => None,
        }
    }

    /// Moves on behind the field that `next_key` named. There has to be
    /// such a field.
    pub fn next_value(&mut self, reference: &ForeignMod)
        requires
            *old(self) != PyGameModMap::Done,
        ensures
            *final(self) == old(self).spec_next_value(*reference),
    {
        let after = match self {
            PyGameModMap::Full => if reference.settings.is_some() {
                PyGameModMap::Settings
            } else {
                PyGameModMap::Done
            },
            _ => PyGameModMap::Done,
        };
        *self = after;
    }
}

/// The fields that a reference exposes, in their order: the acronym, and
/// the settings if it has any.
pub open spec fn exposed_fields(reference: ForeignMod) -> Seq<ModField> {
    if reference.settings is Some {
        seq![ModField::Acronym, ModField::Settings]
    } else {
        seq![ModField::Acronym]
    }
}

/// The fields that a walk hands out from a state on, for at most `steps`
/// steps.
pub open spec fn walk(state: PyGameModMap, reference: ForeignMod, steps: nat) -> Seq<ModField>
    decreases steps,
{
    if steps == 0 {
        Seq::empty()
    } else {
        match state.spec_next_key() {
            None => Seq::empty(),
            Some(field) => seq![field] + walk(
                state.spec_next_value(reference),
                reference,
                (steps - 1) as nat,
            ),
        }
    }
}

/// A walk from the start hands out exactly the exposed fields, in their
/// order, and is done after two steps at most.
pub proof fn lemma_walk_exposes(reference: ForeignMod, steps: nat)
    requires
        steps >= 2,
    ensures
        walk(PyGameModMap::Full, reference, steps) == exposed_fields(reference),
{
    reveal_with_fuel(walk, 4);
    let second = PyGameModMap::Full.spec_next_value(reference);
    if reference.settings is Some {
        assert(walk(PyGameModMap::Done, reference, (steps - 2) as nat) == Seq::<ModField>::empty());
        assert(walk(second, reference, (steps - 1) as nat) =~= seq![ModField::Settings]);
        assert(walk(PyGameModMap::Full, reference, steps) =~= exposed_fields(reference));
    } else {
        assert(walk(second, reference, (steps - 1) as nat) =~= Seq::<ModField>::empty());
        assert(walk(PyGameModMap::Full, reference, steps) =~= exposed_fields(reference));
    }
}

} // verus!

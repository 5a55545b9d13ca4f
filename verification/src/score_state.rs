//! The hit results of a score.

use vstd::prelude::*;
use vstd::string::StringExecFns;

use crate::format::{decimal_text, push_decimal};
use crate::kwargs::{
    find_kwarg, first_position, type_message, unexpected_kwarg, unexpected_message,
    wrong_kwarg_type, KwargError,
};

verus! {

/// The hit results of a score at one point of a play.
#[derive(Copy, Clone, Debug, PartialEq, Eq)]
pub struct PyScoreState {
    pub max_combo: u32,
    pub osu_large_tick_hits: u32,
    pub osu_small_tick_hits: u32,
    pub slider_end_hits: u32,
    pub n_geki: u32,
    pub n_katu: u32,
    pub n300: u32,
    pub n100: u32,
    pub n50: u32,
    pub misses: u32,
}

/// What building a score state from keyword arguments comes to.
pub enum Built {
    State(PyScoreState),
    /// The value at this position is no unsigned integer.
    WrongType(int),
    /// The keyword at this position names no field.
    Unexpected(int),
}

impl PyScoreState {
    /// The names of the fields, in their order.
    pub open spec fn spec_field_names() -> Seq<&'static str> {
        seq![
            "max_combo",
            "osu_large_tick_hits",
            "osu_small_tick_hits",
            "slider_end_hits",
            "n_geki",
            "n_katu",
            "n300",
            "n100",
            "n50",
            "misses",
        ]
    }

    /// The keywords that `new` takes.
    pub fn field_names() -> (names: Vec<&'static str>)
        ensures
            names@ == Self::spec_field_names(),
    {
        let mut names: Vec<&'static str> = Vec::new();
        names.push("max_combo");
        names.push("osu_large_tick_hits");
        names.push("osu_small_tick_hits");
        names.push("slider_end_hits");
        names.push("n_geki");
        names.push("n_katu");
        names.push("n300");
        names.push("n100");
        names.push("n50");
        names.push("misses");
        proof {
            assert(names@ =~= Self::spec_field_names());
        }
        names
    }

    /// The state with the field at the given position set to a value.
    pub open spec fn spec_with_field(self, field: int, value: u32) -> PyScoreState {
        if field == 0 {
            PyScoreState { max_combo: value, ..self }
        } else if field == 1 {
            PyScoreState { osu_large_tick_hits: value, ..self }
        } else if field == 2 {
            PyScoreState { osu_small_tick_hits: value, ..self }
        } else if field == 3 {
            PyScoreState { slider_end_hits: value, ..self }
        } else if field == 4 {
            PyScoreState { n_geki: value, ..self }
        } else if field == 5 {
            PyScoreState { n_katu: value, ..self }
        } else if field == 6 {
            PyScoreState { n300: value, ..self }
        } else if field == 7 {
            PyScoreState { n100: value, ..self }
        } else if field == 8 {
            PyScoreState { n50: value, ..self }
        } else if field == 9 {
            PyScoreState { misses: value, ..self }
        } else {
            self
        }
    }

    /// Sets the field at the given position; a position behind the last
    /// field changes nothing.
    pub fn with_field(self, field: usize, value: u32) -> (state: PyScoreState)
        ensures
            state == self.spec_with_field(field as int, value),
    {
        let mut state = self;
        if field == 0 {
            state.max_combo = value;
        } else if field == 1 {
            state.osu_large_tick_hits = value;
        } else if field == 2 {
            state.osu_small_tick_hits = value;
        } else if field == 3 {
            state.slider_end_hits = value;
        } else if field == 4 {
            state.n_geki = value;
        } else if field == 5 {
            state.n_katu = value;
        } else if field == 6 {
            state.n300 = value;
        } else if field == 7 {
            state.n100 = value;
        } else if field == 8 {
            state.n50 = value;
        } else if field == 9 {
            state.misses = value;
        }
        state
    }

    /// Takes the keyword arguments from position `from` on, one after the
    /// other: each sets the field that its keyword names; the first that
    /// names no field, or whose value is no unsigned integer, ends it.
    pub open spec fn build(
        kwargs: Seq<(String, Option<u32>)>,
        state: PyScoreState,
        from: int,
    ) -> Built
        decreases kwargs.len() - from,
    {
        if from < 0 || from >= kwargs.len() {
            Built::State(state)
        } else {
            match first_position(kwargs[from].0@, Self::spec_field_names(), 0) {
                None => Built::Unexpected(from),
                Some(field) => match kwargs[from].1 {
                    None => Built::WrongType(from),
                    Some(value) => Self::build(
                        kwargs,
                        state.spec_with_field(field, value),
                        from + 1,
                    ),
                },
            }
        }
    }

    /// The all-zero state.
    pub open spec fn zero() -> PyScoreState {
        PyScoreState {
            max_combo: 0,
            osu_large_tick_hits: 0,
            osu_small_tick_hits: 0,
            slider_end_hits: 0,
            n_geki: 0,
            n_katu: 0,
            n300: 0,
            n100: 0,
            n50: 0,
            misses: 0,
        }
    }

    /// Builds a score state from keyword arguments; a value is given as
    /// the unsigned integer it is, or as nothing where it is none. Without
    /// arguments the state is all zero.
    pub fn new(kwargs: Option<&Vec<(String, Option<u32>)>>) -> (outcome: Result<PyScoreState, KwargError>)
        ensures
            kwargs is None ==> outcome == Ok::<PyScoreState, KwargError>(Self::zero()),
            kwargs matches Some(given) ==> match Self::build(given@, Self::zero(), 0) {
                Built::State(state) => outcome == Ok::<PyScoreState, KwargError>(state),
                Built::WrongType(at) => outcome matches Err(KwargError::Type { message })
                    && message@ == type_message(given@[at].0@, "int"@),
                Built::Unexpected(at) => outcome matches Err(KwargError::Unexpected { message })
                    && message@ == unexpected_message(given@[at].0@, Self::spec_field_names()),
            },
    {
        let mut state = PyScoreState::default();
        let given = match kwargs {
            None => {
                return Ok(state);
            },
            Some(given) => given,
        };
        let names = Self::field_names();
        let mut index: usize = 0;
        while index < given.len()
            invariant
                index <= given@.len(),
                kwargs == Some(given),
                names@ == Self::spec_field_names(),
                Self::build(given@, Self::zero(), 0) == Self::build(given@, state, index as int),
            decreases given@.len() - index,
        {
            let key = given[index].0.as_str();
            match find_kwarg(key, &names) {
                None => {
                    return Err(KwargError::Unexpected { message: unexpected_kwarg(key, &names) });
                },
                Some(field) => match given[index].1 {
                    None => {
                        return Err(KwargError::Type { message: wrong_kwarg_type(key, "int") });
                    },
                    Some(value) => {
                        state = state.with_field(field, value);
                    },
                },
            }
            index = index + 1;
        }
        Ok(state)
    }

    /// The text form of a score state: its name, then every field by name
    /// with its value in decimal, between braces.
    pub open spec fn spec_repr(self) -> Seq<char> {
        "ScoreState { max_combo: "@ + decimal_text(self.max_combo as nat)
            + ", osu_large_tick_hits: "@ + decimal_text(self.osu_large_tick_hits as nat)
            + ", osu_small_tick_hits: "@ + decimal_text(self.osu_small_tick_hits as nat)
            + ", slider_end_hits: "@ + decimal_text(self.slider_end_hits as nat) + ", n_geki: "@
            + decimal_text(self.n_geki as nat) + ", n_katu: "@ + decimal_text(self.n_katu as nat)
            + ", n300: "@ + decimal_text(self.n300 as nat) + ", n100: "@ + decimal_text(
            self.n100 as nat,
        ) + ", n50: "@ + decimal_text(self.n50 as nat) + ", misses: "@ + decimal_text(
            self.misses as nat,
        ) + " }"@
    }

    /// The text form of the score state.
    pub fn __repr__(&self) -> (text: String)
        ensures
            text@ == self.spec_repr(),
    {
        let mut text = String::from_str("ScoreState { max_combo: ");
        push_decimal(&mut text, self.max_combo as u64);
        text.append(", osu_large_tick_hits: ");
        push_decimal(&mut text, self.osu_large_tick_hits as u64);
        text.append(", osu_small_tick_hits: ");
        push_decimal(&mut text, self.osu_small_tick_hits as u64);
        text.append(", slider_end_hits: ");
        push_decimal(&mut text, self.slider_end_hits as u64);
        text.append(", n_geki: ");
        push_decimal(&mut text, self.n_geki as u64);
        text.append(", n_katu: ");
        push_decimal(&mut text, self.n_katu as u64);
        text.append(", n300: ");
        push_decimal(&mut text, self.n300 as u64);
        text.append(", n100: ");
        push_decimal(&mut text, self.n100 as u64);
        text.append(", n50: ");
        push_decimal(&mut text, self.n50 as u64);
        text.append(", misses: ");
        push_decimal(&mut text, self.misses as u64);
        text.append(" }");
        text
    }
}

impl Default for PyScoreState {
    fn default() -> (state: Self)
        ensures
            state == PyScoreState::zero(),
    {
        PyScoreState {
            max_combo: 0,
            osu_large_tick_hits: 0,
            osu_small_tick_hits: 0,
            slider_end_hits: 0,
            n_geki: 0,
            n_katu: 0,
            n300: 0,
            n100: 0,
            n50: 0,
            misses: 0,
        }
    }
}

} // verus!

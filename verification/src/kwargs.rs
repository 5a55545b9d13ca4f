//! Messages for keyword arguments that a constructor does not take.

use vstd::prelude::*;
use vstd::string::StringExecFns;

verus! {

/// Why keyword arguments were refused.
#[derive(Debug)]
pub enum KwargError {
    /// The value of a known keyword is of the wrong type.
    Type { message: String },
    /// A keyword that the constructor does not know.
    Unexpected { message: String },
}

/// The first `upto` names, separated by a comma and a blank.
pub open spec fn joined(names: Seq<&'static str>, upto: int) -> Seq<char>
    decreases upto,
{
    if upto <= 0 {
        Seq::empty()
    } else if upto == 1 {
        names[0]@
    } else {
        joined(names, upto - 1) + ", "@ + names[upto - 1]@
    }
}

/// The message for a keyword that is not among the expected ones.
pub open spec fn unexpected_message(key: Seq<char>, expected: Seq<&'static str>) -> Seq<char> {
    "unexpected kwarg '"@ + key + "': expected "@ + joined(expected, expected.len() as int)
}

/// The message for a keyword whose value is of the wrong type.
pub open spec fn type_message(key: Seq<char>, must_be: Seq<char>) -> Seq<char> {
    "kwarg '"@ + key + "': must be "@ + must_be
}

/// Renders the refusal of a keyword that is not among the expected ones.
pub fn unexpected_kwarg(key: &str, expected: &Vec<&'static str>) -> (text: String)
    ensures
        text@ == unexpected_message(key@, expected@),
{
    let mut list = String::new();
    let mut index: usize = 0;
    while index < expected.len()
        invariant
            index <= expected@.len(),
            list@ == joined(expected@, index as int),
        decreases expected@.len() - index,
    {
        if index > 0 {
            list.append(", ");
        }
        list.append(expected[index]);
        proof {
            assert(list@ =~= joined(expected@, index as int + 1));
        }
        index = index + 1;
    }
    let mut text = String::from_str("unexpected kwarg '");
    text.append(key);
    text.append("': expected ");
    text.append(list.as_str());
    proof {
        assert(text@ =~= unexpected_message(key@, expected@));
    }
    text
}

/// Renders the refusal of a keyword whose value is of the wrong type.
pub fn wrong_kwarg_type(key: &str, must_be: &str) -> (text: String)
    ensures
        text@ == type_message(key@, must_be@),
{
    let mut text = String::from_str("kwarg '");
    text.append(key);
    text.append("': must be ");
    text.append(must_be);
    text
}

/// Whether two texts hold the same characters.
pub fn same_text(left: &str, right: &str) -> (same: bool)
    ensures
        same == (left@ == right@),
{
    let left = String::from_str(left);
    let right = String::from_str(right);
    left == right
}

/// The position of the first name from `from` on that equals the key.
pub open spec fn first_position(key: Seq<char>, names: Seq<&'static str>, from: int) -> Option<int>
    decreases names.len() - from,
{
    if from < 0 || from >= names.len() {
        None
    } else if names[from]@ == key {
        Some(from)
    } else {
        first_position(key, names, from + 1)
    }
}

/// Looks a keyword up among the names that a constructor takes.
pub fn find_kwarg(key: &str, names: &Vec<&'static str>) -> (found: Option<usize>)
    ensures
        match found {
            Some(index) => first_position(key@, names@, 0) == Some(index as int) && index
                < names@.len(),
            None => first_position(key@, names@, 0) is None,
        },
{
    let mut index: usize = 0;
    while index < names.len()
        invariant
            index <= names@.len(),
            first_position(key@, names@, 0) == first_position(key@, names@, index as int),
        decreases names@.len() - index,
    {
        if same_text(names[index], key) {
            return Some(index);
        }
        index = index + 1;
    }
    None
}

} // verus!

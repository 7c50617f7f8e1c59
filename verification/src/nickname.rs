//! The user's nickname and its validation rule: from 1 to 20 characters.

use vstd::prelude::*;
use crate::text::text;

verus! {

/// The fewest characters a valid nickname has.
pub const NICKNAME_MIN_LENGTH: u64 = 1;

/// The most characters a valid nickname has.
pub const NICKNAME_MAX_LENGTH: u64 = 20;

/// Whether `validator` accepts a string of characters `s` between the given
/// bounds: it counts characters, not bytes.
#[verifier::external_body]
fn validate_length(value: &String, min: Option<u64>, max: Option<u64>) -> (ok: bool)
    ensures
        ok == ((min matches Some(m) ==> m <= value@.len()) && (max matches Some(m) ==> value@.len()
            <= m)),
{
    validator::ValidateLength::validate_length(value, min, max, None)
}

/// Whether a nickname of these characters is valid.
pub open spec fn nickname_is_valid(value: Seq<char>) -> bool {
    NICKNAME_MIN_LENGTH <= value.len() <= NICKNAME_MAX_LENGTH
}

/// A user's nickname.
#[derive(Debug, PartialEq, Eq, Hash)]
pub struct UserNickname(String);

impl View for UserNickname {
    type V = Seq<char>;

    closed spec fn view(&self) -> Seq<char> {
        self.0@
    }
}

impl Clone for UserNickname {
    fn clone(&self) -> (r: Self)
        ensures
            r@ == self@,
    {
        UserNickname(self.0.clone())
    }
}

/// Why a nickname was refused: the field, the rule it broke, and the rule's
/// bounds.
#[derive(Debug, Clone, PartialEq, Eq)]
pub struct NicknameValidationError {
    pub field: String,
    pub code: String,
    pub min: u64,
    pub max: u64,
}

impl UserNickname {
    /// A nickname with the given text; it is not validated.
    pub fn new(value: String) -> (r: Self)
        ensures
            r@ == value@,
    {
        UserNickname(value)
    }

    /// The nickname's text.
    pub fn get_value(&self) -> (r: &String)
        ensures
            r@ == self@,
    {
        &self.0
    }

    /// The nickname's text, as a new string.
    pub fn to_string(&self) -> (r: String)
        ensures
            r@ == self@,
    {
        self.0.clone()
    }

    /// Checks the length rule: `Ok` exactly when the nickname has from 1 to 20
    /// characters; else the error names the field `value`, the rule `length`
    /// and its bounds 1 and 20.
    pub fn validate(&self) -> (r: Result<(), NicknameValidationError>)
        ensures
            r is Ok <==> nickname_is_valid(self@),
            r matches Err(e) ==> {
                &&& e.field@ == "value"@
                &&& e.code@ == "length"@
                &&& e.min == NICKNAME_MIN_LENGTH
                &&& e.max == NICKNAME_MAX_LENGTH
            },
    {
        if !validate_length(&self.0, Some(NICKNAME_MIN_LENGTH), Some(NICKNAME_MAX_LENGTH)) {
            return Err(
                NicknameValidationError {
                    field: text("value"),
                    code: text("length"),
                    min: NICKNAME_MIN_LENGTH,
                    max: NICKNAME_MAX_LENGTH,
                },
            );
        }
        Ok(())
    }
}

} // verus!

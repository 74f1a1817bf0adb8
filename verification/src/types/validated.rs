//! Validated types with construction-time guarantees.
//!
//! Once created, these types are valid: each carries its rule as a type
//! invariant, and every accessor hands the rule on to its caller.

use vstd::prelude::*;
use vstd::string::*;
use crate::text::{
    chars_of, decimal, decimal_string, is_trimmed, law_trim_drops_exactly_white_space,
    law_white_space_characters, lemma_trim_idempotent, trim, trim_to_string,
};

verus! {

/// Why a value was refused.
#[derive(Debug, Clone, PartialEq, Eq)]
pub enum ValidationError {
    TooLong { max: usize, actual: usize },
    TooShort { min: usize, actual: usize },
    Empty,
    InvalidFormat(String),
}

impl ValidationError {
    /// The text that describes the error.
    pub open spec fn message(&self) -> Seq<char> {
        match self {
            ValidationError::TooLong { max, actual } => "String too long: max "@ + decimal(
                *max as nat,
            ) + ", got "@ + decimal(*actual as nat),
            ValidationError::TooShort { min, actual } => "String too short: min "@ + decimal(
                *min as nat,
            ) + ", got "@ + decimal(*actual as nat),
            ValidationError::Empty => "String is empty"@,
            ValidationError::InvalidFormat(detail) => "Invalid format: "@ + detail@,
        }
    }

    /// Describes the error.
    pub fn to_string(&self) -> (r: String)
        ensures
            r@ == self.message(),
    {
        match self {
            ValidationError::TooLong { max, actual } => {
                let mut r = String::from_str("String too long: max ");
                r.append(decimal_string(*max as u64).as_str());
                r.append(", got ");
                r.append(decimal_string(*actual as u64).as_str());
                r
            },
            ValidationError::TooShort { min, actual } => {
                let mut r = String::from_str("String too short: min ");
                r.append(decimal_string(*min as u64).as_str());
                r.append(", got ");
                r.append(decimal_string(*actual as u64).as_str());
                r
            },
            ValidationError::Empty => String::from_str("String is empty"),
            ValidationError::InvalidFormat(detail) => {
                let mut r = String::from_str("Invalid format: ");
                r.append(detail.as_str());
                r
            },
        }
    }
}

/// A text that is not empty, has no leading or trailing whitespace, and
/// has at most `max` characters.
pub open spec fn is_bounded_text(s: Seq<char>, max: nat) -> bool {
    &&& s.len() > 0
    &&& s.len() <= max
    &&& is_trimmed(s)
}

/// What `create` makes of `s` for the bound `max`: the trimmed text, or the
/// error that refuses it.
pub open spec fn bounded_outcome(s: Seq<char>, max: usize) -> Result<Seq<char>, ValidationError> {
    let t = trim(s);
    if t.len() == 0 {
        Err(ValidationError::Empty)
    } else if t.len() > max {
        Err(ValidationError::TooLong { max: max, actual: t.len() as usize })
    } else {
        Ok(t)
    }
}

/// Validating a value again gives it back unchanged: a text that a bounded
/// type holds is accepted as it is by `create` for the same bound.
pub proof fn law_valid_text_revalidates(s: Seq<char>, max: usize)
    requires
        is_bounded_text(s, max as nat),
    ensures
        bounded_outcome(s, max) == Ok::<Seq<char>, ValidationError>(s),
{
}

/// Whitespace at either end of a text is no part of it: adding a tab, a line
/// feed, a vertical tab, a form feed, a carriage return, a space or any other
/// character of the Unicode `White_Space` property at the end or at the start
/// of a text changes neither the text that `create` accepts nor the error
/// that refuses it. So `"alice\r\n"` is accepted as `"alice"`, and a text of
/// whitespace alone is refused as empty.
pub proof fn law_create_ignores_white_space_at_ends(s: Seq<char>, c: char, max: usize)
    requires
        c == '\t' || c == '\n' || c == '\u{0B}' || c == '\u{0C}' || c == '\r' || c == ' '
            || c == '\u{85}' || c == '\u{A0}' || c == '\u{1680}' || c == '\u{2000}' || c
            == '\u{2001}' || c == '\u{2002}' || c == '\u{2003}' || c == '\u{2004}' || c
            == '\u{2005}' || c == '\u{2006}' || c == '\u{2007}' || c == '\u{2008}' || c
            == '\u{2009}' || c == '\u{200A}' || c == '\u{2028}' || c == '\u{2029}' || c
            == '\u{202F}' || c == '\u{205F}' || c == '\u{3000}',
    ensures
        bounded_outcome(s.push(c), max) == bounded_outcome(s, max),
        bounded_outcome(seq![c] + s, max) == bounded_outcome(s, max),
{
    law_white_space_characters(c);
    law_trim_drops_exactly_white_space(s, c);
}

/// A character that is not whitespace, added at the end of a text, is the
/// last character of what `create` keeps: such a text is never refused as
/// empty.
pub proof fn law_create_keeps_other_last_character(s: Seq<char>, c: char, max: usize)
    requires
        c != '\t' && c != '\n' && c != '\u{0B}' && c != '\u{0C}' && c != '\r' && c != ' '
            && c != '\u{85}' && c != '\u{A0}' && c != '\u{1680}' && !('\u{2000}' <= c
            <= '\u{200A}') && c != '\u{2028}' && c != '\u{2029}' && c != '\u{202F}' && c
            != '\u{205F}' && c != '\u{3000}',
    ensures
        bounded_outcome(s.push(c), max) != Err::<Seq<char>, ValidationError>(
            ValidationError::Empty,
        ),
        bounded_outcome(s.push(c), max) matches Ok(t) ==> t.last() == c,
{
    law_white_space_characters(c);
    law_trim_drops_exactly_white_space(s, c);
}

/// Trims `s` and checks that what is left is not empty and has at most
/// `max` characters.
fn check_bounded(s: String, max: usize) -> (r: Result<String, ValidationError>)
    ensures
        match (r, bounded_outcome(s@, max)) {
            (Ok(v), Ok(t)) => v@ == t && is_bounded_text(t, max as nat),
            (Err(e), Err(f)) => e == f,
            _ => false,
        },
{
    let trimmed = trim_to_string(s.as_str());
    proof {
        lemma_trim_idempotent(s@);
    }
    let length = chars_of(trimmed.as_str()).len();
    if length == 0 {
        Err(ValidationError::Empty)
    } else if length > max {
        Err(ValidationError::TooLong { max: max, actual: length })
    } else {
        Ok(trimmed)
    }
}

/// Text of at most 100 characters, trimmed and not empty.
#[derive(Debug, PartialEq, Eq)]
pub struct String100(String);

impl Clone for String100 {
    fn clone(&self) -> (r: Self)
        ensures
            r@ == self@,
    {
        proof {
            use_type_invariant(self);
        }
        String100(self.0.clone())
    }
}

impl View for String100 {
    type V = Seq<char>;

    closed spec fn view(&self) -> Seq<char> {
        self.0@
    }
}

impl String100 {
    #[verifier::type_invariant]
    spec fn well_formed(self) -> bool {
        is_bounded_text(self.0@, 100)
    }

    /// Trims `s` and accepts it if what is left is not empty and has at
    /// most 100 characters.
    pub fn create(s: String) -> (r: Result<Self, ValidationError>)
        ensures
            match (r, bounded_outcome(s@, 100)) {
                (Ok(v), Ok(t)) => v@ == t,
                (Err(e), Err(f)) => e == f,
                _ => false,
            },
    {
        match check_bounded(s, 100) {
            Ok(text) => Ok(String100(text)),
            Err(e) => Err(e),
        }
    }

    /// The text.
    pub fn as_str(&self) -> (r: &str)
        ensures
            r@ == self@,
            is_bounded_text(self@, 100),
    {
        proof {
            use_type_invariant(self);
        }
        self.0.as_str()
    }

    /// The text, as an owned `String`.
    pub fn into_inner(self) -> (r: String)
        ensures
            r@ == self@,
            is_bounded_text(self@, 100),
    {
        proof {
            use_type_invariant(&self);
        }
        self.0
    }

    /// The text, as `Display` writes it.
    pub fn to_string(&self) -> (r: String)
        ensures
            r@ == self@,
    {
        String::from_str(self.0.as_str())
    }
}

/// Text of at most 1000 characters, trimmed and not empty.
#[derive(Debug, PartialEq, Eq)]
pub struct String1000(String);

impl Clone for String1000 {
    fn clone(&self) -> (r: Self)
        ensures
            r@ == self@,
    {
        proof {
            use_type_invariant(self);
        }
        String1000(self.0.clone())
    }
}

impl View for String1000 {
    type V = Seq<char>;

    closed spec fn view(&self) -> Seq<char> {
        self.0@
    }
}

impl String1000 {
    #[verifier::type_invariant]
    spec fn well_formed(self) -> bool {
        is_bounded_text(self.0@, 1000)
    }

    /// Trims `s` and accepts it if what is left is not empty and has at
    /// most 1000 characters.
    pub fn create(s: String) -> (r: Result<Self, ValidationError>)
        ensures
            match (r, bounded_outcome(s@, 1000)) {
                (Ok(v), Ok(t)) => v@ == t,
                (Err(e), Err(f)) => e == f,
                _ => false,
            },
    {
        match check_bounded(s, 1000) {
            Ok(text) => Ok(String1000(text)),
            Err(e) => Err(e),
        }
    }

    /// The text.
    pub fn as_str(&self) -> (r: &str)
        ensures
            r@ == self@,
            is_bounded_text(self@, 1000),
    {
        proof {
            use_type_invariant(self);
        }
        self.0.as_str()
    }

    /// The text, as an owned `String`.
    pub fn into_inner(self) -> (r: String)
        ensures
            r@ == self@,
            is_bounded_text(self@, 1000),
    {
        proof {
            use_type_invariant(&self);
        }
        self.0
    }

    /// The text, as `Display` writes it.
    pub fn to_string(&self) -> (r: String)
        ensures
            r@ == self@,
    {
        String::from_str(self.0.as_str())
    }
}

/// An integer that is zero or more.
#[derive(Debug, Clone, Copy, PartialEq, Eq, PartialOrd, Ord)]
pub struct NonNegativeInt(i32);

impl View for NonNegativeInt {
    type V = i32;

    closed spec fn view(&self) -> i32 {
        self.0
    }
}

impl NonNegativeInt {
    #[verifier::type_invariant]
    spec fn well_formed(self) -> bool {
        self.0 >= 0
    }

    /// Accepts `value` if it is zero or more.
    pub fn create(value: i32) -> (r: Option<Self>)
        ensures
            r is Some <==> value >= 0,
            r matches Some(v) ==> v@ == value,
    {
        if value >= 0 {
            Some(NonNegativeInt(value))
        } else {
            None
        }
    }

    /// The number.
    pub fn value(&self) -> (r: i32)
        ensures
            r == self@,
            r >= 0,
    {
        proof {
            use_type_invariant(self);
        }
        self.0
    }

    /// The number in decimal, as `Display` writes it.
    pub fn to_string(&self) -> (r: String)
        ensures
            r@ == decimal(self@ as nat),
    {
        proof {
            use_type_invariant(self);
        }
        decimal_string(self.0 as u64)
    }
}

/// An integer that is more than zero.
#[derive(Debug, Clone, Copy, PartialEq, Eq, PartialOrd, Ord)]
pub struct PositiveInt(i32);

impl View for PositiveInt {
    type V = i32;

    closed spec fn view(&self) -> i32 {
        self.0
    }
}

impl PositiveInt {
    #[verifier::type_invariant]
    spec fn well_formed(self) -> bool {
        self.0 > 0
    }

    /// Accepts `value` if it is more than zero.
    pub fn create(value: i32) -> (r: Option<Self>)
        ensures
            r is Some <==> value > 0,
            r matches Some(v) ==> v@ == value,
    {
        if value > 0 {
            Some(PositiveInt(value))
        } else {
            None
        }
    }

    /// The number.
    pub fn value(&self) -> (r: i32)
        ensures
            r == self@,
            r > 0,
    {
        proof {
            use_type_invariant(self);
        }
        self.0
    }

    /// The number in decimal, as `Display` writes it.
    pub fn to_string(&self) -> (r: String)
        ensures
            r@ == decimal(self@ as nat),
    {
        proof {
            use_type_invariant(self);
        }
        decimal_string(self.0 as u64)
    }
}

} // verus!

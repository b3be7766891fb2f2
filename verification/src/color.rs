//! The closed set of vote categories and the recognizer for inbound tokens.

use vstd::prelude::*;

use crate::strutil::str_eq;

verus! {

/// A vote category. Inbound frames are accepted only when their whole
/// payload equals one of the four category tokens.
#[derive(Clone, Copy, PartialEq, Eq, Structural, Debug)]
pub enum Color {
    Red,
    Green,
    Blue,
    Purple,
}

/// The wire token of a category.
pub open spec fn spec_token(c: Color) -> Seq<char> {
    match c {
        Color::Red => "red"@,
        Color::Green => "green"@,
        Color::Blue => "blue"@,
        Color::Purple => "purple"@,
    }
}

/// What an inbound payload parses to: a category when it equals that
/// category's token exactly, nothing otherwise.
pub open spec fn spec_parse_color(s: Seq<char>) -> Option<Color> {
    if s == "red"@ {
        Some(Color::Red)
    } else if s == "green"@ {
        Some(Color::Green)
    } else if s == "blue"@ {
        Some(Color::Blue)
    } else if s == "purple"@ {
        Some(Color::Purple)
    } else {
        None
    }
}

/// Recognize an inbound payload as a category token.
pub fn parse_color(s: &str) -> (r: Option<Color>)
    ensures
        r == spec_parse_color(s@),
{
    if str_eq(s, "red") {
        Some(Color::Red)
    } else if str_eq(s, "green") {
        Some(Color::Green)
    } else if str_eq(s, "blue") {
        Some(Color::Blue)
    } else if str_eq(s, "purple") {
        Some(Color::Purple)
    } else {
        None
    }
}

/// The exec token of a category, equal to `spec_token`.
pub fn token(c: Color) -> (r: &'static str)
    ensures
        r@ == spec_token(c),
{
    match c {
        Color::Red => "red",
        Color::Green => "green",
        Color::Blue => "blue",
        Color::Purple => "purple",
    }
}

/// A parsed token is the token of the category it parses to.
pub proof fn lemma_parse_token_inverse(c: Color)
    ensures
        spec_parse_color(spec_token(c)) == Some(c),
{
    reveal_strlit("red");
    reveal_strlit("green");
    reveal_strlit("blue");
    reveal_strlit("purple");
    match c {
        Color::Red => {
            assert(spec_parse_color(spec_token(c)) == Some(Color::Red));
        }
        Color::Green => {
            assert(spec_token(c).len() != "red"@.len());
            assert(spec_parse_color(spec_token(c)) == Some(Color::Green));
        }
        Color::Blue => {
            assert(spec_token(c).len() != "red"@.len());
            assert(spec_token(c).len() != "green"@.len());
            assert(spec_parse_color(spec_token(c)) == Some(Color::Blue));
        }
        Color::Purple => {
            assert(spec_token(c).len() != "red"@.len());
            assert(spec_token(c).len() != "green"@.len());
            assert(spec_token(c).len() != "blue"@.len());
            assert(spec_parse_color(spec_token(c)) == Some(Color::Purple));
        }
    }
}

} // verus!

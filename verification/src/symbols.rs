//! The fixed symbol table: maps a markup command name to the single character
//! it stands for. Any unmapped name resolves to a plain space.

use vstd::prelude::*;
use crate::text::chars_eq;

verus! {

/// The replacement character for the command name `key`: a small set of Greek
/// letters, math operators, a literal backslash, and a zero-width marker used
/// internally for horizontal rules; anything else resolves to a space.
pub open spec fn symbol_for(key: Seq<char>) -> char {
    if key == "kappa"@ {
        '\u{03f0}'
    } else if key == "lambda"@ {
        '\u{03bb}'
    } else if key == "mu"@ {
        '\u{03bc}'
    } else if key == "alpha"@ {
        '\u{03b1}'
    } else if key == "beta"@ {
        '\u{03b2}'
    } else if key == "gamma"@ {
        '\u{03b3}'
    } else if key == "leq"@ {
        '\u{2264}'
    } else if key == "cdot"@ {
        '\u{00b7}'
    } else if key == "in"@ {
        '\u{220a}'
    } else if key == "infty"@ {
        '\u{221e}'
    } else if key == "textbackslash"@ {
        '\\'
    } else if key == "hline"@ {
        '\u{200b}'
    } else {
        ' '
    }
}

/// Resolves a command name through the symbol table.
pub fn special_char(key: &Vec<char>) -> (c: char)
    ensures
        c == symbol_for(key@),
{
    if chars_eq(key, "kappa") {
        '\u{03f0}'
    } else if chars_eq(key, "lambda") {
        '\u{03bb}'
    } else if chars_eq(key, "mu") {
        '\u{03bc}'
    } else if chars_eq(key, "alpha") {
        '\u{03b1}'
    } else if chars_eq(key, "beta") {
        '\u{03b2}'
    } else if chars_eq(key, "gamma") {
        '\u{03b3}'
    } else if chars_eq(key, "leq") {
        '\u{2264}'
    } else if chars_eq(key, "cdot") {
        '\u{00b7}'
    } else if chars_eq(key, "in") {
        '\u{220a}'
    } else if chars_eq(key, "infty") {
        '\u{221e}'
    } else if chars_eq(key, "textbackslash") {
        '\\'
    } else if chars_eq(key, "hline") {
        '\u{200b}'
    } else {
        ' '
    }
}

} // verus!

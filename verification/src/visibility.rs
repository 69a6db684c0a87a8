//! The visibility group.

use vstd::prelude::*;
use vstd::string::StringExecFns;
use crate::decimals::decimal_parts;
use crate::decimals::push_shortest_decimal;
use crate::decimals::read_decimal;
use crate::decimals::shortest_decimal;
use crate::numbers::decimal;
use crate::numbers::parse_unsigned;
use crate::numbers::push_decimal;
use crate::numbers::unsigned;
use crate::text::ends;
use crate::text::ends_with;
use crate::text::equals;
use crate::text::part;
use crate::tokens::Tokens;

verus! {

/// Whether a token says that ceiling and visibility are fine.
pub open spec fn is_cavok(token: Seq<char>) -> bool {
    token == "CAVOK"@
}

/// Whether a token is taken for a visibility group: it is `9999`, it ends in
/// `SM`, or it is a number.
pub open spec fn is_visibility(token: Seq<char>) -> bool {
    token == "9999"@ || ends_with(token, "SM"@) || unsigned(token) is Some
}

/// A visibility group in words: `9999` stands for ten kilometers or more; a
/// number before `SM`, with or without a decimal point, is in statute miles; a
/// whole number alone is in meters, and is given in whole kilometers from 1000
/// on. Nothing where the token is none of these.
pub open spec fn visibility_text(token: Seq<char>) -> Seq<char> {
    if token == "9999"@ {
        "10 kilometers or more"@
    } else if ends_with(token, "SM"@) {
        match decimal_parts(token.subrange(0, token.len() - 2)) {
            Some((whole, fraction)) => shortest_decimal(whole, fraction) + " statute miles"@,
            None => Seq::empty(),
        }
    } else {
        match unsigned(token) {
            Some(meters) => if meters >= 1000 {
                decimal((meters / 1000) as nat) + " kilometers"@
            } else {
                decimal(meters as nat) + " meters"@
            },
            None => Seq::empty(),
        }
    }
}

/// The visibility that the tokens give at index `at`, in words.
pub open spec fn visibility_at(tokens: Seq<Seq<char>>, at: int) -> Seq<char> {
    if 0 <= at < tokens.len() {
        visibility_text(tokens[at])
    } else {
        Seq::empty()
    }
}

/// The index of the first token after the visibility at index `at`: `at`
/// itself where the token there is not taken for a visibility group.
pub open spec fn past_visibility(tokens: Seq<Seq<char>>, at: int) -> int {
    if 0 <= at < tokens.len() && is_visibility(tokens[at]) {
        at + 1
    } else {
        at
    }
}

/// Reads the visibility at index `at`: the visibility in words, nothing where
/// none is understood, and the index of the first token after it.
pub fn decode_visibility(tokens: &Tokens, at: usize) -> (found: (String, usize))
    ensures
        found.0@ == visibility_at(tokens@, at as int),
        found.1 == past_visibility(tokens@, at as int),
        at <= found.1,
        at <= tokens@.len() ==> found.1 <= tokens@.len(),
{
    if at >= tokens.len() {
        return (String::new(), at);
    }
    let token = tokens.word(at);
    if equals(token, "9999") {
        (String::from_str("10 kilometers or more"), at + 1)
    } else if ends(token, "SM") {
        proof {
            reveal_strlit("SM");
        }
        match read_decimal(part(token, 0, token.len() - 2)) {
            Some((whole, fraction)) => {
                let mut text = String::new();
                push_shortest_decimal(&mut text, whole, fraction);
                text.append(" statute miles");
                (text, at + 1)
            },
            None => (String::new(), at + 1),
        }
    } else {
        match parse_unsigned(token) {
            Some(meters) => {
                let mut text = String::new();
                if meters >= 1000 {
                    push_decimal(&mut text, (meters / 1000) as u64);
                    text.append(" kilometers");
                } else {
                    push_decimal(&mut text, meters as u64);
                    text.append(" meters");
                }
                (text, at + 1)
            },
            None => (String::new(), at),
        }
    }
}

} // verus!

//! The cloud groups.

use vstd::prelude::*;
use vstd::string::StringExecFns;
use crate::numbers::decimal;
use crate::numbers::parse_unsigned;
use crate::numbers::push_decimal;
use crate::numbers::unsigned;
use crate::text::begins;
use crate::text::ends;
use crate::text::ends_with;
use crate::text::holds;
use crate::text::join;
use crate::text::joined;
use crate::text::part;
use crate::text::starts_with;
use crate::text::texts;
use crate::tokens::Tokens;

verus! {

/// What a token adds to the description of the sky.
pub enum Sky {
    /// A statement on the whole sky, after which no cloud group is read.
    Closing(Seq<char>),
    /// One layer.
    Layer(Seq<char>),
    /// Nothing: the token is passed over.
    Nothing,
    /// Nothing: the token belongs to the sections that follow.
    Handoff,
}

/// The amount of cloud that a layer's group begins with, in words.
pub open spec fn coverage_of(token: Seq<char>) -> Option<Seq<char>> {
    if starts_with(token, "FEW"@) {
        Some("Few"@)
    } else if starts_with(token, "SCT"@) {
        Some("Scattered"@)
    } else if starts_with(token, "BKN"@) {
        Some("Broken"@)
    } else if starts_with(token, "OVC"@) {
        Some("Overcast"@)
    } else {
        None
    }
}

/// The kind of cloud that a layer's group ends with, in words.
pub open spec fn cloud_kind(token: Seq<char>) -> Seq<char> {
    if ends_with(token, "CB"@) {
        " (cumulonimbus)"@
    } else if ends_with(token, "TCU"@) {
        " (towering cumulus)"@
    } else {
        Seq::empty()
    }
}

/// Whether a token belongs to the sections after the clouds: it begins with
/// `A`, `Q`, `T`, `M`, `RMK` or `NOSIG`, or it holds a slash and has seven
/// characters at most.
pub open spec fn ends_clouds(token: Seq<char>) -> bool {
    ||| starts_with(token, "A"@)
    ||| starts_with(token, "Q"@)
    ||| starts_with(token, "T"@)
    ||| starts_with(token, "M"@)
    ||| starts_with(token, "RMK"@)
    ||| starts_with(token, "NOSIG"@)
    ||| (token.contains('/') && token.len() <= 7)
}

/// The vertical visibility that a group beginning with `VV` gives, in words.
/// The height is the number in the three characters after `VV`, in hundreds
/// of feet; a group too short to hold one says only that the sky is obscured.
pub open spec fn obscured_sky(token: Seq<char>) -> Sky {
    if token.len() >= 5 {
        match unsigned(token.subrange(2, 5)) {
            Some(height) => Sky::Layer(
                "Sky obscured, vertical visibility "@ + decimal(height as nat * 100) + " feet"@,
            ),
            None => Sky::Nothing,
        }
    } else {
        Sky::Layer("Sky obscured"@)
    }
}

/// The layer that a group beginning with an amount of cloud gives, in words.
/// The height is the number in the three characters after the amount, in
/// hundreds of feet.
pub open spec fn cloud_layer(token: Seq<char>, coverage: Seq<char>) -> Sky {
    if token.len() >= 6 {
        match unsigned(token.subrange(3, 6)) {
            Some(height) => Sky::Layer(
                coverage + " at "@ + decimal(height as nat * 100) + " feet"@ + cloud_kind(token),
            ),
            None => Sky::Nothing,
        }
    } else {
        Sky::Nothing
    }
}

/// What a token adds to the description of the sky.
pub open spec fn sky_of(token: Seq<char>) -> Sky {
    if starts_with(token, "SKC"@) {
        Sky::Closing("Sky clear"@)
    } else if starts_with(token, "CLR"@) {
        Sky::Closing("Clear below 12,000 feet"@)
    } else if starts_with(token, "NSC"@) {
        Sky::Closing("No significant cloud"@)
    } else if starts_with(token, "NCD"@) {
        Sky::Closing("No cloud detected"@)
    } else if starts_with(token, "VV"@) {
        obscured_sky(token)
    } else if coverage_of(token) is Some {
        cloud_layer(token, coverage_of(token)->0)
    } else if ends_clouds(token) {
        Sky::Handoff
    } else {
        Sky::Nothing
    }
}

/// The index of the first token from `at` on that is left to the sections
/// after the clouds: the one after a statement on the whole sky, or the first
/// that belongs to those sections.
pub open spec fn past_clouds(tokens: Seq<Seq<char>>, at: int) -> int
    decreases tokens.len() - at,
{
    if 0 <= at < tokens.len() {
        match sky_of(tokens[at]) {
            Sky::Closing(_) => at + 1,
            Sky::Handoff => at,
            _ => past_clouds(tokens, at + 1),
        }
    } else {
        at
    }
}

/// What the tokens from index `at` on say of the sky, statement by statement.
pub open spec fn cloud_parts(tokens: Seq<Seq<char>>, at: int) -> Seq<Seq<char>>
    decreases tokens.len() - at,
{
    if 0 <= at < tokens.len() {
        match sky_of(tokens[at]) {
            Sky::Closing(words) => seq![words],
            Sky::Handoff => Seq::empty(),
            Sky::Layer(words) => seq![words] + cloud_parts(tokens, at + 1),
            Sky::Nothing => cloud_parts(tokens, at + 1),
        }
    } else {
        Seq::empty()
    }
}

/// The clouds that the tokens give from index `at` on, in words: what they
/// say of the sky, with a comma between each two statements, or "No cloud
/// information".
pub open spec fn clouds_at(tokens: Seq<Seq<char>>, at: int) -> Seq<char> {
    if cloud_parts(tokens, at).len() == 0 {
        "No cloud information"@
    } else {
        joined(cloud_parts(tokens, at), ", "@)
    }
}

/// What a token adds to the description of the sky, as text to keep.
pub enum SkyStep {
    /// A statement on the whole sky, after which no cloud group is read.
    Closing(String),
    /// One layer.
    Layer(String),
    /// Nothing: the token is passed over.
    Nothing,
    /// Nothing: the token belongs to the sections that follow.
    Handoff,
}

impl View for SkyStep {
    type V = Sky;

    open spec fn view(&self) -> Sky {
        match self {
            SkyStep::Closing(words) => Sky::Closing(words@),
            SkyStep::Layer(words) => Sky::Layer(words@),
            SkyStep::Nothing => Sky::Nothing,
            SkyStep::Handoff => Sky::Handoff,
        }
    }
}

/// The amount of cloud that a layer's group begins with, in words.
fn read_coverage(token: &[char]) -> (coverage: Option<&'static str>)
    ensures
        coverage is Some <==> coverage_of(token@) is Some,
        coverage matches Some(words) ==> coverage_of(token@) == Some(words@),
{
    if begins(token, "FEW") {
        Some("Few")
    } else if begins(token, "SCT") {
        Some("Scattered")
    } else if begins(token, "BKN") {
        Some("Broken")
    } else if begins(token, "OVC") {
        Some("Overcast")
    } else {
        None
    }
}

/// Whether a token belongs to the sections after the clouds.
fn closes_clouds(token: &[char]) -> (closes: bool)
    ensures
        closes == ends_clouds(token@),
{
    begins(token, "A") || begins(token, "Q") || begins(token, "T") || begins(token, "M") || begins(
        token,
        "RMK",
    ) || begins(token, "NOSIG") || (holds(token, '/') && token.len() <= 7)
}

/// Reads what a token adds to the description of the sky.
pub fn read_sky(token: &[char]) -> (step: SkyStep)
    ensures
        step@ == sky_of(token@),
{
    if begins(token, "SKC") {
        SkyStep::Closing(String::from_str("Sky clear"))
    } else if begins(token, "CLR") {
        SkyStep::Closing(String::from_str("Clear below 12,000 feet"))
    } else if begins(token, "NSC") {
        SkyStep::Closing(String::from_str("No significant cloud"))
    } else if begins(token, "NCD") {
        SkyStep::Closing(String::from_str("No cloud detected"))
    } else if begins(token, "VV") {
        if token.len() >= 5 {
            match parse_unsigned(part(token, 2, 5)) {
                Some(height) => {
                    let mut words = String::from_str("Sky obscured, vertical visibility ");
                    push_decimal(&mut words, height as u64 * 100);
                    words.append(" feet");
                    SkyStep::Layer(words)
                },
                None => SkyStep::Nothing,
            }
        } else {
            SkyStep::Layer(String::from_str("Sky obscured"))
        }
    } else {
        match read_coverage(token) {
            Some(coverage) => {
                if token.len() >= 6 {
                    match parse_unsigned(part(token, 3, 6)) {
                        Some(height) => {
                            let mut words = String::from_str(coverage);
                            words.append(" at ");
                            push_decimal(&mut words, height as u64 * 100);
                            words.append(" feet");
                            if ends(token, "CB") {
                                words.append(" (cumulonimbus)");
                            } else if ends(token, "TCU") {
                                words.append(" (towering cumulus)");
                            }
                            SkyStep::Layer(words)
                        },
                        None => SkyStep::Nothing,
                    }
                } else {
                    SkyStep::Nothing
                }
            },
            None => {
                if closes_clouds(token) {
                    SkyStep::Handoff
                } else {
                    SkyStep::Nothing
                }
            },
        }
    }
}

/// Reads the clouds from index `at` on: the clouds in words, and the index of
/// the first token that is left to the sections after them.
pub fn decode_clouds(tokens: &Tokens, at: usize) -> (found: (String, usize))
    ensures
        found.0@ == clouds_at(tokens@, at as int),
        found.1 == past_clouds(tokens@, at as int),
        at <= found.1,
        at <= tokens@.len() ==> found.1 <= tokens@.len(),
{
    let mut parts: Vec<String> = Vec::new();
    let mut i: usize = at;
    while i < tokens.len()
        invariant_except_break
            cloud_parts(tokens@, at as int) == texts(parts@) + cloud_parts(tokens@, i as int),
            past_clouds(tokens@, at as int) == past_clouds(tokens@, i as int),
        invariant
            at <= i,
            i <= tokens@.len() || i == at,
        ensures
            at <= i,
            i <= tokens@.len() || i == at,
            cloud_parts(tokens@, at as int) == texts(parts@),
            past_clouds(tokens@, at as int) == i,
        decreases tokens@.len() - i,
    {
        match read_sky(tokens.word(i)) {
            SkyStep::Closing(words) => {
                parts.push(words);
                i += 1;
                break;
            },
            SkyStep::Layer(words) => {
                parts.push(words);
                i += 1;
            },
            SkyStep::Nothing => {
                i += 1;
            },
            SkyStep::Handoff => {
                break;
            },
        }
    }
    if parts.len() == 0 {
        (String::from_str("No cloud information"), i)
    } else {
        (join(&parts, ", "), i)
    }
}

} // verus!

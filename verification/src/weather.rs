//! Present-weather groups: telling them from other tokens, and putting one
//! into words.

use vstd::prelude::*;
use vstd::string::StrSliceExecFns;
use crate::text::begins;
use crate::text::chars_of;
use crate::text::contains_word;
use crate::text::holds;
use crate::text::holds_word;
use crate::text::join;
use crate::text::joined;
use crate::text::texts;
use crate::tokens::Tokens;
use vstd::string::StringExecFns;
use crate::text::starts_with;
use crate::text::string_of;
use crate::text::trim;
use crate::text::trimmed;

verus! {

/// Whether `code` looks like a cloud group, a pressure group or a fraction,
/// none of which is searched for weather codes.
pub open spec fn is_set_aside(code: Seq<char>) -> bool {
    ||| starts_with(code, "SKC"@)
    ||| starts_with(code, "CLR"@)
    ||| starts_with(code, "FEW"@)
    ||| starts_with(code, "SCT"@)
    ||| starts_with(code, "BKN"@)
    ||| starts_with(code, "OVC"@)
    ||| starts_with(code, "VV"@)
    ||| starts_with(code, "NSC"@)
    ||| starts_with(code, "NCD"@)
    ||| starts_with(code, "A"@)
    ||| starts_with(code, "Q"@)
    ||| code.contains('/')
}

/// The two-letter codes of phenomena and descriptors.
pub open spec fn weather_codes() -> Seq<Seq<char>> {
    seq![
        "RA"@,
        "SN"@,
        "DZ"@,
        "PL"@,
        "GR"@,
        "GS"@,
        "UP"@,
        "IC"@,
        "SG"@,
        "BR"@,
        "FG"@,
        "FU"@,
        "VA"@,
        "DU"@,
        "SA"@,
        "HZ"@,
        "PY"@,
        "SQ"@,
        "FC"@,
        "SS"@,
        "DS"@,
        "PO"@,
        "MI"@,
        "BC"@,
        "DR"@,
        "BL"@,
        "SH"@,
        "TS"@,
        "FZ"@,
        "PR"@,
    ]
}

/// Whether `code` holds a weather code: it is not set aside, and one of the
/// two-letter codes stands somewhere in it.
pub open spec fn holds_weather_code(code: Seq<char>) -> bool {
    &&& !is_set_aside(code)
    &&& exists|k: int| 0 <= k < weather_codes().len() && contains_word(code, weather_codes()[k])
}

/// The two-letter codes, as a list to search with.
fn code_list() -> (codes: Vec<&'static str>)
    ensures
        codes@.len() == weather_codes().len(),
        forall|k: int| 0 <= k < codes@.len() ==> codes@[k]@ == weather_codes()[k],
{
    let codes = vec![
        "RA",
        "SN",
        "DZ",
        "PL",
        "GR",
        "GS",
        "UP",
        "IC",
        "SG",
        "BR",
        "FG",
        "FU",
        "VA",
        "DU",
        "SA",
        "HZ",
        "PY",
        "SQ",
        "FC",
        "SS",
        "DS",
        "PO",
        "MI",
        "BC",
        "DR",
        "BL",
        "SH",
        "TS",
        "FZ",
        "PR",
    ];
    codes
}

/// Whether the characters of a token hold a weather code.
pub fn has_weather_code(code: &[char]) -> (found: bool)
    ensures
        found == holds_weather_code(code@),
{
    if begins(code, "SKC") || begins(code, "CLR") || begins(code, "FEW") || begins(code, "SCT")
        || begins(code, "BKN") || begins(code, "OVC") || begins(code, "VV") || begins(code, "NSC")
        || begins(code, "NCD") || begins(code, "A") || begins(code, "Q") || holds(code, '/') {
        return false;
    }
    let codes = code_list();
    let mut k: usize = 0;
    while k < codes.len()
        invariant
            k <= codes@.len(),
            !is_set_aside(code@),
            codes@.len() == weather_codes().len(),
            forall|j: int| 0 <= j < codes@.len() ==> codes@[j]@ == weather_codes()[j],
            forall|j: int| 0 <= j < k ==> !contains_word(code@, weather_codes()[j]),
        decreases codes@.len() - k,
    {
        if holds_word(code, codes[k]) {
            return true;
        }
        k += 1;
    }
    false
}

/// Checks whether a token holds a weather code such as `RA` for rain or `SN`
/// for snow.
pub fn is_weather_code(code: &str) -> (found: bool)
    ensures
        found == holds_weather_code(code@),
{
    let chars = chars_of(code);
    has_weather_code(chars.as_slice())
}

/// Whether `s` begins with the two characters `a` and `b`.
pub open spec fn begins_pair(s: Seq<char>, a: char, b: char) -> bool {
    s.len() >= 2 && s[0] == a && s[1] == b
}

/// The number of characters that the intensity at the start of a group takes.
pub open spec fn intensity_len(code: Seq<char>) -> int {
    if code.len() > 0 && (code[0] == '-' || code[0] == '+') {
        1
    } else if begins_pair(code, 'V', 'C') {
        2
    } else {
        0
    }
}

/// The intensity at the start of a group, in words.
pub open spec fn intensity_text(code: Seq<char>) -> Seq<char> {
    if code.len() > 0 && code[0] == '-' {
        "Light "@
    } else if code.len() > 0 && code[0] == '+' {
        "Heavy "@
    } else if begins_pair(code, 'V', 'C') {
        "In vicinity "@
    } else {
        Seq::empty()
    }
}

/// The descriptor that `s` begins with, in words, if it begins with one.
pub open spec fn descriptor_text(s: Seq<char>) -> Option<Seq<char>> {
    if begins_pair(s, 'M', 'I') {
        Some("Shallow "@)
    } else if begins_pair(s, 'B', 'C') {
        Some("Patches "@)
    } else if begins_pair(s, 'D', 'R') {
        Some("Low drifting "@)
    } else if begins_pair(s, 'B', 'L') {
        Some("Blowing "@)
    } else if begins_pair(s, 'S', 'H') {
        Some("Showers "@)
    } else if begins_pair(s, 'T', 'S') {
        Some("Thunderstorm "@)
    } else if begins_pair(s, 'F', 'Z') {
        Some("Freezing "@)
    } else if begins_pair(s, 'P', 'R') {
        Some("Partial "@)
    } else {
        None
    }
}

/// The phenomenon that `s` begins with, in words, if it begins with one.
pub open spec fn phenomenon_text(s: Seq<char>) -> Option<Seq<char>> {
    if begins_pair(s, 'D', 'Z') {
        Some("drizzle"@)
    } else if begins_pair(s, 'R', 'A') {
        Some("rain"@)
    } else if begins_pair(s, 'S', 'N') {
        Some("snow"@)
    } else if begins_pair(s, 'S', 'G') {
        Some("snow grains"@)
    } else if begins_pair(s, 'I', 'C') {
        Some("ice crystals"@)
    } else if begins_pair(s, 'G', 'R') {
        Some("hail"@)
    } else if begins_pair(s, 'P', 'L') {
        Some("ice pellets"@)
    } else if begins_pair(s, 'H', 'Z') {
        Some("haze"@)
    } else if begins_pair(s, 'F', 'U') {
        Some("smoke"@)
    } else if begins_pair(s, 'F', 'G') {
        Some("fog"@)
    } else if begins_pair(s, 'B', 'R') {
        Some("mist"@)
    } else if begins_pair(s, 'S', 'Q') {
        Some("squalls"@)
    } else if begins_pair(s, 'F', 'C') {
        Some("funnel cloud"@)
    } else if begins_pair(s, 'G', 'S') {
        Some("small hail/snow pellets"@)
    } else if begins_pair(s, 'U', 'P') {
        Some("unknown precipitation"@)
    } else if begins_pair(s, 'V', 'A') {
        Some("volcanic ash"@)
    } else if begins_pair(s, 'D', 'U') {
        Some("widespread dust"@)
    } else if begins_pair(s, 'S', 'A') {
        Some("sand"@)
    } else if begins_pair(s, 'P', 'O') {
        Some("dust/sand whirls"@)
    } else if begins_pair(s, 'S', 'S') {
        Some("sandstorm"@)
    } else if begins_pair(s, 'D', 'S') {
        Some("dust storm"@)
    } else if begins_pair(s, 'P', 'Y') {
        Some("spray"@)
    } else {
        None
    }
}

/// The descriptors that `s` begins with, in words, one after the other.
pub open spec fn descriptors(s: Seq<char>) -> Seq<char>
    decreases s.len(),
{
    match descriptor_text(s) {
        Some(words) => words + descriptors(s.skip(2)),
        None => Seq::empty(),
    }
}

/// What is left of `s` after the descriptors that it begins with.
pub open spec fn past_descriptors(s: Seq<char>) -> Seq<char>
    decreases s.len(),
{
    match descriptor_text(s) {
        Some(_) => past_descriptors(s.skip(2)),
        None => s,
    }
}

/// The phenomena that `s` begins with, in words, one after the other.
pub open spec fn phenomena(s: Seq<char>) -> Seq<char>
    decreases s.len(),
{
    match phenomenon_text(s) {
        Some(words) => words + phenomena(s.skip(2)),
        None => Seq::empty(),
    }
}

/// A weather group in words: its intensity, its descriptors and its
/// phenomena, as far as the group can be read from its start, without white
/// space at either end.
pub open spec fn weather_text(code: Seq<char>) -> Seq<char> {
    let body = code.skip(intensity_len(code));
    trimmed(intensity_text(code) + descriptors(body) + phenomena(past_descriptors(body)))
}

/// The descriptor at index `at` of `chars`, in words, if one stands there.
fn descriptor_at(chars: &[char], at: usize) -> (words: Option<&'static str>)
    requires
        at <= chars@.len(),
    ensures
        words is Some <==> descriptor_text(chars@.skip(at as int)) is Some,
        words matches Some(w) ==> descriptor_text(chars@.skip(at as int)) == Some(w@),
{
    if chars.len() - at < 2 {
        return None;
    }
    let a = chars[at];
    let b = chars[at + 1];
    if a == 'M' && b == 'I' {
        Some("Shallow ")
    } else if a == 'B' && b == 'C' {
        Some("Patches ")
    } else if a == 'D' && b == 'R' {
        Some("Low drifting ")
    } else if a == 'B' && b == 'L' {
        Some("Blowing ")
    } else if a == 'S' && b == 'H' {
        Some("Showers ")
    } else if a == 'T' && b == 'S' {
        Some("Thunderstorm ")
    } else if a == 'F' && b == 'Z' {
        Some("Freezing ")
    } else if a == 'P' && b == 'R' {
        Some("Partial ")
    } else {
        None
    }
}

/// The phenomenon at index `at` of `chars`, in words, if one stands there.
fn phenomenon_at(chars: &[char], at: usize) -> (words: Option<&'static str>)
    requires
        at <= chars@.len(),
    ensures
        words is Some <==> phenomenon_text(chars@.skip(at as int)) is Some,
        words matches Some(w) ==> phenomenon_text(chars@.skip(at as int)) == Some(w@),
{
    if chars.len() - at < 2 {
        return None;
    }
    let a = chars[at];
    let b = chars[at + 1];
    if a == 'D' && b == 'Z' {
        Some("drizzle")
    } else if a == 'R' && b == 'A' {
        Some("rain")
    } else if a == 'S' && b == 'N' {
        Some("snow")
    } else if a == 'S' && b == 'G' {
        Some("snow grains")
    } else if a == 'I' && b == 'C' {
        Some("ice crystals")
    } else if a == 'G' && b == 'R' {
        Some("hail")
    } else if a == 'P' && b == 'L' {
        Some("ice pellets")
    } else if a == 'H' && b == 'Z' {
        Some("haze")
    } else if a == 'F' && b == 'U' {
        Some("smoke")
    } else if a == 'F' && b == 'G' {
        Some("fog")
    } else if a == 'B' && b == 'R' {
        Some("mist")
    } else if a == 'S' && b == 'Q' {
        Some("squalls")
    } else if a == 'F' && b == 'C' {
        Some("funnel cloud")
    } else if a == 'G' && b == 'S' {
        Some("small hail/snow pellets")
    } else if a == 'U' && b == 'P' {
        Some("unknown precipitation")
    } else if a == 'V' && b == 'A' {
        Some("volcanic ash")
    } else if a == 'D' && b == 'U' {
        Some("widespread dust")
    } else if a == 'S' && b == 'A' {
        Some("sand")
    } else if a == 'P' && b == 'O' {
        Some("dust/sand whirls")
    } else if a == 'S' && b == 'S' {
        Some("sandstorm")
    } else if a == 'D' && b == 'S' {
        Some("dust storm")
    } else if a == 'P' && b == 'Y' {
        Some("spray")
    } else {
        None
    }
}

/// Puts the characters of a weather group into words.
pub fn describe_weather(chars: &[char]) -> (text: String)
    ensures
        text@ == weather_text(chars@),
{
    let mut text = String::new();
    let mut i: usize = 0;
    if chars.len() > 0 && chars[0] == '-' {
        text.append("Light ");
        i = 1;
    } else if chars.len() > 0 && chars[0] == '+' {
        text.append("Heavy ");
        i = 1;
    } else if chars.len() > 1 && chars[0] == 'V' && chars[1] == 'C' {
        text.append("In vicinity ");
        i = 2;
    }
    let ghost body = chars@.skip(i as int);
    loop
        invariant
            i <= chars@.len() <= usize::MAX,
            text@ + descriptors(chars@.skip(i as int)) == intensity_text(chars@) + descriptors(
                body,
            ),
            past_descriptors(chars@.skip(i as int)) == past_descriptors(body),
        ensures
            i <= chars@.len(),
            text@ == intensity_text(chars@) + descriptors(body),
            chars@.skip(i as int) == past_descriptors(body),
        decreases chars@.len() - i,
    {
        let ghost tail = chars@.skip(i as int);
        match descriptor_at(chars, i) {
            Some(words) => {
                text.append(words);
                assert(tail.skip(2) =~= chars@.skip(i + 2));
                i += 2;
            },
            None => {
                break;
            },
        }
    }
    let ghost rest = chars@.skip(i as int);
    let ghost lead = text@;
    loop
        invariant
            i <= chars@.len() <= usize::MAX,
            text@ + phenomena(chars@.skip(i as int)) == lead + phenomena(rest),
        ensures
            text@ == lead + phenomena(rest),
        decreases chars@.len() - i,
    {
        let ghost tail = chars@.skip(i as int);
        match phenomenon_at(chars, i) {
            Some(words) => {
                text.append(words);
                assert(tail.skip(2) =~= chars@.skip(i + 2));
                i += 2;
            },
            None => {
                break;
            },
        }
    }
    let built = chars_of(text.as_str());
    string_of(trim(built.as_slice()))
}

/// Turns a weather group such as `-SN` or `+RA` into words such as "Light
/// snow" or "Heavy rain".
pub fn decode_weather(code: &str) -> (text: String)
    ensures
        text@ == weather_text(code@),
{
    let chars = chars_of(code);
    describe_weather(chars.as_slice())
}

/// Whether a token begins as a cloud group does.
pub open spec fn begins_clouds(token: Seq<char>) -> bool {
    ||| starts_with(token, "SKC"@)
    ||| starts_with(token, "CLR"@)
    ||| starts_with(token, "FEW"@)
    ||| starts_with(token, "SCT"@)
    ||| starts_with(token, "BKN"@)
    ||| starts_with(token, "OVC"@)
    ||| starts_with(token, "VV"@)
}

/// Whether a token is taken for a weather group: it does not begin as a cloud
/// group does, and it begins with an intensity or holds a weather code.
pub open spec fn is_weather_group(token: Seq<char>) -> bool {
    &&& !begins_clouds(token)
    &&& (intensity_len(token) > 0 || holds_weather_code(token))
}

/// The index of the first token from `at` on that is not taken for a weather
/// group.
pub open spec fn past_weather(tokens: Seq<Seq<char>>, at: int) -> int
    decreases tokens.len() - at,
{
    if 0 <= at < tokens.len() && is_weather_group(tokens[at]) {
        past_weather(tokens, at + 1)
    } else {
        at
    }
}

/// The weather groups that stand one after the other from index `at` on, each
/// in words, without those of which nothing could be read.
pub open spec fn weather_parts(tokens: Seq<Seq<char>>, at: int) -> Seq<Seq<char>>
    decreases tokens.len() - at,
{
    if 0 <= at < tokens.len() && is_weather_group(tokens[at]) {
        if weather_text(tokens[at]).len() > 0 {
            seq![weather_text(tokens[at])] + weather_parts(tokens, at + 1)
        } else {
            weather_parts(tokens, at + 1)
        }
    } else {
        Seq::empty()
    }
}

/// The present weather that the tokens give from index `at` on, in words: the
/// weather groups there, with a comma between each two, or "None".
pub open spec fn weather_at(tokens: Seq<Seq<char>>, at: int) -> Seq<char> {
    if weather_parts(tokens, at).len() == 0 {
        "None"@
    } else {
        joined(weather_parts(tokens, at), ", "@)
    }
}

/// Whether the characters of a token are taken for a weather group.
pub fn takes_weather(token: &[char]) -> (taken: bool)
    ensures
        taken == is_weather_group(token@),
{
    if begins(token, "SKC") || begins(token, "CLR") || begins(token, "FEW") || begins(token, "SCT")
        || begins(token, "BKN") || begins(token, "OVC") || begins(token, "VV") {
        return false;
    }
    if token.len() > 0 && (token[0] == '-' || token[0] == '+') {
        return true;
    }
    if token.len() > 1 && token[0] == 'V' && token[1] == 'C' {
        return true;
    }
    has_weather_code(token)
}

/// Reads the present weather from index `at` on: the weather in words, and
/// the index of the first token after the weather groups.
pub fn decode_weather_groups(tokens: &Tokens, at: usize) -> (found: (String, usize))
    ensures
        found.0@ == weather_at(tokens@, at as int),
        found.1 == past_weather(tokens@, at as int),
        at <= found.1,
        at <= tokens@.len() ==> found.1 <= tokens@.len(),
{
    let mut parts: Vec<String> = Vec::new();
    let mut i: usize = at;
    while i < tokens.len() && takes_weather(tokens.word(i))
        invariant
            at <= i,
            i <= tokens@.len() || i == at,
            weather_parts(tokens@, at as int) == texts(parts@) + weather_parts(tokens@, i as int),
            past_weather(tokens@, at as int) == past_weather(tokens@, i as int),
        decreases tokens@.len() - i,
    {
        let words = describe_weather(tokens.word(i));
        if words.as_str().unicode_len() > 0 {
            parts.push(words);
        }
        i += 1;
    }
    if parts.len() == 0 {
        (String::from_str("None"), i)
    } else {
        (join(&parts, ", "), i)
    }
}

} // verus!

//! Temperature unit selectors: the enumeration, its canonicalization, and
//! case-insensitive parsing of unit tokens.

use vstd::prelude::*;
use vstd::string::StrSliceExecFns;
use vstd::string::StringExecFns;

verus! {

/// A unit selector: one of the three canonical units, or one of the three
/// single-letter aliases that stand for them.
#[derive(Debug, Clone, Copy, PartialEq, Eq, Structural)]
pub enum TemperatureUnit {
    Fahrenheit,
    Celsius,
    Kelvin,
    F,
    C,
    K,
}

/// The canonical unit that a selector stands for: each short alias maps to
/// its long form, and the three long forms map to themselves.
pub open spec fn spec_long_form(u: TemperatureUnit) -> TemperatureUnit {
    match u {
        TemperatureUnit::F => TemperatureUnit::Fahrenheit,
        TemperatureUnit::C => TemperatureUnit::Celsius,
        TemperatureUnit::K => TemperatureUnit::Kelvin,
        _ => u,
    }
}

/// A selector is canonical when it is its own long form.
pub open spec fn is_canonical(u: TemperatureUnit) -> bool {
    u == spec_long_form(u)
}

/// Canonicalize a unit selector: `F`, `C` and `K` become `Fahrenheit`,
/// `Celsius` and `Kelvin`; the long forms are returned unchanged.
pub fn long_form(u: &TemperatureUnit) -> (r: TemperatureUnit)
    ensures
        r == spec_long_form(*u),
        is_canonical(r),
{
    match u {
        TemperatureUnit::F => TemperatureUnit::Fahrenheit,
        TemperatureUnit::C => TemperatureUnit::Celsius,
        TemperatureUnit::K => TemperatureUnit::Kelvin,
        _ => *u,
    }
}

/// ASCII lowercasing of a single character: `A` through `Z` map to their
/// lowercase counterparts, every other character is unchanged.
pub open spec fn lower_char(c: char) -> char {
    match c {
        'A' => 'a',
        'B' => 'b',
        'C' => 'c',
        'D' => 'd',
        'E' => 'e',
        'F' => 'f',
        'G' => 'g',
        'H' => 'h',
        'I' => 'i',
        'J' => 'j',
        'K' => 'k',
        'L' => 'l',
        'M' => 'm',
        'N' => 'n',
        'O' => 'o',
        'P' => 'p',
        'Q' => 'q',
        'R' => 'r',
        'S' => 's',
        'T' => 't',
        'U' => 'u',
        'V' => 'v',
        'W' => 'w',
        'X' => 'x',
        'Y' => 'y',
        'Z' => 'z',
        _ => c,
    }
}

fn lower_char_exec(c: char) -> (r: char)
    ensures
        r == lower_char(c),
{
    match c {
        'A' => 'a',
        'B' => 'b',
        'C' => 'c',
        'D' => 'd',
        'E' => 'e',
        'F' => 'f',
        'G' => 'g',
        'H' => 'h',
        'I' => 'i',
        'J' => 'j',
        'K' => 'k',
        'L' => 'l',
        'M' => 'm',
        'N' => 'n',
        'O' => 'o',
        'P' => 'p',
        'Q' => 'q',
        'R' => 'r',
        'S' => 's',
        'T' => 't',
        'U' => 'u',
        'V' => 'v',
        'W' => 'w',
        'X' => 'x',
        'Y' => 'y',
        'Z' => 'z',
        _ => c,
    }
}

/// ASCII lowercasing applied to each character of a sequence.
pub open spec fn lower_seq(s: Seq<char>) -> Seq<char> {
    Seq::new(s.len(), |i: int| lower_char(s[i]))
}

/// ASCII lowercasing changes nothing the second time around.
pub proof fn lemma_lower_char_idempotent(c: char)
    ensures
        lower_char(lower_char(c)) == lower_char(c),
{
}

/// ASCII lowercasing of a sequence changes nothing the second time around.
pub proof fn lemma_lower_seq_idempotent(s: Seq<char>)
    ensures
        lower_seq(lower_seq(s)) == lower_seq(s),
{
    assert forall|i: int| 0 <= i < s.len() implies lower_seq(lower_seq(s))[i] == lower_seq(s)[i] by {
        lemma_lower_char_idempotent(s[i]);
    }
    assert(lower_seq(lower_seq(s)) =~= lower_seq(s));
}

/// Whether the characters of `s`, lowered, are exactly `t`.
fn matches_lowered(s: &str, t: &str) -> (r: bool)
    ensures
        r == (lower_seq(s@) == t@),
{
    let n = s.unicode_len();
    if n != t.unicode_len() {
        return false;
    }
    let mut i: usize = 0;
    while i < n
        invariant
            n == s@.len(),
            n == t@.len(),
            i <= n,
            forall|j: int| 0 <= j < i ==> lower_char(s@[j]) == t@[j],
        decreases n - i,
    {
        let a = lower_char_exec(s.get_char(i));
        let b = t.get_char(i);
        if a != b {
            assert(lower_seq(s@)[i as int] != t@[i as int]);
            return false;
        }
        i = i + 1;
    }
    assert(lower_seq(s@) =~= t@);
    true
}

/// The unit selector that a token names, matched case-insensitively against
/// the six accepted spellings; `None` when the token names no selector.
pub open spec fn unit_of_token(s: Seq<char>) -> Option<TemperatureUnit> {
    if lower_seq(s) == "fahrenheit"@ {
        Some(TemperatureUnit::Fahrenheit)
    } else if lower_seq(s) == "celsius"@ {
        Some(TemperatureUnit::Celsius)
    } else if lower_seq(s) == "kelvin"@ {
        Some(TemperatureUnit::Kelvin)
    } else if lower_seq(s) == "f"@ {
        Some(TemperatureUnit::F)
    } else if lower_seq(s) == "c"@ {
        Some(TemperatureUnit::C)
    } else if lower_seq(s) == "k"@ {
        Some(TemperatureUnit::K)
    } else {
        None
    }
}

/// Tokens that lower to the same characters name the same unit: matching is
/// case-insensitive.
pub proof fn lemma_parse_case_insensitive(s: Seq<char>, t: Seq<char>)
    requires
        lower_seq(s) == lower_seq(t),
    ensures
        unit_of_token(s) == unit_of_token(t),
{
}

/// Lowering a token before parsing changes nothing: a token and its
/// lowercased form name the same unit.
pub proof fn lemma_parse_of_lowered_token(s: Seq<char>)
    ensures
        unit_of_token(lower_seq(s)) == unit_of_token(s),
{
    lemma_lower_seq_idempotent(s);
}

/// Rejection of a unit token that names none of the six accepted selectors.
#[derive(Debug, Clone)]
pub struct InvalidUnit {
    pub token: String,
}

/// The text of the rejection report for a token: it quotes the token and
/// lists the six accepted values.
pub open spec fn invalid_unit_message(token: Seq<char>) -> Seq<char> {
    "invalid unit '"@ + token + "': expected one of Fahrenheit, Celsius, Kelvin, F, C, K"@
}

/// The rejection message quotes the offending token verbatim: the token
/// stands as a contiguous subrange of the message.
pub proof fn lemma_message_names_token(token: Seq<char>)
    ensures
        invalid_unit_message(token).subrange(14, 14 + token.len() as int) == token,
{
    reveal_strlit("invalid unit '");
    assert(invalid_unit_message(token).subrange(14, 14 + token.len() as int) =~= token);
}

impl InvalidUnit {
    /// Render the rejection: the offending token and the accepted values.
    pub fn message(&self) -> (r: String)
        ensures
            r@ == invalid_unit_message(self.token@),
    {
        let mut m = String::new();
        m.append("invalid unit '");
        m.append(self.token.as_str());
        m.append("': expected one of Fahrenheit, Celsius, Kelvin, F, C, K");
        proof {
            assert(m@ =~= invalid_unit_message(self.token@));
        }
        m
    }
}

/// Parse a unit token, case-insensitively, into the selector it names, or
/// reject it, carrying the token itself in the rejection.
pub fn parse_unit(s: &str) -> (r: Result<TemperatureUnit, InvalidUnit>)
    ensures
        match r {
            Ok(u) => unit_of_token(s@) == Some(u),
            Err(e) => unit_of_token(s@) is None && e.token@ == s@,
        },
{
    if matches_lowered(s, "fahrenheit") {
        Ok(TemperatureUnit::Fahrenheit)
    } else if matches_lowered(s, "celsius") {
        Ok(TemperatureUnit::Celsius)
    } else if matches_lowered(s, "kelvin") {
        Ok(TemperatureUnit::Kelvin)
    } else if matches_lowered(s, "f") {
        Ok(TemperatureUnit::F)
    } else if matches_lowered(s, "c") {
        Ok(TemperatureUnit::C)
    } else if matches_lowered(s, "k") {
        Ok(TemperatureUnit::K)
    } else {
        Err(InvalidUnit { token: s.to_owned() })
    }
}

} // verus!

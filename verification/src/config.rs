//! Options shared by the publishing, subscribing and probing roles.

use vstd::prelude::*;
use vstd::string::*;

verus! {

/// How the payload of a synthetic frame is filled.
#[derive(Clone, Copy, Debug, Default, PartialEq, Eq, Structural)]
pub enum PayloadType {
    /// Byte `i` of the frame numbered `c` is `(c + i) mod 256`.
    #[default]
    Random,
    /// The first eight bytes carry the frame number in big-endian order; the rest are zero.
    Sequential,
    /// Every byte holds the given value.
    Fixed(u8),
}

/// How statistics are reported.
#[derive(Clone, Copy, Debug, Default, PartialEq, Eq, Structural)]
pub enum OutputFormat {
    #[default]
    Text,
    Json,
}

/// `c` is the letter `lower` in lower or upper case.
pub open spec fn letter_matches(c: char, lower: char, upper: char) -> bool {
    c == lower || c == upper
}

/// `s` spells `json` in any mix of letter cases: the strings whose lower-case
/// form is exactly `json`.
pub open spec fn is_json_word(s: Seq<char>) -> bool {
    &&& s.len() == 4
    &&& letter_matches(s[0], 'j', 'J')
    &&& letter_matches(s[1], 's', 'S')
    &&& letter_matches(s[2], 'o', 'O')
    &&& letter_matches(s[3], 'n', 'N')
}

/// Reads the `--output` option: `json` in any letter case selects JSON, and
/// every other value selects text.
pub fn parse_output_format(s: &str) -> (f: OutputFormat)
    ensures
        f == (if is_json_word(s@) {
            OutputFormat::Json
        } else {
            OutputFormat::Text
        }),
{
    if s.unicode_len() != 4 {
        return OutputFormat::Text;
    }
    let c0 = s.get_char(0);
    let c1 = s.get_char(1);
    let c2 = s.get_char(2);
    let c3 = s.get_char(3);
    if (c0 == 'j' || c0 == 'J') && (c1 == 's' || c1 == 'S') && (c2 == 'o' || c2 == 'O') && (c3
        == 'n' || c3 == 'N') {
        OutputFormat::Json
    } else {
        OutputFormat::Text
    }
}

} // verus!

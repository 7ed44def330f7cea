//! Reading the answer of the now-playing query: the helper prints `true`
//! when media is playing.

use vstd::prelude::*;
use vstd::string::*;
use vstd::utf8::{decode_utf8, valid_utf8};

verus! {

/// What `String::from_utf8_lossy` makes of the given bytes.
pub uninterp spec fn utf8_lossy(bytes: Seq<u8>) -> Seq<char>;

/// `String::from_utf8_lossy` (made an owned `String`): the bytes decoded as
/// UTF-8, each invalid sequence replaced by U+FFFD. The contract names the
/// result, and states the documented fact that valid UTF-8 decodes as is;
/// the replacement rules for invalid input are left unsaid.
#[verifier::external_body]
fn decode_utf8_lossy(bytes: &[u8]) -> (text: String)
    ensures
        text@ == utf8_lossy(bytes@),
        valid_utf8(bytes@) ==> text@ == decode_utf8(bytes@),
{
    String::from_utf8_lossy(bytes).into_owned()
}

/// Unicode White_Space, the characters that `str::trim` removes.
pub open spec fn is_white_space(c: char) -> bool {
    let v = c as u32;
    (0x09 <= v <= 0x0d) || v == 0x20 || v == 0x85 || v == 0xa0 || v == 0x1680 || (0x2000 <= v
        <= 0x200a) || v == 0x2028 || v == 0x2029 || v == 0x202f || v == 0x205f || v == 0x3000
}

/// The text without its leading white space.
pub open spec fn trim_start(s: Seq<char>) -> Seq<char>
    decreases s.len(),
{
    if s.len() > 0 && is_white_space(s[0]) {
        trim_start(s.drop_first())
    } else {
        s
    }
}

/// The text without its trailing white space.
pub open spec fn trim_end(s: Seq<char>) -> Seq<char>
    decreases s.len(),
{
    if s.len() > 0 && is_white_space(s.last()) {
        trim_end(s.drop_last())
    } else {
        s
    }
}

/// The text without leading and trailing white space, as `str::trim` gives it.
pub open spec fn trim(s: Seq<char>) -> Seq<char> {
    trim_end(trim_start(s))
}

/// The answer says media is playing: it is `true` up to surrounding white space.
pub open spec fn says_playing(text: Seq<char>) -> bool {
    trim(text) == "true"@
}

fn white_space(c: char) -> (ws: bool)
    ensures
        ws == is_white_space(c),
{
    let v = c as u32;
    (0x09 <= v && v <= 0x0d) || v == 0x20 || v == 0x85 || v == 0xa0 || v == 0x1680 || (0x2000
        <= v && v <= 0x200a) || v == 0x2028 || v == 0x2029 || v == 0x202f || v == 0x205f || v
        == 0x3000
}

/// Whether the answer text says media is playing.
pub fn text_says_playing(text: &str) -> (playing: bool)
    ensures
        playing == says_playing(text@),
{
    let ghost s = text@;
    let n = text.unicode_len();
    let mut i: usize = 0;
    assert(s.subrange(0, n as int) =~= s);
    while i < n && white_space(text.get_char(i))
        invariant
            0 <= i <= n,
            n == s.len(),
            s == text@,
            trim_start(s) == trim_start(s.subrange(i as int, n as int)),
        decreases n - i,
    {
        assert(s.subrange(i as int, n as int).drop_first() =~= s.subrange(i + 1, n as int));
        i = i + 1;
    }
    assert(trim_start(s) == s.subrange(i as int, n as int));
    let mut j: usize = n;
    while j > i && white_space(text.get_char(j - 1))
        invariant
            i <= j <= n,
            n == s.len(),
            s == text@,
            trim(s) == trim_end(s.subrange(i as int, j as int)),
        decreases j - i,
    {
        assert(s.subrange(i as int, j as int).drop_last() =~= s.subrange(i as int, j - 1));
        j = j - 1;
    }
    let ghost t = s.subrange(i as int, j as int);
    assert(trim(s) == t);
    proof {
        reveal_strlit("true");
    }
    if j - i == 4 && text.get_char(i) == 't' && text.get_char(i + 1) == 'r' && text.get_char(i + 2)
        == 'u' && text.get_char(i + 3) == 'e' {
        assert(t =~= "true"@);
        true
    } else {
        assert(t.len() != 4 || t[0] != 't' || t[1] != 'r' || t[2] != 'u' || t[3] != 'e');
        false
    }
}

/// Whether the now-playing query says media is playing: no when the query
/// could not be run (`None`), otherwise when its output, decoded as UTF-8 with
/// invalid bytes replaced, reads `true` up to surrounding white space.
pub fn output_says_playing(output: Option<&[u8]>) -> (playing: bool)
    ensures
        playing == match output {
            Some(bytes) => says_playing(utf8_lossy(bytes@)),
            None => false,
        },
        match output {
            Some(bytes) => valid_utf8(bytes@) ==> playing == says_playing(decode_utf8(bytes@)),
            None => true,
        },
{
    match output {
        Some(bytes) => {
            let text = decode_utf8_lossy(bytes);
            text_says_playing(text.as_str())
        },
        None => false,
    }
}

} // verus!

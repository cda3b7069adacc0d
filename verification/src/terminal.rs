//! Decisions about the terminal and the user: whether the graphics protocol
//! is there, and whether an answer is yes.
use vstd::prelude::*;
use vstd::string::StringSliceAdditionalSpecFns;

verus! {

/// `needle` occurs in `hay` as a run of consecutive bytes.
pub open spec fn contains(hay: Seq<u8>, needle: Seq<u8>) -> bool {
    exists|i: int| 0 <= i && i + needle.len() <= hay.len() && #[trigger] hay.subrange(i, i + needle.len()) == needle
}

/// Whether `needle` occurs in `hay` (as `str::contains` on the text).
pub fn contains_bytes(hay: &[u8], needle: &[u8]) -> (found: bool)
    ensures
        found == contains(hay@, needle@),
{
    let n = hay.len();
    let m = needle.len();
    if m > n {
        assert(!contains(hay@, needle@));
        return false;
    }
    let mut i: usize = 0;
    while i <= n - m
        invariant
            n == hay@.len(),
            m == needle@.len(),
            m <= n,
            i <= n - m + 1,
            forall|k: int| 0 <= k < i ==> #[trigger] hay@.subrange(k, k + m) != needle@,
        decreases n - m + 1 - i,
    {
        let mut j: usize = 0;
        let mut same = true;
        while j < m
            invariant
                n == hay@.len(),
                m == needle@.len(),
                i + m <= n,
                j <= m,
                same == (forall|t: int| 0 <= t < j ==> hay@[i + t] == needle@[t]),
            decreases m - j,
        {
            if hay[i + j] != needle[j] {
                same = false;
            }
            j = j + 1;
        }
        if same {
            assert(hay@.subrange(i as int, i + m) =~= needle@);
            return true;
        }
        assert(hay@.subrange(i as int, i + m) != needle@) by {
            let t = choose|t: int| 0 <= t < m && hay@[i + t] != needle@[t];
            assert(hay@.subrange(i as int, i + m)[t] == hay@[i + t]);
        }
        i = i + 1;
    }
    false
}

/// What Unicode lowercasing makes of a text (`str::to_lowercase`).
pub uninterp spec fn unicode_lowercase(s: Seq<char>) -> Seq<char>;

/// A character with the Unicode property `White_Space` (`char::is_whitespace`).
pub open spec fn is_white_space(c: char) -> bool {
    let v = c as u32;
    ||| 0x09 <= v <= 0x0d
    ||| v == 0x20
    ||| v == 0x85
    ||| v == 0xa0
    ||| v == 0x1680
    ||| 0x2000 <= v <= 0x200a
    ||| v == 0x2028
    ||| v == 0x2029
    ||| v == 0x202f
    ||| v == 0x205f
    ||| v == 0x3000
}

/// The text without its leading white space.
pub open spec fn trim_start(s: Seq<char>) -> Seq<char>
    decreases s.len(),
{
    if s.len() > 0 && is_white_space(s[0]) {
        trim_start(s.drop_first())
    } else {
        s
    }
}

/// The text without its trailing white space.
pub open spec fn trim_end(s: Seq<char>) -> Seq<char>
    decreases s.len(),
{
    if s.len() > 0 && is_white_space(s.last()) {
        trim_end(s.drop_last())
    } else {
        s
    }
}

/// The text without leading and trailing white space (`str::trim`).
pub open spec fn trimmed(s: Seq<char>) -> Seq<char> {
    trim_end(trim_start(s))
}

/// An ASCII letter `A`-`Z` made lowercase; any other character unchanged.
pub open spec fn ascii_lower(c: char) -> char {
    if 'A' <= c && c <= 'Z' {
        ((c as u32) + 32) as char
    } else {
        c
    }
}

/// Calls `str::to_lowercase`. For ASCII text the result is the text with
/// `A`-`Z` made `a`-`z` (the Unicode lowercase mapping of those letters,
/// with every other ASCII character its own lowercase); other text is
/// only named.
#[verifier::external_body]
fn to_lowercase(s: &str) -> (lower: String)
    ensures
        lower@ == unicode_lowercase(s@),
        vstd::utf8::is_ascii_chars(s@) ==> lower@ == s@.map_values(|c: char| ascii_lower(c)),
{
    s.to_lowercase()
}

/// Calls `str::trim`, which the documentation says removes leading and
/// trailing white space as the Unicode property `White_Space` defines it.
#[verifier::external_body]
fn trim(s: &str) -> (t: &str)
    ensures
        t@ == trimmed(s@),
{
    s.trim()
}

/// `TERM` names kitty, or the lowercased `TERM_PROGRAM` names kitty or
/// WezTerm; the texts are taken by their UTF-8 bytes.
pub open spec fn names_graphics_terminal(term: Option<Seq<u8>>, program_lower: Option<Seq<u8>>) -> bool {
    ||| term matches Some(t) && contains(t, "kitty".spec_bytes())
    ||| program_lower matches Some(p) && (contains(p, "kitty".spec_bytes()) || contains(
        p,
        "wezterm".spec_bytes(),
    ))
}

/// The decision on the values of `TERM` and of the already lowercased
/// `TERM_PROGRAM`.
pub fn names_graphics_terminal_exec(term: Option<&str>, program_lower: Option<&str>) -> (yes: bool)
    ensures
        yes == names_graphics_terminal(
            match term {
                Some(t) => Some(t.spec_bytes()),
                None => None,
            },
            match program_lower {
                Some(p) => Some(p.spec_bytes()),
                None => None,
            },
        ),
{
    if let Some(t) = term {
        if contains_bytes(t.as_bytes(), "kitty".as_bytes()) {
            return true;
        }
    }
    if let Some(p) = program_lower {
        if contains_bytes(p.as_bytes(), "kitty".as_bytes()) || contains_bytes(p.as_bytes(), "wezterm".as_bytes()) {
            return true;
        }
    }
    false
}

/// Quick check whether `TERM` or `TERM_PROGRAM` (their values, `None` for
/// one that is unset or not Unicode) reveal kitty or WezTerm.
pub fn env_reveals_graphics_terminal(term: Option<&str>, term_program: Option<&str>) -> (yes: bool)
    ensures
        yes == names_graphics_terminal(
            match term {
                Some(t) => Some(t.spec_bytes()),
                None => None,
            },
            match term_program {
                Some(p) => Some(vstd::utf8::encode_utf8(unicode_lowercase(p@))),
                None => None,
            },
        ),
        term_program matches Some(p) ==> (vstd::utf8::is_ascii_chars(p@) ==> unicode_lowercase(p@)
            == p@.map_values(|c: char| ascii_lower(c))),
{
    match term_program {
        Some(p) => {
            let lower = to_lowercase(p);
            names_graphics_terminal_exec(term, Some(lower.as_str()))
        },
        None => names_graphics_terminal_exec(term, None),
    }
}

/// Whether the terminal's reply to the graphics query reports success: it
/// holds `OK`.
pub fn reply_is_ok(reply: &[u8]) -> (ok: bool)
    ensures
        ok == contains(reply@, "OK".spec_bytes()),
{
    contains_bytes(reply, "OK".as_bytes())
}

/// An answer that counts as yes: empty, `y` or `yes`.
pub open spec fn is_yes(answer: Seq<char>) -> bool {
    answer.len() == 0 || answer == "y"@ || answer == "yes"@
}

/// Whether two byte strings are equal.
fn bytes_equal(a: &[u8], b: &[u8]) -> (eq: bool)
    ensures
        eq == (a@ == b@),
{
    if a.len() != b.len() {
        return false;
    }
    let n = a.len();
    let mut i: usize = 0;
    while i < n
        invariant
            n == a@.len(),
            n == b@.len(),
            i <= n,
            forall|k: int| 0 <= k < i ==> a@[k] == b@[k],
        decreases n - i,
    {
        if a[i] != b[i] {
            return false;
        }
        i = i + 1;
    }
    assert(a@ =~= b@);
    true
}

/// Whether two texts are equal, by their UTF-8 bytes.
fn str_equal(a: &str, b: &str) -> (eq: bool)
    ensures
        eq == (a@ == b@),
{
    proof {
        vstd::utf8::encode_utf8_decode_utf8(a@);
        vstd::utf8::encode_utf8_decode_utf8(b@);
    }
    bytes_equal(a.as_bytes(), b.as_bytes())
}

/// Whether an already trimmed and lowercased answer is yes.
pub fn normalized_answer_is_yes(answer: &str) -> (yes: bool)
    ensures
        yes == is_yes(answer@),
{
    answer.is_empty() || str_equal(answer, "y") || str_equal(answer, "yes")
}

/// Whether a typed answer to a yes/no prompt (default yes) is yes: after
/// trimming and lowercasing it is empty, `y` or `yes`.
pub fn answer_is_yes(input: &str) -> (yes: bool)
    ensures
        yes == is_yes(unicode_lowercase(trimmed(input@))),
        vstd::utf8::is_ascii_chars(trimmed(input@)) ==> yes == is_yes(
            trimmed(input@).map_values(|c: char| ascii_lower(c)),
        ),
{
    let lower = to_lowercase(trim(input));
    normalized_answer_is_yes(lower.as_str())
}

} // verus!

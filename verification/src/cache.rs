//! Names in the frame cache: the key of a GIF, the cache directory and the
//! files inside an entry.
use vstd::prelude::*;
use vstd::string::StringExecFns;
use sha2::Digest;
use vstd::utf8::encode_utf8;
use crate::text::{
    decimal, digit_char, digit_to_char, lemma_decimal_injective, lemma_decimal_leading_digit, lemma_decimal_len,
    lower_hex, push_char, push_decimal, zero_padded,
};

verus! {

/// What SHA-256 gives for `data`.
pub uninterp spec fn sha256_digest(data: Seq<u8>) -> Seq<u8>;

/// Calls `sha2::Sha256::digest`: the result is the SHA-256 digest of
/// `data`, 32 bytes long.
#[verifier::external_body]
fn sha256(data: &[u8]) -> (digest: Vec<u8>)
    ensures
        digest@ == sha256_digest(data@),
        digest@.len() == 32,
{
    sha2::Sha256::digest(data).to_vec()
}

/// The first 16 lowercase hex digits of a digest.
pub open spec fn short_hash(digest: Seq<u8>) -> Seq<char> {
    lower_hex(digest).take(16)
}

/// A character among `0`-`9` and `a`-`f`.
pub open spec fn is_lower_hex_digit(c: char) -> bool {
    ('0' <= c && c <= '9') || ('a' <= c && c <= 'f')
}

/// The cache key of a file whose short hash is `hash`: the hash, followed
/// by `_w` and the width limit when there is one.
pub open spec fn key_for(hash: Seq<char>, max_width: Option<u32>) -> Seq<char> {
    match max_width {
        Some(w) => hash + seq!['_', 'w'] + decimal(w as nat),
        None => hash,
    }
}

/// The first 16 hex digits of `digest` (lowercase, two per byte).
pub fn hex_prefix(digest: &[u8]) -> (s: String)
    requires
        digest@.len() >= 8,
    ensures
        s@ == short_hash(digest@),
        s@.len() == 16,
        forall|k: int| 0 <= k < 16 ==> #[trigger] is_lower_hex_digit(s@[k]),
{
    let mut s = String::new();
    let mut i: usize = 0;
    while i < 8
        invariant
            i <= 8,
            digest@.len() >= 8,
            s@ == lower_hex(digest@).take(2 * i as int),
        decreases 8 - i,
    {
        let b = digest[i];
        push_char(&mut s, digit_to_char(b / 16));
        push_char(&mut s, digit_to_char(b % 16));
        assert(s@ =~= lower_hex(digest@).take(2 * (i + 1) as int));
        i = i + 1;
    }
    assert forall|k: int| 0 <= k < 16 implies #[trigger] is_lower_hex_digit(s@[k]) by {
        let b = digest@[k / 2];
        let d: nat = if k % 2 == 0 { (b / 16) as nat } else { (b % 16) as nat };
        assert(d < 16);
        assert(s@[k] == digit_char(d));
    }
    s
}

/// The short SHA-256 hash of a file's contents: the first 16 hex digits.
pub fn hash_bytes(data: &[u8]) -> (s: String)
    ensures
        s@ == short_hash(sha256_digest(data@)),
        s@.len() == 16,
        forall|k: int| 0 <= k < 16 ==> #[trigger] is_lower_hex_digit(s@[k]),
{
    let digest = sha256(data);
    hex_prefix(digest.as_slice())
}

/// The cache key of a file from its short hash and the width limit.
pub fn key_from_hash(hash: String, max_width: Option<u32>) -> (key: String)
    ensures
        key@ == key_for(hash@, max_width),
{
    let mut key = hash;
    if let Some(w) = max_width {
        push_char(&mut key, '_');
        push_char(&mut key, 'w');
        push_decimal(&mut key, w as u64);
    }
    key
}

/// Build a cache key from the file's contents (or the error that reading
/// it gave) and the optional max width.
pub fn cache_key(
    contents: Result<Vec<u8>, std::io::Error>,
    max_width: Option<u32>,
) -> (key: Result<String, std::io::Error>)
    ensures
        match (contents, key) {
            (Ok(data), Ok(k)) => k@ == key_for(short_hash(sha256_digest(data@)), max_width),
            (Err(e), Err(k)) => k == e,
            _ => false,
        },
{
    match contents {
        Ok(data) => Ok(key_from_hash(hash_bytes(data.as_slice()), max_width)),
        Err(e) => Err(e),
    }
}

/// Keys made for one file with two width limits are equal only when the
/// limits are: an entry cached at one width is never taken for another.
pub proof fn lemma_key_separates_widths(hash: Seq<char>, a: Option<u32>, b: Option<u32>)
    requires
        key_for(hash, a) == key_for(hash, b),
    ensures
        a == b,
{
    match (a, b) {
        (Some(x), Some(y)) => {
            let ka = key_for(hash, a);
            let kb = key_for(hash, b);
            let n = hash.len() + 2;
            assert(ka.skip(n as int) =~= decimal(x as nat));
            assert(kb.skip(n as int) =~= decimal(y as nat));
            lemma_decimal_injective(x as nat, y as nat);
        },
        (Some(x), None) => {
            assert(key_for(hash, a).len() > hash.len());
        },
        (None, Some(y)) => {
            assert(key_for(hash, b).len() > hash.len());
        },
        (None, None) => {},
    }
}

/// `base` joined with the relative path `name`, as `PathBuf::join` does on
/// Unix: a `/` goes between them unless `base` is empty or already ends in one.
pub open spec fn join(base: Seq<char>, name: Seq<char>) -> Seq<char> {
    if base.len() > 0 && base.last() != '/' {
        base + seq!['/'] + name
    } else {
        base + name
    }
}

/// Joins a relative path onto a directory path.
pub fn join_path(base: &str, name: &str) -> (p: String)
    ensures
        p@ == join(base@, name@),
{
    let mut p = base.to_owned();
    let bytes = base.as_bytes();
    let n = bytes.len();
    proof {
        if base@.len() > 0 {
            lemma_last_byte_is_slash(base@);
        } else {
            assert(encode_utf8(base@) =~= Seq::<u8>::empty());
        }
    }
    if n > 0 && bytes[n - 1] != 0x2f {
        push_char(&mut p, '/');
    }
    p.append(name);
    p
}

/// In UTF-8 the last byte of a non-empty string is `/` exactly when its last
/// character is.
proof fn lemma_last_byte_is_slash(s: Seq<char>)
    requires
        s.len() > 0,
    ensures
        encode_utf8(s).len() > 0,
        (encode_utf8(s).last() == 0x2f) == (s.last() == '/'),
{
    let c = s.last();
    assert(s == s.drop_last().push(c));
    lemma_encode_utf8_push(s.drop_last(), c);
    vstd::utf8::char_is_scalar(c);
    let v = c as u32;
    lemma_scalar_last_byte(v);
    let e = vstd::utf8::encode_scalar(v);
    assert(encode_utf8(s).last() == e.last());
    if c == '/' {
        assert(v == 0x2f);
    }
    if v == 0x2f {
        vstd::utf8::char_u32_cast(c, v);
        assert(c == (0x2fu32 as char));
    }
}

/// Encoding a string with one more character appends that character's bytes.
proof fn lemma_encode_utf8_push(s: Seq<char>, c: char)
    ensures
        encode_utf8(s.push(c)) == encode_utf8(s) + vstd::utf8::encode_scalar(c as u32),
    decreases s.len(),
{
    if s.len() == 0 {
        assert(s.push(c).drop_first() =~= Seq::<char>::empty());
        assert(encode_utf8(Seq::<char>::empty()) =~= Seq::<u8>::empty());
        assert(encode_utf8(s) =~= Seq::<u8>::empty());
    } else {
        assert(s.push(c).drop_first() =~= s.drop_first().push(c));
        lemma_encode_utf8_push(s.drop_first(), c);
        assert(encode_utf8(s.push(c)) =~= vstd::utf8::encode_scalar(s[0] as u32) + encode_utf8(
            s.drop_first().push(c),
        ));
    }
}

/// The last byte of a scalar's encoding is `/` exactly for `/`.
proof fn lemma_scalar_last_byte(v: u32)
    requires
        vstd::utf8::is_scalar(v),
    ensures
        vstd::utf8::encode_scalar(v).len() > 0,
        (vstd::utf8::encode_scalar(v).last() == 0x2f) == (v == 0x2f),
{
    if vstd::utf8::has_width_1_encoding(v) {
        assert(v <= 0x7f ==> (((v & 0x7f) as u8 == 0x2f) == (v == 0x2f))) by (bit_vector);
    } else {
        assert((0x80u8 | (v & 0x3f) as u8) != 0x2f) by (bit_vector);
    }
}

/// The cache directory: `gifterm` under `$XDG_CACHE_HOME` when that is
/// set, else under `$HOME/.cache`, with `/tmp` in place of an unset `HOME`.
pub open spec fn cache_dir_path(xdg_cache_home: Option<Seq<char>>, home: Option<Seq<char>>) -> Seq<char> {
    match xdg_cache_home {
        Some(xdg) => join(xdg, "gifterm"@),
        None => {
            let base = match home {
                Some(h) => h,
                None => "/tmp"@,
            };
            join(join(base, ".cache"@), "gifterm"@)
        },
    }
}

/// Return the cache directory path (`$XDG_CACHE_HOME/gifterm` or
/// `~/.cache/gifterm`) from the values of the two variables, `None` for
/// one that is unset or not Unicode.
pub fn cache_dir(xdg_cache_home: Option<&str>, home: Option<&str>) -> (dir: String)
    ensures
        dir@ == cache_dir_path(
            match xdg_cache_home {
                Some(x) => Some(x@),
                None => None,
            },
            match home {
                Some(h) => Some(h@),
                None => None,
            },
        ),
{
    match xdg_cache_home {
        Some(xdg) => join_path(xdg, "gifterm"),
        None => {
            let base = match home {
                Some(h) => h,
                None => "/tmp",
            };
            let dot_cache = join_path(base, ".cache");
            join_path(dot_cache.as_str(), "gifterm")
        },
    }
}

/// The name of the file that holds frame `index` of a cache entry: the
/// index in at least four digits, then `.rgba`.
pub open spec fn frame_file(index: nat) -> Seq<char> {
    zero_padded(decimal(index), 4) + seq!['.', 'r', 'g', 'b', 'a']
}

/// The file name of frame `index` in a cache entry (`{index:04}.rgba`).
pub fn frame_file_name(index: usize) -> (name: String)
    ensures
        name@ == frame_file(index as nat),
{
    proof {
        lemma_decimal_len(index as nat);
    }
    let mut name = String::new();
    if index < 1000 {
        push_char(&mut name, '0');
    }
    if index < 100 {
        push_char(&mut name, '0');
    }
    if index < 10 {
        push_char(&mut name, '0');
    }
    let ghost zeros = name@;
    push_decimal(&mut name, index as u64);
    assert(zeros + decimal(index as nat) =~= zero_padded(decimal(index as nat), 4));
    push_char(&mut name, '.');
    push_char(&mut name, 'r');
    push_char(&mut name, 'g');
    push_char(&mut name, 'b');
    push_char(&mut name, 'a');
    name
}

/// The frames of one entry are kept in different files.
pub proof fn lemma_frame_files_distinct(i: nat, j: nat)
    requires
        i != j,
    ensures
        frame_file(i) != frame_file(j),
{
    if frame_file(i) == frame_file(j) {
        let pi = zero_padded(decimal(i), 4);
        let pj = zero_padded(decimal(j), 4);
        assert(frame_file(i).drop_last().drop_last().drop_last().drop_last().drop_last() =~= pi);
        assert(frame_file(j).drop_last().drop_last().drop_last().drop_last().drop_last() =~= pj);
        lemma_padded_decimal_injective(i, j);
    }
}

proof fn lemma_padded_decimal_injective(i: nat, j: nat)
    requires
        zero_padded(decimal(i), 4) == zero_padded(decimal(j), 4),
    ensures
        i == j,
{
    lemma_decimal_len(i);
    lemma_decimal_len(j);
    lemma_decimal_leading_digit(i);
    lemma_decimal_leading_digit(j);
    let di = decimal(i);
    let dj = decimal(j);
    let pi = zero_padded(di, 4);
    if di.len() == dj.len() {
        if di.len() < 4 {
            assert(di =~= pi.skip(4 - di.len()));
            assert(dj =~= pi.skip(4 - dj.len()));
        }
        lemma_decimal_injective(i, j);
    } else if di.len() < dj.len() {
        // the first digit of `j` stands where `i` still has a padding zero
        let k = 4 - dj.len();
        assert(pi[k] == '0');
        assert(pi[k] == dj[0]);
    } else {
        let k = 4 - di.len();
        assert(pi[k] == di[0]);
        assert(zero_padded(dj, 4)[k] == '0');
    }
}

} // verus!

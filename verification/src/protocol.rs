//! Escape sequences of the kitty graphics protocol.
use vstd::prelude::*;
use vstd::string::StringSliceAdditionalSpecFns;
use base64::Engine;

verus! {

/// The bytes that open a graphics command: `ESC _ G`.
pub open spec fn command_start() -> Seq<u8> {
    seq![0x1bu8, 0x5fu8, 0x47u8]
}

/// The bytes that close a graphics command: `ESC \`.
pub open spec fn command_end() -> Seq<u8> {
    seq![0x1bu8, 0x5cu8]
}

/// A graphics command with control data `params` and an optional payload,
/// which follows a `;`.
pub open spec fn graphics_command(params: Seq<u8>, payload: Option<Seq<u8>>) -> Seq<u8> {
    match payload {
        Some(data) => command_start() + params + seq![0x3bu8] + data + command_end(),
        None => command_start() + params + command_end(),
    }
}

/// Appends all of `src` to `dst`.
fn extend_bytes(dst: &mut Vec<u8>, src: &[u8])
    ensures
        final(dst)@ == old(dst)@ + src@,
{
    let n = src.len();
    let mut i: usize = 0;
    while i < n
        invariant
            n == src@.len(),
            i <= n,
            dst@ == old(dst)@ + src@.take(i as int),
        decreases n - i,
    {
        dst.push(src[i]);
        i = i + 1;
        assert(src@.take(i as int) == src@.take((i - 1) as int).push(src@[i - 1]));
    }
    assert(src@.take(n as int) == src@);
}

/// Build a kitty graphics protocol escape sequence.
pub fn gr_cmd(params: &str, payload: Option<&str>) -> (cmd: Vec<u8>)
    ensures
        cmd@ == graphics_command(
            params.spec_bytes(),
            match payload {
                Some(data) => Some(data.spec_bytes()),
                None => None,
            },
        ),
{
    let mut buf: Vec<u8> = Vec::new();
    buf.push(0x1b);
    buf.push(0x5f);
    buf.push(0x47);
    extend_bytes(&mut buf, params.as_bytes());
    if let Some(data) = payload {
        buf.push(0x3b);
        extend_bytes(&mut buf, data.as_bytes());
    }
    buf.push(0x1b);
    buf.push(0x5c);
    buf
}

/// The byte of the standard base64 alphabet for a 6-bit value:
/// `A`-`Z`, `a`-`z`, `0`-`9`, `+`, `/`.
pub open spec fn base64_char(v: int) -> u8 {
    if v < 26 {
        (65 + v) as u8
    } else if v < 52 {
        (97 + v - 26) as u8
    } else if v < 62 {
        (48 + v - 52) as u8
    } else if v == 62 {
        0x2b
    } else {
        0x2f
    }
}

/// Standard base64 (RFC 4648) with `=` padding: every three bytes become
/// four characters of six bits each; a last group of one or two bytes is
/// padded to four characters with `=`.
pub open spec fn base64_standard(data: Seq<u8>) -> Seq<u8>
    decreases data.len(),
{
    if data.len() == 0 {
        seq![]
    } else if data.len() == 1 {
        seq![base64_char((data[0] as int) / 4), base64_char(((data[0] as int) % 4) * 16), 0x3du8, 0x3du8]
    } else if data.len() == 2 {
        seq![
            base64_char((data[0] as int) / 4),
            base64_char(((data[0] as int) % 4) * 16 + (data[1] as int) / 16),
            base64_char(((data[1] as int) % 16) * 4),
            0x3du8,
        ]
    } else {
        seq![
            base64_char((data[0] as int) / 4),
            base64_char(((data[0] as int) % 4) * 16 + (data[1] as int) / 16),
            base64_char(((data[1] as int) % 16) * 4 + (data[2] as int) / 64),
            base64_char((data[2] as int) % 64),
        ] + base64_standard(data.skip(3))
    }
}

/// Calls `base64::engine::general_purpose::STANDARD.encode` and hands back
/// the bytes of the text: as the crate documents, the standard alphabet
/// with `=` padding, which `base64_standard` spells out.
#[verifier::external_body]
fn base64_encode(data: &[u8]) -> (encoded: Vec<u8>)
    requires
        4 * ((data@.len() + 2) / 3) <= isize::MAX,
    ensures
        encoded@ == base64_standard(data@),
{
    base64::engine::general_purpose::STANDARD.encode(data).into_bytes()
}

/// The control data that ask the terminal to read the pixels from a file
/// (`t=t`), after the caller's own.
pub open spec fn file_params(params: Seq<u8>) -> Seq<u8> {
    params + seq![0x2cu8, 0x74u8, 0x3du8, 0x74u8]
}

/// The command that transmits pixels through a file: `params` with `,t=t`,
/// and the file's path, base64-encoded, as the payload.
pub open spec fn file_transfer_command(params: Seq<u8>, encoded_path: Seq<u8>) -> Seq<u8> {
    graphics_command(file_params(params), Some(encoded_path))
}

/// The file-transfer command for a path that is already base64-encoded.
pub fn transfer_command_for(params: &str, encoded_path: &[u8]) -> (cmd: Vec<u8>)
    ensures
        cmd@ == file_transfer_command(params.spec_bytes(), encoded_path@),
{
    let mut buf: Vec<u8> = Vec::new();
    buf.push(0x1b);
    buf.push(0x5f);
    buf.push(0x47);
    extend_bytes(&mut buf, params.as_bytes());
    buf.push(0x2c);
    buf.push(0x74);
    buf.push(0x3d);
    buf.push(0x74);
    buf.push(0x3b);
    extend_bytes(&mut buf, encoded_path);
    buf.push(0x1b);
    buf.push(0x5c);
    assert(buf@ =~= file_transfer_command(params.spec_bytes(), encoded_path@));
    buf
}

/// The command that makes the terminal read RGBA pixels from the file at
/// `path` (`t=t` transfer); the terminal deletes the file once read.
pub fn file_transfer_cmd(params: &str, path: &str) -> (cmd: Vec<u8>)
    requires
        4 * ((path.spec_bytes().len() + 2) / 3) <= isize::MAX,
    ensures
        cmd@ == file_transfer_command(params.spec_bytes(), base64_standard(path.spec_bytes())),
{
    let encoded = base64_encode(path.as_bytes());
    transfer_command_for(params, encoded.as_slice())
}

/// The query that asks whether the terminal speaks the graphics protocol: a
/// one-pixel image, sent directly, with action `q`.
pub fn graphics_query() -> (cmd: Vec<u8>)
    ensures
        cmd@ == graphics_command(
            "i=31,s=1,v=1,a=q,t=d,f=24".spec_bytes(),
            Some("AAAA".spec_bytes()),
        ),
{
    gr_cmd("i=31,s=1,v=1,a=q,t=d,f=24", Some("AAAA"))
}

} // verus!

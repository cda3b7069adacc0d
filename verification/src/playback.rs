//! The commands that hand an animation to the terminal: each frame, the gap
//! of the first frame, and the endless loop.
use vstd::prelude::*;
use vstd::string::StringExecFns;
use crate::decode::Meta;
use crate::protocol::{gr_cmd, graphics_command};
use crate::text::{all_digits, decimal, digits_value, lemma_decimal_reads_back, push_decimal};

verus! {

/// The control data of the first frame: transmit and display image `id`,
/// 32-bit RGBA pixels of `width` x `height`, with replies suppressed.
pub open spec fn first_frame_params(id: u32, width: u32, height: u32) -> Seq<char> {
    "a=T,i="@ + decimal(id as nat) + ",f=32,s="@ + decimal(width as nat) + ",v="@ + decimal(
        height as nat,
    ) + ",q=2"@
}

/// The control data of a later frame: add a frame to image `id` that stays
/// `duration` milliseconds.
pub open spec fn next_frame_params(id: u32, width: u32, height: u32, duration: u32) -> Seq<char> {
    "a=f,i="@ + decimal(id as nat) + ",f=32,s="@ + decimal(width as nat) + ",v="@ + decimal(
        height as nat,
    ) + ",z="@ + decimal(duration as nat) + ",q=2"@
}

/// The control data that set the gap of the root frame to `duration`.
pub open spec fn root_gap_params(id: u32, duration: u32) -> Seq<char> {
    "a=a,i="@ + decimal(id as nat) + ",r=1,z="@ + decimal(duration as nat) + ",q=2"@
}

/// The control data that start the animation, looping forever.
pub open spec fn start_loop_params(id: u32) -> Seq<char> {
    "a=a,i="@ + decimal(id as nat) + ",s=3,v=1,q=2"@
}

/// The number of frames that are sent: frames beyond the first go with a
/// duration each, so as many as both lists allow.
pub open spec fn frames_sent(frame_count: nat, duration_count: nat) -> nat {
    if frame_count < duration_count {
        frame_count
    } else {
        duration_count
    }
}

/// The command that starts the loop names the image by its whole id: its
/// control data are `a=a,i=`, a run of decimal digits that reads back as
/// `id`, and `,s=3,v=1,q=2` (start, loop forever).
pub proof fn lemma_start_loop_names_the_image(id: u32)
    ensures
        exists|ds: Seq<char>|
            start_loop_params(id) == "a=a,i="@ + ds + ",s=3,v=1,q=2"@ && all_digits(ds)
                && #[trigger] digits_value(ds) == id,
{
    lemma_decimal_reads_back(id as nat);
    let ds = decimal(id as nat);
    assert(start_loop_params(id) == "a=a,i="@ + ds + ",s=3,v=1,q=2"@ && all_digits(ds)
        && digits_value(ds) == id);
}

/// The root-gap command names the image by its whole id and the gap by its
/// whole duration, each a run of decimal digits that reads back as the
/// number.
pub proof fn lemma_root_gap_names_image_and_gap(id: u32, duration: u32)
    ensures
        exists|di: Seq<char>, dz: Seq<char>|
            root_gap_params(id, duration) == "a=a,i="@ + di + ",r=1,z="@ + dz + ",q=2"@
                && all_digits(di) && all_digits(dz) && #[trigger] digits_value(di) == id
                && #[trigger] digits_value(dz) == duration,
{
    lemma_decimal_reads_back(id as nat);
    lemma_decimal_reads_back(duration as nat);
    let di = decimal(id as nat);
    let dz = decimal(duration as nat);
    assert(root_gap_params(id, duration) == "a=a,i="@ + di + ",r=1,z="@ + dz + ",q=2"@
        && all_digits(di) && all_digits(dz) && digits_value(di) == id && digits_value(dz) == duration);
}

/// The first frame's control data name the image, width and height by
/// their whole values.
pub proof fn lemma_first_frame_names_image_and_size(id: u32, width: u32, height: u32)
    ensures
        exists|di: Seq<char>, dw: Seq<char>, dh: Seq<char>|
            first_frame_params(id, width, height) == "a=T,i="@ + di + ",f=32,s="@ + dw + ",v="@ + dh
                + ",q=2"@ && all_digits(di) && all_digits(dw) && all_digits(dh)
                && #[trigger] digits_value(di) == id && #[trigger] digits_value(dw) == width
                && #[trigger] digits_value(dh) == height,
{
    lemma_decimal_reads_back(id as nat);
    lemma_decimal_reads_back(width as nat);
    lemma_decimal_reads_back(height as nat);
    let di = decimal(id as nat);
    let dw = decimal(width as nat);
    let dh = decimal(height as nat);
    assert(first_frame_params(id, width, height) == "a=T,i="@ + di + ",f=32,s="@ + dw + ",v="@ + dh
        + ",q=2"@ && all_digits(di) && all_digits(dw) && all_digits(dh) && digits_value(di) == id
        && digits_value(dw) == width && digits_value(dh) == height);
}

/// A later frame's control data name the image, size and duration by their
/// whole values.
pub proof fn lemma_next_frame_names_image_size_and_duration(id: u32, width: u32, height: u32, duration: u32)
    ensures
        exists|di: Seq<char>, dw: Seq<char>, dh: Seq<char>, dz: Seq<char>|
            next_frame_params(id, width, height, duration) == "a=f,i="@ + di + ",f=32,s="@ + dw + ",v="@
                + dh + ",z="@ + dz + ",q=2"@ && all_digits(di) && all_digits(dw) && all_digits(dh)
                && all_digits(dz) && #[trigger] digits_value(di) == id && #[trigger] digits_value(dw)
                == width && #[trigger] digits_value(dh) == height && #[trigger] digits_value(dz) == duration,
{
    lemma_decimal_reads_back(id as nat);
    lemma_decimal_reads_back(width as nat);
    lemma_decimal_reads_back(height as nat);
    lemma_decimal_reads_back(duration as nat);
    let di = decimal(id as nat);
    let dw = decimal(width as nat);
    let dh = decimal(height as nat);
    let dz = decimal(duration as nat);
    assert(next_frame_params(id, width, height, duration) == "a=f,i="@ + di + ",f=32,s="@ + dw + ",v="@
        + dh + ",z="@ + dz + ",q=2"@ && all_digits(di) && all_digits(dw) && all_digits(dh)
        && all_digits(dz) && digits_value(di) == id && digits_value(dw) == width && digits_value(dh)
        == height && digits_value(dz) == duration);
}

/// Control data of the first frame.
pub fn first_frame_control(id: u32, width: u32, height: u32) -> (p: String)
    ensures
        p@ == first_frame_params(id, width, height),
{
    let mut p = String::new();
    p.append("a=T,i=");
    push_decimal(&mut p, id as u64);
    p.append(",f=32,s=");
    push_decimal(&mut p, width as u64);
    p.append(",v=");
    push_decimal(&mut p, height as u64);
    p.append(",q=2");
    p
}

/// Control data of a later frame.
pub fn next_frame_control(id: u32, width: u32, height: u32, duration: u32) -> (p: String)
    ensures
        p@ == next_frame_params(id, width, height, duration),
{
    let mut p = String::new();
    p.append("a=f,i=");
    push_decimal(&mut p, id as u64);
    p.append(",f=32,s=");
    push_decimal(&mut p, width as u64);
    p.append(",v=");
    push_decimal(&mut p, height as u64);
    p.append(",z=");
    push_decimal(&mut p, duration as u64);
    p.append(",q=2");
    p
}

/// The control data of every frame that `play` sends, in order: the first
/// frame is transmitted and displayed, each later one is added with its
/// duration.
pub fn frame_controls(meta: &Meta, frame_count: usize, id: u32) -> (ps: Vec<String>)
    requires
        frame_count >= 1,
        meta.durations@.len() >= 1,
    ensures
        ps@.len() == frames_sent(frame_count as nat, meta.durations@.len()),
        ps@[0]@ == first_frame_params(id, meta.width, meta.height),
        forall|k: int|
            1 <= k < ps@.len() ==> #[trigger] ps@[k]@ == next_frame_params(
                id,
                meta.width,
                meta.height,
                meta.durations@[k],
            ),
{
    let n = if frame_count < meta.durations.len() {
        frame_count
    } else {
        meta.durations.len()
    };
    let mut ps: Vec<String> = Vec::new();
    ps.push(first_frame_control(id, meta.width, meta.height));
    let mut k: usize = 1;
    while k < n
        invariant
            n == frames_sent(frame_count as nat, meta.durations@.len()),
            1 <= k <= n,
            ps@.len() == k,
            ps@[0]@ == first_frame_params(id, meta.width, meta.height),
            forall|j: int|
                1 <= j < k ==> #[trigger] ps@[j]@ == next_frame_params(
                    id,
                    meta.width,
                    meta.height,
                    meta.durations@[j],
                ),
        decreases n - k,
    {
        ps.push(next_frame_control(id, meta.width, meta.height, meta.durations[k]));
        k = k + 1;
    }
    ps
}

/// The command that sets the gap of the root frame to `duration`.
pub fn root_gap_command(id: u32, duration: u32) -> (cmd: Vec<u8>)
    ensures
        cmd@ == graphics_command(vstd::utf8::encode_utf8(root_gap_params(id, duration)), None),
{
    let mut p = String::new();
    p.append("a=a,i=");
    push_decimal(&mut p, id as u64);
    p.append(",r=1,z=");
    push_decimal(&mut p, duration as u64);
    p.append(",q=2");
    gr_cmd(p.as_str(), None)
}

/// The command that starts the animation in an endless loop.
pub fn start_loop_command(id: u32) -> (cmd: Vec<u8>)
    ensures
        cmd@ == graphics_command(vstd::utf8::encode_utf8(start_loop_params(id)), None),
{
    let mut p = String::new();
    p.append("a=a,i=");
    push_decimal(&mut p, id as u64);
    p.append(",s=3,v=1,q=2");
    gr_cmd(p.as_str(), None)
}

#[verifier::external_type_specification]
#[verifier::external_body]
pub struct ExSystemTime(std::time::SystemTime);

/// Calls `std::time::SystemTime::now`; nothing is promised of the reading.
#[verifier::external_body]
fn system_time_now() -> std::time::SystemTime {
    std::time::SystemTime::now()
}

/// Calls `SystemTime::duration_since(UNIX_EPOCH)`: the time since the Unix
/// epoch, or `None` for a clock that reads earlier. Nothing is promised of
/// which.
#[verifier::external_body]
fn since_unix_epoch(t: std::time::SystemTime) -> Option<std::time::Duration> {
    t.duration_since(std::time::UNIX_EPOCH).ok()
}

/// Calls `Duration::subsec_nanos`, which the documentation says is always
/// less than one billion.
#[verifier::external_body]
fn subsec_nanos(d: &std::time::Duration) -> (n: u32)
    ensures
        n < 1_000_000_000,
{
    d.subsec_nanos()
}

/// The image id made from a nanosecond count: in `1..=u32::MAX`, never 0.
pub open spec fn id_from_nanos(nanos: u32) -> u32 {
    (nanos % 0xffff_fffe + 1) as u32
}

/// An image id from the nanoseconds of a clock reading (kitty takes `u32`
/// ids, and 0 is none).
pub fn image_id_from_nanos(nanos: u32) -> (id: u32)
    ensures
        id == id_from_nanos(nanos),
        id >= 1,
{
    nanos % 0xffff_fffe + 1
}

/// Generate a unique image ID from current time (kitty supports u32 IDs):
/// the sub-second nanoseconds of the clock, plus one. A clock that reads
/// before the Unix epoch counts as zero nanoseconds.
pub fn unique_image_id() -> (id: u32)
    ensures
        1 <= id <= 1_000_000_000,
        exists|nanos: u32| nanos < 1_000_000_000 && id == id_from_nanos(nanos),
{
    let nanos = match since_unix_epoch(system_time_now()) {
        Some(d) => subsec_nanos(&d),
        None => 0,
    };
    image_id_from_nanos(nanos)
}

} // verus!

//! Decoding a GIF into equally sized RGBA frames with their delays.
use vstd::prelude::*;
use image::AnimationDecoder;
use crate::error::Error;

verus! {

/// Metadata about a decoded and cached GIF animation.
#[derive(Debug, Clone)]
pub struct Meta {
    /// Width of each frame in pixels.
    pub width: u32,
    /// Height of each frame in pixels.
    pub height: u32,
    /// Total number of frames.
    pub n_frames: usize,
    /// Per-frame delay in milliseconds.
    pub durations: Vec<u32>,
    /// Original source filename (for display purposes).
    pub source: String,
}

/// One frame as the GIF decoder gives it: its size, its delay in
/// milliseconds as the fraction `delay_numer / delay_denom`, and its RGBA
/// pixels, four bytes each, row by row.
#[derive(Debug, Clone)]
pub struct RawFrame {
    pub width: u32,
    pub height: u32,
    pub delay_numer: u32,
    pub delay_denom: u32,
    pub rgba: Vec<u8>,
}

impl View for RawFrame {
    type V = (u32, u32, u32, u32, Seq<u8>);

    open spec fn view(&self) -> (u32, u32, u32, u32, Seq<u8>) {
        (self.width, self.height, self.delay_numer, self.delay_denom, self.rgba@)
    }
}

/// The frames of a sequence by their views.
pub open spec fn frames_view(frames: Seq<RawFrame>) -> Seq<(u32, u32, u32, u32, Seq<u8>)> {
    frames.map_values(|f: RawFrame| f@)
}

/// What decoding `data` as an animated GIF gives: the frames, or `None`
/// where the decoder reports an error.
pub uninterp spec fn gif_frames(data: Seq<u8>) -> Option<Seq<(u32, u32, u32, u32, Seq<u8>)>>;

/// The frames of one animation: all of the first frame's size, each holding
/// four bytes per pixel, each delay with a non-zero denominator.
pub open spec fn frames_wf(frames: Seq<RawFrame>) -> bool {
    forall|i: int| 0 <= i < frames.len() ==> #[trigger] frame_fits(frames, i)
}

/// Frame `i` has the first frame's size, four bytes per pixel and a delay
/// with a non-zero denominator.
pub open spec fn frame_fits(frames: Seq<RawFrame>, i: int) -> bool {
    &&& frames[i].width == frames[0].width
    &&& frames[i].height == frames[0].height
    &&& frames[i].rgba@.len() == 4 * frames[i].width * frames[i].height
    &&& frames[i].delay_denom > 0
}

/// Calls `image::codecs::gif::GifDecoder::new` on the bytes and collects the
/// frames of `AnimationDecoder::into_frames`, stopping at the first error.
/// The frames are the ones `gif_frames` names. As the decoder's source
/// shows, each is composed onto the whole canvas (so all share one size),
/// its buffer holds exactly four bytes per pixel, and a delay's denominator
/// is never zero.
#[verifier::external_body]
fn decode_gif_frames(data: &[u8]) -> (res: Result<Vec<RawFrame>, image::ImageError>)
    ensures
        match res {
            Ok(frames) => gif_frames(data@) == Some(frames_view(frames@)) && frames_wf(frames@),
            Err(_) => gif_frames(data@) is None,
        },
{
    let decoder = image::codecs::gif::GifDecoder::new(std::io::Cursor::new(data))?;
    let mut frames = Vec::new();
    for frame in decoder.into_frames() {
        let frame = frame?;
        let (delay_numer, delay_denom) = frame.delay().numer_denom_ms();
        let buffer = frame.into_buffer();
        let (width, height) = buffer.dimensions();
        frames.push(RawFrame { width, height, delay_numer, delay_denom, rgba: buffer.into_raw() });
    }
    Ok(frames)
}

/// Keeps a decoding result of at least two frames; fewer frames make no
/// animation, and a decoder error becomes `Error::Image`.
pub fn check_frame_count(decoded: Result<Vec<RawFrame>, image::ImageError>) -> (res: Result<Vec<RawFrame>, Error>)
    ensures
        match decoded {
            Err(e) => res == Err::<Vec<RawFrame>, Error>(Error::Image(e)),
            Ok(frames) => if frames.len() < 2 {
                res == Err::<Vec<RawFrame>, Error>(Error::TooFewFrames)
            } else {
                res == Ok::<Vec<RawFrame>, Error>(frames)
            },
        },
{
    match decoded {
        Err(e) => Err(Error::Image(e)),
        Ok(frames) => {
            if frames.len() < 2 {
                Err(Error::TooFewFrames)
            } else {
                Ok(frames)
            }
        },
    }
}

/// Decodes the bytes of a GIF file into its frames; an animation needs at
/// least two.
pub fn decode_gif(data: &[u8]) -> (res: Result<Vec<RawFrame>, Error>)
    ensures
        match gif_frames(data@) {
            None => res matches Err(Error::Image(_)),
            Some(fs) => if fs.len() < 2 {
                res matches Err(Error::TooFewFrames)
            } else {
                res matches Ok(frames) && frames_view(frames@) == fs && frames_wf(frames@)
            },
        },
{
    let decoded = decode_gif_frames(data);
    check_frame_count(decoded)
}

/// The shortest delay a frame keeps, in milliseconds.
pub open spec fn min_delay_ms() -> u32 {
    20
}

/// A frame's delay in whole milliseconds, raised to at least 20.
pub open spec fn delay_ms(numer: u32, denom: u32) -> u32 {
    let ms = (numer / denom) as u32;
    if ms < min_delay_ms() {
        min_delay_ms()
    } else {
        ms
    }
}

/// A frame's delay is its own length in whole milliseconds, rounded down,
/// whenever that is at least 20 ms (`denom * ms <= numer < denom * (ms + 1)`),
/// and exactly 20 ms for anything shorter: never cut, never stretched
/// beyond the floor.
pub proof fn lemma_delay_is_whole_milliseconds(numer: u32, denom: u32)
    requires
        denom > 0,
    ensures
        numer >= 20 * denom ==> denom * delay_ms(numer, denom) <= numer < denom * (delay_ms(numer, denom) + 1),
        numer < 20 * denom ==> delay_ms(numer, denom) == 20,
{
    let n = numer as int;
    let d = denom as int;
    let q = n / d;
    vstd::arithmetic::div_mod::lemma_fundamental_div_mod(n, d);
    assert(0 <= n % d < d) by {
        vstd::arithmetic::div_mod::lemma_mod_bound(n, d);
    }
    assert(q >= 0) by {
        vstd::arithmetic::div_mod::lemma_div_pos_is_pos(n, d);
    }
    if n >= 20 * d {
        assert(q >= 20) by (nonlinear_arith)
            requires
                n == d * q + n % d,
                0 <= n % d < d,
                n >= 20 * d,
                d > 0,
        ;
        assert(d * q <= n < d * (q + 1)) by (nonlinear_arith)
            requires
                n == d * q + n % d,
                0 <= n % d < d,
        ;
    } else {
        assert(q < 20) by (nonlinear_arith)
            requires
                n == d * q + n % d,
                0 <= n % d,
                n < 20 * d,
                d > 0,
        ;
    }
}

/// The per-frame delay in milliseconds: the delay rounded down, at least 20.
pub fn frame_delay_ms(numer: u32, denom: u32) -> (ms: u32)
    requires
        denom > 0,
    ensures
        ms == delay_ms(numer, denom),
        ms >= min_delay_ms(),
        numer >= 20 * denom ==> denom * ms <= numer < denom * (ms + 1),
        numer < 20 * denom ==> ms == 20,
{
    proof {
        lemma_delay_is_whole_milliseconds(numer, denom);
    }
    let ms = numer / denom;
    if ms < 20 {
        20
    } else {
        ms
    }
}

/// The width to scale to: `max_width` when the frames are wider than it,
/// else none (the frames keep their size).
pub fn scaled_width(orig_width: u32, max_width: Option<u32>) -> (w: Option<u32>)
    ensures
        w == (match max_width {
            Some(mw) => if orig_width > mw {
                Some(mw)
            } else {
                None::<u32>
            },
            None => None::<u32>,
        }),
{
    match max_width {
        Some(mw) => if orig_width > mw {
            Some(mw)
        } else {
            None
        },
        None => None,
    }
}

/// Whether resizing a `width` x `height` RGBA image to `new_width` x
/// `new_height` stays within what the resizer can allocate: its buffer of
/// `f32` channels at the new height, and the result.
pub open spec fn resize_fits(width: u32, height: u32, new_width: u32, new_height: u32) -> bool {
    &&& 16 * width * new_height <= isize::MAX
    &&& 4 * new_width * new_height <= isize::MAX
}

/// Calls `image::imageops::resize` with `FilterType::Lanczos3` on the RGBA
/// image made of `rgba` (`ImageBuffer::from_raw`). As the source shows, the
/// result is an image of exactly the new size, four bytes per pixel. Its
/// pixel values are not stated: they come from floating-point filtering.
#[verifier::external_body]
fn resize_rgba(rgba: Vec<u8>, width: u32, height: u32, new_width: u32, new_height: u32) -> (out: Vec<u8>)
    requires
        rgba@.len() >= 4 * width * height,
        resize_fits(width, height, new_width, new_height),
    ensures
        out@.len() == 4 * new_width * new_height,
{
    let image = image::RgbaImage::from_raw(width, height, rgba).unwrap();
    image::imageops::resize(&image, new_width, new_height, image::imageops::FilterType::Lanczos3).into_raw()
}

/// Copies a byte vector.
fn copy_bytes(v: &Vec<u8>) -> (c: Vec<u8>)
    ensures
        c@ == v@,
{
    let c = v.clone();
    assert(c@ =~= v@);
    c
}

/// What `scale_frames` asks of its input: an animation's frames, and, when
/// the target size differs from theirs, one that the resizer can reach.
pub open spec fn can_scale(frames: Seq<RawFrame>, out_width: u32, out_height: u32) -> bool {
    &&& frames.len() > 0
    &&& frames_wf(frames)
    &&& (out_width != frames[0].width || out_height != frames[0].height) ==> resize_fits(
        frames[0].width,
        frames[0].height,
        out_width,
        out_height,
    )
}

/// Scales every frame to `out_width` x `out_height` (Lanczos3) unless that
/// is already the frames' size, and gathers the delays: the metadata and
/// pixels that go into the cache.
pub fn scale_frames(frames: Vec<RawFrame>, out_width: u32, out_height: u32, source: String) -> (res: (
    Meta,
    Vec<Vec<u8>>,
))
    requires
        can_scale(frames@, out_width, out_height),
    ensures
        res.0.width == out_width,
        res.0.height == out_height,
        res.0.n_frames == frames@.len(),
        res.0.source@ == source@,
        res.0.durations@.len() == frames@.len(),
        res.1@.len() == frames@.len(),
        forall|i: int|
            0 <= i < frames@.len() ==> #[trigger] res.0.durations@[i] == delay_ms(
                frames@[i].delay_numer,
                frames@[i].delay_denom,
            ),
        forall|i: int| 0 <= i < frames@.len() ==> #[trigger] res.0.durations@[i] >= min_delay_ms(),
        forall|i: int| 0 <= i < frames@.len() ==> #[trigger] res.1@[i]@.len() == 4 * out_width * out_height,
        (out_width == frames@[0].width && out_height == frames@[0].height) ==> forall|i: int|
            0 <= i < frames@.len() ==> #[trigger] res.1@[i]@ == frames@[i].rgba@,
{
    let orig_width = frames[0].width;
    let orig_height = frames[0].height;
    let resize = out_width != orig_width || out_height != orig_height;
    let n = frames.len();
    let mut scaled: Vec<Vec<u8>> = Vec::new();
    let mut durations: Vec<u32> = Vec::new();
    let mut i: usize = 0;
    while i < n
        invariant
            n == frames@.len(),
            i <= n,
            can_scale(frames@, out_width, out_height),
            orig_width == frames@[0].width,
            orig_height == frames@[0].height,
            resize == (out_width != orig_width || out_height != orig_height),
            scaled@.len() == i,
            durations@.len() == i,
            forall|j: int|
                0 <= j < i ==> #[trigger] durations@[j] == delay_ms(
                    frames@[j].delay_numer,
                    frames@[j].delay_denom,
                ),
            forall|j: int| 0 <= j < i ==> #[trigger] scaled@[j]@.len() == 4 * out_width * out_height,
            !resize ==> forall|j: int| 0 <= j < i ==> #[trigger] scaled@[j]@ == frames@[j].rgba@,
        decreases n - i,
    {
        let frame = &frames[i];
        assert(frame_fits(frames@, i as int));
        durations.push(frame_delay_ms(frame.delay_numer, frame.delay_denom));
        let pixels = copy_bytes(&frame.rgba);
        if resize {
            scaled.push(resize_rgba(pixels, frame.width, frame.height, out_width, out_height));
        } else {
            scaled.push(pixels);
        }
        i = i + 1;
    }
    let meta = Meta { width: out_width, height: out_height, n_frames: n, durations, source };
    (meta, scaled)
}

/// Whether the resizer can take a `width` x `height` image to
/// `new_width` x `new_height`.
pub fn resize_fits_exec(width: u32, height: u32, new_width: u32, new_height: u32) -> (ok: bool)
    ensures
        ok == resize_fits(width, height, new_width, new_height),
{
    let w = width as u128;
    let nw = new_width as u128;
    let nh = new_height as u128;
    assert(16 * w * nh <= 16 * 0xffff_ffffu128 * 0xffff_ffffu128) by (nonlinear_arith)
        requires
            w <= 0xffff_ffff,
            nh <= 0xffff_ffff,
    ;
    assert(4 * nw * nh <= 4 * 0xffff_ffffu128 * 0xffff_ffffu128) by (nonlinear_arith)
        requires
            nw <= 0xffff_ffff,
            nh <= 0xffff_ffff,
    ;
    16 * w * nh <= isize::MAX as u128 && 4 * nw * nh <= isize::MAX as u128
}

/// Whether `scale_frames` may take these frames to `out_width` x
/// `out_height`: they form an animation (one size, four bytes per pixel,
/// non-zero delay denominators) and the resizer can reach a new size.
pub fn can_scale_to(frames: &Vec<RawFrame>, out_width: u32, out_height: u32) -> (ok: bool)
    ensures
        ok == can_scale(frames@, out_width, out_height),
{
    let n = frames.len();
    if n == 0 {
        return false;
    }
    let width = frames[0].width;
    let height = frames[0].height;
    let mut i: usize = 0;
    while i < n
        invariant
            n == frames@.len(),
            n > 0,
            i <= n,
            width == frames@[0].width,
            height == frames@[0].height,
            forall|j: int| 0 <= j < i ==> #[trigger] frame_fits(frames@, j),
        decreases n - i,
    {
        let f = &frames[i];
        let w = f.width as u128;
        let h = f.height as u128;
        assert(4 * w * h <= 4 * 0xffff_ffffu128 * 0xffff_ffffu128) by (nonlinear_arith)
            requires
                w <= 0xffff_ffff,
                h <= 0xffff_ffff,
        ;
        if f.width != width || f.height != height || f.delay_denom == 0 || f.rgba.len() as u128 != 4 * w * h {
            assert(!frame_fits(frames@, i as int));
            return false;
        }
        assert(frame_fits(frames@, i as int));
        i = i + 1;
    }
    if out_width != width || out_height != height {
        resize_fits_exec(width, height, out_width, out_height)
    } else {
        true
    }
}

/// The sum of the lengths of the buffers.
pub open spec fn total_len(buffers: Seq<Vec<u8>>) -> nat
    decreases buffers.len(),
{
    if buffers.len() == 0 {
        0
    } else {
        total_len(buffers.drop_last()) + buffers.last()@.len()
    }
}

/// The size of the cached frames in whole KiB.
pub fn cache_size_kb(frames: &Vec<Vec<u8>>) -> (kb: u128)
    ensures
        kb == total_len(frames@) / 1024,
{
    let n = frames.len();
    let mut total: u128 = 0;
    let mut i: usize = 0;
    while i < n
        invariant
            n == frames@.len(),
            i <= n,
            total == total_len(frames@.take(i as int)),
            total <= i * (usize::MAX as int),
        decreases n - i,
    {
        assert(frames@.take(i + 1).drop_last() =~= frames@.take(i as int));
        assert((i + 1) * (usize::MAX as int) == i * (usize::MAX as int) + usize::MAX) by (nonlinear_arith);
        assert(i * (usize::MAX as int) <= usize::MAX * usize::MAX) by (nonlinear_arith)
            requires
                i <= usize::MAX,
        ;
        total = total + frames[i].len() as u128;
        i = i + 1;
    }
    assert(frames@.take(n as int) =~= frames@);
    total / 1024
}

} // verus!

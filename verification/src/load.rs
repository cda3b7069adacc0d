//! Loading the frames of a GIF, from the cache when they are there, else by
//! decoding and scaling them: the decisions, step by step, while the caller
//! reads and writes the files and chooses the scaled height.
use vstd::prelude::*;
use crate::cache::{
    hash_bytes, join, join_path, key_for, key_from_hash, lemma_key_separates_widths, sha256_digest,
    short_hash,
};
use crate::decode::{
    can_scale, can_scale_to, decode_gif, delay_ms, frames_view, frames_wf, gif_frames,
    min_delay_ms, scale_frames, scaled_width, Meta, RawFrame,
};
use crate::error::Error;

verus! {

/// Where loading stands.
pub enum Stage {
    /// The GIF's contents are awaited, to name its cache entry under
    /// `cache_root` for the width limit `max_width`; `source` is the GIF's
    /// file name, for the metadata.
    ReadingGif { max_width: Option<u32>, cache_root: String, source: String },
    /// The cache entry at `cache_path` has been looked up; `contents` are
    /// the GIF's bytes, to decode on a miss.
    ReadingCache { max_width: Option<u32>, cache_path: String, source: String, contents: Vec<u8> },
    /// The GIF (`gif`) was decoded into `frames`, wider than the limit: the
    /// height to scale to is awaited, for the width `out_width`.
    Scaling {
        max_width: Option<u32>,
        cache_path: String,
        source: String,
        gif: Ghost<Seq<u8>>,
        frames: Vec<RawFrame>,
        out_width: u32,
    },
    /// The frames of the GIF `gif` are ready and are being written to the
    /// cache entry at `cache_path`.
    WritingCache {
        max_width: Option<u32>,
        cache_path: String,
        source: String,
        gif: Ghost<Seq<u8>>,
        meta: Meta,
        frames: Vec<Vec<u8>>,
    },
    /// The result has been handed back.
    Done,
}

/// The width that frames `width` pixels wide are shown at under a limit:
/// the limit when they are wider, else their own.
pub open spec fn shown_width(width: u32, max_width: Option<u32>) -> u32 {
    match max_width {
        Some(m) => if width > m {
            m
        } else {
            width
        },
        None => width,
    }
}

/// `meta` and `frames` are what decoding the GIF `gif` gives under the
/// width limit: at least two frames, shown at `shown_width`, each delay the
/// frame's own in whole milliseconds and at least 20, each frame four bytes
/// per pixel of the shown size, and frames left as decoded when their size
/// stays.
pub open spec fn decoded_load(gif: Seq<u8>, max_width: Option<u32>, source: Seq<char>, meta: Meta, frames: Seq<Vec<u8>>) -> bool {
    match gif_frames(gif) {
        Some(fs) => {
            &&& fs.len() >= 2
            &&& meta.width == shown_width(fs[0].0, max_width)
            &&& meta.width == fs[0].0 ==> meta.height == fs[0].1
            &&& meta.height <= fs[0].1
            &&& meta.n_frames == fs.len()
            &&& meta.durations@.len() == fs.len()
            &&& frames.len() == fs.len()
            &&& meta.source@ == source
            &&& forall|i: int| 0 <= i < fs.len() ==> #[trigger] meta.durations@[i] == delay_ms(fs[i].2, fs[i].3)
            &&& forall|i: int| 0 <= i < fs.len() ==> #[trigger] meta.durations@[i] >= min_delay_ms()
            &&& forall|i: int| 0 <= i < fs.len() ==> #[trigger] frames[i]@.len() == 4 * meta.width * meta.height
            &&& (meta.width == fs[0].0 && meta.height == fs[0].1) ==> forall|i: int|
                0 <= i < fs.len() ==> #[trigger] frames[i]@ == fs[i].4
        },
        None => false,
    }
}

/// What each stage keeps true of what it holds.
pub open spec fn stage_inv(stage: Stage) -> bool {
    match stage {
        Stage::Scaling { max_width, gif, frames, out_width, .. } => {
            &&& gif_frames(gif@) == Some(frames_view(frames@))
            &&& frames@.len() >= 2
            &&& frames_wf(frames@)
            &&& max_width == Some(out_width)
            &&& frames@[0].width > out_width
        },
        Stage::WritingCache { max_width, source, gif, meta, frames, .. } => decoded_load(
            gif@,
            max_width,
            source@,
            meta,
            frames@,
        ),
        _ => true,
    }
}

/// Where loading stands, with what each stage holds kept consistent.
pub struct LoadState {
    stage: Stage,
}

impl LoadState {
    #[verifier::type_invariant]
    spec fn inv(self) -> bool {
        stage_inv(self.stage)
    }

    /// The stage.
    pub closed spec fn stage(self) -> Stage {
        self.stage
    }

    /// The start of loading: the GIF's contents are awaited.
    pub fn start(max_width: Option<u32>, cache_root: String, source: String) -> (s: LoadState)
        ensures
            s.stage() == (Stage::ReadingGif { max_width, cache_root, source }),
    {
        LoadState { stage: Stage::ReadingGif { max_width, cache_root, source } }
    }

    /// The cache entry to write, while frames are being written: its path,
    /// metadata and frames.
    pub fn cache_entry(&self) -> (entry: Option<(&String, &Meta, &Vec<Vec<u8>>)>)
        ensures
            match self.stage() {
                Stage::WritingCache { cache_path, meta, frames, .. } => entry == Some((&cache_path, &meta, &frames)),
                _ => entry is None,
            },
    {
        match &self.stage {
            Stage::WritingCache { cache_path, meta, frames, .. } => Some((cache_path, meta, frames)),
            _ => None,
        }
    }

    /// Whether loading is over.
    pub fn is_done(&self) -> (done: bool)
        ensures
            done == (self.stage() is Done),
    {
        match &self.stage {
            Stage::Done => true,
            _ => false,
        }
    }
}

/// What the caller reports back.
pub enum LoadEvent {
    /// The GIF file was read (or reading it failed).
    GifRead(Result<Vec<u8>, std::io::Error>),
    /// The cache entry was read: its metadata and frames, or `None` when it
    /// is missing or unreadable.
    CacheRead(Option<(Meta, Vec<Vec<u8>>)>),
    /// The height to scale the frames to.
    HeightChosen(u32),
    /// The frames were written to the cache (or writing failed).
    CacheWritten(Result<(), Error>),
}

/// What the caller does next.
pub enum LoadAction {
    /// Read the cache entry at this path.
    ReadCache(String),
    /// Choose the height for frames of `width` x `height` scaled to
    /// `max_width` pixels wide.
    ChooseHeight { width: u32, height: u32, max_width: u32 },
    /// Write the cache entry that the state holds (`LoadState::cache_entry`).
    WriteCache,
    /// Loading is over: hand back this result; `from_cache` tells a cache hit.
    Finish { result: Result<(Meta, Vec<Vec<u8>>), Error>, from_cache: bool },
}

/// The event that the caller owes in a stage; a chosen height must be no
/// more than the frames' own, and one the frames can be scaled to.
pub open spec fn awaits(stage: Stage, event: LoadEvent) -> bool {
    match (stage, event) {
        (Stage::ReadingGif { .. }, LoadEvent::GifRead(_)) => true,
        (Stage::ReadingCache { .. }, LoadEvent::CacheRead(_)) => true,
        (Stage::Scaling { frames, out_width, .. }, LoadEvent::HeightChosen(h)) => {
            &&& frames@.len() > 0
            &&& h <= frames@[0].height
            &&& can_scale(frames@, out_width, h)
        },
        (Stage::WritingCache { .. }, LoadEvent::CacheWritten(_)) => true,
        _ => false,
    }
}

/// The cache entry of a GIF with these contents.
pub open spec fn entry_path(cache_root: Seq<char>, contents: Seq<u8>, max_width: Option<u32>) -> Seq<char> {
    join(cache_root, key_for(short_hash(sha256_digest(contents)), max_width))
}

/// Whether the event is the one the state awaits.
pub fn awaits_exec(state: &LoadState, event: &LoadEvent) -> (ok: bool)
    ensures
        ok == awaits(state.stage(), *event),
{
    proof {
        use_type_invariant(state);
    }
    match (&state.stage, event) {
        (Stage::ReadingGif { .. }, LoadEvent::GifRead(_)) => true,
        (Stage::ReadingCache { .. }, LoadEvent::CacheRead(_)) => true,
        (Stage::Scaling { frames, out_width, .. }, LoadEvent::HeightChosen(h)) => {
            *h <= frames[0].height && can_scale_to(frames, *out_width, *h)
        },
        (Stage::WritingCache { .. }, LoadEvent::CacheWritten(_)) => true,
        _ => false,
    }
}

/// What one step does, from the stage before and the event to the stage
/// after and the action.
pub open spec fn step_spec(before: Stage, event: LoadEvent, after: Stage, action: LoadAction) -> bool {
    match (before, event) {
        (Stage::ReadingGif { .. }, LoadEvent::GifRead(Err(e))) => {
            &&& after is Done
            &&& action == LoadAction::Finish {
                result: Err::<(Meta, Vec<Vec<u8>>), Error>(Error::Io(e)),
                from_cache: false,
            }
        },
        (Stage::ReadingGif { max_width, cache_root, source }, LoadEvent::GifRead(Ok(contents))) => {
            let path = entry_path(cache_root@, contents@, max_width);
            &&& after matches Stage::ReadingCache { max_width: mw, cache_path, source: src, contents: c }
                && mw == max_width && cache_path@ == path && src == source && c == contents
            &&& action matches LoadAction::ReadCache(p) && p@ == path
        },
        (Stage::ReadingCache { .. }, LoadEvent::CacheRead(Some(cached))) => {
            &&& after is Done
            &&& action == LoadAction::Finish {
                result: Ok::<(Meta, Vec<Vec<u8>>), Error>(cached),
                from_cache: true,
            }
        },
        (Stage::ReadingCache { max_width, cache_path, source, contents }, LoadEvent::CacheRead(None)) => {
            match gif_frames(contents@) {
                None => after is Done && action matches LoadAction::Finish {
                    result: Err(Error::Image(_)),
                    from_cache: false,
                },
                Some(fs) => if fs.len() < 2 {
                    after is Done && action matches LoadAction::Finish {
                        result: Err(Error::TooFewFrames),
                        from_cache: false,
                    }
                } else if shown_width(fs[0].0, max_width) != fs[0].0 {
                    &&& after matches Stage::Scaling {
                        max_width: mw,
                        cache_path: p,
                        source: src,
                        gif,
                        out_width,
                        ..
                    } && mw == max_width && p@ == cache_path@ && src == source && gif@ == contents@
                        && out_width == shown_width(fs[0].0, max_width)
                    &&& action == LoadAction::ChooseHeight {
                        width: fs[0].0,
                        height: fs[0].1,
                        max_width: shown_width(fs[0].0, max_width),
                    }
                } else {
                    &&& after matches Stage::WritingCache { max_width: mw, cache_path: p, source: src, gif, meta, frames }
                        && mw == max_width && p@ == cache_path@ && src == source && gif@ == contents@
                        && meta.height == fs[0].1 && decoded_load(contents@, max_width, source@, meta, frames@)
                    &&& action is WriteCache
                },
            }
        },
        (Stage::Scaling { max_width, cache_path, source, gif, out_width, .. }, LoadEvent::HeightChosen(h)) => {
            &&& after matches Stage::WritingCache { max_width: mw, cache_path: p, source: src, gif: g, meta, frames }
                && mw == max_width && p == cache_path && src == source && g == gif && meta.width == out_width
                && meta.height == h && decoded_load(gif@, max_width, source@, meta, frames@)
            &&& action is WriteCache
        },
        (Stage::WritingCache { .. }, LoadEvent::CacheWritten(Err(e))) => {
            &&& after is Done
            &&& action == LoadAction::Finish {
                result: Err::<(Meta, Vec<Vec<u8>>), Error>(e),
                from_cache: false,
            }
        },
        (Stage::WritingCache { meta, frames, .. }, LoadEvent::CacheWritten(Ok(_))) => {
            &&& after is Done
            &&& action == LoadAction::Finish {
                result: Ok::<(Meta, Vec<Vec<u8>>), Error>((meta, frames)),
                from_cache: false,
            }
        },
        _ => false,
    }
}

/// Load frames for a GIF, using the cache if available: one step.
///
/// From the GIF's contents it names the cache entry (`cache_root` joined
/// with the cache key) and asks for it. A cached entry is the result. On a
/// miss it decodes the GIF, has the caller choose the height when the
/// frames are wider than the limit, scales them, and has the caller write
/// them to that entry; the frames are then the result. An error in reading,
/// decoding or writing is the result.
pub fn load_frames(state: LoadState, event: LoadEvent) -> (step: (LoadState, LoadAction))
    requires
        awaits(state.stage(), event),
    ensures
        step_spec(state.stage(), event, step.0.stage(), step.1),
        step.1 matches LoadAction::Finish { result: Ok((meta, frames)), from_cache: false } ==> (
        state.stage() matches Stage::WritingCache { max_width, source, gif, .. } && decoded_load(
            gif@,
            max_width,
            source@,
            meta,
            frames@,
        )),
{
    proof {
        use_type_invariant(&state);
    }
    let LoadState { stage } = state;
    match (stage, event) {
        (Stage::ReadingGif { max_width, cache_root, source }, LoadEvent::GifRead(contents)) => {
            let data = match contents {
                Ok(data) => data,
                Err(e) => {
                    return (
                        LoadState { stage: Stage::Done },
                        LoadAction::Finish { result: Err(Error::Io(e)), from_cache: false },
                    );
                },
            };
            let key = key_from_hash(hash_bytes(data.as_slice()), max_width);
            let path = join_path(cache_root.as_str(), key.as_str());
            let again = copy_string(&path);
            (
                LoadState {
                    stage: Stage::ReadingCache { max_width, cache_path: path, source, contents: data },
                },
                LoadAction::ReadCache(again),
            )
        },
        (Stage::ReadingCache { .. }, LoadEvent::CacheRead(Some(cached))) => (
            LoadState { stage: Stage::Done },
            LoadAction::Finish { result: Ok(cached), from_cache: true },
        ),
        (Stage::ReadingCache { max_width, cache_path, source, contents }, LoadEvent::CacheRead(None)) => {
            let frames = match decode_gif(contents.as_slice()) {
                Ok(frames) => frames,
                Err(e) => {
                    return (
                        LoadState { stage: Stage::Done },
                        LoadAction::Finish { result: Err(e), from_cache: false },
                    );
                },
            };
            let ghost gif = contents@;
            let width = frames[0].width;
            let height = frames[0].height;
            match scaled_width(width, max_width) {
                Some(out_width) => (
                    LoadState {
                        stage: Stage::Scaling {
                            max_width,
                            cache_path,
                            source,
                            gif: Ghost(gif),
                            frames,
                            out_width,
                        },
                    },
                    LoadAction::ChooseHeight { width, height, max_width: out_width },
                ),
                None => {
                    let src = copy_string(&source);
                    let (meta, scaled) = scale_frames(frames, width, height, src);
                    (
                        LoadState {
                            stage: Stage::WritingCache {
                                max_width,
                                cache_path,
                                source,
                                gif: Ghost(gif),
                                meta,
                                frames: scaled,
                            },
                        },
                        LoadAction::WriteCache,
                    )
                },
            }
        },
        (Stage::Scaling { max_width, cache_path, source, gif, frames, out_width }, LoadEvent::HeightChosen(h)) => {
            let src = copy_string(&source);
            let (meta, scaled) = scale_frames(frames, out_width, h, src);
            (
                LoadState {
                    stage: Stage::WritingCache { max_width, cache_path, source, gif, meta, frames: scaled },
                },
                LoadAction::WriteCache,
            )
        },
        (Stage::WritingCache { meta, frames, .. }, LoadEvent::CacheWritten(written)) => {
            match written {
                Ok(()) => (
                    LoadState { stage: Stage::Done },
                    LoadAction::Finish { result: Ok((meta, frames)), from_cache: false },
                ),
                Err(e) => (
                    LoadState { stage: Stage::Done },
                    LoadAction::Finish { result: Err(e), from_cache: false },
                ),
            }
        },
        (s, _) => {
            // no other pair is awaited
            proof {
                assert(false);
            }
            (LoadState { stage: s }, LoadAction::WriteCache)
        },
    }
}

/// The frames that a load decodes hold what the library promises of them:
/// at least two, shown at the width `min(width, limit)` of the GIF's first
/// frame and never taller than it, named after the GIF's file, one delay of
/// at least 20 ms per frame, and every frame four bytes per pixel of the
/// shown size.
pub proof fn lemma_decoded_load_holds(
    gif: Seq<u8>,
    max_width: Option<u32>,
    source: Seq<char>,
    meta: Meta,
    frames: Seq<Vec<u8>>,
)
    requires
        decoded_load(gif, max_width, source, meta, frames),
    ensures
        gif_frames(gif) is Some,
        meta.width == shown_width(gif_frames(gif)->0[0].0, max_width),
        meta.width <= gif_frames(gif)->0[0].0,
        meta.height <= gif_frames(gif)->0[0].1,
        meta.source@ == source,
        max_width matches Some(m) ==> meta.width <= m,
        meta.n_frames >= 2,
        meta.n_frames == frames.len(),
        meta.durations@.len() == meta.n_frames,
        forall|i: int| 0 <= i < frames.len() ==> #[trigger] meta.durations@[i] >= 20,
        forall|i: int| 0 <= i < frames.len() ==> #[trigger] frames[i]@.len() == 4 * meta.width * meta.height,
{
}

/// One GIF loaded with two different width limits goes to two different
/// cache entries, so frames scaled for one limit are never served for the
/// other.
pub proof fn lemma_entries_separate_widths(
    cache_root: Seq<char>,
    contents: Seq<u8>,
    a: Option<u32>,
    b: Option<u32>,
)
    requires
        a != b,
    ensures
        entry_path(cache_root, contents, a) != entry_path(cache_root, contents, b),
{
    let hash = short_hash(sha256_digest(contents));
    let ka = key_for(hash, a);
    let kb = key_for(hash, b);
    if entry_path(cache_root, contents, a) == entry_path(cache_root, contents, b) {
        let pa = entry_path(cache_root, contents, a);
        let pb = entry_path(cache_root, contents, b);
        let n = pa.len() - ka.len();
        assert(pa.skip(n) =~= ka);
        assert(pb.skip(pb.len() - kb.len()) =~= kb);
        assert(ka =~= kb);
        lemma_key_separates_widths(hash, a, b);
    }
}

/// Copies a string.
fn copy_string(s: &String) -> (c: String)
    ensures
        c@ == s@,
{
    s.clone()
}

} // verus!

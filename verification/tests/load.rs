use gifterm::load::{awaits_exec, LoadAction, LoadEvent, LoadState};
use gifterm::{load_frames, Error, Meta};
use image::codecs::gif::GifEncoder;
use image::{Delay, Frame, Rgba, RgbaImage};

fn start(max_width: Option<u32>) -> LoadState {
    LoadState::start(max_width, String::from("/c/gifterm"), String::from("x.gif"))
}

/// A GIF of `n` frames, `w` x `h`, each shown `cs` hundredths of a second.
fn gif(w: u32, h: u32, n: u8, cs: u32) -> Vec<u8> {
    let mut buf = Vec::new();
    {
        let mut enc = GifEncoder::new(&mut buf);
        for i in 0..n {
            let img = RgbaImage::from_pixel(w, h, Rgba([i * 40, 200, 10, 255]));
            enc.encode_frame(Frame::from_parts(img, 0, 0, Delay::from_numer_denom_ms(cs * 10, 1)))
                .unwrap();
        }
    }
    buf
}

fn entry() -> (Meta, Vec<Vec<u8>>) {
    let meta = Meta {
        width: 1,
        height: 1,
        n_frames: 2,
        durations: vec![20, 30],
        source: String::from("x.gif"),
    };
    (meta, vec![vec![1, 2, 3, 4], vec![5, 6, 7, 8]])
}

/// Steps from the start through reading `contents` and a cache miss.
fn miss(max_width: Option<u32>, contents: Vec<u8>) -> (LoadState, LoadAction) {
    let (state, action) = load_frames(start(max_width), LoadEvent::GifRead(Ok(contents)));
    assert!(matches!(action, LoadAction::ReadCache(_)));
    load_frames(state, LoadEvent::CacheRead(None))
}

#[test]
fn gif_read_names_the_cache_entry() {
    let (state, action) = load_frames(start(Some(400)), LoadEvent::GifRead(Ok(b"abc".to_vec())));
    match action {
        LoadAction::ReadCache(p) => assert_eq!(p, "/c/gifterm/ba7816bf8f01cfea_w400"),
        _ => panic!("expected a cache lookup"),
    }
    assert!(!state.is_done());
    assert!(state.cache_entry().is_none());
}

#[test]
fn unreadable_gif_ends_loading() {
    let err = std::io::Error::new(std::io::ErrorKind::NotFound, "gone");
    let (state, action) = load_frames(start(None), LoadEvent::GifRead(Err(err)));
    assert!(state.is_done());
    match action {
        LoadAction::Finish { result: Err(Error::Io(e)), from_cache } => {
            assert_eq!(e.kind(), std::io::ErrorKind::NotFound);
            assert!(!from_cache);
        }
        _ => panic!("expected an I/O error"),
    }
}

#[test]
fn cache_hit_is_the_result() {
    let (state, _) = load_frames(start(None), LoadEvent::GifRead(Ok(b"abc".to_vec())));
    let (state, action) = load_frames(state, LoadEvent::CacheRead(Some(entry())));
    assert!(state.is_done());
    match action {
        LoadAction::Finish { result: Ok((meta, frames)), from_cache: true } => {
            assert_eq!(meta.durations, vec![20, 30]);
            assert_eq!(frames, entry().1);
        }
        _ => panic!("expected the cached entry"),
    }
}

#[test]
fn cache_miss_decodes_and_writes_the_entry() {
    let data = gif(6, 4, 3, 5);
    let (state, action) = miss(None, data.clone());
    assert!(matches!(action, LoadAction::WriteCache));
    {
        let (path, meta, frames) = state.cache_entry().unwrap();
        let key = gifterm::cache_key(Ok(data), None).unwrap();
        assert_eq!(*path, format!("/c/gifterm/{key}"));
        assert_eq!((meta.width, meta.height, meta.n_frames), (6, 4, 3));
        assert_eq!(meta.durations, vec![50, 50, 50]);
        assert_eq!(meta.source, "x.gif");
        assert_eq!(frames.len(), 3);
        assert!(frames.iter().all(|f| f.len() == 6 * 4 * 4));
    }
    let (state, action) = load_frames(state, LoadEvent::CacheWritten(Ok(())));
    assert!(state.is_done());
    match action {
        LoadAction::Finish { result: Ok((meta, frames)), from_cache: false } => {
            assert_eq!((meta.width, meta.height), (6, 4));
            assert_eq!(frames.len(), 3);
        }
        _ => panic!("expected the decoded frames"),
    }
}

#[test]
fn wide_gif_is_scaled_to_the_limit() {
    let (state, action) = miss(Some(4), gif(8, 6, 2, 10));
    match action {
        LoadAction::ChooseHeight { width, height, max_width } => {
            assert_eq!((width, height, max_width), (8, 6, 4));
        }
        _ => panic!("expected a height to choose"),
    }
    let event = LoadEvent::HeightChosen(3);
    assert!(awaits_exec(&state, &event));
    let (state, action) = load_frames(state, event);
    assert!(matches!(action, LoadAction::WriteCache));
    let (_, meta, frames) = state.cache_entry().unwrap();
    assert_eq!((meta.width, meta.height), (4, 3));
    assert_eq!(meta.durations, vec![100, 100]);
    assert!(frames.iter().all(|f| f.len() == 4 * 3 * 4));
}

#[test]
fn decoded_metadata_keeps_the_file_name() {
    let (state, _) = load_frames(
        LoadState::start(Some(2), String::from("/t/c"), String::from("a.gif")),
        LoadEvent::GifRead(Ok(gif(4, 2, 2, 5))),
    );
    let (state, action) = load_frames(state, LoadEvent::CacheRead(None));
    assert!(matches!(action, LoadAction::ChooseHeight { width: 4, height: 2, max_width: 2 }));
    let (state, _) = load_frames(state, LoadEvent::HeightChosen(1));
    let (_, action) = load_frames(state, LoadEvent::CacheWritten(Ok(())));
    match action {
        LoadAction::Finish { result: Ok((m, f)), from_cache: false } => {
            assert_eq!((m.width, m.height, m.n_frames), (2, 1, 2));
            assert_eq!(m.durations, vec![50, 50]);
            assert_eq!(m.source, "a.gif");
            assert_eq!((f[0].len(), f[1].len()), (8, 8));
        }
        _ => panic!("expected the decoded frames"),
    }
}

#[test]
fn narrow_gif_is_not_scaled_up() {
    let (state, action) = miss(Some(400), gif(8, 6, 2, 10));
    assert!(matches!(action, LoadAction::WriteCache));
    let (_, meta, _) = state.cache_entry().unwrap();
    assert_eq!((meta.width, meta.height), (8, 6));
}

#[test]
fn scaling_awaits_a_height_no_taller() {
    let (state, _) = miss(Some(4), gif(8, 6, 2, 10));
    assert!(awaits_exec(&state, &LoadEvent::HeightChosen(6)));
    assert!(awaits_exec(&state, &LoadEvent::HeightChosen(0)));
    assert!(!awaits_exec(&state, &LoadEvent::HeightChosen(7)));
    assert!(!awaits_exec(&state, &LoadEvent::CacheWritten(Ok(()))));
    assert!(!awaits_exec(&state, &LoadEvent::CacheRead(None)));
}

#[test]
fn write_error_is_the_result() {
    let (state, _) = miss(None, gif(2, 2, 2, 10));
    let err = std::io::Error::new(std::io::ErrorKind::PermissionDenied, "ro");
    let (state, action) = load_frames(state, LoadEvent::CacheWritten(Err(Error::from(err))));
    assert!(state.is_done());
    assert!(matches!(
        action,
        LoadAction::Finish { result: Err(Error::Io(_)), from_cache: false }
    ));
}

#[test]
fn decode_errors_are_the_result() {
    let (state, action) = miss(None, b"not a gif".to_vec());
    assert!(state.is_done());
    assert!(matches!(action, LoadAction::Finish { result: Err(Error::Image(_)), from_cache: false }));
    let (_, action) = miss(None, gif(2, 2, 1, 10));
    assert!(matches!(
        action,
        LoadAction::Finish { result: Err(Error::TooFewFrames), from_cache: false }
    ));
}

#[test]
fn entries_differ_by_width() {
    let path = |w: Option<u32>| match load_frames(start(w), LoadEvent::GifRead(Ok(b"gif".to_vec()))).1 {
        LoadAction::ReadCache(p) => p,
        _ => panic!("expected a cache lookup"),
    };
    assert_ne!(path(None), path(Some(10)));
    assert_ne!(path(Some(10)), path(Some(100)));
    assert_eq!(path(Some(10)), path(Some(10)));
}

#[test]
fn events_fit_states() {
    assert!(awaits_exec(&start(None), &LoadEvent::GifRead(Ok(vec![]))));
    assert!(!awaits_exec(&start(None), &LoadEvent::CacheRead(None)));
    assert!(!awaits_exec(&start(None), &LoadEvent::HeightChosen(1)));
    assert!(!awaits_exec(&start(None), &LoadEvent::CacheWritten(Ok(()))));
}

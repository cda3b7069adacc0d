use gifterm::cache::{cache_dir, frame_file_name, hash_bytes, hex_prefix, join_path, key_from_hash};
use gifterm::cache_key;
use gifterm::text::decimal_string;

#[test]
fn cache_key_without_width() {
    // Just verify the function signature works -- actual hashing needs a real file.
    // Reading "/nonexistent" fails with `NotFound`; the key takes that result.
    let read = Err(std::io::Error::new(std::io::ErrorKind::NotFound, "/nonexistent"));
    let result = cache_key(read, None);
    assert!(result.is_err());
}

#[test]
fn cache_key_of_contents() {
    assert_eq!(cache_key(Ok(b"abc".to_vec()), None).unwrap(), "ba7816bf8f01cfea");
    assert_eq!(cache_key(Ok(b"abc".to_vec()), Some(400)).unwrap(), "ba7816bf8f01cfea_w400");
    assert_eq!(cache_key(Ok(Vec::new()), Some(0)).unwrap(), "e3b0c44298fc1c14_w0");
}

#[test]
fn cache_key_keeps_the_io_error() {
    let err = std::io::Error::new(std::io::ErrorKind::PermissionDenied, "denied");
    let result = cache_key(Err(err), Some(10));
    assert_eq!(result.unwrap_err().kind(), std::io::ErrorKind::PermissionDenied);
}

#[test]
fn keys_differ_by_width() {
    let data = b"GIF89a".to_vec();
    let a = cache_key(Ok(data.clone()), None).unwrap();
    let b = cache_key(Ok(data.clone()), Some(40)).unwrap();
    let c = cache_key(Ok(data.clone()), Some(400)).unwrap();
    assert_ne!(a, b);
    assert_ne!(b, c);
    assert_ne!(a, c);
    assert_eq!(c, cache_key(Ok(data), Some(400)).unwrap());
}

#[test]
fn hash_bytes_is_short_sha256() {
    assert_eq!(hash_bytes(b""), "e3b0c44298fc1c14");
    assert_eq!(hash_bytes(b"abc"), "ba7816bf8f01cfea");
}

#[test]
fn hex_prefix_takes_eight_bytes() {
    let digest = [0x00u8, 0x0a, 0xff, 0x10, 0x01, 0xab, 0xcd, 0xef, 0x99, 0x99];
    assert_eq!(hex_prefix(&digest), "000aff1001abcdef");
}

#[test]
fn key_from_hash_appends_width() {
    assert_eq!(key_from_hash(String::from("0123456789abcdef"), Some(4294967295)), "0123456789abcdef_w4294967295");
    assert_eq!(key_from_hash(String::from("0123456789abcdef"), None), "0123456789abcdef");
}

#[test]
fn join_path_inserts_one_separator() {
    assert_eq!(join_path("/home/u/.cache", "gifterm"), "/home/u/.cache/gifterm");
    assert_eq!(join_path("/home/u/.cache/", "gifterm"), "/home/u/.cache/gifterm");
    assert_eq!(join_path("", "gifterm"), "gifterm");
    assert_eq!(join_path("/", "tmp"), "/tmp");
    assert_eq!(join_path("caché", "x"), "caché/x");
}

#[test]
fn cache_dir_prefers_xdg() {
    assert_eq!(cache_dir(Some("/xdg"), Some("/home/u")), "/xdg/gifterm");
    assert_eq!(cache_dir(None, Some("/home/u")), "/home/u/.cache/gifterm");
    assert_eq!(cache_dir(None, None), "/tmp/.cache/gifterm");
    assert_eq!(cache_dir(Some(""), None), "gifterm");
}

#[test]
fn frame_file_names_are_zero_padded() {
    assert_eq!(frame_file_name(0), "0000.rgba");
    assert_eq!(frame_file_name(7), "0007.rgba");
    assert_eq!(frame_file_name(42), "0042.rgba");
    assert_eq!(frame_file_name(999), "0999.rgba");
    assert_eq!(frame_file_name(1000), "1000.rgba");
    assert_eq!(frame_file_name(123456), "123456.rgba");
}

#[test]
fn frame_file_names_are_distinct() {
    let names: Vec<String> = (0..1200).map(frame_file_name).collect();
    for i in 0..names.len() {
        for j in (i + 1)..names.len().min(i + 30) {
            assert_ne!(names[i], names[j]);
        }
    }
    assert_ne!(frame_file_name(10), frame_file_name(100));
}

#[test]
fn decimal_notation() {
    assert_eq!(decimal_string(0), "0");
    assert_eq!(decimal_string(9), "9");
    assert_eq!(decimal_string(10), "10");
    assert_eq!(decimal_string(u64::MAX), "18446744073709551615");
}

#[test]
fn short_hash_is_sixteen_hex_digits() {
    for data in [&b""[..], b"a", b"gifterm", &[0xffu8; 100][..]] {
        let h = hash_bytes(data);
        assert_eq!(h.len(), 16);
        assert!(h.chars().all(|c| c.is_ascii_digit() || ('a'..='f').contains(&c)));
    }
}

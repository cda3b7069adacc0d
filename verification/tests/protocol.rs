use gifterm::gr_cmd;
use gifterm::playback::{
    first_frame_control, frame_controls, image_id_from_nanos, next_frame_control, root_gap_command,
    start_loop_command, unique_image_id,
};
use gifterm::protocol::{file_transfer_cmd, graphics_query, transfer_command_for};
use gifterm::style::{hint_line, status_line, DIM, GREEN, RESET, TEAL};
use gifterm::Meta;

#[test]
fn unique_id_is_nonzero() {
    for _ in 0..100 {
        assert_ne!(unique_image_id(), 0);
    }
}

#[test]
fn gr_cmd_without_payload() {
    let cmd = gr_cmd("a=T,i=1", None);
    assert_eq!(cmd, b"\x1b_Ga=T,i=1\x1b\\");
}

#[test]
fn gr_cmd_with_payload() {
    let cmd = gr_cmd("a=T,i=1", Some("AAAA"));
    assert_eq!(cmd, b"\x1b_Ga=T,i=1;AAAA\x1b\\");
}

#[test]
fn gr_cmd_empty_params() {
    assert_eq!(gr_cmd("", None), b"\x1b_G\x1b\\");
    assert_eq!(gr_cmd("", Some("")), b"\x1b_G;\x1b\\");
}

#[test]
fn unique_id_is_at_most_a_billion() {
    for _ in 0..100 {
        let id = unique_image_id();
        assert!(id >= 1 && id <= 1_000_000_000);
    }
}

#[test]
fn image_id_from_nanos_adds_one() {
    assert_eq!(image_id_from_nanos(0), 1);
    assert_eq!(image_id_from_nanos(5), 6);
    assert_eq!(image_id_from_nanos(999_999_999), 1_000_000_000);
    assert_eq!(image_id_from_nanos(0xffff_fffe), 1);
    assert_eq!(image_id_from_nanos(u32::MAX), 2);
}

#[test]
fn file_transfer_encodes_the_path() {
    let cmd = file_transfer_cmd("a=T,i=7,f=32,s=2,v=1,q=2", "/tmp/x");
    assert_eq!(cmd, b"\x1b_Ga=T,i=7,f=32,s=2,v=1,q=2,t=t;L3RtcC94\x1b\\");
    let cmd = file_transfer_cmd("a=f", "/tmp/gifterm_ab");
    assert_eq!(cmd, b"\x1b_Ga=f,t=t;L3RtcC9naWZ0ZXJtX2Fi\x1b\\");
}

#[test]
fn transfer_command_for_encoded_path() {
    assert_eq!(transfer_command_for("a=T", b"QUJD"), b"\x1b_Ga=T,t=t;QUJD\x1b\\");
}

#[test]
fn graphics_query_bytes() {
    assert_eq!(graphics_query(), b"\x1b_Gi=31,s=1,v=1,a=q,t=d,f=24;AAAA\x1b\\");
}

fn meta(durations: Vec<u32>) -> Meta {
    Meta { width: 400, height: 225, n_frames: 3, durations, source: String::from("lofi.gif") }
}

#[test]
fn frame_control_data() {
    assert_eq!(first_frame_control(42, 400, 225), "a=T,i=42,f=32,s=400,v=225,q=2");
    assert_eq!(next_frame_control(42, 400, 225, 80), "a=f,i=42,f=32,s=400,v=225,z=80,q=2");
}

#[test]
fn frame_controls_cover_every_frame() {
    let m = meta(vec![100, 40, 60]);
    let ps = frame_controls(&m, 3, 9);
    assert_eq!(
        ps,
        vec![
            String::from("a=T,i=9,f=32,s=400,v=225,q=2"),
            String::from("a=f,i=9,f=32,s=400,v=225,z=40,q=2"),
            String::from("a=f,i=9,f=32,s=400,v=225,z=60,q=2"),
        ]
    );
}

#[test]
fn frame_controls_stop_at_the_shorter_list() {
    let m = meta(vec![100, 40, 60]);
    assert_eq!(frame_controls(&m, 2, 1).len(), 2);
    let m = meta(vec![100]);
    assert_eq!(frame_controls(&m, 3, 1), vec![String::from("a=T,i=1,f=32,s=400,v=225,q=2")]);
}

#[test]
fn closing_commands() {
    assert_eq!(root_gap_command(9, 100), b"\x1b_Ga=a,i=9,r=1,z=100,q=2\x1b\\");
    assert_eq!(start_loop_command(9), b"\x1b_Ga=a,i=9,s=3,v=1,q=2\x1b\\");
    assert_eq!(start_loop_command(0), b"\x1b_Ga=a,i=0,s=3,v=1,q=2\x1b\\");
}

#[test]
fn status_and_hint_lines() {
    assert_eq!(
        status_line(TEAL, "decoding", "lofi.gif"),
        format!("{DIM}gifterm{RESET} {TEAL}decoding{RESET} lofi.gif")
    );
    assert_eq!(
        status_line(GREEN, "playing", "3 frames"),
        "\x1b[2mgifterm\x1b[0m \x1b[38;2;126;200;139mplaying\x1b[0m 3 frames"
    );
    assert_eq!(hint_line("try kitty"), "\x1b[2mgifterm         try kitty\x1b[0m");
}

#[test]
fn file_transfer_pads_base64() {
    assert_eq!(file_transfer_cmd("a=f", "/"), b"\x1b_Ga=f,t=t;Lw==\x1b\\");
    assert_eq!(file_transfer_cmd("a=f", "/t"), b"\x1b_Ga=f,t=t;L3Q=\x1b\\");
    assert_eq!(file_transfer_cmd("a=f", ""), b"\x1b_Ga=f,t=t;\x1b\\");
}

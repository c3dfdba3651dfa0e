use gpui_video_player::{
    display_size, nv12_to_bgra, nv12_to_rgba, playbin_description, player_event, rate_seek_command,
    video_sink_name, Fraction, PipelineEvent, PlayerState, Position, Rate, SeekCommand, SeekStop,
    VideoOptions, VideoPlayerEvent,
};

#[test]
fn display_size_without_overrides_is_natural() {
    assert_eq!(display_size(1920, 1080, None, None), (1920, 1080));
    assert_eq!(display_size(-5, 1080, None, None), (0, 1080));
}

#[test]
fn display_size_with_both_overrides() {
    assert_eq!(display_size(1920, 1080, Some(100), Some(50)), (100, 50));
}

#[test]
fn display_size_infers_missing_side_from_aspect() {
    assert_eq!(display_size(1920, 1080, Some(1280), None), (1280, 720));
    assert_eq!(display_size(1920, 1080, None, Some(540)), (960, 540));
    // 1000 * 1080 / 1920 = 562.5, rounded up.
    assert_eq!(display_size(1920, 1080, Some(1000), None), (1000, 563));
    // 100 * 1920 / 1080 = 177.77...
    assert_eq!(display_size(1920, 1080, None, Some(100)), (178, 100));
    // 10 * 1080 / 1920 = 5.625
    assert_eq!(display_size(1920, 1080, Some(10), None), (10, 6));
}

#[test]
fn display_size_degenerate_natural_sizes() {
    // No natural height: a square aspect is assumed.
    assert_eq!(display_size(640, 0, Some(300), None), (300, 300));
    assert_eq!(display_size(640, 0, None, Some(200)), (200, 200));
    // No natural width: the natural height is kept.
    assert_eq!(display_size(0, 480, Some(300), None), (300, 480));
    assert_eq!(display_size(0, 480, None, Some(200)), (0, 200));
}

#[test]
fn display_size_saturates() {
    assert_eq!(display_size(1, i32::MAX, Some(u32::MAX), None), (u32::MAX, u32::MAX));
}

#[test]
fn player_display_size_uses_overrides() {
    let fps = Fraction { numer: 25, denom: 1 };
    let mut state =
        PlayerState::new(Some(1920), Some(1080), Some(fps), None, &VideoOptions::default()).unwrap();
    assert_eq!(state.display_size(), (1920, 1080));
    state.set_display_width(Some(1280));
    assert_eq!(state.display_size(), (1280, 720));
    state.set_display_height(Some(100));
    assert_eq!(state.display_size(), (1280, 100));
    state.set_display_size(None, Some(540));
    assert_eq!(state.display_size(), (960, 540));
    state.set_display_size(None, None);
    assert_eq!(state.display_size(), (1920, 1080));
}

#[test]
fn rate_direction() {
    let r = |x: f64| Rate::from_bits(x.to_bits());
    assert!(r(1.0).is_forward());
    assert!(r(f64::MIN_POSITIVE).is_forward());
    assert!(r(f64::INFINITY).is_forward());
    assert!(!r(0.0).is_forward());
    assert!(!r(-0.0).is_forward());
    assert!(!r(-1.0).is_forward());
    assert!(!r(f64::NAN).is_forward());
    assert!(!r(f64::NEG_INFINITY).is_forward());
    assert!(r(0.0).is_zero());
    assert!(r(-0.0).is_zero());
    assert!(!r(1e-300).is_zero());
    assert_eq!(f64::from_bits(Rate::normal().to_bits()), 1.0);
}

#[test]
fn rate_normal_speed_is_within_epsilon() {
    let r = |x: f64| Rate::from_bits(x.to_bits());
    assert!(r(1.0).is_normal_speed());
    assert!(r(1.0 + f64::EPSILON).is_normal_speed());
    assert!(r(1.0 - f64::EPSILON).is_normal_speed());
    assert!(r(1.0 - f64::EPSILON / 2.0).is_normal_speed());
    assert!(r(f64::NAN).is_normal_speed());
    assert!(!r(1.0 + 2.0 * f64::EPSILON).is_normal_speed());
    assert!(!r(1.0 - 1.5 * f64::EPSILON).is_normal_speed());
    assert!(!r(2.0).is_normal_speed());
    assert!(!r(-1.0).is_normal_speed());
    for x in [1.0, 1.0 + f64::EPSILON, 1.0 - f64::EPSILON, 1.0 + 2.0 * f64::EPSILON, 0.5, f64::NAN] {
        assert_eq!(r(x).is_normal_speed(), !((x - 1.0f64).abs() > f64::EPSILON));
    }
}

#[test]
fn rate_seek_segments() {
    let fwd = Rate::from_bits(1.5f64.to_bits());
    assert_eq!(
        rate_seek_command(fwd, 42),
        SeekCommand { rate: fwd, accurate: true, start: Position::Time(42), stop: SeekStop::StreamEnd }
    );
    let back = Rate::from_bits((-1.0f64).to_bits());
    assert_eq!(
        rate_seek_command(back, 42),
        SeekCommand {
            rate: back,
            accurate: true,
            start: Position::Time(0),
            stop: SeekStop::At(Position::Time(42)),
        }
    );
}

#[test]
fn framerate_positivity() {
    assert!(Fraction { numer: 30, denom: 1 }.is_positive());
    assert!(Fraction { numer: -24, denom: -1 }.is_positive());
    assert!(!Fraction { numer: 0, denom: 1 }.is_positive());
    assert!(!Fraction { numer: 1, denom: 0 }.is_positive());
    assert!(!Fraction { numer: -1, denom: 1 }.is_positive());
}

#[test]
fn position_conversions() {
    assert_eq!(Position::from(12u64), Position::Frame(12));
    assert_eq!(Position::from_nanos(12), Position::Time(12));
}

#[test]
fn pipeline_description_embeds_uri() {
    assert_eq!(
        playbin_description("file:///tmp/a.mp4"),
        "playbin uri=\"file:///tmp/a.mp4\" video-sink=\"videoscale ! videoconvert ! appsink name=gpui_video drop=true max-buffers=3 enable-last-sample=false caps=video/x-raw,format=NV12,pixel-aspect-ratio=1/1\""
    );
    assert_eq!(video_sink_name(), "gpui_video");
}

#[test]
fn pipeline_events_map_to_player_events() {
    assert!(matches!(player_event(PipelineEvent::EndOfStream), VideoPlayerEvent::EndOfStream));
    match player_event(PipelineEvent::Error(String::from("boom"))) {
        VideoPlayerEvent::Error(m) => assert_eq!(m, "boom"),
        other => panic!("unexpected {:?}", other),
    }
}

#[test]
fn nv12_short_data_gives_black_frame() {
    assert_eq!(nv12_to_bgra(&[1, 2, 3], 2, 2), vec![0u8; 16]);
    assert_eq!(nv12_to_rgba(&[], 4, 2), vec![0u8; 32]);
}

#[test]
fn nv12_odd_width_is_rejected_by_every_attempt() {
    // 3x2: 6 luma bytes and 3 chroma bytes are present, but the chroma rows of
    // an odd width are too short for the converter.
    assert_eq!(nv12_to_bgra(&[200u8; 9], 3, 2), vec![0u8; 24]);
}

#[test]
fn nv12_white_and_black_convert() {
    // 2x2 white: full luma, neutral chroma.
    let white = [255u8, 255, 255, 255, 128, 128];
    assert_eq!(nv12_to_bgra(&white, 2, 2), vec![255u8; 16]);
    assert_eq!(nv12_to_rgba(&white, 2, 2), vec![255u8; 16]);
    // 2x2 black: zero luma; the alpha channel is opaque.
    let black = [0u8, 0, 0, 0, 128, 128];
    assert_eq!(nv12_to_bgra(&black, 2, 2), [0u8, 0, 0, 255].repeat(4));
    assert_eq!(nv12_to_rgba(&black, 2, 2), [0u8, 0, 0, 255].repeat(4));
}

#[test]
fn nv12_orders_differ_on_colour() {
    // Strong red chroma: BGRA and RGBA put the red channel at opposite ends.
    let reddish = [128u8, 128, 128, 128, 90, 240];
    let bgra = nv12_to_bgra(&reddish, 2, 2);
    let rgba = nv12_to_rgba(&reddish, 2, 2);
    assert_eq!(bgra.len(), 16);
    assert_eq!(rgba.len(), 16);
    assert!(rgba[0] > rgba[2]);
    assert_eq!(bgra[0], rgba[2]);
    assert_eq!(bgra[2], rgba[0]);
    assert_eq!(bgra[3], 255);
}

#[test]
fn nv12_odd_height_is_black() {
    // 2x3: the half-size chroma plane lacks the last chroma row.
    assert_eq!(nv12_to_bgra(&[90u8; 9], 2, 3), vec![0u8; 24]);
    // Extra data does not help: the planes are cut to their packed sizes.
    assert_eq!(nv12_to_rgba(&[90u8; 100], 2, 3), vec![0u8; 24]);
    assert_eq!(nv12_to_rgba(&[90u8; 100], 2, 1), vec![0u8; 8]);
}

#[test]
fn nv12_converted_frames_are_opaque() {
    let data: Vec<u8> = (0..24u8).map(|b| b.wrapping_mul(37)).collect();
    for out in [nv12_to_bgra(&data, 4, 4), nv12_to_rgba(&data, 4, 4)] {
        assert_eq!(out.len(), 64);
        assert!(out.iter().skip(3).step_by(4).all(|a| *a == 255));
    }
    // Extra trailing data is ignored.
    assert_eq!(nv12_to_bgra(&[0u8; 100], 2, 2).len(), 16);
}

use gpui_video_player::{
    Error, Fraction, Frame, FrameTiming, PipelineEvent, PlaybackTarget, PlayerState, Position,
    Rate, SeekCommand, SeekStop, SubtitleCue, VideoOptions, VideoPlayerEvent, WorkerAction,
};

const FPS_30: Fraction = Fraction { numer: 30, denom: 1 };

fn player(capacity: usize) -> PlayerState {
    let options = VideoOptions {
        frame_buffer_capacity: Some(capacity),
        ..VideoOptions::default()
    };
    PlayerState::new(Some(640), Some(360), Some(FPS_30), Some(5_000_000_000), &options).unwrap()
}

fn frame(tag: u8) -> Frame {
    Frame::from_bytes(vec![tag, tag, tag])
}

fn drain_tags(state: &mut PlayerState) -> Vec<u8> {
    let mut tags = Vec::new();
    while let Some((bytes, _, _)) = state.pop_buffered_frame() {
        tags.push(bytes[0]);
    }
    tags
}

#[test]
fn buffer_never_exceeds_capacity() {
    for capacity in 0..5usize {
        let mut state = player(capacity);
        for tag in 0..10u8 {
            state.publish_frame(frame(tag));
            assert!(state.buffered_len() <= capacity);
        }
        assert_eq!(state.buffered_len(), capacity);
        let expected: Vec<u8> = (10 - capacity as u8..10).collect();
        assert_eq!(drain_tags(&mut state), expected);
    }
}

#[test]
fn smaller_capacity_trims_oldest_first() {
    let mut state = player(5);
    for tag in 1..=5u8 {
        state.publish_frame(frame(tag));
    }
    state.set_frame_buffer_capacity(2);
    assert_eq!(state.frame_buffer_capacity(), 2);
    assert_eq!(state.buffered_len(), 2);
    assert_eq!(drain_tags(&mut state), vec![4, 5]);
}

#[test]
fn publish_then_read_returns_same_bytes() {
    let mut state = player(3);
    assert_eq!(state.current_frame_data(), None);
    state.publish_frame(Frame::from_bytes(vec![1, 2, 3, 4]));
    let first = state.current_frame_data();
    assert_eq!(first, Some((vec![1, 2, 3, 4], 640, 360)));
    assert_eq!(state.current_frame_data(), first);
    state.publish_frame(Frame::from_bytes(vec![9]));
    assert_eq!(state.current_frame_data(), Some((vec![9], 640, 360)));
}

#[test]
fn empty_or_missing_frame_reads_as_none() {
    let mut state = player(3);
    state.publish_frame(Frame::from_bytes(Vec::new()));
    assert_eq!(state.current_frame_data(), None);
    state.publish_frame(Frame::empty());
    assert_eq!(state.current_frame_data(), None);
    assert!(Frame::empty().readable().is_none());
    assert_eq!(frame(7).readable(), Some(&[7u8, 7, 7][..]));
}

#[test]
fn frame_ready_is_taken_once_per_publish() {
    let mut state = player(3);
    assert!(!state.take_frame_ready());
    state.publish_frame(frame(1));
    assert!(state.frame_ready());
    assert!(state.take_frame_ready());
    assert!(!state.take_frame_ready());
    assert!(!state.frame_ready());
}

#[test]
fn seek_clears_buffer_and_ready_flag() {
    let mut state = player(3);
    state.publish_frame(frame(1));
    state.publish_frame(frame(2));
    assert!(state.buffered_len() > 0);
    let cmd = state.seek_command(Position::Time(2_000_000_000), true);
    assert_eq!(
        cmd,
        SeekCommand {
            rate: Rate::normal(),
            accurate: true,
            start: Position::Time(2_000_000_000),
            stop: SeekStop::Open,
        }
    );
    assert_eq!(state.finish_seek(Ok(())), Ok(()));
    assert_eq!(state.buffered_len(), 0);
    assert!(!state.take_frame_ready());
    assert_eq!(state.current_frame_data(), Some((vec![2, 2, 2], 640, 360)));
    assert_eq!(
        state.take_player_events().len(),
        1,
        "the cleared subtitle is reported"
    );
}

#[test]
fn failed_seek_changes_nothing() {
    let mut state = player(3);
    state.publish_frame(frame(1));
    assert_eq!(state.finish_seek(Err(Error::OperationFailure)), Err(Error::OperationFailure));
    assert_eq!(state.buffered_len(), 1);
    assert!(state.take_frame_ready());
}

#[test]
fn speed_change_without_position_fails() {
    let mut state = player(3);
    let half = Rate::from_bits(0.5f64.to_bits());
    assert_eq!(state.speed_command(half, None), Err(Error::CapabilityMissing));
    assert_eq!(state.speed(), Rate::normal());
    let cmd = state.speed_command(half, Some(1_000)).unwrap();
    assert_eq!(
        cmd,
        SeekCommand { rate: half, accurate: true, start: Position::Time(1_000), stop: SeekStop::StreamEnd }
    );
    assert_eq!(state.finish_speed_change(half, Err(Error::OperationFailure)), Err(Error::OperationFailure));
    assert_eq!(state.speed(), Rate::normal());
    assert_eq!(state.finish_speed_change(half, Ok(())), Ok(()));
    assert_eq!(state.speed(), half);
}

#[test]
fn reverse_speed_seeks_from_start_to_position() {
    let state = player(3);
    let back = Rate::from_bits((-2.0f64).to_bits());
    assert_eq!(
        state.speed_command(back, Some(7)),
        Ok(SeekCommand {
            rate: back,
            accurate: true,
            start: Position::Time(0),
            stop: SeekStop::At(Position::Time(7)),
        })
    );
}

#[test]
fn zero_speed_is_never_applied() {
    let mut state = player(3);
    assert_eq!(state.speed_command(Rate::from_bits(0), Some(7)), Err(Error::OperationFailure));
    assert_eq!(state.finish_speed_change(Rate::from_bits(0), Ok(())), Err(Error::OperationFailure));
    assert_eq!(state.speed(), Rate::normal());
    assert_eq!(
        state.speed_command(Rate::from_bits((-0.0f64).to_bits()), Some(7)),
        Err(Error::OperationFailure)
    );
    let options = VideoOptions { speed: Some(Rate::from_bits(0)), ..VideoOptions::default() };
    assert_eq!(
        PlayerState::new(Some(1), Some(1), Some(FPS_30), None, &options).err(),
        Some(Error::OperationFailure)
    );
}

#[test]
fn construction_rejects_bad_framerates() {
    let options = VideoOptions::default();
    for (numer, denom) in [(0, 1), (0, 0), (1, 0), (-30, 1), (30, -1), (0, -1)] {
        let f = Fraction { numer, denom };
        assert_eq!(
            PlayerState::new(Some(640), Some(360), Some(f), None, &options).err(),
            Some(Error::InvalidFramerate { numer, denom })
        );
    }
    let ok = Fraction { numer: -30000, denom: -1001 };
    assert!(PlayerState::new(Some(640), Some(360), Some(ok), None, &options).is_ok());
}

#[test]
fn construction_needs_dimensions_and_framerate() {
    let options = VideoOptions::default();
    assert_eq!(
        PlayerState::new(None, Some(360), Some(FPS_30), None, &options).err(),
        Some(Error::CapabilityMissing)
    );
    assert_eq!(
        PlayerState::new(Some(640), None, Some(FPS_30), None, &options).err(),
        Some(Error::CapabilityMissing)
    );
    assert_eq!(
        PlayerState::new(Some(640), Some(360), None, None, &options).err(),
        Some(Error::CapabilityMissing)
    );
}

#[test]
fn construction_defaults() {
    let state = PlayerState::new(Some(640), Some(360), Some(FPS_30), None, &VideoOptions::default()).unwrap();
    assert_eq!(state.size(), (640, 360));
    assert_eq!(state.framerate(), FPS_30);
    assert_eq!(state.duration(), 0);
    assert_eq!(state.frame_buffer_capacity(), 3);
    assert!(!state.looping());
    assert!(!state.eos());
    assert_eq!(state.speed(), Rate::normal());
    let bare = VideoOptions { frame_buffer_capacity: None, looping: None, speed: None };
    let state = PlayerState::new(Some(640), Some(360), Some(FPS_30), Some(9), &bare).unwrap();
    assert_eq!(state.frame_buffer_capacity(), 3);
    assert_eq!(state.speed(), Rate::normal());
    assert_eq!(state.duration(), 9);
}

#[test]
fn initial_rate_change_only_off_normal_speed() {
    let state = player(3);
    assert_eq!(state.initial_rate_command(None), Ok(None));
    let fast = Rate::from_bits(2.0f64.to_bits());
    let options = VideoOptions { speed: Some(fast), ..VideoOptions::default() };
    let state = PlayerState::new(Some(2), Some(2), Some(FPS_30), None, &options).unwrap();
    assert_eq!(state.initial_rate_command(None), Err(Error::CapabilityMissing));
    assert_eq!(
        state.initial_rate_command(Some(0)),
        Ok(Some(SeekCommand { rate: fast, accurate: true, start: Position::Time(0), stop: SeekStop::StreamEnd }))
    );
}

#[test]
fn playback_cycle_pause_eos_restart() {
    let mut state = player(3);
    assert!(state.duration() > 0);
    assert_eq!(state.size(), (640, 360));
    assert_eq!(state.worker_action(true, false), WorkerAction::PullPreroll);
    state.publish_frame(frame(5));
    assert_eq!(state.worker_action(true, true), WorkerAction::PullSample);
    assert_eq!(state.set_paused(true), PlaybackTarget::Paused);
    assert_eq!(state.current_frame_data(), Some((vec![5, 5, 5], 640, 360)));
    let end = state.seek_command(Position::Time(state.duration()), false);
    assert_eq!(end.start, Position::Time(5_000_000_000));
    assert_eq!(state.finish_seek(Ok(())), Ok(()));
    state.handle_event(&PipelineEvent::EndOfStream);
    assert!(state.eos());
    assert_eq!(state.worker_action(true, true), WorkerAction::Idle);
    let (target, restart) = state.restart_stream();
    assert!(!state.eos());
    assert_eq!(target, PlaybackTarget::Playing);
    assert_eq!(
        restart,
        SeekCommand { rate: Rate::normal(), accurate: false, start: Position::Frame(0), stop: SeekStop::Open }
    );
    assert_eq!(state.finish_seek(Ok(())), Ok(()));
    assert_eq!(state.worker_action(true, true), WorkerAction::PullSample);
    assert_eq!(state.worker_action(false, true), WorkerAction::Stop);
}

#[test]
fn resume_at_end_of_stream_requests_restart() {
    let mut state = player(3);
    assert_eq!(state.set_paused(false), PlaybackTarget::Playing);
    assert!(!state.restart_requested());
    state.handle_event(&PipelineEvent::EndOfStream);
    assert_eq!(state.set_paused(true), PlaybackTarget::Paused);
    assert!(!state.restart_requested());
    assert_eq!(state.set_paused(false), PlaybackTarget::Playing);
    assert!(state.restart_requested());
    assert_eq!(state.worker_action(true, true), WorkerAction::Restart);
    state.restart_stream();
    assert!(!state.restart_requested());
    assert!(!state.eos());
}

#[test]
fn pipeline_errors_do_not_change_state() {
    let mut state = player(3);
    state.handle_event(&PipelineEvent::Error(String::from("decoder hiccup")));
    assert!(!state.eos());
    assert_eq!(state.worker_action(true, true), WorkerAction::PullSample);
}

#[test]
fn capacity_to_zero_disables_buffering() {
    let mut state = player(3);
    for tag in 1..=3u8 {
        state.publish_frame(frame(tag));
    }
    assert_eq!(state.buffered_len(), 3);
    state.set_frame_buffer_capacity(0);
    assert_eq!(state.buffered_len(), 0);
    state.publish_frame(frame(4));
    state.publish_frame(frame(5));
    assert_eq!(state.buffered_len(), 0);
    assert_eq!(state.current_frame_data(), Some((vec![5, 5, 5], 640, 360)));
    state.set_frame_buffer_capacity(2);
    state.publish_frame(frame(6));
    assert_eq!(drain_tags(&mut state), vec![6]);
}

#[test]
fn drain_to_latest_keeps_newest_buffered_frame() {
    let mut state = player(4);
    state.publish_frame(frame(1));
    state.publish_frame(frame(2));
    state.publish_frame(Frame::from_bytes(Vec::new()));
    assert_eq!(state.drain_to_latest(), Some((vec![2, 2, 2], 640, 360)));
    assert_eq!(state.buffered_len(), 0);
    // With nothing buffered, the frame slot is read.
    assert_eq!(state.drain_to_latest(), None);
    state.set_frame_buffer_capacity(0);
    state.publish_frame(frame(8));
    assert_eq!(state.drain_to_latest(), Some((vec![8, 8, 8], 640, 360)));
}

#[test]
fn subtitles_follow_overlapping_cues() {
    let mut state = player(3);
    let frame_at = |pts: u64| FrameTiming { pts, running_start: pts as i64, running_end: pts as i64 + 40 };
    // A cue that ends before the frame starts is ignored.
    state.sync_subtitles(
        frame_at(100),
        Some(SubtitleCue { running_start: 0, running_end: 100, clear_at: 100, text: Some(String::from("early")) }),
    );
    assert_eq!(state.subtitle_text(), None);
    assert!(state.take_player_events().is_empty());
    // An overlapping cue is shown.
    state.sync_subtitles(
        frame_at(100),
        Some(SubtitleCue { running_start: 120, running_end: 300, clear_at: 300, text: Some(String::from("hello")) }),
    );
    assert_eq!(state.subtitle_text(), Some(String::from("hello")));
    let events = state.take_player_events();
    assert_eq!(events.len(), 1);
    assert!(matches!(&events[0], VideoPlayerEvent::SubtitleText(Some(t)) if t == "hello"));
    // It stays until a frame reaches its end, then it is cleared.
    state.sync_subtitles(frame_at(299), None);
    assert_eq!(state.subtitle_text(), Some(String::from("hello")));
    state.sync_subtitles(frame_at(300), None);
    assert_eq!(state.subtitle_text(), None);
    let events = state.take_player_events();
    assert!(matches!(&events[0], VideoPlayerEvent::SubtitleText(None)));
    // Invalid text is not shown.
    state.sync_subtitles(
        frame_at(400),
        Some(SubtitleCue { running_start: 400, running_end: 500, clear_at: 500, text: None }),
    );
    assert_eq!(state.subtitle_text(), None);
}

#[test]
fn player_events_report_new_frame_then_subtitle() {
    let mut state = player(3);
    state.publish_frame(frame(1));
    assert_eq!(state.finish_seek(Ok(())), Ok(()));
    state.publish_frame(frame(2));
    let events = state.take_player_events();
    assert_eq!(events.len(), 2);
    assert!(matches!(events[0], VideoPlayerEvent::NewFrame));
    assert!(matches!(events[1], VideoPlayerEvent::SubtitleText(None)));
    assert!(state.take_player_events().is_empty());
    assert!(!state.take_frame_ready());
}

#[test]
fn looping_flag_round_trips() {
    let mut state = player(3);
    state.set_looping(true);
    assert!(state.looping());
    let options = VideoOptions { looping: Some(true), ..VideoOptions::default() };
    let state = PlayerState::new(Some(1), Some(1), Some(FPS_30), None, &options).unwrap();
    assert!(state.looping());
}

#[test]
fn ready_flag_over_a_history() {
    let mut state = player(3);
    let mut trues = 0;
    let mut publishes = 0;
    for step in 0..30u32 {
        match step % 5 {
            0 | 3 => {
                state.publish_frame(frame(step as u8));
                publishes += 1;
            }
            1 | 2 => {
                if state.take_frame_ready() {
                    trues += 1;
                }
            }
            _ => {
                assert_eq!(state.finish_seek(Ok(())), Ok(()));
            }
        }
        assert!(trues <= publishes);
    }
    // Publish, seek: the seek swallows the publish.
    state.publish_frame(frame(1));
    assert_eq!(state.finish_seek(Ok(())), Ok(()));
    assert!(!state.take_frame_ready());
}

#[test]
fn buffering_resumes_with_min_of_publishes_and_capacity() {
    for (n, k) in [(1usize, 3usize), (4, 2), (3, 3)] {
        let mut state = player(0);
        state.set_frame_buffer_capacity(n);
        for tag in 0..k {
            state.publish_frame(frame(tag as u8));
        }
        assert_eq!(state.buffered_len(), n.min(k));
    }
}

#[test]
fn pause_keeps_the_last_frame() {
    let mut state = player(3);
    state.publish_frame(frame(4));
    assert_eq!(state.set_paused(true), PlaybackTarget::Paused);
    assert_eq!(state.current_frame_data(), Some((vec![4, 4, 4], 640, 360)));
    assert_eq!(state.set_paused(false), PlaybackTarget::Playing);
    assert_eq!(state.current_frame_data(), Some((vec![4, 4, 4], 640, 360)));
}

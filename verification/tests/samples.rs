use std::time::SystemTime;

use scap::capturer::engine::mac::{
    audio_frame, empty_bgra_frame, presentation_offset_nanos, sample_action, FrameStatus, SampleAction,
    StreamOutputType,
};
use scap::capturer::FrameType;
use scap::frame::AudioFormat;

#[test]
fn complete_video_samples_become_frames_of_the_wanted_type() {
    for ft in [FrameType::YUVFrame, FrameType::BGR0, FrameType::RGB, FrameType::BGRAFrame] {
        assert_eq!(sample_action(StreamOutputType::Screen, Some(FrameStatus::Complete), ft), SampleAction::Video(ft));
        assert_eq!(sample_action(StreamOutputType::Screen, None, ft), SampleAction::Video(ft));
    }
}

#[test]
fn incomplete_video_samples_give_an_empty_bgra_frame_or_nothing() {
    for status in [FrameStatus::Idle, FrameStatus::Blank, FrameStatus::Started, FrameStatus::Stopped, FrameStatus::Suspended] {
        assert_eq!(sample_action(StreamOutputType::Screen, Some(status), FrameType::BGRAFrame), SampleAction::EmptyBGRAFrame);
        assert_eq!(sample_action(StreamOutputType::Screen, Some(status), FrameType::RGB), SampleAction::Skip);
        assert_eq!(sample_action(StreamOutputType::Screen, Some(status), FrameType::YUVFrame), SampleAction::Skip);
    }
}

#[test]
fn audio_and_microphone_samples() {
    assert_eq!(sample_action(StreamOutputType::Audio, Some(FrameStatus::Blank), FrameType::RGB), SampleAction::Audio);
    assert_eq!(sample_action(StreamOutputType::Microphone, None, FrameType::RGB), SampleAction::Skip);
}

#[test]
fn empty_frame_has_no_pixels() {
    let t = SystemTime::UNIX_EPOCH;
    let f = empty_bgra_frame(t);
    assert_eq!((f.width, f.height), (0, 0));
    assert!(f.data.is_empty());
    assert_eq!(f.display_time, t);
}

#[test]
fn audio_frame_joins_the_buffers() {
    let t = SystemTime::UNIX_EPOCH;
    let f = audio_frame(&vec![vec![1, 2], vec![], vec![3, 4, 5]], 1024, t);
    assert_eq!(f.data, vec![1, 2, 3, 4, 5]);
    assert_eq!(f.format, AudioFormat::F32);
    assert_eq!(f.channels, 2);
    assert!(!f.is_planar);
    assert_eq!(f.sample_count, 1024);
    assert_eq!(f.rate, 48_000);
    assert_eq!(f.timestamp, t);
}

#[test]
fn presentation_time_in_nanoseconds() {
    assert_eq!(presentation_offset_nanos(1, 60), 16_666_666);
    assert_eq!(presentation_offset_nanos(-1, 60), -16_666_666);
    assert_eq!(presentation_offset_nanos(90_000, 90_000), 1_000_000_000);
    assert_eq!(presentation_offset_nanos(5, -2), -2_500_000_000);
    assert_eq!(presentation_offset_nanos(0, 7), 0);
}

#[test]
fn presentation_time_saturates_before_dividing() {
    assert_eq!(presentation_offset_nanos(i64::MAX, 1), i64::MAX);
    assert_eq!(presentation_offset_nanos(i64::MIN, 1), i64::MIN);
    assert_eq!(presentation_offset_nanos(i64::MAX, 1_000_000_000), i64::MAX / 1_000_000_000);
    assert_eq!(presentation_offset_nanos(i64::MIN, 2), i64::MIN / 2);
}

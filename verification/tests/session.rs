use camera_core::session::{
    clamp_fps, device_index, output_dir_name, photo_outcome, select_fourcc, CameraPosition,
    CaptureError, CaptureMode, CaptureSession, FrameRead, StartDecision, SwitchDirective,
    TickResult,
};
use chrono::Datelike;

fn open_session(width: u32, height: u32) -> CaptureSession {
    let mut s = CaptureSession::new();
    s.camera_opened(width, height);
    s
}

fn recording_session() -> CaptureSession {
    let mut s = open_session(640, 480);
    s.set_mode(CaptureMode::Video);
    s.writer_opened();
    s
}

#[test]
fn new_session_defaults() {
    let s = CaptureSession::new();
    assert!(!s.camera_open);
    assert!(!s.recording);
    assert_eq!(s.capture_mode, CaptureMode::Photo);
    assert_eq!(s.camera_position, CameraPosition::Rear);
    assert_eq!(s.frame_width, 640);
    assert_eq!(s.frame_height, 480);
    assert!(s.current_frame.is_none());
}

#[test]
fn switch_while_recording_stops_recording() {
    let mut s = recording_session();
    assert!(s.recording);
    let d = s.switch_camera(CameraPosition::Front);
    assert!(!s.recording);
    assert!(!s.camera_open);
    assert_eq!(s.camera_position, CameraPosition::Front);
    assert_eq!(
        d,
        SwitchDirective::Reopen {
            close_writer: true,
            index: 1
        }
    );
}

#[test]
fn switch_sequence_never_leaves_recording_on() {
    let mut s = recording_session();
    let positions = [
        CameraPosition::Front,
        CameraPosition::Rear,
        CameraPosition::Rear,
        CameraPosition::Front,
    ];
    for p in positions {
        let before = s.camera_position;
        s.switch_camera(p);
        if p != before {
            assert!(!s.recording);
        }
        s.camera_opened(640, 480);
    }
}

#[test]
fn switch_to_same_position_is_noop() {
    let mut s = recording_session();
    let d = s.switch_camera(CameraPosition::Rear);
    assert_eq!(d, SwitchDirective::NoChange);
    assert!(s.recording);
    assert!(s.camera_open);
    assert_eq!(s.camera_position, CameraPosition::Rear);
}

#[test]
fn mode_switch_to_photo_stops_recording() {
    let mut s = recording_session();
    let close = s.set_mode(CaptureMode::Photo);
    assert!(close);
    assert!(!s.recording);
    assert_eq!(s.capture_mode, CaptureMode::Photo);
}

#[test]
fn mode_switch_to_video_keeps_recording() {
    let mut s = recording_session();
    let close = s.set_mode(CaptureMode::Video);
    assert!(!close);
    assert!(s.recording);
    assert_eq!(s.capture_mode, CaptureMode::Video);
}

#[test]
fn stop_recording_orders_close_exactly_once() {
    let mut s = recording_session();
    assert!(s.stop_recording());
    assert!(!s.recording);
    assert!(!s.stop_recording());
    assert!(!s.recording);
}

#[test]
fn effective_resolution_reaches_recording_plan() {
    let mut s = CaptureSession::new();
    assert_eq!(s.frame_width, 640);
    assert_eq!(s.frame_height, 480);
    s.camera_opened(320, 200);
    assert_eq!(s.frame_width, 320);
    assert_eq!(s.frame_height, 200);
    s.set_mode(CaptureMode::Video);
    match s.recording_request() {
        Ok(StartDecision::Open(plan)) => {
            assert_eq!(plan.width, 320);
            assert_eq!(plan.height, 200);
            assert!(plan.filename.starts_with("video_"));
            assert!(plan.filename.ends_with(".mp4"));
        }
        other => panic!("expected a plan, got {:?}", other.is_ok()),
    }
}

#[test]
fn fps_zero_and_too_fast_become_thirty() {
    assert_eq!(clamp_fps(Some(0)), 30);
    assert_eq!(clamp_fps(Some(200)), 30);
    assert_eq!(clamp_fps(Some(121)), 30);
    assert_eq!(clamp_fps(None), 30);
    assert_eq!(clamp_fps(Some(60)), 60);
    assert_eq!(clamp_fps(Some(120)), 120);
    assert_eq!(clamp_fps(Some(1)), 1);
}

#[test]
fn fourcc_prefers_primary_then_fallback_then_zero() {
    assert_eq!(select_fourcc(Some(0x7634706d), Some(0x47504a4d)), 0x7634706d);
    assert_eq!(select_fourcc(None, Some(0x47504a4d)), 0x47504a4d);
    assert_eq!(select_fourcc(None, None), 0);
}

#[test]
fn photo_without_camera_is_device_unavailable() {
    let s = CaptureSession::new();
    assert_eq!(s.photo_request(), Err(CaptureError::DeviceUnavailable));
}

#[test]
fn photo_with_camera_names_a_jpg() {
    let s = open_session(640, 480);
    let name = s.photo_request().expect("camera is open");
    assert!(name.starts_with("photo_"));
    assert!(name.ends_with(".jpg"));
    assert_eq!(name.len(), "photo_".len() + 8 + 1 + 6 + ".jpg".len());
    let bytes = name.as_bytes();
    assert_eq!(bytes[14], b'_');
    for i in 6..14 {
        assert!(bytes[i].is_ascii_digit());
    }
    for i in 15..21 {
        assert!(bytes[i].is_ascii_digit());
    }
}

#[test]
fn photo_name_carries_the_current_year() {
    let s = open_session(640, 480);
    let year_before = chrono::Local::now().year();
    let name = s.photo_request().expect("camera is open");
    let year_after = chrono::Local::now().year();
    let named_year: i32 = name["photo_".len().."photo_".len() + 4]
        .parse()
        .expect("four year digits");
    assert!(named_year == year_before || named_year == year_after);
}

#[test]
fn recording_request_without_camera_is_device_unavailable() {
    let mut s = CaptureSession::new();
    s.set_mode(CaptureMode::Video);
    assert!(matches!(
        s.recording_request(),
        Err(CaptureError::DeviceUnavailable)
    ));
}

#[test]
fn recording_request_in_photo_mode_is_invalid_mode() {
    let s = open_session(640, 480);
    assert!(matches!(s.recording_request(), Err(CaptureError::InvalidMode)));
}

#[test]
fn recording_request_while_recording_is_noop() {
    let s = recording_session();
    assert!(matches!(
        s.recording_request(),
        Ok(StartDecision::AlreadyRecording)
    ));
}

#[test]
fn second_failed_read_keeps_previous_frame() {
    let mut s = open_session(2, 1);
    let first = s.tick(FrameRead::Acquired {
        data: vec![1, 2, 3, 4, 5, 6],
        width: 2,
        height: 1,
    });
    assert_eq!(first, TickResult::FrameRendered);
    let second = s.tick(FrameRead::Failed);
    assert_eq!(second, TickResult::NoFrame);
    let f = s.current_frame.as_ref().expect("previous frame kept");
    assert_eq!(f.width, 2);
    assert_eq!(f.height, 1);
    assert_eq!(f.pixels.len(), 2);
    assert_eq!((f.pixels[0].r, f.pixels[0].g, f.pixels[0].b), (1, 2, 3));
    assert_eq!((f.pixels[1].r, f.pixels[1].g, f.pixels[1].b), (4, 5, 6));
}

#[test]
fn empty_read_keeps_previous_frame() {
    let mut s = open_session(1, 1);
    s.tick(FrameRead::Acquired {
        data: vec![9, 8, 7],
        width: 1,
        height: 1,
    });
    assert_eq!(s.tick(FrameRead::Empty), TickResult::NoFrame);
    let f = s.current_frame.as_ref().expect("previous frame kept");
    assert_eq!((f.pixels[0].r, f.pixels[0].g, f.pixels[0].b), (9, 8, 7));
}

#[test]
fn mismatched_frame_is_dropped_silently() {
    let mut s = open_session(2, 2);
    let r = s.tick(FrameRead::Acquired {
        data: vec![1, 2, 3],
        width: 2,
        height: 2,
    });
    assert_eq!(r, TickResult::NoFrame);
    assert!(s.current_frame.is_none());
}

#[test]
fn tick_without_camera_is_noop() {
    let mut s = CaptureSession::new();
    let r = s.tick(FrameRead::Acquired {
        data: vec![1, 2, 3],
        width: 1,
        height: 1,
    });
    assert_eq!(r, TickResult::NoFrame);
    assert!(s.current_frame.is_none());
}

#[test]
fn photo_outcome_reports_first_failure() {
    assert_eq!(
        photo_outcome(false, false, false),
        Err(CaptureError::DeviceUnavailable)
    );
    assert_eq!(
        photo_outcome(true, false, true),
        Err(CaptureError::EmptyFrame)
    );
    assert_eq!(
        photo_outcome(true, true, false),
        Err(CaptureError::EncodeFailure)
    );
    assert_eq!(photo_outcome(true, true, true), Ok(()));
}

#[test]
fn device_index_convention() {
    assert_eq!(device_index(CameraPosition::Rear), 0);
    assert_eq!(device_index(CameraPosition::Front), 1);
}

#[test]
fn output_directory_name() {
    assert_eq!(output_dir_name(), "camera_output");
}

#[test]
fn error_descriptions() {
    assert_eq!(
        CaptureError::DeviceUnavailable.describe(),
        "camera device unavailable"
    );
    assert_eq!(
        CaptureError::EmptyFrame.describe(),
        "camera returned an empty frame"
    );
    assert_eq!(
        CaptureError::EncodeFailure.describe(),
        "could not encode the output file"
    );
    assert_eq!(
        CaptureError::InvalidMode.describe(),
        "recording can start only in video mode"
    );
}

#[test]
fn camera_open_failure_leaves_session_operable() {
    let mut s = CaptureSession::new();
    s.camera_open_failed();
    assert!(!s.camera_open);
    assert_eq!(s.photo_request(), Err(CaptureError::DeviceUnavailable));
    s.camera_opened(640, 480);
    assert!(s.photo_request().is_ok());
}

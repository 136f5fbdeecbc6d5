//! The capture session state machine.
//!
//! A `CaptureSession` tracks what the application knows between device
//! calls: whether a camera is open, whether a clip is being recorded, the
//! selected mode and camera position, the effective resolution and the
//! last decoded preview frame. The host event loop performs the actual
//! device, encoder and file work and reports each outcome back; every
//! decision — what to open, when a recording must stop, which frame to
//! show — is made here, under contract.

use vstd::prelude::*;
use vstd::string::StringExecFns;

use crate::filename::{
    local_timestamp, photo_file_name, photo_filename, video_file_name, video_filename, Timestamp,
};
use crate::frame::{pack_rgb, packed_pixels, Frame};

verus! {

/// Which kind of capture the user has selected.
#[derive(Clone, Copy, PartialEq, Eq, Structural, Debug)]
pub enum CaptureMode {
    Photo,
    Video,
}

/// Which of the two cameras is selected.
#[derive(Clone, Copy, PartialEq, Eq, Structural, Debug)]
pub enum CameraPosition {
    Front,
    Rear,
}

/// Why a capture operation failed. Every failure leaves the session
/// operable; none is fatal.
#[derive(Clone, Copy, PartialEq, Eq, Structural, Debug)]
pub enum CaptureError {
    /// The camera could not be opened or read.
    DeviceUnavailable,
    /// A read succeeded but returned no data.
    EmptyFrame,
    /// The photo or video could not be written.
    EncodeFailure,
    /// Recording was requested outside video mode.
    InvalidMode,
}

/// The outcome of one camera read, as the host reports it.
pub enum FrameRead {
    /// The read itself failed.
    Failed,
    /// The read succeeded but the frame was empty.
    Empty,
    /// A frame arrived, already converted to display (RGB) byte order.
    Acquired { data: Vec<u8>, width: usize, height: usize },
}

/// A read that carried a frame whose bytes match its geometry exactly:
/// three bytes per pixel, no more and no fewer.
pub open spec fn good_read(read: FrameRead) -> bool {
    match read {
        FrameRead::Acquired { data, width, height } => data@.len() == 3 * (width as int) * (
        height as int),
        _ => false,
    }
}

/// The reported frame width of an acquired read.
pub open spec fn read_width(read: FrameRead) -> usize {
    match read {
        FrameRead::Acquired { width, .. } => width,
        _ => 0,
    }
}

/// The reported frame height of an acquired read.
pub open spec fn read_height(read: FrameRead) -> usize {
    match read {
        FrameRead::Acquired { height, .. } => height,
        _ => 0,
    }
}

/// The bytes of an acquired read.
pub open spec fn read_data(read: FrameRead) -> Seq<u8> {
    match read {
        FrameRead::Acquired { data, .. } => data@,
        _ => Seq::empty(),
    }
}

/// What one `tick` did.
#[derive(Clone, Copy, PartialEq, Eq, Structural, Debug)]
pub enum TickResult {
    /// A fresh frame was stored for display.
    FrameRendered,
    /// The previous preview frame, if any, remains in place.
    NoFrame,
}

/// What the host must do after a camera switch.
#[derive(Clone, Copy, PartialEq, Eq, Structural, Debug)]
pub enum SwitchDirective {
    /// The position did not change; nothing to do.
    NoChange,
    /// Close the writer if asked, release the device, then open the
    /// device at `index` and report the outcome.
    Reopen { close_writer: bool, index: i32 },
}

/// Everything the host needs to open the video writer.
pub struct RecordingPlan {
    /// Output file name, under the output directory.
    pub filename: String,
    /// Frame width the writer is opened at: the effective camera width.
    pub width: u32,
    /// Frame height the writer is opened at: the effective camera height.
    pub height: u32,
}

/// How a recording request was decided.
pub enum StartDecision {
    /// Recording is already active; nothing to do.
    AlreadyRecording,
    /// Open a writer as the plan says, then report the outcome.
    Open(RecordingPlan),
}

/// The device index each camera position maps to.
pub open spec fn spec_device_index(p: CameraPosition) -> i32 {
    match p {
        CameraPosition::Rear => 0,
        CameraPosition::Front => 1,
    }
}

/// The frame rate a recording is opened at: the device-reported rate
/// when it lies in (0, 120], and 30 otherwise.
pub open spec fn spec_clamp_fps(reported: Option<u32>) -> u32 {
    match reported {
        Some(f) => if 0 < f && f <= 120 {
            f
        } else {
            30
        },
        None => 30,
    }
}

/// The codec identifier a recording is opened with: the primary codec
/// when it resolved, else the fallback, else the neutral value 0.
pub open spec fn spec_select_fourcc(primary: Option<i32>, fallback: Option<i32>) -> i32 {
    match primary {
        Some(p) => p,
        None => match fallback {
            Some(f) => f,
            None => 0,
        },
    }
}

/// How one photo attempt is reported: the first failure among the read,
/// the returned data and the encode decides the error.
pub open spec fn spec_photo_outcome(read_ok: bool, has_data: bool, encode_ok: bool) -> Result<
    (),
    CaptureError,
> {
    if !read_ok {
        Err(CaptureError::DeviceUnavailable)
    } else if !has_data {
        Err(CaptureError::EmptyFrame)
    } else if !encode_ok {
        Err(CaptureError::EncodeFailure)
    } else {
        Ok(())
    }
}

/// The capture session. See the module description.
pub struct CaptureSession {
    /// Whether a camera device is currently open.
    pub camera_open: bool,
    /// Whether a video writer is currently active. The host holds the
    /// writer handle exactly while this is true.
    pub recording: bool,
    /// The selected capture mode.
    pub capture_mode: CaptureMode,
    /// The selected camera position.
    pub camera_position: CameraPosition,
    /// Effective frame width, as the device last reported it.
    pub frame_width: u32,
    /// Effective frame height, as the device last reported it.
    pub frame_height: u32,
    /// The last decoded preview frame, replaced only by a good read.
    pub current_frame: Option<Frame>,
}

/// Two sessions that agree on everything but the preview frame.
pub open spec fn eq_except_frame(a: CaptureSession, b: CaptureSession) -> bool {
    &&& a.camera_open == b.camera_open
    &&& a.recording == b.recording
    &&& a.capture_mode == b.capture_mode
    &&& a.camera_position == b.camera_position
    &&& a.frame_width == b.frame_width
    &&& a.frame_height == b.frame_height
}

impl CaptureSession {
    /// The session invariant: recording happens only with an open camera
    /// and only in video mode, so photo mode is never recording.
    pub open spec fn wf(&self) -> bool {
        self.recording ==> (self.camera_open && self.capture_mode is Video)
    }

    /// Opens no camera yet: photo mode, rear position, 640x480 requested.
    pub fn new() -> (s: Self)
        ensures
            s == (CaptureSession {
                camera_open: false,
                recording: false,
                capture_mode: CaptureMode::Photo,
                camera_position: CameraPosition::Rear,
                frame_width: 640,
                frame_height: 480,
                current_frame: None::<Frame>,
            }),
            s.wf(),
    {
        CaptureSession {
            camera_open: false,
            recording: false,
            capture_mode: CaptureMode::Photo,
            camera_position: CameraPosition::Rear,
            frame_width: 640,
            frame_height: 480,
            current_frame: None,
        }
    }

    /// The camera opened and reported its effective resolution, which may
    /// differ from the requested one; the session stores what the device
    /// reported.
    pub fn camera_opened(&mut self, width: u32, height: u32)
        ensures
            *final(self) == (CaptureSession {
                camera_open: true,
                frame_width: width,
                frame_height: height,
                ..*old(self)
            }),
            old(self).wf() ==> final(self).wf(),
    {
        self.camera_open = true;
        self.frame_width = width;
        self.frame_height = height;
    }

    /// The camera could not be opened; the session is left without a
    /// device and stays operable. Opens happen only while no recording
    /// is active.
    pub fn camera_open_failed(&mut self)
        requires
            !old(self).recording,
        ensures
            *final(self) == (CaptureSession { camera_open: false, ..*old(self) }),
            final(self).wf(),
    {
        self.camera_open = false;
    }

    /// Switches to `new_position`: a no-op when it is already selected;
    /// otherwise any recording stops, the device is released and the host
    /// is told to reopen at the new position's index. Recording is never
    /// active immediately after a switch.
    pub fn switch_camera(&mut self, new_position: CameraPosition) -> (d: SwitchDirective)
        ensures
            new_position == old(self).camera_position ==> *final(self) == *old(self) && d
                == SwitchDirective::NoChange,
            new_position != old(self).camera_position ==> *final(self) == (CaptureSession {
                recording: false,
                camera_open: false,
                camera_position: new_position,
                ..*old(self)
            }) && d == (SwitchDirective::Reopen {
                close_writer: old(self).recording,
                index: spec_device_index(new_position),
            }),
            new_position != old(self).camera_position ==> !final(self).recording,
            old(self).wf() ==> final(self).wf(),
    {
        if new_position == self.camera_position {
            SwitchDirective::NoChange
        } else {
            let close_writer = self.recording;
            self.recording = false;
            self.camera_open = false;
            self.camera_position = new_position;
            let index = device_index(new_position);
            SwitchDirective::Reopen { close_writer, index }
        }
    }

    /// Selects a capture mode. Switching to photo mode while recording
    /// stops the recording first: photo mode is never recording. The
    /// result says whether the host must close the writer.
    pub fn set_mode(&mut self, mode: CaptureMode) -> (close_writer: bool)
        ensures
            close_writer == (old(self).recording && mode is Photo),
            *final(self) == (CaptureSession {
                capture_mode: mode,
                recording: old(self).recording && mode is Video,
                ..*old(self)
            }),
            mode is Photo ==> !final(self).recording,
            old(self).wf() ==> final(self).wf(),
    {
        let close_writer = self.recording && mode == CaptureMode::Photo;
        if close_writer {
            self.recording = false;
        }
        self.capture_mode = mode;
        close_writer
    }

    /// Stops recording: a no-op when none is active. The result says
    /// whether the host must close (and thereby flush) the writer.
    pub fn stop_recording(&mut self) -> (close_writer: bool)
        ensures
            close_writer == old(self).recording,
            *final(self) == (CaptureSession { recording: false, ..*old(self) }),
            !final(self).recording,
            old(self).wf() ==> final(self).wf(),
    {
        let close_writer = self.recording;
        self.recording = false;
        close_writer
    }

    /// Decides a photo request. With no open camera the request is
    /// refused as `DeviceUnavailable` and no file name is produced;
    /// otherwise the timestamped output file name is returned.
    pub fn photo_request(&self) -> (r: Result<String, CaptureError>)
        ensures
            r is Ok <==> self.camera_open,
            !self.camera_open ==> r == Err::<String, CaptureError>(CaptureError::DeviceUnavailable),
            r matches Ok(name) ==> exists|t: Timestamp| t.wf() && name@ == photo_file_name(t),
    {
        if !self.camera_open {
            return Err(CaptureError::DeviceUnavailable);
        }
        let t = local_timestamp();
        let name = photo_filename(&t);
        proof {
            assert(t.wf() && name@ == photo_file_name(t));
        }
        Ok(name)
    }

    /// Decides a recording request. It is refused without an open camera
    /// (`DeviceUnavailable`) and outside video mode (`InvalidMode`); while
    /// already recording it is an idempotent no-op. Otherwise the host is
    /// handed a plan: the timestamped clip name and the session's
    /// effective resolution.
    pub fn recording_request(&self) -> (r: Result<StartDecision, CaptureError>)
        ensures
            r is Ok <==> (self.camera_open && self.capture_mode is Video),
            !self.camera_open ==> r == Err::<StartDecision, CaptureError>(
                CaptureError::DeviceUnavailable,
            ),
            self.camera_open && self.capture_mode is Photo ==> r == Err::<
                StartDecision,
                CaptureError,
            >(CaptureError::InvalidMode),
            self.camera_open && self.capture_mode is Video && self.recording ==> r == Ok::<
                StartDecision,
                CaptureError,
            >(StartDecision::AlreadyRecording),
            self.camera_open && self.capture_mode is Video && !self.recording ==> (r matches Ok(
                StartDecision::Open(plan),
            ) && plan.width == self.frame_width && plan.height == self.frame_height && exists|
                t: Timestamp,
            | t.wf() && plan.filename@ == video_file_name(t)),
    {
        if !self.camera_open {
            return Err(CaptureError::DeviceUnavailable);
        }
        if self.capture_mode == CaptureMode::Photo {
            return Err(CaptureError::InvalidMode);
        }
        if self.recording {
            return Ok(StartDecision::AlreadyRecording);
        }
        let t = local_timestamp();
        let filename = video_filename(&t);
        proof {
            assert(t.wf() && filename@ == video_file_name(t));
        }
        Ok(StartDecision::Open(RecordingPlan { filename, width: self.frame_width, height: self.frame_height }))
    }

    /// The writer opened: recording is now active. The host calls this
    /// only on the success path of a plan, so a camera is open and the
    /// mode is video.
    pub fn writer_opened(&mut self)
        requires
            old(self).camera_open,
            old(self).capture_mode is Video,
        ensures
            *final(self) == (CaptureSession { recording: true, ..*old(self) }),
            final(self).wf(),
    {
        self.recording = true;
    }

    /// One frame pulse. A failed or empty read, a read without an open
    /// camera, and a byte run that does not match its reported geometry
    /// all leave the session — in particular the previous preview frame —
    /// unchanged. A good read replaces the preview frame.
    pub fn tick(&mut self, read: FrameRead) -> (r: TickResult)
        ensures
            !old(self).camera_open ==> *final(self) == *old(self) && r == TickResult::NoFrame,
            old(self).camera_open && !good_read(read) ==> *final(self) == *old(self) && r
                == TickResult::NoFrame,
            old(self).camera_open && good_read(read) ==> {
                &&& r == TickResult::FrameRendered
                &&& eq_except_frame(*final(self), *old(self))
                &&& final(self).current_frame matches Some(f) && f.width == read_width(read)
                    && f.height == read_height(read) && f.pixels@ == packed_pixels(read_data(read))
                    && f.wf()
            },
            old(self).wf() ==> final(self).wf(),
    {
        if !self.camera_open {
            return TickResult::NoFrame;
        }
        match read {
            FrameRead::Failed => TickResult::NoFrame,
            FrameRead::Empty => TickResult::NoFrame,
            FrameRead::Acquired { data, width, height } => {
                match pack_rgb(&data, width, height) {
                    Some(f) => {
                        self.current_frame = Some(f);
                        TickResult::FrameRendered
                    },
                    None => TickResult::NoFrame,
                }
            },
        }
    }
}

/// The device index for a camera position: rear is 0, front is 1. The
/// mapping is a fixed convention of this application.
pub fn device_index(p: CameraPosition) -> (i: i32)
    ensures
        i == spec_device_index(p),
{
    match p {
        CameraPosition::Rear => 0,
        CameraPosition::Front => 1,
    }
}

/// The frame rate a recording is opened at; see `spec_clamp_fps`. A
/// device that reports no rate, a zero rate or one above 120 gets 30.
pub fn clamp_fps(reported: Option<u32>) -> (fps: u32)
    ensures
        fps == spec_clamp_fps(reported),
        0 < fps <= 120,
{
    match reported {
        Some(f) => if 0 < f && f <= 120 {
            f
        } else {
            30
        },
        None => 30,
    }
}

/// The codec identifier a recording is opened with; see
/// `spec_select_fourcc`.
pub fn select_fourcc(primary: Option<i32>, fallback: Option<i32>) -> (cc: i32)
    ensures
        cc == spec_select_fourcc(primary, fallback),
{
    match primary {
        Some(p) => p,
        None => match fallback {
            Some(f) => f,
            None => 0,
        },
    }
}

/// Reports one photo attempt; see `spec_photo_outcome`.
pub fn photo_outcome(read_ok: bool, has_data: bool, encode_ok: bool) -> (r: Result<
    (),
    CaptureError,
>)
    ensures
        r == spec_photo_outcome(read_ok, has_data, encode_ok),
{
    if !read_ok {
        Err(CaptureError::DeviceUnavailable)
    } else if !has_data {
        Err(CaptureError::EmptyFrame)
    } else if !encode_ok {
        Err(CaptureError::EncodeFailure)
    } else {
        Ok(())
    }
}

/// The directory, relative to the working directory, that all photos and
/// clips are saved under. The host creates it once, idempotently.
pub fn output_dir_name() -> (r: String)
    ensures
        r@ == "camera_output"@,
{
    "camera_output".to_owned()
}

impl CaptureError {
    /// A short operator-facing description of the failure.
    pub fn describe(&self) -> (s: String)
        ensures
            *self is DeviceUnavailable ==> s@ == "camera device unavailable"@,
            *self is EmptyFrame ==> s@ == "camera returned an empty frame"@,
            *self is EncodeFailure ==> s@ == "could not encode the output file"@,
            *self is InvalidMode ==> s@ == "recording can start only in video mode"@,
    {
        match self {
            CaptureError::DeviceUnavailable => "camera device unavailable".to_owned(),
            CaptureError::EmptyFrame => "camera returned an empty frame".to_owned(),
            CaptureError::EncodeFailure => "could not encode the output file".to_owned(),
            CaptureError::InvalidMode => "recording can start only in video mode".to_owned(),
        }
    }
}

} // verus!

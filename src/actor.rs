use vstd::prelude::*;

use crate::capability::{
    format_listed, resolution_listed, usable_formats, CameraCapabilities, CapabilityModel,
    RawFormat,
};
use crate::format::{format_of_tag, tag_of, Frame, PixelFormat, Resolution};

verus! {

/// Lifecycle of a camera: idle, configured, or armed and streaming.
#[derive(Debug, Clone, Copy, PartialEq, Eq, Structural)]
pub enum CameraState {
    Idle,
    Configured,
    Streaming,
}

/// A format, resolution and frame rate that were checked against the
/// discovered capabilities.
#[derive(Debug, Clone, Copy, PartialEq, Eq, Structural)]
pub struct CaptureConfig {
    /// Pixel format (e.g., MJPG, YUYV)
    pub format: PixelFormat,
    /// Frame resolution (width and height)
    pub resolution: Resolution,
    /// Frames per second
    pub fps: u32,
}

impl CaptureConfig {
    pub fn new(format: PixelFormat, resolution: Resolution, fps: u32) -> (r: CaptureConfig)
        ensures
            r == (CaptureConfig { format, resolution, fps }),
    {
        CaptureConfig { format, resolution, fps }
    }
}

/// What can go wrong when a command is handled.
#[derive(Debug, Clone, PartialEq, Eq)]
pub enum CameraError {
    /// The device path could not be opened.
    InterfaceNotFound,
    /// A configuration was asked for before any discovery.
    CapabilitiesNotDiscovered,
    /// The format is not among the discovered capabilities.
    UnsupportedFormat(PixelFormat),
    /// Width, height: the resolution is not listed for that format.
    UnsupportedResolution(u32, u32, PixelFormat),
    /// The operation needs a stored configuration.
    NotConfigured,
    AlreadyStreaming,
    NotStreaming,
    /// The driver failed; the text says why.
    IoError(String),
    /// Every frame number has been used; no further frame can be numbered
    /// without repeating one.
    SequenceExhausted,
}

/// Commands that a client sends to the camera actor.
pub enum CameraCommand {
    /// Change the camera device (e.g., from /dev/video0 to /dev/video1)
    SetInterface(String),
    /// Discover the formats and resolutions supported by the camera
    DiscoverCapabilities,
    /// Query the current camera configuration
    GetConfiguration,
    /// Set camera format, resolution, and frame rate
    SetConfiguration { width: u32, height: u32, fps: u32, format: PixelFormat },
    /// Start capturing frames continuously
    StartStreaming,
    /// Stop capturing frames
    StopStreaming,
    /// Shut the actor down
    Shutdown,
}

/// Events that the camera actor publishes, one per command, and one per
/// capture while streaming.
#[derive(Debug)]
pub enum CameraEvent {
    InterfaceChanged,
    CapabilitiesDiscovered(CameraCapabilities),
    ConfigurationRetrieved(CaptureConfig),
    Configured,
    FrameCaptured(Frame),
    StreamingStarted,
    StreamingStopped,
    ShutdownComplete,
    Error(CameraError),
}

/// One frame as the driver delivers it.
pub struct RawFrame {
    pub fourcc: [u8; 4],
    pub width: u32,
    pub height: u32,
    pub data: Vec<u8>,
}

/// The settings that arm the driver: frame interval as a fraction of a
/// second, resolution, and wire tag of the format.
#[derive(Debug, Clone, Copy, PartialEq, Eq)]
pub struct DriverConfig {
    pub interval: (u32, u32),
    pub resolution: (u32, u32),
    pub format: [u8; 4],
}

/// The actor's state as a mathematical value.
pub struct ActorView {
    pub name: Seq<char>,
    pub state: CameraState,
    pub capabilities: Option<CapabilityModel>,
    pub config: Option<CaptureConfig>,
    pub sequence: nat,
}

impl ActorView {
    /// A configuration is stored exactly when the camera is not idle.
    pub open spec fn wf(self) -> bool {
        self.config is Some <==> self.state != CameraState::Idle
    }
}

/// The event that reports `res`: `success` on success, the error otherwise.
pub open spec fn event_of(res: Result<(), CameraError>, success: CameraEvent) -> CameraEvent {
    match res {
        Ok(()) => success,
        Err(e) => CameraEvent::Error(e),
    }
}

/// A driver failure as a camera error.
pub open spec fn driver_result(res: Result<(), String>) -> Result<(), CameraError> {
    match res {
        Ok(()) => Ok(()),
        Err(m) => Err(CameraError::IoError(m)),
    }
}

/// Interface change: the new path failing to open comes first; a failed
/// forced stop of a streaming device is reported after that.
pub open spec fn interface_result(
    v: ActorView,
    disarm: Result<(), String>,
    opened: bool,
) -> Result<(), CameraError> {
    if !opened {
        Err(CameraError::InterfaceNotFound)
    } else if v.state == CameraState::Streaming {
        driver_result(disarm)
    } else {
        Ok(())
    }
}

/// When the new path opens, its handle replaces the old one and the camera
/// starts over: idle, with no capabilities, no configuration and the frame
/// count at zero, named by the new path. When it does not open, the old
/// handle stays, and the actor is left as the forced stop left it: a
/// streaming camera whose stop succeeded is configured, and otherwise
/// nothing changes.
pub open spec fn after_interface(
    v: ActorView,
    path: Seq<char>,
    disarm: Result<(), String>,
    opened: bool,
) -> ActorView {
    if opened {
        ActorView {
            name: path,
            state: CameraState::Idle,
            capabilities: None,
            config: None,
            sequence: 0,
        }
    } else {
        after_stop(v, disarm)
    }
}

pub open spec fn after_discovery(v: ActorView, report: Seq<Option<RawFormat>>) -> ActorView {
    ActorView { capabilities: Some(usable_formats(report)), ..v }
}

/// Validation of a configuration request, in the order of its checks.
pub open spec fn configure_result(
    v: ActorView,
    width: u32,
    height: u32,
    fps: u32,
    format: PixelFormat,
) -> Result<CaptureConfig, CameraError> {
    match v.capabilities {
        None => Err(CameraError::CapabilitiesNotDiscovered),
        Some(caps) => if v.state == CameraState::Streaming {
            Err(CameraError::AlreadyStreaming)
        } else if !format_listed(caps, format) {
            Err(CameraError::UnsupportedFormat(format))
        } else if !resolution_listed(caps, format, width, height) {
            Err(CameraError::UnsupportedResolution(width, height, format))
        } else {
            Ok(CaptureConfig { format, resolution: Resolution { width, height }, fps })
        },
    }
}

pub open spec fn after_configure(
    v: ActorView,
    width: u32,
    height: u32,
    fps: u32,
    format: PixelFormat,
) -> ActorView {
    match configure_result(v, width, height, fps, format) {
        Ok(c) => ActorView { state: CameraState::Configured, config: Some(c), ..v },
        Err(_) => v,
    }
}

pub open spec fn configure_event(
    v: ActorView,
    width: u32,
    height: u32,
    fps: u32,
    format: PixelFormat,
) -> CameraEvent {
    match configure_result(v, width, height, fps, format) {
        Ok(_) => CameraEvent::Configured,
        Err(e) => CameraEvent::Error(e),
    }
}

/// The stored configuration, once the camera is configured or streaming.
pub open spec fn retrieve_result(v: ActorView) -> Result<CaptureConfig, CameraError> {
    if v.state == CameraState::Idle {
        Err(CameraError::NotConfigured)
    } else {
        match v.config {
            Some(c) => Ok(c),
            None => Err(CameraError::NotConfigured),
        }
    }
}

pub open spec fn retrieve_event(v: ActorView) -> CameraEvent {
    match retrieve_result(v) {
        Ok(c) => CameraEvent::ConfigurationRetrieved(c),
        Err(e) => CameraEvent::Error(e),
    }
}

/// Starting needs a configured camera and a driver that arms.
pub open spec fn start_result(v: ActorView, arm: Result<(), String>) -> Result<(), CameraError> {
    match v.state {
        CameraState::Configured => driver_result(arm),
        CameraState::Streaming => Err(CameraError::AlreadyStreaming),
        CameraState::Idle => Err(CameraError::NotConfigured),
    }
}

pub open spec fn after_start(v: ActorView, arm: Result<(), String>) -> ActorView {
    if start_result(v, arm) is Ok {
        ActorView { state: CameraState::Streaming, ..v }
    } else {
        v
    }
}

/// Stopping needs a streaming camera and a driver that disarms.
pub open spec fn stop_result(v: ActorView, disarm: Result<(), String>) -> Result<(), CameraError> {
    if v.state == CameraState::Streaming {
        driver_result(disarm)
    } else {
        Err(CameraError::NotStreaming)
    }
}

pub open spec fn after_stop(v: ActorView, disarm: Result<(), String>) -> ActorView {
    if stop_result(v, disarm) is Ok {
        ActorView { state: CameraState::Configured, ..v }
    } else {
        v
    }
}

/// A capture that yields a frame: the camera streams, the driver delivered,
/// and the frame count can still grow.
pub open spec fn capture_succeeds(v: ActorView, delivered: bool) -> bool {
    v.state == CameraState::Streaming && delivered && v.sequence < usize::MAX
}

pub open spec fn after_capture(v: ActorView, delivered: bool) -> ActorView {
    if capture_succeeds(v, delivered) {
        ActorView { sequence: v.sequence + 1, ..v }
    } else {
        v
    }
}

/// The actor that owns one camera's state. The surrounding program owns the
/// driver handle, performs the driver calls, and hands their outcomes in.
pub struct CameraActor {
    name: String,
    state: CameraState,
    capabilities: Option<CameraCapabilities>,
    config: Option<CaptureConfig>,
    frame_sequence: usize,
}

impl View for CameraActor {
    type V = ActorView;

    closed spec fn view(&self) -> ActorView {
        ActorView {
            name: self.name@,
            state: self.state,
            capabilities: match self.capabilities {
                Some(c) => Some(c@),
                None => None,
            },
            config: self.config,
            sequence: self.frame_sequence as nat,
        }
    }
}

impl CameraActor {
    /// The actor for a device, given what opening its path gave: the
    /// opened handle comes back with the actor, and a path that did not open
    /// is `InterfaceNotFound`.
    pub fn new<H>(device_path: &str, open: Result<H, String>) -> (r: Result<
        (CameraActor, H),
        CameraError,
    >)
        ensures
            open is Err ==> r is Err && r->Err_0 == CameraError::InterfaceNotFound,
            open is Ok ==> r is Ok && r->Ok_0.1 == open->Ok_0,
            r matches Ok((a, _)) ==> a@ == (ActorView {
                name: device_path@,
                state: CameraState::Idle,
                capabilities: None,
                config: None,
                sequence: 0,
            }),
    {
        match open {
            Ok(handle) => Ok(
                (
                    CameraActor {
                        name: device_path.to_owned(),
                        state: CameraState::Idle,
                        capabilities: None,
                        config: None,
                        frame_sequence: 0,
                    },
                    handle,
                ),
            ),
            Err(_) => Err(CameraError::InterfaceNotFound),
        }
    }

    /// The device path this actor was opened on.
    pub fn name(&self) -> (r: &str)
        ensures
            r@ == self@.name,
    {
        self.name.as_str()
    }

    /// The lifecycle state.
    pub fn state(&self) -> (r: CameraState)
        ensures
            r == self@.state,
    {
        self.state
    }

    /// Whether the driver is armed, so that a stop must come before the
    /// handle is replaced or released, and a capture is due.
    pub fn is_streaming(&self) -> (r: bool)
        ensures
            r == (self@.state == CameraState::Streaming),
    {
        self.state == CameraState::Streaming
    }

    /// Changes the device. `disarm` is what stopping the old device gave,
    /// which is done only while streaming (pass `Ok(())` otherwise); `open`
    /// is what opening `device_path` gave. The new handle, when there is one,
    /// comes back to replace the old one, and the camera starts over idle;
    /// otherwise the old handle stays, with the actor as the stop left it.
    pub fn set_interface<H>(
        &mut self,
        device_path: &str,
        disarm: Result<(), String>,
        open: Result<H, String>,
    ) -> (r: (CameraEvent, Option<H>))
        requires
            old(self)@.wf(),
        ensures
            final(self)@ == after_interface(old(self)@, device_path@, disarm, open is Ok),
            final(self)@.wf(),
            r.0 == event_of(
                interface_result(old(self)@, disarm, open is Ok),
                CameraEvent::InterfaceChanged,
            ),
            open is Ok ==> r.1 == Some(open->Ok_0),
            open is Err ==> r.1 is None,
    {
        let was_streaming = self.state == CameraState::Streaming;
        match open {
            Err(_) => {
                if was_streaming && disarm.is_ok() {
                    self.state = CameraState::Configured;
                }
                (CameraEvent::Error(CameraError::InterfaceNotFound), None)
            },
            Ok(handle) => {
                self.name = device_path.to_owned();
                self.state = CameraState::Idle;
                self.capabilities = None;
                self.config = None;
                self.frame_sequence = 0;
                let event = if was_streaming {
                    match disarm {
                        Ok(()) => CameraEvent::InterfaceChanged,
                        Err(m) => CameraEvent::Error(CameraError::IoError(m)),
                    }
                } else {
                    CameraEvent::InterfaceChanged
                };
                (event, Some(handle))
            },
        }
    }

    /// Replaces the capabilities with those the driver report yields, in any
    /// state, and publishes a copy of them.
    pub fn discover_capabilities(&mut self, report: &Vec<Option<RawFormat>>) -> (r: CameraEvent)
        requires
            old(self)@.wf(),
        ensures
            final(self)@ == after_discovery(old(self)@, report@),
            final(self)@.wf(),
            r is CapabilitiesDiscovered,
            r->CapabilitiesDiscovered_0@ == usable_formats(report@),
    {
        let caps = CameraCapabilities::from_report(report);
        let published = caps.copy();
        self.capabilities = Some(caps);
        CameraEvent::CapabilitiesDiscovered(published)
    }

    /// Checks a configuration against the discovered capabilities and, when
    /// it is listed, stores it and moves to configured. Refused while
    /// streaming: a stream is never stopped implicitly.
    pub fn set_configuration(&mut self, width: u32, height: u32, fps: u32, format: PixelFormat) -> (r:
        CameraEvent)
        requires
            old(self)@.wf(),
        ensures
            final(self)@ == after_configure(old(self)@, width, height, fps, format),
            final(self)@.wf(),
            r == configure_event(old(self)@, width, height, fps, format),
    {
        let caps = match &self.capabilities {
            Some(c) => c,
            None => {
                return CameraEvent::Error(CameraError::CapabilitiesNotDiscovered);
            },
        };
        if self.state == CameraState::Streaming {
            return CameraEvent::Error(CameraError::AlreadyStreaming);
        }
        if !caps.lists_format(format) {
            return CameraEvent::Error(CameraError::UnsupportedFormat(format));
        }
        if !caps.lists_resolution(format, width, height) {
            return CameraEvent::Error(CameraError::UnsupportedResolution(width, height, format));
        }
        self.config = Some(CaptureConfig { format, resolution: Resolution { width, height }, fps });
        self.state = CameraState::Configured;
        CameraEvent::Configured
    }

    /// Publishes the stored configuration, or `NotConfigured` while idle.
    pub fn get_configuration(&self) -> (r: CameraEvent)
        requires
            self@.wf(),
        ensures
            r == retrieve_event(self@),
    {
        if self.state == CameraState::Idle {
            return CameraEvent::Error(CameraError::NotConfigured);
        }
        match self.config {
            Some(c) => CameraEvent::ConfigurationRetrieved(c),
            None => CameraEvent::Error(CameraError::NotConfigured),
        }
    }

    /// The driver settings to arm with, when the camera is configured (and
    /// so ready to start): one frame per `1/fps` second, the configured
    /// resolution, and the format's wire tag.
    pub fn arm_request(&self) -> (r: Option<DriverConfig>)
        requires
            self@.wf(),
        ensures
            r is Some <==> self@.state == CameraState::Configured,
            r matches Some(d) ==> {
                let c = self@.config.unwrap();
                &&& d.interval == (1u32, c.fps)
                &&& d.resolution == (c.resolution.width, c.resolution.height)
                &&& d.format@ == tag_of(c.format)
            },
    {
        if self.state != CameraState::Configured {
            return None;
        }
        match self.config {
            Some(c) => Some(
                DriverConfig {
                    interval: (1, c.fps),
                    resolution: (c.resolution.width, c.resolution.height),
                    format: c.format.to_fourcc(),
                },
            ),
            None => None,
        }
    }

    /// Moves from configured to streaming once the driver armed with
    /// `arm_request`; `arm` is what that gave (pass `Ok(())` when there was
    /// no request).
    pub fn start_streaming(&mut self, arm: Result<(), String>) -> (r: CameraEvent)
        requires
            old(self)@.wf(),
        ensures
            final(self)@ == after_start(old(self)@, arm),
            final(self)@.wf(),
            r == event_of(start_result(old(self)@, arm), CameraEvent::StreamingStarted),
    {
        match self.state {
            CameraState::Configured => match arm {
                Ok(()) => {
                    self.state = CameraState::Streaming;
                    CameraEvent::StreamingStarted
                },
                Err(m) => CameraEvent::Error(CameraError::IoError(m)),
            },
            CameraState::Streaming => CameraEvent::Error(CameraError::AlreadyStreaming),
            CameraState::Idle => CameraEvent::Error(CameraError::NotConfigured),
        }
    }

    /// Moves from streaming back to configured once the driver disarmed;
    /// `disarm` is what stopping gave (done only while streaming).
    pub fn stop_streaming(&mut self, disarm: Result<(), String>) -> (r: CameraEvent)
        requires
            old(self)@.wf(),
        ensures
            final(self)@ == after_stop(old(self)@, disarm),
            final(self)@.wf(),
            r == event_of(stop_result(old(self)@, disarm), CameraEvent::StreamingStopped),
    {
        if self.state != CameraState::Streaming {
            return CameraEvent::Error(CameraError::NotStreaming);
        }
        match disarm {
            Ok(()) => {
                self.state = CameraState::Configured;
                CameraEvent::StreamingStopped
            },
            Err(m) => CameraEvent::Error(CameraError::IoError(m)),
        }
    }

    /// Turns one capture into a frame event. A delivered frame gets the next
    /// sequence number and the capture time `timestamp`; a driver failure is
    /// reported and leaves the state as it was, so streaming goes on. Once
    /// every frame number is used, a delivered frame is refused with
    /// `SequenceExhausted` rather than given a number twice.
    pub fn capture_frame(&mut self, captured: Result<RawFrame, String>, timestamp: u64) -> (r:
        CameraEvent)
        requires
            old(self)@.wf(),
        ensures
            final(self)@ == after_capture(old(self)@, captured is Ok),
            final(self)@.wf(),
            old(self)@.state != CameraState::Streaming ==> r == CameraEvent::Error(
                CameraError::NotStreaming,
            ),
            old(self)@.state == CameraState::Streaming ==> match captured {
                Err(m) => r == CameraEvent::Error(CameraError::IoError(m)),
                Ok(raw) => if capture_succeeds(old(self)@, true) {
                    &&& r is FrameCaptured
                    &&& r->FrameCaptured_0.sequence == old(self)@.sequence + 1
                    &&& r->FrameCaptured_0.format == format_of_tag(raw.fourcc@)
                    &&& r->FrameCaptured_0.width == raw.width
                    &&& r->FrameCaptured_0.height == raw.height
                    &&& r->FrameCaptured_0.timestamp == timestamp
                    &&& r->FrameCaptured_0.data@ == raw.data@
                } else {
                    r == CameraEvent::Error(CameraError::SequenceExhausted)
                },
            },
    {
        if self.state != CameraState::Streaming {
            return CameraEvent::Error(CameraError::NotStreaming);
        }
        match captured {
            Err(m) => CameraEvent::Error(CameraError::IoError(m)),
            Ok(raw) => {
                if self.frame_sequence == usize::MAX {
                    return CameraEvent::Error(CameraError::SequenceExhausted);
                }
                self.frame_sequence = self.frame_sequence + 1;
                let format = PixelFormat::from_fourcc(&raw.fourcc);
                CameraEvent::FrameCaptured(
                    Frame {
                        format,
                        width: raw.width,
                        height: raw.height,
                        timestamp,
                        sequence: self.frame_sequence,
                        data: raw.data,
                    },
                )
            },
        }
    }

    /// Ends the actor. The flag says whether the driver must be disarmed
    /// first (the camera was streaming); whatever that gives, the last event
    /// is `ShutdownComplete`.
    pub fn shutdown(self) -> (r: (bool, CameraEvent))
        ensures
            r.0 == (self@.state == CameraState::Streaming),
            r.1 == CameraEvent::ShutdownComplete,
    {
        (self.state == CameraState::Streaming, CameraEvent::ShutdownComplete)
    }
}

/// Configuring before any discovery is refused with
/// `CapabilitiesNotDiscovered` and changes nothing, in any state.
pub proof fn lemma_configure_before_discovery(
    v: ActorView,
    width: u32,
    height: u32,
    fps: u32,
    format: PixelFormat,
)
    requires
        v.capabilities is None,
    ensures
        configure_event(v, width, height, fps, format) == CameraEvent::Error(
            CameraError::CapabilitiesNotDiscovered,
        ),
        after_configure(v, width, height, fps, format) == v,
{
}

/// With capabilities discovered and the camera not streaming, a format that
/// is not listed is refused with `UnsupportedFormat`, and a listed format
/// without the resolution with `UnsupportedResolution`; neither changes the
/// state.
pub proof fn lemma_configure_unsupported(
    v: ActorView,
    width: u32,
    height: u32,
    fps: u32,
    format: PixelFormat,
)
    requires
        v.capabilities is Some,
        v.state != CameraState::Streaming,
    ensures
        !format_listed(v.capabilities.unwrap(), format) ==> configure_event(
            v,
            width,
            height,
            fps,
            format,
        ) == CameraEvent::Error(CameraError::UnsupportedFormat(format)),
        format_listed(v.capabilities.unwrap(), format) && !resolution_listed(
            v.capabilities.unwrap(),
            format,
            width,
            height,
        ) ==> configure_event(v, width, height, fps, format) == CameraEvent::Error(
            CameraError::UnsupportedResolution(width, height, format),
        ),
        configure_result(v, width, height, fps, format) is Err ==> after_configure(
            v,
            width,
            height,
            fps,
            format,
        ) == v,
{
}

/// After a configuration is accepted the camera is configured, and asking
/// for the configuration gives back exactly the format, resolution and rate
/// that were submitted.
pub proof fn lemma_configure_then_retrieve(
    v: ActorView,
    width: u32,
    height: u32,
    fps: u32,
    format: PixelFormat,
)
    requires
        v.wf(),
        configure_result(v, width, height, fps, format) is Ok,
    ensures
        after_configure(v, width, height, fps, format).state == CameraState::Configured,
        after_configure(v, width, height, fps, format).wf(),
        retrieve_event(after_configure(v, width, height, fps, format))
            == CameraEvent::ConfigurationRetrieved(
            CaptureConfig { format, resolution: Resolution { width, height }, fps },
        ),
{
}

/// Starting a configured camera whose driver arms moves it to streaming with
/// one `StreamingStarted`; starting again is refused with `AlreadyStreaming`
/// and changes nothing.
pub proof fn lemma_start_then_start_again(
    v: ActorView,
    arm: Result<(), String>,
    again: Result<(), String>,
)
    requires
        v.wf(),
        v.state == CameraState::Configured,
        arm is Ok,
    ensures
        after_start(v, arm).state == CameraState::Streaming,
        after_start(v, arm).wf(),
        event_of(start_result(v, arm), CameraEvent::StreamingStarted)
            == CameraEvent::StreamingStarted,
        event_of(start_result(after_start(v, arm), again), CameraEvent::StreamingStarted)
            == CameraEvent::Error(CameraError::AlreadyStreaming),
        after_start(after_start(v, arm), again) == after_start(v, arm),
{
}

/// Stopping a camera that is not streaming is refused with `NotStreaming`
/// and changes nothing; stopping a streaming camera whose driver disarms
/// moves it to configured with one `StreamingStopped`.
pub proof fn lemma_stop(v: ActorView, disarm: Result<(), String>)
    requires
        v.wf(),
    ensures
        v.state != CameraState::Streaming ==> event_of(
            stop_result(v, disarm),
            CameraEvent::StreamingStopped,
        ) == CameraEvent::Error(CameraError::NotStreaming) && after_stop(v, disarm) == v,
        v.state == CameraState::Streaming && disarm is Ok ==> after_stop(v, disarm).state
            == CameraState::Configured && event_of(
            stop_result(v, disarm),
            CameraEvent::StreamingStopped,
        ) == CameraEvent::StreamingStopped,
        after_stop(v, disarm).wf(),
{
}

/// Frame numbers only grow: a capture that yields a frame adds exactly one
/// and keeps the camera streaming, and discovery, configuration, start and
/// stop leave the count as it is. Only an interface change resets it.
pub proof fn lemma_sequence_only_grows(
    v: ActorView,
    delivered: bool,
    report: Seq<Option<RawFormat>>,
    width: u32,
    height: u32,
    fps: u32,
    format: PixelFormat,
    arm: Result<(), String>,
    disarm: Result<(), String>,
)
    ensures
        after_capture(v, delivered).sequence == if capture_succeeds(v, delivered) {
            v.sequence + 1
        } else {
            v.sequence
        },
        after_capture(v, delivered).state == v.state,
        after_discovery(v, report).sequence == v.sequence,
        after_configure(v, width, height, fps, format).sequence == v.sequence,
        after_start(v, arm).sequence == v.sequence,
        after_stop(v, disarm).sequence == v.sequence,
{
}

/// An interface change whose path opens leaves the camera idle, without
/// capabilities or configuration, with the frame count at zero and named by
/// the new path, from every state; it reports `InterfaceChanged` unless the
/// forced stop of a streaming camera failed. One whose path does not open
/// reports `InterfaceNotFound` and keeps capabilities, configuration, frame
/// count and name.
pub proof fn lemma_interface_change(
    v: ActorView,
    path: Seq<char>,
    disarm: Result<(), String>,
    opened: bool,
)
    requires
        v.wf(),
    ensures
        after_interface(v, path, disarm, opened).wf(),
        opened ==> after_interface(v, path, disarm, opened) == (ActorView {
            name: path,
            state: CameraState::Idle,
            capabilities: None,
            config: None,
            sequence: 0,
        }),
        opened && (v.state != CameraState::Streaming || disarm is Ok) ==> event_of(
            interface_result(v, disarm, opened),
            CameraEvent::InterfaceChanged,
        ) == CameraEvent::InterfaceChanged,
        !opened ==> event_of(interface_result(v, disarm, opened), CameraEvent::InterfaceChanged)
            == CameraEvent::Error(CameraError::InterfaceNotFound),
        !opened ==> {
            let w = after_interface(v, path, disarm, opened);
            &&& w.name == v.name
            &&& w.capabilities == v.capabilities
            &&& w.config == v.config
            &&& w.sequence == v.sequence
            &&& (w.state == CameraState::Idle <==> v.state == CameraState::Idle)
        },
{
}

/// A command with the driver outcome it met: the report for a discovery,
/// the arming result for a start, the disarming result for a stop, whether
/// the driver delivered a frame for a capture, and for an interface change
/// the new path, the forced stop's result and whether the path opened.
pub enum ActorStep {
    Interface(Seq<char>, Result<(), String>, bool),
    Discover(Seq<Option<RawFormat>>),
    Configure(u32, u32, u32, PixelFormat),
    Start(Result<(), String>),
    Stop(Result<(), String>),
    Capture(bool),
}

/// The state after one step, as the handler for that command leaves it.
pub open spec fn apply_step(v: ActorView, step: ActorStep) -> ActorView {
    match step {
        ActorStep::Interface(path, disarm, opened) => after_interface(v, path, disarm, opened),
        ActorStep::Discover(report) => after_discovery(v, report),
        ActorStep::Configure(width, height, fps, format) => after_configure(
            v,
            width,
            height,
            fps,
            format,
        ),
        ActorStep::Start(arm) => after_start(v, arm),
        ActorStep::Stop(disarm) => after_stop(v, disarm),
        ActorStep::Capture(delivered) => after_capture(v, delivered),
    }
}

/// The state after the steps, taken in order.
pub open spec fn run_steps(v: ActorView, steps: Seq<ActorStep>) -> ActorView
    decreases steps.len(),
{
    if steps.len() == 0 {
        v
    } else {
        apply_step(run_steps(v, steps.drop_last()), steps.last())
    }
}

/// Some interface change among the steps opened its path, and so replaced
/// the device handle.
pub open spec fn reopened(steps: Seq<ActorStep>) -> bool {
    exists|k: int| 0 <= k < steps.len() && (#[trigger] steps[k]) matches ActorStep::Interface(
        _,
        _,
        true,
    )
}

/// Among the steps, some configuration is accepted or some interface change
/// replaces the handle: either one replaces the stored configuration.
pub open spec fn reconfigured(v: ActorView, steps: Seq<ActorStep>) -> bool
    decreases steps.len(),
{
    if steps.len() == 0 {
        false
    } else {
        reconfigured(v, steps.drop_last()) || match steps.last() {
            ActorStep::Interface(_, _, opened) => opened,
            ActorStep::Configure(width, height, fps, format) => configure_result(
                run_steps(v, steps.drop_last()),
                width,
                height,
                fps,
                format,
            ) is Ok,
            _ => false,
        }
    }
}

/// The sequence numbers of the frames that the captures among the steps
/// yield, in the order they are published.
pub open spec fn frame_numbers(v: ActorView, steps: Seq<ActorStep>) -> Seq<nat>
    decreases steps.len(),
{
    if steps.len() == 0 {
        Seq::empty()
    } else {
        let before = run_steps(v, steps.drop_last());
        let rest = frame_numbers(v, steps.drop_last());
        match steps.last() {
            ActorStep::Capture(delivered) => if capture_succeeds(before, delivered) {
                rest.push(before.sequence + 1)
            } else {
                rest
            },
            _ => rest,
        }
    }
}

/// Every step keeps the state well formed.
pub proof fn lemma_steps_keep_wf(v: ActorView, steps: Seq<ActorStep>)
    requires
        v.wf(),
    ensures
        run_steps(v, steps).wf(),
    decreases steps.len(),
{
    if steps.len() > 0 {
        lemma_steps_keep_wf(v, steps.drop_last());
    }
}

/// Across any steps in which no interface change replaces the handle, the
/// frames are numbered one after another from the count the actor had: the
/// k-th frame gets that count plus k, so numbers strictly increase and
/// never repeat. Stopping and restarting, and an interface change whose
/// path does not open, do not reset them.
pub proof fn lemma_frame_numbers_consecutive(v: ActorView, steps: Seq<ActorStep>)
    requires
        !reopened(steps),
    ensures
        run_steps(v, steps).sequence == v.sequence + frame_numbers(v, steps).len(),
        forall|k: int|
            0 <= k < frame_numbers(v, steps).len() ==> #[trigger] frame_numbers(v, steps)[k]
                == v.sequence + 1 + k,
    decreases steps.len(),
{
    if steps.len() > 0 {
        assert forall|k: int| 0 <= k < steps.drop_last().len() implies !(
        #[trigger] steps.drop_last()[k] matches ActorStep::Interface(_, _, true)) by {
            assert(steps.drop_last()[k] == steps[k]);
        }
        lemma_frame_numbers_consecutive(v, steps.drop_last());
        assert(!(steps[steps.len() - 1] matches ActorStep::Interface(_, _, true)));
    }
}

/// Steps in which no configuration is accepted keep the stored
/// configuration of a configured or streaming camera, and keep it out of
/// the idle state.
pub proof fn lemma_steps_keep_configuration(v: ActorView, steps: Seq<ActorStep>)
    requires
        v.wf(),
        v.state != CameraState::Idle,
        !reconfigured(v, steps),
    ensures
        run_steps(v, steps).state != CameraState::Idle,
        run_steps(v, steps).config == v.config,
    decreases steps.len(),
{
    if steps.len() > 0 {
        lemma_steps_keep_configuration(v, steps.drop_last());
    }
}

/// Once a configuration is accepted, asking for it after any later steps
/// (discoveries, starts, stops, captures, refused configurations, interface
/// changes whose path did not open) gives
/// back exactly the format, resolution and rate that were submitted.
pub proof fn lemma_configuration_retrieved_later(
    v: ActorView,
    width: u32,
    height: u32,
    fps: u32,
    format: PixelFormat,
    steps: Seq<ActorStep>,
)
    requires
        v.wf(),
        configure_result(v, width, height, fps, format) is Ok,
        !reconfigured(after_configure(v, width, height, fps, format), steps),
    ensures
        retrieve_event(run_steps(after_configure(v, width, height, fps, format), steps))
            == CameraEvent::ConfigurationRetrieved(
            CaptureConfig { format, resolution: Resolution { width, height }, fps },
        ),
{
    lemma_steps_keep_configuration(after_configure(v, width, height, fps, format), steps);
}

} // verus!

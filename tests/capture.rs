use streaming_capture::{
    discover_cameras, CameraActor, CameraCapabilities, CameraError, CameraEvent, CameraState,
    CaptureConfig, PixelFormat, RawFormat, RawFrame, Resolution,
};

const ALL: [PixelFormat; 6] = [
    PixelFormat::MJPG,
    PixelFormat::YUYV,
    PixelFormat::RGB3,
    PixelFormat::BGR3,
    PixelFormat::YU12,
    PixelFormat::YV12,
];

fn res(width: u32, height: u32) -> Resolution {
    Resolution { width, height }
}

fn raw(tag: &[u8; 4], resolutions: Option<Vec<Resolution>>) -> Option<RawFormat> {
    Some(RawFormat { fourcc: *tag, resolutions })
}

fn two_format_report() -> Vec<Option<RawFormat>> {
    vec![
        raw(b"MJPG", Some(vec![res(1280, 720), res(640, 480)])),
        raw(b"YUYV", Some(vec![res(640, 480)])),
    ]
}

fn actor() -> CameraActor {
    CameraActor::new("/dev/video0", Ok(())).unwrap().0
}

fn discovered() -> CameraActor {
    let mut a = actor();
    a.discover_capabilities(&two_format_report());
    a
}

fn frame(n: u8) -> Result<RawFrame, String> {
    Ok(RawFrame { fourcc: *b"MJPG", width: 1280, height: 720, data: vec![n, n, n] })
}

fn is_error(e: &CameraEvent, expected: &CameraError) -> bool {
    matches!(e, CameraEvent::Error(got) if got == expected)
}

#[test]
fn test_discover_cameras() {
    let names: Vec<String> = vec!["video0".to_string(), "null".to_string(), "video1".to_string()];
    let cameras = discover_cameras(&names);
    println!("Found cameras: {:?}", cameras);
    assert_eq!(cameras, vec!["/dev/video0".to_string(), "/dev/video1".to_string()]);
}

#[test]
fn discover_cameras_keeps_order_and_prefix_only() {
    let names: Vec<String> = vec![
        "video10".to_string(),
        "vide".to_string(),
        "xvideo0".to_string(),
        "video".to_string(),
        "video2".to_string(),
    ];
    assert_eq!(
        discover_cameras(&names),
        vec!["/dev/video10".to_string(), "/dev/video".to_string(), "/dev/video2".to_string()]
    );
    assert!(discover_cameras(&Vec::new()).is_empty());
}

#[test]
fn fourcc_round_trip_for_every_format() {
    for f in ALL {
        assert_eq!(PixelFormat::from_fourcc(&f.to_fourcc()), f);
    }
    for tag in [b"MJPG", b"YUYV", b"RGB3", b"BGR3", b"YU12", b"YV12"] {
        assert_eq!(PixelFormat::from_fourcc(tag).to_fourcc(), *tag);
    }
}

#[test]
fn fourcc_exact_tags() {
    assert_eq!(PixelFormat::MJPG.to_fourcc(), *b"MJPG");
    assert_eq!(PixelFormat::YV12.to_fourcc(), *b"YV12");
    assert_eq!(PixelFormat::from_fourcc(b"BGR3"), PixelFormat::BGR3);
    assert_eq!(PixelFormat::from_fourcc(b"YU12"), PixelFormat::YU12);
}

#[test]
fn unknown_fourcc_decodes_to_yuyv() {
    assert_eq!(PixelFormat::from_fourcc(b"H264"), PixelFormat::YUYV);
    assert_eq!(PixelFormat::from_fourcc(b"mjpg"), PixelFormat::YUYV);
    assert_eq!(PixelFormat::from_fourcc(&[0, 0, 0, 0]), PixelFormat::YUYV);
}

#[test]
fn open_failure_is_interface_not_found() {
    let r = CameraActor::new::<()>("/dev/video9", Err("No such file".to_string()));
    assert!(matches!(r, Err(CameraError::InterfaceNotFound)));
    let a = actor();
    assert_eq!(a.state(), CameraState::Idle);
    assert_eq!(a.name(), "/dev/video0");
}

#[test]
fn discovery_drops_failed_entries_and_decodes_tags() {
    let mut a = actor();
    let report = vec![
        None,
        raw(b"MJPG", Some(vec![res(1280, 720)])),
        raw(b"RGB3", None),
        raw(b"H264", Some(vec![])),
    ];
    match a.discover_capabilities(&report) {
        CameraEvent::CapabilitiesDiscovered(caps) => {
            assert_eq!(caps.formats.len(), 2);
            assert_eq!(caps.formats[0].format, PixelFormat::MJPG);
            assert_eq!(caps.formats[0].resolutions, vec![res(1280, 720)]);
            assert_eq!(caps.formats[1].format, PixelFormat::YUYV);
            assert!(caps.formats[1].resolutions.is_empty());
        }
        other => panic!("unexpected event {:?}", other),
    }
    assert_eq!(a.state(), CameraState::Idle);
}

#[test]
fn capabilities_copy_is_equal() {
    let caps = CameraCapabilities::from_report(&two_format_report());
    let copy = caps.copy();
    assert_eq!(copy.formats.len(), 2);
    assert_eq!(copy.formats[0].resolutions, caps.formats[0].resolutions);
    assert_eq!(copy.formats[1].format, PixelFormat::YUYV);
}

#[test]
fn configure_before_discovery_is_refused() {
    let mut a = actor();
    let e = a.set_configuration(1280, 720, 30, PixelFormat::MJPG);
    assert!(is_error(&e, &CameraError::CapabilitiesNotDiscovered));
    assert_eq!(a.state(), CameraState::Idle);
}

#[test]
fn configure_unsupported_format_and_resolution() {
    let mut a = discovered();
    let e = a.set_configuration(1280, 720, 30, PixelFormat::RGB3);
    assert!(is_error(&e, &CameraError::UnsupportedFormat(PixelFormat::RGB3)));
    assert_eq!(a.state(), CameraState::Idle);
    // 1280x720 is listed for MJPG only: validation is per format.
    let e = a.set_configuration(1280, 720, 30, PixelFormat::YUYV);
    assert!(is_error(&e, &CameraError::UnsupportedResolution(1280, 720, PixelFormat::YUYV)));
    assert_eq!(a.state(), CameraState::Idle);
    assert!(is_error(&a.get_configuration(), &CameraError::NotConfigured));
}

#[test]
fn configure_then_get_configuration() {
    let mut a = discovered();
    assert!(matches!(a.set_configuration(640, 480, 15, PixelFormat::YUYV), CameraEvent::Configured));
    assert_eq!(a.state(), CameraState::Configured);
    match a.get_configuration() {
        CameraEvent::ConfigurationRetrieved(c) => {
            assert_eq!(c, CaptureConfig::new(PixelFormat::YUYV, res(640, 480), 15));
        }
        other => panic!("unexpected event {:?}", other),
    }
    // A failed reconfiguration keeps the stored one.
    let e = a.set_configuration(1920, 1080, 30, PixelFormat::MJPG);
    assert!(is_error(&e, &CameraError::UnsupportedResolution(1920, 1080, PixelFormat::MJPG)));
    assert_eq!(a.state(), CameraState::Configured);
    match a.get_configuration() {
        CameraEvent::ConfigurationRetrieved(c) => assert_eq!(c.fps, 15),
        other => panic!("unexpected event {:?}", other),
    }
}

#[test]
fn arm_request_follows_configuration() {
    let mut a = discovered();
    assert!(a.arm_request().is_none());
    a.set_configuration(1280, 720, 30, PixelFormat::MJPG);
    let d = a.arm_request().unwrap();
    assert_eq!(d.interval, (1, 30));
    assert_eq!(d.resolution, (1280, 720));
    assert_eq!(d.format, *b"MJPG");
}

#[test]
fn start_requires_configuration() {
    let mut a = discovered();
    assert!(is_error(&a.start_streaming(Ok(())), &CameraError::NotConfigured));
    assert_eq!(a.state(), CameraState::Idle);
}

#[test]
fn start_driver_failure_keeps_state() {
    let mut a = discovered();
    a.set_configuration(1280, 720, 30, PixelFormat::MJPG);
    let e = a.start_streaming(Err("busy".to_string()));
    assert!(is_error(&e, &CameraError::IoError("busy".to_string())));
    assert_eq!(a.state(), CameraState::Configured);
}

#[test]
fn start_twice_is_already_streaming() {
    let mut a = discovered();
    a.set_configuration(1280, 720, 30, PixelFormat::MJPG);
    assert!(matches!(a.start_streaming(Ok(())), CameraEvent::StreamingStarted));
    assert!(a.is_streaming());
    assert!(is_error(&a.start_streaming(Ok(())), &CameraError::AlreadyStreaming));
    assert_eq!(a.state(), CameraState::Streaming);
}

#[test]
fn reconfigure_while_streaming_is_refused() {
    let mut a = discovered();
    a.set_configuration(1280, 720, 30, PixelFormat::MJPG);
    a.start_streaming(Ok(()));
    let e = a.set_configuration(640, 480, 30, PixelFormat::YUYV);
    assert!(is_error(&e, &CameraError::AlreadyStreaming));
    assert_eq!(a.state(), CameraState::Streaming);
}

#[test]
fn stop_when_not_streaming_and_when_streaming() {
    let mut a = discovered();
    assert!(is_error(&a.stop_streaming(Ok(())), &CameraError::NotStreaming));
    a.set_configuration(1280, 720, 30, PixelFormat::MJPG);
    assert!(is_error(&a.stop_streaming(Ok(())), &CameraError::NotStreaming));
    assert_eq!(a.state(), CameraState::Configured);
    a.start_streaming(Ok(()));
    let e = a.stop_streaming(Err("ioctl failed".to_string()));
    assert!(is_error(&e, &CameraError::IoError("ioctl failed".to_string())));
    assert_eq!(a.state(), CameraState::Streaming);
    assert!(matches!(a.stop_streaming(Ok(())), CameraEvent::StreamingStopped));
    assert_eq!(a.state(), CameraState::Configured);
}

#[test]
fn capture_requires_streaming() {
    let mut a = discovered();
    assert!(is_error(&a.capture_frame(frame(1), 5), &CameraError::NotStreaming));
}

#[test]
fn sequence_survives_stop_and_restart_and_failures() {
    let mut a = discovered();
    a.set_configuration(1280, 720, 30, PixelFormat::MJPG);
    a.start_streaming(Ok(()));
    assert!(matches!(a.capture_frame(frame(1), 10), CameraEvent::FrameCaptured(f) if f.sequence == 1));
    let e = a.capture_frame(Err("timeout".to_string()), 11);
    assert!(is_error(&e, &CameraError::IoError("timeout".to_string())));
    assert!(a.is_streaming());
    assert!(matches!(a.capture_frame(frame(2), 12), CameraEvent::FrameCaptured(f) if f.sequence == 2));
    a.stop_streaming(Ok(()));
    a.start_streaming(Ok(()));
    assert!(matches!(a.capture_frame(frame(3), 13), CameraEvent::FrameCaptured(f) if f.sequence == 3));
}

#[test]
fn captured_frame_carries_driver_data() {
    let mut a = discovered();
    a.set_configuration(640, 480, 30, PixelFormat::YUYV);
    a.start_streaming(Ok(()));
    let raw = RawFrame { fourcc: *b"YUYV", width: 640, height: 480, data: vec![9, 8, 7] };
    match a.capture_frame(Ok(raw), 1234) {
        CameraEvent::FrameCaptured(f) => {
            assert_eq!(f.format, PixelFormat::YUYV);
            assert_eq!((f.width, f.height), (640, 480));
            assert_eq!(f.timestamp, 1234);
            assert_eq!(f.sequence, 1);
            assert_eq!(f.data, vec![9, 8, 7]);
        }
        other => panic!("unexpected event {:?}", other),
    }
}

#[test]
fn interface_change_resets_from_streaming() {
    let mut a = discovered();
    a.set_configuration(1280, 720, 30, PixelFormat::MJPG);
    a.start_streaming(Ok(()));
    a.capture_frame(frame(1), 1);
    a.capture_frame(frame(2), 2);
    let e = a.set_interface("/dev/video1", Ok(()), Ok(())).0;
    assert!(matches!(e, CameraEvent::InterfaceChanged));
    assert_eq!(a.state(), CameraState::Idle);
    assert_eq!(a.name(), "/dev/video1");
    assert!(is_error(
        &a.set_configuration(1280, 720, 30, PixelFormat::MJPG),
        &CameraError::CapabilitiesNotDiscovered
    ));
    a.discover_capabilities(&two_format_report());
    a.set_configuration(1280, 720, 30, PixelFormat::MJPG);
    a.start_streaming(Ok(()));
    assert!(matches!(a.capture_frame(frame(3), 3), CameraEvent::FrameCaptured(f) if f.sequence == 1));
}

#[test]
fn interface_change_reports_driver_errors_but_resets() {
    let mut a = discovered();
    a.set_configuration(1280, 720, 30, PixelFormat::MJPG);
    a.start_streaming(Ok(()));
    let e = a.set_interface("/dev/video1", Err("stop failed".to_string()), Ok(())).0;
    assert!(is_error(&e, &CameraError::IoError("stop failed".to_string())));
    assert_eq!(a.state(), CameraState::Idle);
    assert_eq!(a.name(), "/dev/video1");
    let (e, replacement) = a.set_interface("/dev/video7", Ok(()), Err::<u8, String>("missing".to_string()));
    assert!(is_error(&e, &CameraError::InterfaceNotFound));
    assert!(replacement.is_none());
    assert_eq!(a.state(), CameraState::Idle);
    assert_eq!(a.name(), "/dev/video1");
}

#[test]
fn shutdown_while_streaming_completes() {
    let mut a = discovered();
    a.set_configuration(1280, 720, 30, PixelFormat::MJPG);
    a.start_streaming(Ok(()));
    let (disarm, e) = a.shutdown();
    assert!(disarm);
    assert!(matches!(e, CameraEvent::ShutdownComplete));
    let (disarm, e) = actor().shutdown();
    assert!(!disarm);
    assert!(matches!(e, CameraEvent::ShutdownComplete));
}

#[test]
fn end_to_end_discover_configure_stream_stop() {
    let mut a = actor();
    match a.discover_capabilities(&two_format_report()) {
        CameraEvent::CapabilitiesDiscovered(caps) => assert_eq!(caps.formats.len(), 2),
        other => panic!("unexpected event {:?}", other),
    }
    assert!(matches!(a.set_configuration(1280, 720, 30, PixelFormat::MJPG), CameraEvent::Configured));
    assert_eq!(a.state(), CameraState::Configured);
    assert!(matches!(a.start_streaming(Ok(())), CameraEvent::StreamingStarted));
    assert_eq!(a.state(), CameraState::Streaming);
    for expected in 1..=3usize {
        match a.capture_frame(frame(expected as u8), expected as u64) {
            CameraEvent::FrameCaptured(f) => assert_eq!(f.sequence, expected),
            other => panic!("unexpected event {:?}", other),
        }
    }
    assert!(matches!(a.stop_streaming(Ok(())), CameraEvent::StreamingStopped));
    assert_eq!(a.state(), CameraState::Configured);
}

#[test]
fn configure_accepts_resolution_under_any_entry_of_the_format() {
    let mut a = actor();
    // An unknown tag decodes to YUYV, so YUYV is listed twice.
    a.discover_capabilities(&vec![
        raw(b"H264", Some(vec![res(320, 240)])),
        raw(b"MJPG", Some(vec![res(1280, 720)])),
        raw(b"YUYV", Some(vec![res(640, 480)])),
    ]);
    assert!(matches!(a.set_configuration(640, 480, 30, PixelFormat::YUYV), CameraEvent::Configured));
    assert!(matches!(a.set_configuration(320, 240, 30, PixelFormat::YUYV), CameraEvent::Configured));
    let e = a.set_configuration(1280, 720, 30, PixelFormat::YUYV);
    assert!(is_error(&e, &CameraError::UnsupportedResolution(1280, 720, PixelFormat::YUYV)));
    match a.get_configuration() {
        CameraEvent::ConfigurationRetrieved(c) => {
            assert_eq!(c, CaptureConfig::new(PixelFormat::YUYV, res(320, 240), 30));
        }
        other => panic!("unexpected event {:?}", other),
    }
}

#[test]
fn interface_change_hands_back_the_new_handle() {
    let mut a = actor();
    let (e, replacement) = a.set_interface("/dev/video3", Ok(()), Ok(42u8));
    assert!(matches!(e, CameraEvent::InterfaceChanged));
    assert_eq!(replacement, Some(42));
    let (_, handle) = CameraActor::new("/dev/video4", Ok(7u8)).unwrap();
    assert_eq!(handle, 7);
}

#[test]
fn failed_interface_change_keeps_configuration_and_numbering() {
    let mut a = discovered();
    a.set_configuration(1280, 720, 30, PixelFormat::MJPG);
    a.start_streaming(Ok(()));
    assert!(matches!(a.capture_frame(frame(1), 1), CameraEvent::FrameCaptured(f) if f.sequence == 1));
    // The forced stop succeeds, the new path does not open: the old handle
    // stays, disarmed, and the camera is configured.
    let (e, replacement) = a.set_interface("/dev/video5", Ok(()), Err::<u8, String>("missing".to_string()));
    assert!(is_error(&e, &CameraError::InterfaceNotFound));
    assert!(replacement.is_none());
    assert_eq!(a.state(), CameraState::Configured);
    assert_eq!(a.name(), "/dev/video0");
    match a.get_configuration() {
        CameraEvent::ConfigurationRetrieved(c) => {
            assert_eq!(c, CaptureConfig::new(PixelFormat::MJPG, res(1280, 720), 30));
        }
        other => panic!("unexpected event {:?}", other),
    }
    a.start_streaming(Ok(()));
    assert!(matches!(a.capture_frame(frame(2), 2), CameraEvent::FrameCaptured(f) if f.sequence == 2));
    // A forced stop that fails leaves the camera streaming.
    let (e, _) = a.set_interface("/dev/video5", Err("stop failed".to_string()), Err::<u8, String>("missing".to_string()));
    assert!(is_error(&e, &CameraError::InterfaceNotFound));
    assert_eq!(a.state(), CameraState::Streaming);
    assert!(matches!(a.capture_frame(frame(3), 3), CameraEvent::FrameCaptured(f) if f.sequence == 3));
}

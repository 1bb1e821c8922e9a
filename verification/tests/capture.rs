use scap::capturer::{CGPoint, CGRect, CGSize, Capturer, Options, Resolution};
use scap::channel::RecvError;
use scap::display::Target;
use scap::engine::CaptureError;
use scap::frame::{Frame, FrameType};

fn options_720p() -> Options {
    Options {
        fps: 30,
        show_cursor: false,
        show_highlight: false,
        targets: Vec::new(),
        excluded_targets: None,
        output_type: FrameType::BGRAFrame,
        output_resolution: Resolution::_720p,
        source_rect: None,
    }
}

fn frame(format: FrameType, time: u64) -> Frame {
    Frame {
        frame_type: format,
        width: 1280,
        height: 720,
        display_time: time,
        data: vec![0u8, 1, 2, 3],
    }
}

#[test]
fn resolution_dimensions_are_exact() {
    assert_eq!(Resolution::_480p.value(), [640, 480]);
    assert_eq!(Resolution::_720p.value(), [1280, 720]);
    assert_eq!(Resolution::_1080p.value(), [1920, 1080]);
    assert_eq!(Resolution::_1440p.value(), [2560, 1440]);
    assert_eq!(Resolution::_2160p.value(), [3840, 2160]);
    assert_eq!(Resolution::_4320p.value(), [7680, 4320]);
}

#[test]
fn default_resolution_is_captured() {
    assert_eq!(Resolution::default(), Resolution::Captured);
}

#[test]
fn frames_are_delivered_in_fifo_order() {
    let mut capturer = Capturer::new(options_720p());
    assert!(capturer.start_capture().is_ok());
    for time in 0..5u64 {
        assert!(capturer.push_frame(frame(FrameType::BGRAFrame, time)));
    }
    for time in 0..5u64 {
        let got = capturer.get_next_frame().expect("a buffered frame");
        assert_eq!(got.display_time, time);
        assert_eq!(got.data, vec![0u8, 1, 2, 3]);
    }
}

#[test]
fn no_frame_pushed_after_stop_is_delivered() {
    let mut capturer = Capturer::new(options_720p());
    assert!(capturer.start_capture().is_ok());
    assert!(capturer.push_frame(frame(FrameType::BGRAFrame, 1)));
    assert!(capturer.push_frame(frame(FrameType::BGRAFrame, 2)));
    capturer.stop_capture();
    // A late in-flight frame from the backend is discarded, not enqueued.
    assert!(!capturer.push_frame(frame(FrameType::BGRAFrame, 3)));
    // The frames buffered before the stop stay drainable, in order.
    assert_eq!(capturer.get_next_frame().expect("first frame").display_time, 1);
    assert_eq!(capturer.get_next_frame().expect("second frame").display_time, 2);
    // Drained and stopped: the closed outcome, every time from now on.
    assert!(matches!(capturer.get_next_frame(), Err(RecvError)));
    assert!(matches!(capturer.get_next_frame(), Err(RecvError)));
}

#[test]
fn stop_capture_is_a_no_op_on_never_started_capturer() {
    let mut capturer = Capturer::new(options_720p());
    // Nothing is running yet, so these stops change nothing and report
    // nothing: the capturer is still fresh and a start still succeeds.
    capturer.stop_capture();
    capturer.stop_capture();
    assert_eq!(capturer.start_capture(), Ok(()));
    assert!(capturer.push_frame(frame(FrameType::BGRAFrame, 9)));
    assert_eq!(capturer.get_next_frame().expect("buffered frame").display_time, 9);
    capturer.stop_capture();
    assert!(matches!(capturer.get_next_frame(), Err(RecvError)));
}

#[test]
fn stop_capture_is_idempotent_after_a_run() {
    let mut capturer = Capturer::new(options_720p());
    assert!(capturer.start_capture().is_ok());
    assert!(capturer.push_frame(frame(FrameType::RGB, 7)));
    capturer.stop_capture();
    capturer.stop_capture();
    assert_eq!(capturer.get_next_frame().expect("buffered frame").display_time, 7);
    assert!(matches!(capturer.get_next_frame(), Err(RecvError)));
}

#[test]
fn double_start_is_reported() {
    let mut capturer = Capturer::new(options_720p());
    assert_eq!(capturer.start_capture(), Ok(()));
    assert_eq!(capturer.start_capture(), Err(CaptureError::AlreadyStarted));
    // The failed start did not disturb the running capture.
    assert!(capturer.push_frame(frame(FrameType::BGRAFrame, 4)));
    assert_eq!(capturer.get_next_frame().expect("buffered frame").display_time, 4);
}

#[test]
fn start_after_stop_is_reported() {
    let mut capturer = Capturer::new(options_720p());
    assert!(capturer.start_capture().is_ok());
    capturer.stop_capture();
    assert_eq!(capturer.start_capture(), Err(CaptureError::AlreadyStopped));
}

#[test]
fn zero_fps_is_an_invalid_configuration() {
    let mut options = options_720p();
    options.fps = 0;
    let mut capturer = Capturer::new(options);
    assert_eq!(capturer.start_capture(), Err(CaptureError::InvalidConfiguration));
    // The error is sticky only as a report; the capturer is still unstarted,
    // so no frame is accepted.
    assert!(!capturer.push_frame(frame(FrameType::BGRAFrame, 0)));
}

#[test]
fn empty_crop_region_is_an_invalid_configuration() {
    let mut options = options_720p();
    options.source_rect = Some(CGRect {
        origin: CGPoint { x: 10, y: 20 },
        size: CGSize { width: 0, height: 720 },
    });
    let mut capturer = Capturer::new(options);
    assert_eq!(capturer.start_capture(), Err(CaptureError::InvalidConfiguration));
}

#[test]
fn positive_crop_region_is_accepted() {
    let mut options = options_720p();
    options.source_rect = Some(CGRect {
        origin: CGPoint { x: 0, y: 0 },
        size: CGSize { width: 800, height: 600 },
    });
    let mut capturer = Capturer::new(options);
    assert_eq!(capturer.start_capture(), Ok(()));
}

#[test]
fn empty_targets_and_no_source_rect_still_build_a_working_capturer() {
    // Empty `targets` means default full-target capture; the engine must come
    // up and start without any explicit target.
    let options = options_720p();
    assert!(options.targets.is_empty());
    assert!(options.source_rect.is_none());
    let mut capturer = Capturer::new(options);
    assert_eq!(capturer.start_capture(), Ok(()));
    capturer.stop_capture();
}

#[test]
fn excluded_targets_do_not_disturb_the_lifecycle() {
    let mut options = options_720p();
    options.targets = vec![Target::Display(1), Target::Window(42)];
    options.excluded_targets = Some(vec![Target::Window(42)]);
    let mut capturer = Capturer::new(options);
    assert_eq!(capturer.start_capture(), Ok(()));
    assert!(capturer.push_frame(frame(FrameType::BGRAFrame, 11)));
    assert_eq!(capturer.get_next_frame().expect("buffered frame").display_time, 11);
}

#[test]
fn configured_session_delivers_tagged_frames_then_reports_closed() {
    // A 30 fps, 720p, full-screen session: the first frame retrieved carries
    // the configured output format, and after a stop every further receive
    // eventually reports the closed outcome.
    let options = Options {
        fps: 30,
        show_cursor: false,
        show_highlight: false,
        targets: Vec::new(),
        excluded_targets: None,
        output_type: FrameType::BGRAFrame,
        output_resolution: Resolution::_720p,
        source_rect: None,
    };
    let configured_format = options.output_type;
    let mut capturer = Capturer::new(options);
    assert_eq!(capturer.start_capture(), Ok(()));
    // The backend produces frames in the configured format.
    assert!(capturer.push_frame(frame(configured_format, 100)));
    let first = capturer.get_next_frame().expect("first frame of the session");
    assert_eq!(first.frame_type, configured_format);
    capturer.stop_capture();
    assert!(matches!(capturer.get_next_frame(), Err(RecvError)));
    assert!(matches!(capturer.get_next_frame(), Err(RecvError)));
}

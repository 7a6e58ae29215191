use frame_source::config::{ConfigurationError, Limits, Settings};
use frame_source::frame::Frame;
use frame_source::image::DynamicImage;
use frame_source::stream::{Acquisition, Command, Directive, StreamError, Undelivered};
use std::sync::mpsc::{channel, Receiver, TryRecvError};
use std::time::Duration;

fn settings() -> Settings {
    let limits = Limits { max_exposure_ns: 1_000_000_000, max_width: 4096, max_height: 4096 };
    Settings::new(limits, 1_000_000, [8, 6]).unwrap()
}

// A frame as a backend would make it with the settings in effect.
fn capture(acq: &Acquisition, millis: u64) -> Frame {
    let [w, h] = acq.settings().get_resolution();
    Frame::new(Duration::from_millis(millis), DynamicImage::new_luma8(w as u32, h as u32))
}

fn drain(rx: &Receiver<Frame>) -> Vec<Frame> {
    let mut out = Vec::new();
    while let Ok(f) = rx.try_recv() {
        out.push(f);
    }
    out
}

// The reason a frame was not sent; the frame comes back with it.
fn refusal(r: Result<(), Undelivered>) -> Option<(StreamError, u64)> {
    match r {
        Ok(()) => None,
        Err(u) => Some((u.error, u.frame.get_timestamp().as_millis() as u64)),
    }
}

fn millis(frames: &[Frame]) -> Vec<u64> {
    frames.iter().map(|f| f.get_timestamp().as_millis() as u64).collect()
}

#[test]
fn ten_frames_arrive_in_order() {
    let (tx, rx) = channel();
    let mut acq = Acquisition::start(tx, settings());
    for i in 0..10u64 {
        let frame = capture(&acq, i * 10);
        assert_eq!(refusal(acq.produce(frame)), None);
    }
    let got = drain(&rx);
    assert_eq!(got.len(), 10);
    assert_eq!(millis(&got), vec![0, 10, 20, 30, 40, 50, 60, 70, 80, 90]);
}

#[test]
fn swap_after_fifth_frame_splits_without_overlap() {
    let (tx1, rx1) = channel();
    let (tx2, rx2) = channel();
    let mut acq = Acquisition::start(tx1, settings());
    for i in 0..5u64 {
        let frame = capture(&acq, i * 10);
        assert_eq!(refusal(acq.produce(frame)), None);
    }
    assert_eq!(acq.change_consumer(tx2), Ok(()));
    for i in 5..10u64 {
        let frame = capture(&acq, i * 10);
        assert_eq!(refusal(acq.produce(frame)), None);
    }
    let first = millis(&drain(&rx1));
    let second = millis(&drain(&rx2));
    assert_eq!(first, vec![0, 10, 20, 30, 40]);
    assert_eq!(second, vec![50, 60, 70, 80, 90]);
    assert_eq!(first.len() + second.len(), 10);
    assert!(first.iter().all(|t| !second.contains(t)));
}

#[test]
fn swaps_between_every_frame_send_each_frame_once() {
    let mut receivers = Vec::new();
    let (tx, rx) = channel();
    receivers.push(rx);
    let mut acq = Acquisition::start(tx, settings());
    for i in 0..4u64 {
        let frame = capture(&acq, i);
        assert_eq!(refusal(acq.produce(frame)), None);
        let (tx, rx) = channel();
        receivers.push(rx);
        assert_eq!(acq.apply(Command::ChangeConsumer(tx)), Ok(Directive::Continue));
    }
    let got: Vec<Vec<u64>> = receivers.iter().map(|r| millis(&drain(r))).collect();
    assert_eq!(got, vec![vec![0], vec![1], vec![2], vec![3], vec![]]);
}

#[test]
fn resolution_change_applies_from_next_frame() {
    let (tx, rx) = channel();
    let mut acq = Acquisition::start(tx, settings());
    assert_eq!(acq.set_resolution([640, 480]), Ok(()));
    let frame = capture(&acq, 0);
    assert_eq!(refusal(acq.produce(frame)), None);
    assert_eq!(acq.apply(Command::SetResolution([1280, 720])), Ok(Directive::Continue));
    let frame = capture(&acq, 10);
    assert_eq!(refusal(acq.produce(frame)), None);
    let got = drain(&rx);
    let sizes: Vec<(u32, u32)> =
        got.into_iter().map(|f| f.to_image()).map(|i| (i.width(), i.height())).collect();
    assert_eq!(sizes, vec![(640, 480), (1280, 720)]);
    assert_eq!(acq.settings().get_resolution(), [1280, 720]);
}

#[test]
fn stop_releases_backend_exactly_once() {
    let (tx, _rx) = channel();
    let mut acq = Acquisition::start(tx, settings());
    let mut releases = 0;
    for _ in 0..3 {
        if acq.stop() == Ok(Directive::Release) {
            releases += 1;
        }
    }
    assert_eq!(releases, 1);
    assert_eq!(acq.stop(), Err(StreamError::AlreadyStopped));
    assert!(!acq.is_running());
}

#[test]
fn nothing_is_sent_after_stop() {
    let (tx, rx) = channel();
    let mut acq = Acquisition::start(tx, settings());
    let frame = capture(&acq, 0);
    assert_eq!(refusal(acq.produce(frame)), None);
    assert_eq!(acq.apply(Command::Stop), Ok(Directive::Release));
    for i in 1..5u64 {
        let frame = capture(&acq, i);
        assert_eq!(refusal(acq.produce(frame)), Some((StreamError::AlreadyStopped, i)));
    }
    assert_eq!(millis(&drain(&rx)), vec![0]);
    assert!(matches!(rx.try_recv(), Err(TryRecvError::Empty)));
}

#[test]
fn commands_after_stop_are_refused() {
    let (tx, _rx) = channel();
    let (tx2, rx2) = channel();
    let mut acq = Acquisition::start(tx, settings());
    assert_eq!(acq.stop(), Ok(Directive::Release));
    assert_eq!(acq.change_consumer(tx2), Err(StreamError::AlreadyStopped));
    assert_eq!(acq.set_exposure(5), Err(StreamError::AlreadyStopped));
    assert_eq!(acq.set_resolution([10, 10]), Err(StreamError::AlreadyStopped));
    assert_eq!(acq.settings().get_resolution(), [8, 6]);
    assert_eq!(acq.settings().get_exposure(), 1_000_000);
    let frame = capture(&acq, 0);
    assert_eq!(refusal(acq.produce(frame)), Some((StreamError::AlreadyStopped, 0)));
    assert!(drain(&rx2).is_empty());
}

#[test]
fn disconnected_consumer_drops_frame_and_stream_runs_on() {
    let (tx, rx) = channel();
    let (tx2, rx2) = channel();
    let mut acq = Acquisition::start(tx, settings());
    drop(rx);
    let frame = capture(&acq, 30);
    assert_eq!(refusal(acq.produce(frame)), Some((StreamError::Disconnected, 30)));
    assert!(acq.is_running());
    assert_eq!(acq.change_consumer(tx2), Ok(()));
    let frame = capture(&acq, 10);
    assert_eq!(refusal(acq.produce(frame)), None);
    assert_eq!(millis(&drain(&rx2)), vec![10]);
}

#[test]
fn backend_failure_ends_stream_and_stop_reports_it() {
    let (tx, rx) = channel();
    let mut acq = Acquisition::start(tx, settings());
    assert_eq!(acq.backend_failed(), Ok(Directive::Release));
    assert!(!acq.is_running());
    assert_eq!(acq.backend_failed(), Err(StreamError::AlreadyStopped));
    assert_eq!(acq.stop(), Err(StreamError::Backend));
    let frame = capture(&acq, 0);
    assert_eq!(refusal(acq.produce(frame)), Some((StreamError::AlreadyStopped, 0)));
    assert!(drain(&rx).is_empty());
}

#[test]
fn stream_exposure_set_twice_and_out_of_range() {
    let (tx, _rx) = channel();
    let mut acq = Acquisition::start(tx, settings());
    assert_eq!(acq.set_exposure(250_000), Ok(()));
    assert_eq!(acq.apply(Command::SetExposure(250_000)), Ok(Directive::Continue));
    assert_eq!(acq.settings().get_exposure(), 250_000);
    assert_eq!(
        acq.set_exposure(1_000_000_001),
        Err(StreamError::Configuration(ConfigurationError::ExposureOutOfRange))
    );
    assert_eq!(
        acq.apply(Command::SetResolution([0, 5])),
        Err(StreamError::Configuration(ConfigurationError::ResolutionOutOfRange))
    );
    assert_eq!(acq.settings().get_exposure(), 250_000);
    assert_eq!(acq.settings().get_resolution(), [8, 6]);
    assert!(acq.is_running());
}

#[test]
fn refused_frame_comes_back_whole() {
    let (tx, rx) = channel();
    let mut acq = Acquisition::start(tx, settings());
    drop(rx);
    let image = DynamicImage::new_rgb8(3, 2);
    let frame = Frame::new(Duration::from_millis(7), image.clone());
    match acq.produce(frame) {
        Ok(()) => panic!("a frame was sent to a receiver that is gone"),
        Err(u) => {
            assert_eq!(u.error, StreamError::Disconnected);
            assert_eq!(u.frame.get_timestamp(), Duration::from_millis(7));
            assert_eq!(u.frame.to_image(), image);
        }
    }
}

use std::sync::mpsc::channel;
use std::sync::mpsc::Receiver;
use std::sync::mpsc::Sender;

use frame_pipeline::analysis::foreground_mask;
use frame_pipeline::analysis::BoundingBox;
use frame_pipeline::analysis::Detection;
use frame_pipeline::analysis::LandmarkPoint;
use frame_pipeline::analysis::SubjectLandmarks;
use frame_pipeline::source::period_for_speed;
use frame_pipeline::source::remaining_sleep_ms;
use frame_pipeline::AnalysisResult;
use frame_pipeline::AsyncWorker;
use frame_pipeline::CaptureEvent;
use frame_pipeline::CaptureStep;
use frame_pipeline::ControlMsg;
use frame_pipeline::Coordinator;
use frame_pipeline::Frame;
use frame_pipeline::FrameSource;
use frame_pipeline::PixelFormat;
use frame_pipeline::TextureType;
use frame_pipeline::TextureUploader;
use frame_pipeline::UploadBuffer;
use frame_pipeline::WorkerKind;

fn tagged_frame(tag: u8) -> Frame {
    Frame::new(1, 1, PixelFormat::Packed3, vec![tag; 3]).unwrap()
}

fn landmark_result(tag: i32) -> AnalysisResult {
    AnalysisResult::Landmarks(vec![SubjectLandmarks {
        points: vec![LandmarkPoint { x_milli: tag, y_milli: 0 }],
    }])
}

fn mask_result(tag: u8) -> AnalysisResult {
    AnalysisResult::SegmentationMask(
        Frame::new(1, 1, PixelFormat::Single, vec![tag]).unwrap(),
    )
}

struct WorkerEnd {
    requests: Receiver<Frame>,
    responses: Sender<AnalysisResult>,
}

fn coordinator_with_workers(kinds: &[WorkerKind]) -> (Coordinator, Vec<WorkerEnd>, Receiver<Frame>) {
    let (up_tx, up_rx) = channel::<Frame>();
    let (_up_resp_tx, up_resp_rx) = channel::<UploadBuffer>();
    let uploader = TextureUploader::new(TextureType::Rgb, up_tx, up_resp_rx);
    let mut coordinator = Coordinator::new(uploader);
    let mut ends = Vec::new();
    for kind in kinds {
        let (req_tx, req_rx) = channel::<Frame>();
        let (resp_tx, resp_rx) = channel::<AnalysisResult>();
        coordinator.add_worker(*kind, AsyncWorker::new(req_tx, resp_rx));
        ends.push(WorkerEnd { requests: req_rx, responses: resp_tx });
    }
    (coordinator, ends, up_rx)
}

#[test]
fn sleep_covers_the_rest_of_the_period_and_never_goes_negative() {
    assert_eq!(remaining_sleep_ms(33, 0), 33);
    assert_eq!(remaining_sleep_ms(33, 12), 21);
    assert_eq!(remaining_sleep_ms(33, 33), 0);
    assert_eq!(remaining_sleep_ms(33, 100), 0);
}

#[test]
fn playback_speed_scales_the_frame_period() {
    assert_eq!(period_for_speed(33, 1000), 33);
    assert_eq!(period_for_speed(33, 2000), 16);
    assert_eq!(period_for_speed(33, 500), 66);
    assert_eq!(period_for_speed(u64::MAX, 1), u64::MAX);
}

#[test]
fn control_messages_stop_and_retime_the_source() {
    let mut src = FrameSource::new(33);
    assert_eq!(src.period(), 33);
    src.handle_control(ControlMsg::SetPeriodMs(16));
    assert_eq!(src.period(), 16);
    let step = src.ingest(CaptureEvent::Got(tagged_frame(1)));
    assert!(matches!(step, CaptureStep::Continue));
    src.handle_control(ControlMsg::Stop);
    let step = src.ingest(CaptureEvent::Got(tagged_frame(2)));
    assert!(matches!(step, CaptureStep::Exit));
    let pending = src.poll_latest().unwrap();
    assert_eq!(pending.data, vec![1u8; 3]);
    assert!(src.poll_latest().is_none());
}

#[test]
fn transient_empty_reads_are_skipped_not_fatal() {
    let mut src = FrameSource::new(33);
    assert!(matches!(src.ingest(CaptureEvent::NotReady), CaptureStep::Continue));
    assert!(!src.has_failed());
    assert!(src.poll_latest().is_none());
    assert!(matches!(
        src.ingest(CaptureEvent::Got(tagged_frame(3))),
        CaptureStep::Continue
    ));
    assert_eq!(src.poll_latest().unwrap().data, vec![3u8; 3]);
}

#[test]
fn device_failure_degrades_to_no_frames_forever() {
    let mut src = FrameSource::new(33);
    let (mut coordinator, _ends, _up_rx) = coordinator_with_workers(&[WorkerKind::Landmarks]);

    src.ingest(CaptureEvent::Got(tagged_frame(1)));
    assert_eq!(src.poll_latest().unwrap().data, vec![1u8; 3]);
    src.ingest(CaptureEvent::Got(tagged_frame(2)));
    assert_eq!(src.poll_latest().unwrap().data, vec![2u8; 3]);

    let step = src.ingest(CaptureEvent::Failed(String::from("device lost")));
    assert!(matches!(step, CaptureStep::Exit));
    assert!(src.has_failed());
    assert_eq!(src.error().as_deref(), Some("device lost"));

    assert!(src.poll_latest().is_none());
    let step = src.ingest(CaptureEvent::Got(tagged_frame(3)));
    assert!(matches!(step, CaptureStep::Exit));
    assert!(src.poll_latest().is_none());

    for _ in 0..3 {
        let advanced = coordinator.tick(&mut src);
        assert!(!advanced);
    }
    assert!(coordinator.latest_result(0).is_none());
    assert!(src.has_failed());
}

#[test]
fn slow_worker_processes_one_early_frame_and_is_never_redispatched_while_pending() {
    let mut src = FrameSource::new(33);
    let (mut coordinator, ends, _up_rx) = coordinator_with_workers(&[WorkerKind::Landmarks]);
    let end = &ends[0];

    // Tick 1: the worker is idle, so the first frame is dispatched.
    src.ingest(CaptureEvent::Got(tagged_frame(1)));
    assert!(coordinator.tick(&mut src));
    let first = end.requests.try_recv().unwrap();
    assert_eq!(first.data, vec![1u8; 3]);

    // Ticks 2 and 3: the worker is still busy; the new frames are skipped,
    // never queued behind the one in flight.
    for tag in 2..=3u8 {
        src.ingest(CaptureEvent::Got(tagged_frame(tag)));
        assert!(coordinator.tick(&mut src));
        assert!(end.requests.try_recv().is_err());
        assert!(coordinator.latest_result(0).is_none());
    }

    // The slow pass finishes after three frame periods.
    end.responses.send(landmark_result(first.data[0] as i32)).unwrap();

    // Tick 4: at dispatch time the response is still uncollected, so frame 4
    // is skipped too; the poll then brings the result in.
    src.ingest(CaptureEvent::Got(tagged_frame(4)));
    assert!(coordinator.tick(&mut src));
    assert!(end.requests.try_recv().is_err());
    match coordinator.latest_result(0) {
        Some(AnalysisResult::Landmarks(subjects)) => {
            assert_eq!(subjects[0].points[0].x_milli, 1);
        }
        _ => panic!("expected the landmarks of the first frame"),
    }

    // Tick 5: the worker is idle again, so the fifth frame is dispatched.
    src.ingest(CaptureEvent::Got(tagged_frame(5)));
    assert!(coordinator.tick(&mut src));
    let fifth = end.requests.try_recv().unwrap();
    assert_eq!(fifth.data, vec![5u8; 3]);
    assert!(end.requests.try_recv().is_err());
}

#[test]
fn two_workers_expose_both_results_simultaneously() {
    let mut src = FrameSource::new(33);
    let (mut coordinator, ends, _up_rx) =
        coordinator_with_workers(&[WorkerKind::Landmarks, WorkerKind::Segmentation]);

    src.ingest(CaptureEvent::Got(tagged_frame(1)));
    assert!(coordinator.tick(&mut src));
    let for_landmarks = ends[0].requests.try_recv().unwrap();
    let for_segmentation = ends[1].requests.try_recv().unwrap();
    assert_eq!(for_landmarks.data, for_segmentation.data);

    ends[0].responses.send(landmark_result(77)).unwrap();
    ends[1].responses.send(mask_result(9)).unwrap();

    src.ingest(CaptureEvent::Got(tagged_frame(2)));
    assert!(coordinator.tick(&mut src));

    match coordinator.latest_result(0) {
        Some(AnalysisResult::Landmarks(subjects)) => {
            assert_eq!(subjects[0].points[0].x_milli, 77);
        }
        _ => panic!("landmarks result missing or overwritten"),
    }
    match coordinator.latest_result(1) {
        Some(AnalysisResult::SegmentationMask(mask)) => {
            assert_eq!(mask.data, vec![9u8]);
        }
        _ => panic!("segmentation result missing or overwritten"),
    }
    assert!(coordinator.latest_of_kind(WorkerKind::Landmarks).is_some());
    assert!(coordinator.latest_of_kind(WorkerKind::Segmentation).is_some());
    assert!(coordinator.latest_of_kind(WorkerKind::Detection).is_none());
}

#[test]
fn tick_without_a_new_frame_changes_nothing() {
    let mut src = FrameSource::new(33);
    let (mut coordinator, ends, _up_rx) = coordinator_with_workers(&[WorkerKind::Landmarks]);
    assert!(!coordinator.tick(&mut src));
    assert!(ends[0].requests.try_recv().is_err());
    assert!(coordinator.latest_result(0).is_none());
    assert!(coordinator.frame_on_display().is_none());
}

#[test]
fn tick_hands_the_displayed_frame_to_the_uploader() {
    let mut src = FrameSource::new(33);
    let (mut coordinator, _ends, up_rx) = coordinator_with_workers(&[WorkerKind::Landmarks]);
    src.ingest(CaptureEvent::Got(tagged_frame(8)));
    assert!(coordinator.tick(&mut src));
    let sent = up_rx.try_recv().unwrap();
    assert_eq!(sent.data, vec![8u8; 3]);
    match coordinator.frame_on_display() {
        Some(f) => assert_eq!(f.data, vec![8u8; 3]),
        None => panic!("no frame on display after an advancing tick"),
    }
}

#[test]
fn foreground_mask_picks_the_right_variant() {
    let landmarks = landmark_result(1);
    assert!(foreground_mask(&landmarks).is_none());
    assert!(matches!(landmarks.kind(), WorkerKind::Landmarks));

    let mask = mask_result(4);
    assert!(matches!(mask.kind(), WorkerKind::Segmentation));
    match foreground_mask(&mask) {
        Some(f) => assert_eq!(f.data, vec![4u8]),
        None => panic!("segmentation mask should be its own foreground"),
    }

    let detections = AnalysisResult::Detections(vec![]);
    assert!(matches!(detections.kind(), WorkerKind::Detection));
    assert!(foreground_mask(&detections).is_none());

    let instance = Detection {
        class_id: 3,
        bounds: BoundingBox { left: 0, top: 0, right: 1000, bottom: 1000 },
        mask: Some(Frame::new(1, 1, PixelFormat::Single, vec![66]).unwrap()),
    };
    let with_mask = AnalysisResult::Detections(vec![instance]);
    match foreground_mask(&with_mask) {
        Some(f) => assert_eq!(f.data, vec![66u8]),
        None => panic!("first detection's mask should be the foreground"),
    }
}

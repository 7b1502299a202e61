use std::sync::mpsc::channel;

use frame_pipeline::analysis::LandmarkPoint;
use frame_pipeline::analysis::SubjectLandmarks;
use frame_pipeline::AnalysisResult;
use frame_pipeline::AsyncWorker;
use frame_pipeline::DispatchError;
use frame_pipeline::Frame;
use frame_pipeline::PixelFormat;
use frame_pipeline::TextureType;
use frame_pipeline::TextureUploader;
use frame_pipeline::UploadBuffer;

fn small_frame(fill: u8) -> Frame {
    Frame::new(2, 1, PixelFormat::Packed3, vec![fill; 6]).unwrap()
}

fn landmarks_with_tag(tag: i32) -> AnalysisResult {
    AnalysisResult::Landmarks(vec![SubjectLandmarks {
        points: vec![LandmarkPoint { x_milli: tag, y_milli: tag }],
    }])
}

#[test]
fn fresh_worker_is_idle_and_polls_nothing() {
    let (req_tx, _req_rx) = channel::<Frame>();
    let (_resp_tx, resp_rx) = channel::<AnalysisResult>();
    let mut w = AsyncWorker::new(req_tx, resp_rx);
    assert!(w.is_finished());
    assert!(w.poll().is_none());
    assert!(w.is_finished());
}

#[test]
fn dispatch_submits_exactly_the_given_request() {
    let (req_tx, req_rx) = channel::<Frame>();
    let (_resp_tx, resp_rx) = channel::<AnalysisResult>();
    let mut w = AsyncWorker::new(req_tx, resp_rx);
    w.dispatch(small_frame(42)).unwrap();
    assert!(!w.is_finished());
    let seen = req_rx.try_recv().unwrap();
    assert_eq!(seen.data, vec![42u8; 6]);
    assert!(req_rx.try_recv().is_err());
}

#[test]
fn busy_dispatch_submits_nothing() {
    let (req_tx, req_rx) = channel::<Frame>();
    let (_resp_tx, resp_rx) = channel::<AnalysisResult>();
    let mut w = AsyncWorker::new(req_tx, resp_rx);
    w.dispatch(small_frame(1)).unwrap();
    let refused = w.dispatch(small_frame(2));
    assert!(matches!(refused, Err(DispatchError::Busy)));
    let refused_again = w.dispatch(small_frame(3));
    assert!(matches!(refused_again, Err(DispatchError::Busy)));
    let first = req_rx.try_recv().unwrap();
    assert_eq!(first.data, vec![1u8; 6]);
    assert!(req_rx.try_recv().is_err());
}

#[test]
fn poll_delivers_each_response_once() {
    let (req_tx, req_rx) = channel::<Frame>();
    let (resp_tx, resp_rx) = channel::<AnalysisResult>();
    let mut w = AsyncWorker::new(req_tx, resp_rx);
    w.dispatch(small_frame(9)).unwrap();
    assert!(w.poll().is_none());
    let _request = req_rx.try_recv().unwrap();
    resp_tx.send(landmarks_with_tag(7)).unwrap();
    let got = w.poll().unwrap();
    match got {
        AnalysisResult::Landmarks(subjects) => {
            assert_eq!(subjects[0].points[0].x_milli, 7);
        }
        _ => panic!("wrong result variant"),
    }
    assert!(w.is_finished());
    assert!(w.poll().is_none());
    assert!(w.poll().is_none());
}

#[test]
fn dispatch_after_consumed_response_works_again() {
    let (req_tx, req_rx) = channel::<Frame>();
    let (resp_tx, resp_rx) = channel::<AnalysisResult>();
    let mut w = AsyncWorker::new(req_tx, resp_rx);
    w.dispatch(small_frame(1)).unwrap();
    let _ = req_rx.try_recv().unwrap();
    resp_tx.send(landmarks_with_tag(1)).unwrap();
    assert!(w.poll().is_some());
    w.dispatch(small_frame(2)).unwrap();
    let second = req_rx.try_recv().unwrap();
    assert_eq!(second.data, vec![2u8; 6]);
}

#[test]
fn dispatch_to_a_dead_worker_is_refused_permanently() {
    let (req_tx, req_rx) = channel::<Frame>();
    let (_resp_tx, resp_rx) = channel::<AnalysisResult>();
    let mut w = AsyncWorker::new(req_tx, resp_rx);
    drop(req_rx);
    let refused = w.dispatch(small_frame(1));
    assert!(matches!(refused, Err(DispatchError::Closed)));
    assert!(w.is_finished());
    let refused_again = w.dispatch(small_frame(2));
    assert!(matches!(refused_again, Err(DispatchError::Closed)));
}

#[test]
fn uploader_mirrors_dispatch_and_poll() {
    let (req_tx, req_rx) = channel::<Frame>();
    let (resp_tx, resp_rx) = channel::<UploadBuffer>();
    let mut up = TextureUploader::new(TextureType::Rgb, req_tx, resp_rx);
    assert!(up.is_finished());
    assert!(up.finish_upload().is_none());
    let frame = small_frame(5);
    up.start_upload(&frame).unwrap();
    assert!(!up.is_finished());
    assert!(matches!(up.start_upload(&frame), Err(DispatchError::Busy)));
    let sent = req_rx.try_recv().unwrap();
    assert_eq!(sent.data, frame.data);
    let converted = frame_pipeline::texture::convert_frame(&sent);
    resp_tx.send(converted).unwrap();
    let buf = up.finish_upload().unwrap();
    assert_eq!(buf.width, 2);
    assert_eq!(buf.height, 1);
    assert_eq!(buf.data.len(), 8);
    assert!(up.finish_upload().is_none());
    assert!(up.is_finished());
}

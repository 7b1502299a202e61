use frame_pipeline::Frame;
use frame_pipeline::FrameChannel;
use frame_pipeline::PixelFormat;

fn packed_frame(width: usize, height: usize, fill: u8) -> Frame {
    let data = vec![fill; width * height * 3];
    Frame::new(width, height, PixelFormat::Packed3, data).unwrap()
}

#[test]
fn frame_new_accepts_exact_bytes() {
    let f = Frame::new(2, 2, PixelFormat::Packed3, vec![0u8; 12]).unwrap();
    assert_eq!(f.width, 2);
    assert_eq!(f.height, 2);
    assert_eq!(f.data.len(), 12);
}

#[test]
fn frame_new_rejects_wrong_byte_count() {
    assert!(Frame::new(2, 2, PixelFormat::Packed3, vec![0u8; 11]).is_none());
    assert!(Frame::new(2, 2, PixelFormat::Single, vec![0u8; 3]).is_none());
    assert!(Frame::new(usize::MAX, 2, PixelFormat::Packed3, vec![0u8; 8]).is_none());
}

#[test]
fn frame_new_single_channel() {
    let f = Frame::new(3, 2, PixelFormat::Single, vec![9u8; 6]).unwrap();
    assert_eq!(f.data, vec![9u8; 6]);
}

#[test]
fn frame_duplicate_copies_everything() {
    let f = Frame::new(2, 1, PixelFormat::Packed3, vec![1, 2, 3, 4, 5, 6]).unwrap();
    let g = f.duplicate();
    assert_eq!(g.width, f.width);
    assert_eq!(g.height, f.height);
    assert_eq!(g.data, f.data);
}

#[test]
fn empty_channel_polls_nothing() {
    let mut chan = FrameChannel::new();
    assert_eq!(chan.len(), 0);
    assert!(chan.poll_latest().is_none());
    assert!(chan.poll_latest().is_none());
}

#[test]
fn push_then_poll_round_trips_one_frame() {
    let mut chan = FrameChannel::new();
    chan.push(packed_frame(2, 2, 7));
    assert_eq!(chan.len(), 1);
    let got = chan.poll_latest().unwrap();
    assert_eq!(got.data, vec![7u8; 12]);
    assert_eq!(chan.len(), 0);
}

#[test]
fn overflow_drops_the_oldest_frame() {
    let mut chan = FrameChannel::new();
    chan.push(packed_frame(1, 1, 1));
    chan.push(packed_frame(1, 1, 2));
    chan.push(packed_frame(1, 1, 3));
    assert_eq!(chan.len(), 2);
    let got = chan.poll_latest().unwrap();
    assert_eq!(got.data, vec![3u8; 3]);
    assert!(chan.poll_latest().is_none());
}

#[test]
fn newest_wins_across_many_pushes_into_a_full_channel() {
    let mut chan = FrameChannel::new();
    chan.push(packed_frame(1, 1, 10));
    chan.push(packed_frame(1, 1, 20));
    for fill in 21..=40u8 {
        chan.push(packed_frame(1, 1, fill));
    }
    let got = chan.poll_latest().unwrap();
    assert_eq!(got.data, vec![40u8; 3]);
}

#[test]
fn poll_latest_discards_older_pending_frames() {
    let mut chan = FrameChannel::new();
    chan.push(packed_frame(1, 1, 5));
    chan.push(packed_frame(1, 1, 6));
    let got = chan.poll_latest().unwrap();
    assert_eq!(got.data, vec![6u8; 3]);
    assert!(chan.poll_latest().is_none());
}

use camrec::frame::Frame;

#[test]
fn frame_of_matching_size() {
    let f = Frame::from_rgba(2, 3, vec![0u8; 24]).unwrap();
    assert_eq!(f.width(), 2);
    assert_eq!(f.height(), 3);
    assert_eq!(f.rgba().len(), 24);
    let (w, h, px) = f.into_parts();
    assert_eq!((w, h, px.len()), (2, 3, 24));
}

#[test]
fn frame_with_wrong_byte_count_is_rejected() {
    assert!(Frame::from_rgba(2, 3, vec![0u8; 23]).is_none());
    assert!(Frame::from_rgba(2, 3, vec![0u8; 25]).is_none());
}

#[test]
fn empty_frame() {
    assert!(Frame::from_rgba(0, 5, Vec::new()).is_some());
    assert!(Frame::from_rgba(0, 5, vec![1]).is_none());
}

#[test]
fn overflowing_size_is_rejected() {
    assert!(Frame::from_rgba(usize::MAX, 2, Vec::new()).is_none());
    assert!(Frame::from_rgba(usize::MAX / 2, 1, Vec::new()).is_none());
}

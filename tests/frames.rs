use can_monitor::format::format_frame;
use can_monitor::frame::{CanFrame, CanId};

#[test]
fn standard_frame_text() {
    let f = CanFrame::new_standard(0x170, &[0x41, 0x26]).unwrap();
    assert_eq!(format_frame(&f), b"std [ 170 ]: 41 26\r\n".to_vec());
}

#[test]
fn extended_frame_text_empty_payload() {
    let f = CanFrame::new_extended(0x1ABCDE, &[]).unwrap();
    assert_eq!(format_frame(&f), b"ext [ 001abcde ]:\r\n".to_vec());
}

#[test]
fn standard_id_is_zero_padded() {
    let f = CanFrame::new_standard(0x5, &[0x00, 0x0f, 0xff]).unwrap();
    assert_eq!(format_frame(&f), b"std [ 005 ]: 00 0f ff\r\n".to_vec());
}

#[test]
fn largest_ids_render_in_full() {
    let s = CanFrame::new_standard(0x7FF, &[]).unwrap();
    assert_eq!(format_frame(&s), b"std [ 7ff ]:\r\n".to_vec());
    let e = CanFrame::new_extended(0x1FFF_FFFF, &[0xab]).unwrap();
    assert_eq!(format_frame(&e), b"ext [ 1fffffff ]: ab\r\n".to_vec());
}

#[test]
fn fd_frame_renders_every_byte() {
    let data: Vec<u8> = (0..64u8).collect();
    let f = CanFrame::new_fd(CanId::Standard(0x123), &data, true).unwrap();
    let text = format_frame(&f);
    assert_eq!(text.len(), "std [ 123 ]:".len() + 3 * 64 + 2);
    assert!(text.starts_with(b"std [ 123 ]: 00 01 02"));
    assert!(text.ends_with(b" 3e 3f\r\n"));
}

#[test]
fn out_of_range_ids_are_refused() {
    assert!(CanFrame::new_standard(0x800, &[]).is_none());
    assert!(CanFrame::new_extended(0x2000_0000, &[]).is_none());
    assert_eq!(CanId::standard(0x7FF), Some(CanId::Standard(0x7FF)));
    assert_eq!(CanId::standard(0x800), None);
    assert_eq!(CanId::extended(0x1FFF_FFFF), Some(CanId::Extended(0x1FFF_FFFF)));
    assert_eq!(CanId::extended(0x2000_0000), None);
}

#[test]
fn payload_limits_depend_on_kind() {
    assert!(CanFrame::new_standard(1, &[0; 8]).is_some());
    assert!(CanFrame::new_standard(1, &[0; 9]).is_none());
    assert!(CanFrame::new_fd(CanId::Standard(1), &[0; 64], false).is_some());
    assert!(CanFrame::new_fd(CanId::Standard(1), &[0; 65], false).is_none());
    assert!(CanFrame::new(CanId::Standard(1), vec![1], false, true).is_none());
    let f = CanFrame::new(CanId::Extended(9), vec![1, 2], true, true).unwrap();
    assert_eq!(f.id(), CanId::Extended(9));
    assert_eq!(f.data(), &[1, 2]);
    assert!(f.is_fd());
    assert!(f.bit_rate_switching());
}

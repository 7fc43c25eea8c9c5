use can_monitor::bus::{bus_step, BusAction, BusEvent};
use can_monitor::format::format_frame;
use can_monitor::frame::CanFrame;
use can_monitor::queue::BoundedQueue;

#[test]
fn full_queue_refuses_then_accepts_one() {
    let mut q: BoundedQueue<u32> = BoundedQueue::new(2);
    assert_eq!(q.try_send(1), Ok(()));
    assert_eq!(q.try_send(2), Ok(()));
    assert!(q.is_full());
    assert_eq!(q.try_send(3), Err(3));
    assert_eq!(q.len(), 2);
    assert_eq!(q.try_receive(), Some(1));
    assert_eq!(q.try_send(3), Ok(()));
    assert_eq!(q.len(), 2);
    assert_eq!(q.try_receive(), Some(2));
    assert_eq!(q.try_receive(), Some(3));
    assert_eq!(q.try_receive(), None);
    assert!(q.is_empty());
    assert_eq!(q.capacity(), 2);
}

#[test]
fn frames_are_rendered_in_arrival_order() {
    let mut q: BoundedQueue<CanFrame> = BoundedQueue::new(8);
    for id in [0x100u16, 0x200, 0x300] {
        assert!(q.try_send(CanFrame::new_standard(id, &[(id >> 4) as u8]).unwrap()).is_ok());
    }
    let mut out = Vec::new();
    while let Some(f) = q.try_receive() {
        out.extend_from_slice(&format_frame(&f));
    }
    assert_eq!(out, b"std [ 100 ]: 10\r\nstd [ 200 ]: 20\r\nstd [ 300 ]: 30\r\n".to_vec());
}

#[test]
fn bus_step_routes_events() {
    let f = CanFrame::new_standard(0x10, &[1]).unwrap();
    match bus_step(BusEvent::Received(f)) {
        BusAction::Forward(g) => assert_eq!(g.data(), &[1]),
        _ => panic!("inbound frame not forwarded"),
    }
    assert!(matches!(bus_step(BusEvent::ReadFailed), BusAction::ReportAndContinue));
    let f = CanFrame::new_standard(0x20, &[2]).unwrap();
    match bus_step(BusEvent::Outbound(f)) {
        BusAction::Transmit(g) => assert_eq!(g.id(), can_monitor::frame::CanId::Standard(0x20)),
        _ => panic!("outbound frame not transmitted"),
    }
}

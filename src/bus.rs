//! The bus side's decisions. The bus task waits for whichever comes first,
//! a frame read from the transceiver (or a read failure) or a frame to send
//! from the outbound queue, and acts on it. A read failure is reported and
//! the task keeps reading; a failed write is not retried.
use vstd::prelude::*;
use crate::frame::CanFrame;

verus! {

/// What the bus task saw.
#[derive(Debug)]
pub enum BusEvent {
    /// A frame arrived from the bus.
    Received(CanFrame),
    /// Reading from the transceiver failed.
    ReadFailed,
    /// A frame is waiting in the outbound queue.
    Outbound(CanFrame),
}

/// What the bus task does next.
#[derive(Debug)]
pub enum BusAction {
    /// Push the frame to the inbound queue, waiting while it is full.
    Forward(CanFrame),
    /// Report the read failure, then keep reading.
    ReportAndContinue,
    /// Write the frame to the transceiver, whatever the outcome.
    Transmit(CanFrame),
}

/// The action for an event: inbound frames go to the console, outbound
/// frames go to the bus, and a read failure never stops the task.
pub fn bus_step(event: BusEvent) -> (r: BusAction)
    ensures
        event matches BusEvent::Received(f) ==> r matches BusAction::Forward(g) && g == f,
        event matches BusEvent::Outbound(f) ==> r matches BusAction::Transmit(g) && g == f,
        event is ReadFailed ==> r is ReportAndContinue,
{
    match event {
        BusEvent::Received(f) => BusAction::Forward(f),
        BusEvent::ReadFailed => BusAction::ReportAndContinue,
        BusEvent::Outbound(f) => BusAction::Transmit(f),
    }
}

} // verus!

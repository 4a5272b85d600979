//! Framed serial handshake over a UART link.
//!
//! One handshake attempt writes a fixed probe frame and then awaits a reply
//! for at most the configured timeout. The driver decides what to send and
//! what the observed outcome means; the runtime around it performs the
//! transfer and the bounded wait. Unlike the distance sensor, a missing
//! reply here is a failure, not a value: a handshake that gets no answer has
//! failed, while a poll that sees no echo has simply measured nothing.

use crate::handles::PeripheralHandle;
use vstd::prelude::*;

verus! {

/// The fixed outbound probe frame of one handshake attempt.
pub open spec fn probe_bytes() -> Seq<u8> {
    seq![65u8, 84u8]
}

/// The inbound acknowledgement pattern a well-behaved peer answers with.
pub open spec fn ack_bytes() -> Seq<u8> {
    seq![79u8, 75u8]
}

/// Why a handshake attempt failed.
#[derive(Clone, Copy, Debug, PartialEq, Eq, Structural)]
pub enum LinkError {
    /// No reply arrived within the configured timeout.
    Timeout,
    /// A reply arrived but did not match the acknowledgement pattern.
    FrameMismatch,
    /// The transfer itself faulted.
    TransferFault,
}

/// What the bounded wait for a reply observed.
pub enum LinkEvent {
    /// A whole reply frame arrived within the timeout.
    Reply(Vec<u8>),
    /// The timeout elapsed with no reply.
    NoReply,
    /// The transfer faulted before the timeout elapsed.
    Fault,
}

/// Driver for a framed serial handshake over UART with DMA transfers.
///
/// Owns the UART instance, both DMA channels and the interrupt binding
/// exclusively; taking them is a one-time, irreversible capability
/// transfer.
pub struct LinkDriver {
    uart: PeripheralHandle,
    tx_dma: PeripheralHandle,
    rx_dma: PeripheralHandle,
    irq: PeripheralHandle,
    timeout_ms: u64,
}

impl LinkDriver {
    /// The configured reply timeout, in milliseconds.
    pub closed spec fn timeout(&self) -> u64 {
        self.timeout_ms
    }

    /// Builds the driver by taking ownership of the UART instance, its two
    /// DMA channels and the interrupt binding. The reply timeout is fixed
    /// here, once, for the driver's lifetime.
    pub fn from_pins(
        uart: PeripheralHandle,
        tx_dma: PeripheralHandle,
        rx_dma: PeripheralHandle,
        irq: PeripheralHandle,
        timeout_ms: u64,
    ) -> (r: LinkDriver)
        ensures
            r.timeout() == timeout_ms,
    {
        LinkDriver { uart, tx_dma, rx_dma, irq, timeout_ms }
    }

    /// Starts one handshake attempt: returns the probe frame the caller
    /// must write out, after which the caller awaits a reply for at most
    /// the returned budget, in milliseconds — never longer.
    pub fn begin_ping(&self) -> (r: (Vec<u8>, u64))
        ensures
            r.0@ == probe_bytes(),
            r.1 == self.timeout(),
    {
        let mut frame: Vec<u8> = Vec::new();
        frame.push(65u8);
        frame.push(84u8);
        proof {
            assert(frame@ =~= probe_bytes());
        }
        (frame, self.timeout_ms)
    }

    /// Resolves one handshake attempt from what the bounded wait observed.
    /// A reply matching the acknowledgement pattern succeeds with exactly
    /// the payload the peer sent; any other reply is a frame mismatch; no
    /// reply within the timeout is a timeout failure; a faulted transfer is
    /// a transfer fault.
    pub fn resolve_ping(&self, event: LinkEvent) -> (r: Result<Vec<u8>, LinkError>)
        ensures
            event matches LinkEvent::Reply(reply) ==> {
                if reply@ == ack_bytes() {
                    r matches Ok(payload) && payload@ == reply@
                } else {
                    r == Err::<Vec<u8>, LinkError>(LinkError::FrameMismatch)
                }
            },
            event is NoReply ==> r == Err::<Vec<u8>, LinkError>(LinkError::Timeout),
            event is Fault ==> r == Err::<Vec<u8>, LinkError>(LinkError::TransferFault),
    {
        match event {
            LinkEvent::Reply(reply) => {
                if reply.len() == 2 && reply[0] == 79u8 && reply[1] == 75u8 {
                    proof {
                        assert(reply@ =~= ack_bytes());
                    }
                    Ok(reply)
                } else {
                    proof {
                        if reply@ == ack_bytes() {
                            assert(reply@.len() == 2);
                            assert(reply@[0] == 79u8 && reply@[1] == 75u8);
                        }
                    }
                    Err(LinkError::FrameMismatch)
                }
            },
            LinkEvent::NoReply => Err(LinkError::Timeout),
            LinkEvent::Fault => Err(LinkError::TransferFault),
        }
    }
}

} // verus!

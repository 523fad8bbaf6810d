//! Decisions of the receive and transmit datapaths.
//!
//! The loops that pop descriptor chains, translate guest addresses and
//! call into the TAP device run outside the library; they hand each
//! outcome in as a plain event and perform the returned action: add the
//! chain to the used ring, push it back, rearm an eventfd, or park the
//! TAP descriptor.  Every decision — including the per-packet filter call
//! — is made here.

use vstd::prelude::*;

verus! {

use crate::config::VirtioNetState;
use crate::filter::{spec_filter_packets, CtrlInfo};

/// Length of the virtio-net header that precedes each frame:
/// `flags u8 | gso_type u8 | hdr_len u16 | gso_size u16 | csum_start u16 |
/// csum_offset u16 | num_buffers u16`.
pub const NET_HDR_LENGTH: usize = 12;

/// Length of an Ethernet header.
pub const ETHERNET_HDR_LENGTH: usize = 14;

/// Outcome of one non-blocking read from the TAP device.
#[derive(Copy, Clone, Debug, PartialEq, Eq, Structural)]
pub enum ReadResult {
    /// `len` bytes were read into the chain.
    Delivered { len: u32 },
    /// Nothing to read right now.
    WouldBlock,
    /// The read failed for good (the TAP device is gone).
    Fatal,
}

/// Outcome of one write to the TAP device, after retrying interrupted
/// calls.
#[derive(Copy, Clone, Debug, PartialEq, Eq, Structural)]
pub enum WriteResult {
    /// The frame went out.
    Written,
    /// The TAP device cannot take the frame right now.
    WouldBlock,
    /// The write failed; the frame is dropped and processing goes on.
    Failed,
}

/// One observation of the receive loop.
#[derive(Debug)]
pub enum RxEvent {
    /// No TAP device is attached.
    NoTap,
    /// The available ring is empty.
    QueueEmpty,
    /// The pop returned an empty element.
    PopEmpty,
    /// The popped chain has no device-writable fragment.
    NoWritable,
    /// A chain was popped and a read was attempted; on success `header`
    /// holds the first bytes read back out of the chain (virtio-net
    /// header plus Ethernet header).
    Read { result: ReadResult, header: Vec<u8> },
}

/// What the receive loop must do after one observation.
#[derive(Copy, Clone, Debug, PartialEq, Eq, Structural)]
pub enum RxStep {
    /// Leave the loop.
    Stop,
    /// The guest ring is full: stop; the next TAP event parks the device.
    QueueFullStop,
    /// The chain is invalid: report the device broken.
    FailNoWritable,
    /// Push the chain back and stop; nothing was read.
    PushBackStop,
    /// Push the chain back, drain the dead TAP once, and stop.
    PushBackFatalStop,
    /// The filter dropped the frame: push the chain back and go on.
    Filtered,
    /// Add the chain to the used ring with `len`, raise the interrupt if
    /// the ring asks for it, and yield through the eventfd after
    /// `queue_size` delivered packets.
    Deliver { len: u32, yield_after: bool },
}

/// Per-invocation state of one receive loop.
#[derive(Copy, Clone, Debug, PartialEq, Eq, Structural)]
pub struct RxLoop {
    /// Size of the receive queue; also the per-invocation packet budget.
    pub queue_size: u16,
    /// Packets delivered in this invocation.
    pub rx_packets: u16,
    /// The available ring was found empty; the next TAP event parks the
    /// TAP descriptor.
    pub queue_full: bool,
    /// Whether the TAP descriptor is being watched.
    pub is_listening: bool,
}

/// The receive-loop state and step for one observation.
pub open spec fn spec_rx_step(s: RxLoop, ctrl: CtrlInfo, st: VirtioNetState, ev: RxEvent) -> (
    RxLoop,
    RxStep,
) {
    match ev {
        RxEvent::NoTap => (s, RxStep::Stop),
        RxEvent::QueueEmpty => (RxLoop { queue_full: true, ..s }, RxStep::QueueFullStop),
        RxEvent::PopEmpty => (s, RxStep::Stop),
        RxEvent::NoWritable => (s, RxStep::FailNoWritable),
        RxEvent::Read { result, header } => match result {
            ReadResult::WouldBlock => (s, RxStep::PushBackStop),
            ReadResult::Fatal => (s, RxStep::PushBackFatalStop),
            ReadResult::Delivered { len } => {
                if spec_filter_packets(
                    ctrl,
                    st.config_space.mac@,
                    header@.subrange(NET_HDR_LENGTH as int, header@.len() as int),
                ) {
                    (s, RxStep::Filtered)
                } else {
                    (
                        RxLoop { rx_packets: (s.rx_packets + 1) as u16, ..s },
                        RxStep::Deliver { len, yield_after: s.rx_packets + 1 >= s.queue_size },
                    )
                }
            },
        },
    }
}

impl RxLoop {
    /// A fresh receive loop for a queue of `queue_size` entries.
    pub fn new(queue_size: u16) -> (r: Self)
        ensures
            r == (RxLoop { queue_size, rx_packets: 0, queue_full: false, is_listening: true }),
    {
        RxLoop { queue_size, rx_packets: 0, queue_full: false, is_listening: true }
    }

    /// Starts one invocation of the receive loop: the packet budget is
    /// per invocation.
    pub fn begin(&mut self)
        ensures
            *final(self) == (RxLoop { rx_packets: 0, ..*old(self) }),
    {
        self.rx_packets = 0;
    }

    /// Decides one step of the receive loop.  A delivered frame must
    /// carry the virtio-net header, the Ethernet header, and — when the
    /// frame is 802.1Q-tagged — the two VLAN-id bytes, so that the
    /// filter can read them.
    pub fn step(&mut self, ctrl: &CtrlInfo, state: &VirtioNetState, ev: &RxEvent) -> (r: RxStep)
        requires
            ev matches RxEvent::Read { result: ReadResult::Delivered { .. }, header } ==> {
                &&& header@.len() >= NET_HDR_LENGTH + ETHERNET_HDR_LENGTH
                &&& (header@[NET_HDR_LENGTH as int + 12] == 0x81 && header@[NET_HDR_LENGTH as int
                    + 13] == 0x00) ==> header@.len() >= NET_HDR_LENGTH + 16
                &&& old(self).rx_packets < old(self).queue_size
            },
        ensures
            (*final(self), r) == spec_rx_step(*old(self), *ctrl, *state, *ev),
    {
        match ev {
            RxEvent::NoTap => RxStep::Stop,
            RxEvent::QueueEmpty => {
                self.queue_full = true;
                RxStep::QueueFullStop
            },
            RxEvent::PopEmpty => RxStep::Stop,
            RxEvent::NoWritable => RxStep::FailNoWritable,
            RxEvent::Read { result, header } => match result {
                ReadResult::WouldBlock => RxStep::PushBackStop,
                ReadResult::Fatal => RxStep::PushBackFatalStop,
                ReadResult::Delivered { len } => {
                    let eth = vstd::slice::slice_subrange(
                        header.as_slice(),
                        NET_HDR_LENGTH,
                        header.len(),
                    );
                    if ctrl.filter_packets(state, eth) {
                        RxStep::Filtered
                    } else {
                        self.rx_packets = self.rx_packets + 1;
                        RxStep::Deliver { len: *len, yield_after: self.rx_packets >= self.queue_size }
                    }
                },
            },
        }
    }

    /// On a receive-queue event with a TAP attached and parked, resume
    /// watching it; says whether the resume notifier must be emitted.
    pub fn resume_tap(&mut self, have_tap: bool) -> (r: bool)
        ensures
            r == (have_tap && !old(self).is_listening),
            r ==> *final(self) == (RxLoop { is_listening: true, ..*old(self) }),
            !r ==> *final(self) == *old(self),
    {
        if have_tap && !self.is_listening {
            self.is_listening = true;
            true
        } else {
            false
        }
    }

    /// After a TAP event was handled: when the guest ring had filled,
    /// park the TAP descriptor; says whether the park notifier must be
    /// emitted.  Never busy-loop on a full ring.
    pub fn park_tap(&mut self) -> (r: bool)
        ensures
            r == old(self).queue_full,
            r ==> *final(self) == (RxLoop {
                is_listening: false,
                queue_full: false,
                ..*old(self)
            }),
            !r ==> *final(self) == *old(self),
    {
        if self.queue_full {
            self.is_listening = false;
            self.queue_full = false;
            true
        } else {
            false
        }
    }
}

/// One observation of the transmit loop.
#[derive(Copy, Clone, Debug, PartialEq, Eq, Structural)]
pub enum TxEvent {
    /// The pop returned an empty element.
    PopEmpty,
    /// The popped chain has no device-readable fragment.
    NoReadable,
    /// A chain was popped; `have_tap` says whether a TAP is attached,
    /// `write` is the outcome of sending the frame (ignored without a
    /// TAP).
    Frame { have_tap: bool, write: WriteResult },
}

/// What the transmit loop must do after one observation.
#[derive(Copy, Clone, Debug, PartialEq, Eq, Structural)]
pub enum TxStep {
    /// Leave the loop.
    Stop,
    /// The chain is invalid: report the device broken.
    FailNoReadable,
    /// Push the chain back, rearm the transmit eventfd and return:
    /// backpressure towards the guest.
    PushBackYieldStop,
    /// Add the chain to the used ring with length 0, raise the interrupt
    /// if the ring asks for it, and yield through the eventfd after
    /// `queue_size` packets.
    Deliver { yield_after: bool },
}

/// Per-invocation state of one transmit loop.
#[derive(Copy, Clone, Debug, PartialEq, Eq, Structural)]
pub struct TxLoop {
    /// Size of the transmit queue; also the per-invocation packet budget.
    pub queue_size: u16,
    /// Packets handled in this invocation.
    pub tx_packets: u16,
}

/// The transmit-loop state and step for one observation.
pub open spec fn spec_tx_step(s: TxLoop, ev: TxEvent) -> (TxLoop, TxStep) {
    match ev {
        TxEvent::PopEmpty => (s, TxStep::Stop),
        TxEvent::NoReadable => (s, TxStep::FailNoReadable),
        TxEvent::Frame { have_tap, write } => {
            if have_tap && write == WriteResult::WouldBlock {
                (s, TxStep::PushBackYieldStop)
            } else {
                (
                    TxLoop { tx_packets: (s.tx_packets + 1) as u16, ..s },
                    TxStep::Deliver { yield_after: s.tx_packets + 1 >= s.queue_size },
                )
            }
        },
    }
}

impl TxLoop {
    /// A fresh transmit loop for a queue of `queue_size` entries.
    pub fn new(queue_size: u16) -> (r: Self)
        ensures
            r == (TxLoop { queue_size, tx_packets: 0 }),
    {
        TxLoop { queue_size, tx_packets: 0 }
    }

    /// Starts one invocation of the transmit loop.
    pub fn begin(&mut self)
        ensures
            *final(self) == (TxLoop { tx_packets: 0, ..*old(self) }),
    {
        self.tx_packets = 0;
    }

    /// Decides one step of the transmit loop.  A dropped write (`Failed`)
    /// still consumes the chain with length 0, as does a missing TAP.
    pub fn step(&mut self, ev: &TxEvent) -> (r: TxStep)
        requires
            ev matches TxEvent::Frame { .. } ==> old(self).tx_packets < old(self).queue_size,
        ensures
            (*final(self), r) == spec_tx_step(*old(self), *ev),
    {
        match ev {
            TxEvent::PopEmpty => TxStep::Stop,
            TxEvent::NoReadable => TxStep::FailNoReadable,
            TxEvent::Frame { have_tap, write } => {
                if *have_tap && *write == WriteResult::WouldBlock {
                    TxStep::PushBackYieldStop
                } else {
                    self.tx_packets = self.tx_packets + 1;
                    TxStep::Deliver { yield_after: self.tx_packets >= self.queue_size }
                }
            },
        }
    }
}

/// Validates the shape of a popped control chain: the device-writable
/// side must hold the one-byte ack, the device-readable side at least
/// the two-byte header.
pub fn ctrl_chain_valid(in_size: u64, out_size: u64) -> (r: bool)
    ensures
        r == (in_size >= 1 && out_size >= 2),
{
    in_size >= 1 && out_size >= 2
}

/// Every chain popped from the receive queue is consumed in exactly one
/// way: delivered to the used ring once, pushed back (on backpressure, a
/// dead TAP, or a filtered frame), or abandoned only when the handler
/// reports the device broken.
pub proof fn lemma_rx_chain_disposition(s: RxLoop, ctrl: CtrlInfo, st: VirtioNetState, ev: RxEvent)
    requires
        ev matches RxEvent::NoWritable || ev matches RxEvent::Read { .. },
    ensures
        ({
            let (_, step) = spec_rx_step(s, ctrl, st, ev);
            ||| step matches RxStep::Deliver { .. }
            ||| step == RxStep::PushBackStop
            ||| step == RxStep::PushBackFatalStop
            ||| step == RxStep::Filtered
            ||| step == RxStep::FailNoWritable
        }),
{
}

/// Every chain popped from the transmit queue is consumed in exactly one
/// way: added to the used ring once (length 0), pushed back on
/// backpressure, or abandoned only when the handler reports the device
/// broken.
pub proof fn lemma_tx_chain_disposition(s: TxLoop, ev: TxEvent)
    requires
        ev matches TxEvent::NoReadable || ev matches TxEvent::Frame { .. },
    ensures
        ({
            let (_, step) = spec_tx_step(s, ev);
            ||| step matches TxStep::Deliver { .. }
            ||| step == TxStep::PushBackYieldStop
            ||| step == TxStep::FailNoReadable
        }),
{
}

} // verus!

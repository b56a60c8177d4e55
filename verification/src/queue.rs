//! Handles to the bounded outbound queues, and the receipt of an offer.
//!
//! A frame reaches a queue only through [`try_enqueue`], and only
//! [`try_enqueue`] makes a [`Receipt`]: whoever holds a receipt knows that
//! the frame it names was offered to the queue it names.

use vstd::prelude::*;
use tokio::sync::mpsc::Sender;
use crate::protocol::{OutboundFrame, OutboundFrameView};

verus! {

/// `tokio::sync::mpsc::Sender`, carried as an opaque value.
#[verifier::external_type_specification]
#[verifier::external_body]
#[verifier::reject_recursive_types(T)]
pub struct ExSender<T>(tokio::sync::mpsc::Sender<T>);

/// The queue that a handle leads to.
pub uninterp spec fn queue_of(tx: Sender<OutboundFrame>) -> nat;

/// Calls `Sender::clone`, which makes another handle to the same queue.
///
/// Trusted: the new handle leads to the queue of the old one.
#[verifier::external_body]
pub(crate) fn clone_handle(tx: &Sender<OutboundFrame>) -> (r: Sender<OutboundFrame>)
    ensures
        queue_of(r) == queue_of(*tx),
{
    tx.clone()
}

/// The record of one offer of a frame to a queue.
#[derive(Clone, Copy)]
pub struct Receipt {
    /// Whether the queue took the frame. A queue that is full or closed
    /// does not, and the frame is dropped.
    pub taken: bool,
    queue: Ghost<nat>,
    offered: Ghost<OutboundFrameView>,
}

impl Receipt {
    /// The queue that the frame was offered to.
    pub closed spec fn queue(self) -> nat {
        self.queue@
    }

    /// The frame that was offered.
    pub closed spec fn offered(self) -> OutboundFrameView {
        self.offered@
    }
}

/// Calls `Sender::try_send`, which puts the frame into the bounded queue
/// without waiting, and notes whether the queue took it.
///
/// Trusted: the receipt names the queue of the handle and the frame that
/// was handed over. Nothing is claimed of `taken`: whether the queue is
/// full or closed is not a matter of the arguments.
#[verifier::external_body]
pub(crate) fn try_enqueue(tx: &Sender<OutboundFrame>, frame: OutboundFrame) -> (receipt: Receipt)
    ensures
        receipt.queue() == queue_of(*tx),
        receipt.offered() == frame@,
{
    Receipt {
        queue: Ghost(queue_of(*tx)),
        offered: Ghost(frame@),
        taken: tx.try_send(frame).is_ok(),
    }
}

} // verus!

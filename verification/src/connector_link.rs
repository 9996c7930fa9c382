//! The handler's end of the transport: the channel on which requests go to the
//! serial worker, the channel on which its replies come back, and a record of
//! what was asked of it and how each exchange ended.

use std::sync::mpsc::{Receiver, RecvError, SyncSender};
use vstd::prelude::*;

verus! {

/// What the worker is asked to put on the serial line, and how long it is to
/// wait for the projector afterwards, in milliseconds.
#[derive(Debug, Clone, PartialEq, Eq)]
pub struct PjLinkRS232MessageRequest {
    pub message: Vec<u8>,
    pub timeout: u32,
    pub stop_processing: bool,
}

/// What the worker found on the serial line after the wait.
#[derive(Debug, Clone, PartialEq, Eq)]
pub struct PjLinkRS232MessageResponse {
    pub response: Vec<u8>,
    pub elapsed_time: u32,
}

/// A request as contracts speak of it.
pub struct MessageRequestView {
    pub message: Seq<u8>,
    pub timeout: u32,
    pub stop_processing: bool,
}

impl View for PjLinkRS232MessageRequest {
    type V = MessageRequestView;

    open spec fn view(&self) -> MessageRequestView {
        MessageRequestView {
            message: self.message@,
            timeout: self.timeout,
            stop_processing: self.stop_processing,
        }
    }
}

/// The request that asks for `message` to be sent and `timeout` to be waited.
pub open spec fn exchange_request(message: Seq<u8>, timeout: u32) -> MessageRequestView {
    MessageRequestView { message, timeout, stop_processing: false }
}

/// The sending half of a rendezvous or bounded channel of the standard
/// library. Nothing is known of what is inside.
#[verifier::external_type_specification]
#[verifier::external_body]
#[verifier::reject_recursive_types(T)]
pub struct ExSyncSender<T>(SyncSender<T>);

/// The receiving half of a channel of the standard library. Nothing is known
/// of what is inside.
#[verifier::external_type_specification]
#[verifier::external_body]
#[verifier::reject_recursive_types(T)]
pub struct ExReceiver<T>(Receiver<T>);

/// The standard library's error for a receive on a channel whose senders are
/// all gone.
#[verifier::external_type_specification]
#[verifier::external_body]
pub struct ExRecvError(RecvError);

/// `SyncSender::send`: hands `request` to the worker and waits until there is
/// room for it. The result tells whether the worker's end still exists;
/// nothing is claimed of it.
#[verifier::external_body]
fn channel_send(
    tx: &SyncSender<PjLinkRS232MessageRequest>,
    request: PjLinkRS232MessageRequest,
) -> (delivered: bool) {
    tx.send(request).is_ok()
}

/// `Receiver::recv`: waits for the next reply of the worker. It fails when
/// the worker's end is gone and nothing is left to read; nothing is claimed
/// of which reply comes.
#[verifier::external_body]
fn channel_recv(rx: &Receiver<PjLinkRS232MessageResponse>) -> (reply: Result<
    PjLinkRS232MessageResponse,
    RecvError,
>) {
    rx.recv()
}

/// The handler's end of the transport.
pub struct ConnectorLink {
    tx: SyncSender<PjLinkRS232MessageRequest>,
    rx: Receiver<PjLinkRS232MessageResponse>,
    issued: Ghost<Seq<MessageRequestView>>,
    outcomes: Ghost<Seq<Result<PjLinkRS232MessageResponse, RecvError>>>,
}

impl ConnectorLink {
    /// Every request handed to the worker through this link, oldest first.
    pub closed spec fn issued(&self) -> Seq<MessageRequestView> {
        self.issued@
    }

    /// How every exchange over this link ended, oldest first: with the
    /// worker's reply, or without one.
    pub closed spec fn outcomes(&self) -> Seq<Result<PjLinkRS232MessageResponse, RecvError>> {
        self.outcomes@
    }

    /// A link over the two channel ends, with nothing asked yet.
    pub fn new(
        tx: SyncSender<PjLinkRS232MessageRequest>,
        rx: Receiver<PjLinkRS232MessageResponse>,
    ) -> (link: Self)
        ensures
            link.issued() == Seq::<MessageRequestView>::empty(),
            link.outcomes() == Seq::<Result<PjLinkRS232MessageResponse, RecvError>>::empty(),
    {
        ConnectorLink { tx, rx, issued: Ghost(Seq::empty()), outcomes: Ghost(Seq::empty()) }
    }

    /// One exchange: asks the worker to send `message` and to wait `timeout`
    /// milliseconds, then waits for its reply. A request that the worker did
    /// not take is not reported here: the missing reply is. The request and
    /// the outcome go on record.
    pub fn send_and_receive_message(
        &mut self,
        message: Vec<u8>,
        timeout: u32,
        _connection_id: &u64,
    ) -> (reply: Result<PjLinkRS232MessageResponse, RecvError>)
        ensures
            final(self).issued() == old(self).issued().push(exchange_request(message@, timeout)),
            final(self).outcomes() == old(self).outcomes().push(reply),
    {
        let request = PjLinkRS232MessageRequest { message, timeout, stop_processing: false };
        proof {
            self.issued@ = self.issued@.push(request@);
        }
        let _delivered = channel_send(&self.tx, request);
        let reply = channel_recv(&self.rx);
        proof {
            self.outcomes@ = self.outcomes@.push(reply);
        }
        reply
    }
}

} // verus!

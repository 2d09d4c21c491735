//! The channel boundary: the synchronous query bridge that callers use
//! to pull a snapshot, and the aggregator's side of answering one.
//!
//! Everything that crosses a channel is opaque to verification — what a
//! receive returns depends on other execution contexts — so the raw
//! send and receive stand behind trusted wrappers that promise nothing
//! of the values, and every decision around them is verified.

use vstd::prelude::*;

use crate::snapshot::Snapshot;

verus! {

/// crossbeam_channel::Sender, declared so the library can hold and pass
/// channel endpoints; its value is opaque to verification.
#[verifier::external_type_specification]
#[verifier::external_body]
#[verifier::reject_recursive_types(T)]
pub struct ExSender<T>(crossbeam_channel::Sender<T>);

/// crossbeam_channel::Receiver, declared for the same reason.
#[verifier::external_type_specification]
#[verifier::external_body]
#[verifier::reject_recursive_types(T)]
pub struct ExReceiver<T>(crossbeam_channel::Receiver<T>);

/// crossbeam_channel::SendError, the error of a failed send; it carries
/// the undelivered message back.
#[verifier::external_type_specification]
#[verifier::external_body]
#[verifier::reject_recursive_types(T)]
pub struct ExSendError<T>(crossbeam_channel::SendError<T>);

/// crossbeam_channel::RecvError, the error of a receive on a channel
/// that is empty with every sender dropped.
#[verifier::external_type_specification]
#[verifier::external_body]
pub struct ExRecvError(crossbeam_channel::RecvError);

/// Relies on crossbeam_channel::Sender::send: on an unbounded channel
/// it never blocks; it returns Err exactly when every receiver of the
/// channel has been dropped. Whether that is so depends on other
/// execution contexts, so nothing is promised of the outcome.
#[verifier::external_body]
fn channel_send<T>(s: &crossbeam_channel::Sender<T>, msg: T) -> Result<
    (),
    crossbeam_channel::SendError<T>,
> {
    s.send(msg)
}

/// Relies on crossbeam_channel::Receiver::recv: blocks until a message
/// arrives and returns it, or returns Err once the channel is empty and
/// every sender has been dropped. What arrives depends on other
/// execution contexts, so nothing is promised of the outcome.
#[verifier::external_body]
fn channel_recv<T>(r: &crossbeam_channel::Receiver<T>) -> Result<T, crossbeam_channel::RecvError> {
    r.recv()
}

/// The query bridge's single error category. Both underlying failures —
/// the trigger could not be delivered, or no response arrived — are
/// reported as this one kind at the boundary.
#[derive(Clone, Copy, Debug, PartialEq, Eq, Structural)]
pub enum QueryError {
    Communication,
}

/// The caller-side ends of the query exchange: the trigger sender and
/// the response receiver. One value per group of callers; the
/// aggregator owns the opposite ends.
pub struct CollectorChannel {
    pub sender: crossbeam_channel::Sender<()>,
    pub receiver: crossbeam_channel::Receiver<(u64, u64)>,
}

impl CollectorChannel {
    /// Builds a bridge from the two caller-side channel ends. (Wiring
    /// the channels and spawning the aggregator and producer loops is
    /// the embedding program's job; the bridge only owns its ends.)
    pub fn new(
        sender: crossbeam_channel::Sender<()>,
        receiver: crossbeam_channel::Receiver<(u64, u64)>,
    ) -> (r: CollectorChannel)
        ensures
            r.sender == sender,
            r.receiver == receiver,
    {
        CollectorChannel { sender, receiver }
    }

    /// Sends a payload-free trigger to the aggregator, then blocks for
    /// exactly one snapshot response. The snapshot returned carries
    /// exactly the pair the aggregator answered with; every failure —
    /// trigger undeliverable or no response — is the one communication
    /// error. There is no timeout: a caller blocks for as long as the
    /// aggregator takes.
    pub fn get_current_value(&self) -> (r: Result<Snapshot, QueryError>)
        ensures
            r matches Err(e) ==> e == QueryError::Communication,
    {
        match channel_send(&self.sender, ()) {
            Err(_) => Err(QueryError::Communication),
            Ok(()) => match channel_recv(&self.receiver) {
                Err(_) => Err(QueryError::Communication),
                Ok(pair) => Ok(Snapshot::from_pair(pair)),
            },
        }
    }
}

/// Answers one query: sends the snapshot's pair on the response
/// channel. A failed send means the caller abandoned the request; it is
/// reported as `false`, never a panic, and never treated as fatal, so
/// one abandoned caller cannot take the aggregator down for the others.
pub fn answer_query(
    responder: &crossbeam_channel::Sender<(u64, u64)>,
    snap: Snapshot,
) -> (delivered: bool) {
    match channel_send(responder, (snap.value_a, snap.value_b)) {
        Ok(()) => true,
        Err(_) => false,
    }
}

} // verus!

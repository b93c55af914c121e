//! Queues between the interface and the background worker.

use vstd::prelude::*;

verus! {

/// The sending half of a channel of the `crossbeam-channel` crate. Carried
/// through unopened.
#[verifier::external_type_specification]
#[verifier::external_body]
#[verifier::reject_recursive_types(T)]
pub struct ExSender<T>(crossbeam_channel::Sender<T>);

/// `crossbeam_channel::Sender::try_send`: hands `message` to the channel at
/// once or not at all, without waiting. It fails, with the crate's words for
/// it, where every receiver is gone, and where a channel with a bound is
/// full; a channel without a bound is never full. Whether it succeeds
/// depends on the other side, so nothing is claimed of the outcome.
#[verifier::external_body]
pub(crate) fn send_message<T>(sender: &crossbeam_channel::Sender<T>, message: T) -> (r: Result<
    (),
    String,
>) {
    sender.try_send(message).map_err(|e| e.to_string())
}

} // verus!

//! The token that asks a running dispatcher to stop.

use vstd::prelude::*;
use crate::types::VkError;

verus! {

/// The outside sending half of an unbounded channel.
#[verifier::external_type_specification]
#[verifier::external_body]
#[verifier::reject_recursive_types(T)]
pub struct ExUnboundedSender<T>(tokio::sync::mpsc::UnboundedSender<T>);

/// `Clone` for `UnboundedSender`: the copy is another handle on the same
/// channel; nothing about it is stated.
pub assume_specification<T>[ <tokio::sync::mpsc::UnboundedSender<T> as Clone>::clone ](
    s: &tokio::sync::mpsc::UnboundedSender<T>,
) -> tokio::sync::mpsc::UnboundedSender<T>;

/// `UnboundedSender::send`: whether it succeeds depends on whether the
/// receiving half is still open, so the contract states nothing of the
/// outcome.
#[verifier::external_body]
fn send_signal(
    tx: &tokio::sync::mpsc::UnboundedSender<()>,
) -> Result<(), tokio::sync::mpsc::error::SendError<()>> {
    tx.send(())
}

/// A handle that asks the dispatcher it was made for to stop.
#[derive(Clone)]
pub struct ShutdownToken {
    tx: tokio::sync::mpsc::UnboundedSender<()>,
}

impl ShutdownToken {
    /// A token that signals on `tx`.
    pub fn new(tx: tokio::sync::mpsc::UnboundedSender<()>) -> (t: Self)
        ensures
            t.sender() == tx,
    {
        ShutdownToken { tx }
    }

    /// The channel this token signals on.
    pub closed spec fn sender(&self) -> tokio::sync::mpsc::UnboundedSender<()> {
        self.tx
    }

    /// Asks the dispatcher to stop; fails with [`VkError::Send`] when the
    /// dispatcher is gone.
    pub fn shutdown(self) -> (r: Result<(), VkError>)
        ensures
            r matches Err(e) ==> e is Send,
    {
        match send_signal(&self.tx) {
            Ok(()) => Ok(()),
            Err(e) => Err(VkError::Send(e)),
        }
    }
}

} // verus!

//! The channel over which those who wait for a setup learn its status.

use super::protocol::ThreadSetupStatus;
use super::protocol::ThreadSetupStatusView;
use vstd::prelude::*;

verus! {

/// The sending half of a `tokio` watch channel.
#[verifier::external_type_specification]
#[verifier::external_body]
#[verifier::reject_recursive_types(T)]
pub struct ExWatchSender<T>(tokio::sync::watch::Sender<T>);

/// The receiving half of a `tokio` watch channel.
#[verifier::external_type_specification]
#[verifier::external_body]
#[verifier::reject_recursive_types(T)]
pub struct ExWatchReceiver<T>(tokio::sync::watch::Receiver<T>);

/// The status that a channel holds, as a sequence of one.
pub uninterp spec fn channel_value(
    sender: tokio::sync::watch::Sender<ThreadSetupStatus>,
) -> Seq<ThreadSetupStatusView>;

/// Calls `tokio::sync::watch::channel`. The channel holds the initial status, and this is its
/// only sender.
#[verifier::external_body]
pub(crate) fn open_channel(initial: ThreadSetupStatus) -> (sender: tokio::sync::watch::Sender<
    ThreadSetupStatus,
>)
    ensures
        channel_value(sender) == seq![initial@],
{
    tokio::sync::watch::channel(initial).0
}

/// The receiver reads what the sender's channel holds: both are halves of one channel.
pub uninterp spec fn joined_to(
    receiver: tokio::sync::watch::Receiver<ThreadSetupStatus>,
    sender: tokio::sync::watch::Sender<ThreadSetupStatus>,
) -> bool;

/// Calls `Sender::send_replace` of a `tokio` watch channel. The channel holds the new status in
/// place of the old one, and stays the same channel: whoever was joined to it still is. The sender
/// is borrowed mutably and never cloned, so nobody else can change what the channel holds. The
/// call waits while a reader holds a borrow of the old status. That the receivers are woken is not
/// stated.
#[verifier::external_body]
pub(crate) fn publish(
    sender: &mut tokio::sync::watch::Sender<ThreadSetupStatus>,
    status: ThreadSetupStatus,
)
    ensures
        channel_value(*final(sender)) == seq![status@],
        forall|receiver: tokio::sync::watch::Receiver<ThreadSetupStatus>| #[trigger]
            joined_to(receiver, *final(sender)) == joined_to(receiver, *old(sender)),
{
    sender.send_replace(status);
}

/// The status that was current when a receiver subscribed, as a sequence of one.
pub uninterp spec fn subscribed_to(
    receiver: tokio::sync::watch::Receiver<ThreadSetupStatus>,
) -> Seq<ThreadSetupStatusView>;

/// Calls `Sender::subscribe` of a `tokio` watch channel. The receiver is joined to the sender's
/// channel, and starts from the status that the channel holds.
#[verifier::external_body]
pub(crate) fn join_channel(sender: &tokio::sync::watch::Sender<ThreadSetupStatus>) -> (receiver:
    tokio::sync::watch::Receiver<ThreadSetupStatus>)
    ensures
        joined_to(receiver, *sender),
        subscribed_to(receiver) == channel_value(*sender),
{
    sender.subscribe()
}

/// Calls `Receiver::borrow` of a `tokio` watch channel, and copies the status out. It is the
/// status that the channel holds: where the sender is at hand and the receiver is joined to it,
/// the one that the sender's channel holds. Of a receiver whose sender is gone nothing is stated.
#[verifier::external_body]
pub(crate) fn latest(
    receiver: &tokio::sync::watch::Receiver<ThreadSetupStatus>,
    sender: Option<&tokio::sync::watch::Sender<ThreadSetupStatus>>,
) -> (status: ThreadSetupStatus)
    ensures
        sender matches Some(held) ==> joined_to(*receiver, *held) ==> channel_value(*held)
            == seq![status@],
{
    let _ = sender;
    receiver.borrow().clone()
}

} // verus!

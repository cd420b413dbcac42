//! The channel from the installing thread to the installer's tick loop.
//! The record of what was sent is kept here, where only the sending
//! function changes it.
use vstd::prelude::*;
use crate::install_ui::InstallerUpdate;

verus! {

#[verifier::external_type_specification]
#[verifier::external_body]
#[verifier::reject_recursive_types(T)]
pub struct ExSender<T>(std::sync::mpsc::Sender<T>);

/// Sends `update` through the scheduler's channel (`Sender::send`). A send
/// that succeeds has put `update` on the channel, which the ghost log of
/// sent updates records; a failed send (the receiving side is gone) hands
/// the update back, as `std` documents, and records nothing. Whether the
/// send succeeds depends on that other side and is not stated.
#[verifier::external_body]
pub(crate) fn send_update(scheduler: &mut CustomGtkScheduler, update: InstallerUpdate) -> (r: Result<
    (),
    InstallerUpdate,
>)
    ensures
        final(scheduler).sender() == old(scheduler).sender(),
        r is Ok ==> final(scheduler).sent() == old(scheduler).sent().push(update),
        r matches Err(u) ==> u == update && final(scheduler).sent() == old(scheduler).sent(),
{
    scheduler.handle.send(update).map_err(|e| e.0)
}

/// Copies the sending end of the channel (`Sender::clone`); nothing is
/// stated about the copy, which is opaque here.
#[verifier::external_body]
fn clone_sender(handle: &std::sync::mpsc::Sender<InstallerUpdate>) -> std::sync::mpsc::Sender<
    InstallerUpdate,
> {
    handle.clone()
}

/// Hands updates from other threads to the installer's tick loop.
pub struct CustomGtkScheduler {
    handle: std::sync::mpsc::Sender<InstallerUpdate>,
    sent: Ghost<Seq<InstallerUpdate>>,
}

impl Clone for CustomGtkScheduler {
    /// A scheduler on a copy of the same channel, with the same record of
    /// sent updates.
    fn clone(&self) -> (r: Self)
        ensures
            r.sent() == self.sent(),
    {
        CustomGtkScheduler { handle: clone_sender(&self.handle), sent: Ghost(self.sent@) }
    }
}

impl CustomGtkScheduler {
    /// A scheduler sending on `handle`, that has sent nothing yet.
    pub fn new(handle: std::sync::mpsc::Sender<InstallerUpdate>) -> (r: Self)
        ensures
            r.sender() == handle,
            r.sent() == Seq::<InstallerUpdate>::empty(),
    {
        CustomGtkScheduler { handle, sent: Ghost(Seq::empty()) }
    }

    /// The sending end of the channel.
    pub closed spec fn sender(&self) -> std::sync::mpsc::Sender<InstallerUpdate> {
        self.handle
    }

    /// The updates this scheduler has put on its channel, oldest first.
    pub closed spec fn sent(&self) -> Seq<InstallerUpdate> {
        self.sent@
    }
}

} // verus!

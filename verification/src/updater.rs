//! The owner of the update service.
use crate::model::{Pending, Session};
use crate::session::Step;
use vstd::prelude::*;

verus! {

/// Keeps the update service for the sessions that are run with it. Between
/// sessions it holds nothing else.
pub struct FirmwareUpdater<T> {
    service: T,
}

impl<T> FirmwareUpdater<T> {
    /// The update service that the updater keeps.
    pub closed spec fn service(&self) -> T {
        self.service
    }

    /// Create a new instance of the updater with the provided service instance.
    pub fn new(service: T) -> (updater: Self)
        ensures
            updater.service() == service,
    {
        Self { service }
    }

    /// The update service, to send it a status report.
    pub fn service_mut(&mut self) -> (service: &mut T)
        ensures
            *service == old(self).service(),
            final(self).service() == *final(service),
    {
        &mut self.service
    }

    /// Gives the update service back.
    pub fn into_service(self) -> (service: T)
        ensures
            service == self.service(),
    {
        self.service
    }

    /// Starts a session for a device that takes chunks of at most `mtu`
    /// bytes. The session begins by asking the device for its status.
    pub fn start<D, S>(&self, mtu: u32) -> (step: Step<D, S>)
        ensures
            step@ == Session::<D, S>::Active(Pending::Status { mtu }),
    {
        Step::begin(mtu)
    }
}

} // verus!

use vstd::prelude::*;

use crate::error::Error;
use crate::registry::{lookup, resolves, Handle, HandleRegistry};

verus! {

/// Device-scoped GPU ordering object: its native handle and its parent device.
pub struct Semaphore {
    handle: u64,
    parent_device: Handle,
}

impl Semaphore {
    pub closed spec fn spec_handle(&self) -> u64 {
        self.handle
    }

    pub closed spec fn spec_parent_device(&self) -> Handle {
        self.parent_device
    }

    /// The semaphore created as `handle` on the device `parent_device`; fails with
    /// `"device not found"` when that device no longer resolves in `devices`.
    pub fn new<D>(devices: &HandleRegistry<D>, parent_device: Handle, handle: u64) -> (r: Result<Self, Error>)
        ensures
            match r {
                Ok(s) => resolves(devices@, parent_device) && s.spec_handle() == handle
                    && s.spec_parent_device() == parent_device,
                Err(Error::Other { message, source }) => !resolves(devices@, parent_device)
                    && message@ == "device not found"@ && source is None,
                Err(Error::Graphics { .. }) => false,
            },
    {
        if !devices.contains(parent_device) {
            return Err(Error::other("device not found"));
        }
        Ok(Semaphore { handle, parent_device })
    }

    pub fn handle(&self) -> (r: u64)
        ensures
            r == self.spec_handle(),
    {
        self.handle
    }

    pub fn parent_device(&self) -> (r: Handle)
        ensures
            r == self.spec_parent_device(),
    {
        self.parent_device
    }

    /// The device through which to destroy this semaphore; `None` when that device no
    /// longer resolves, in which case destruction is skipped.
    pub fn destroy_target<'a, D>(&self, devices: &'a HandleRegistry<D>) -> (r: Option<&'a D>)
        ensures
            match r {
                Some(d) => lookup(devices@, self.spec_parent_device()) == Some(*d),
                None => lookup(devices@, self.spec_parent_device()) is None,
            },
    {
        devices.get(self.parent_device)
    }
}

} // verus!

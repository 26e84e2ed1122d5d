use vstd::prelude::*;

use crate::device::PhysicalDevice;
use crate::error::Error;
use crate::registry::{resolves, Handle, HandleRegistry};

verus! {

/// One pixel format and colour space a surface can present in.
#[derive(Clone, Copy, PartialEq, Eq, Structural, Debug)]
pub struct SurfaceFormat {
    pub format: i32,
    pub color_space: i32,
}

/// One pair per queue family, in index order: the family's index and whether its support
/// query answered `Some(true)`; a failed query (`None`) or a missing answer counts as
/// unsupported.
pub open spec fn family_support(family_count: nat, support: Seq<Option<bool>>) -> Seq<(usize, bool)> {
    Seq::new(family_count, |i: int| (i as usize, i < support.len() && support[i] == Some(true)))
}

/// Presentation target bound to a window, created against an instance. Not kept in a
/// registry: its owner releases it before the instance.
pub struct Surface {
    handle: u64,
    parent_instance: Handle,
}

impl Surface {
    pub closed spec fn spec_handle(&self) -> u64 {
        self.handle
    }

    pub closed spec fn spec_parent_instance(&self) -> Handle {
        self.parent_instance
    }

    /// The surface created as `handle` against the instance `parent_instance`; fails with
    /// `"instance not found"` when that instance no longer resolves in `instances`.
    pub fn new<I>(instances: &HandleRegistry<I>, parent_instance: Handle, handle: u64) -> (r: Result<Self, Error>)
        ensures
            match r {
                Ok(s) => resolves(instances@, parent_instance) && s.spec_handle() == handle
                    && s.spec_parent_instance() == parent_instance,
                Err(Error::Other { message, source }) => !resolves(instances@, parent_instance)
                    && message@ == "instance not found"@ && source is None,
                Err(Error::Graphics { .. }) => false,
            },
    {
        if !instances.contains(parent_instance) {
            return Err(Error::other("instance not found"));
        }
        Ok(Surface { handle, parent_instance })
    }

    pub fn handle(&self) -> (r: u64)
        ensures
            r == self.spec_handle(),
    {
        self.handle
    }

    pub fn parent_instance(&self) -> (r: Handle)
        ensures
            r == self.spec_parent_instance(),
    {
        self.parent_instance
    }

    /// For each queue family of `physical_device`, its index and whether it can present to
    /// this surface, given the answer to the support query for each family in order.
    pub fn physical_device_queue_family_properties_support(
        &self,
        physical_device: &PhysicalDevice,
        support: &Vec<Option<bool>>,
    ) -> (r: Vec<(usize, bool)>)
        ensures
            r@ == family_support(physical_device.spec_properties().queue_families@.len(), support@),
    {
        let n = physical_device.properties().queue_families.len();
        let mut r: Vec<(usize, bool)> = Vec::new();
        let mut i: usize = 0;
        while i < n
            invariant
                i <= n,
                n == physical_device.spec_properties().queue_families@.len(),
                r@ == family_support(i as nat, support@),
            decreases n - i,
        {
            let supported = i < support.len() && support[i] == Some(true);
            r.push((i, supported));
            assert(r@ =~= family_support((i + 1) as nat, support@));
            i = i + 1;
        }
        r
    }

    /// A device can present to this surface when it supports at least one format and at
    /// least one present mode.
    pub fn is_suitable(&self, formats: &Vec<SurfaceFormat>, present_modes: &Vec<i32>) -> (r: bool)
        ensures
            r == (formats@.len() > 0 && present_modes@.len() > 0),
    {
        !formats.is_empty() && !present_modes.is_empty()
    }
}

} // verus!

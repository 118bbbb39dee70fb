//! A live instance: a sandbox context inside a region of its own, ready to
//! have its exports invoked.

use crate::pipeline::StageFailure;
use std::sync::Arc;
use vstd::prelude::*;

verus! {

/// Handle through which the runtime runs one sandboxed instance.
#[verifier::external_type_specification]
#[verifier::external_body]
pub struct ExInstanceHandle(lucet_runtime::InstanceHandle);

/// Memory region backed by anonymous mappings.
#[verifier::external_type_specification]
#[verifier::external_body]
pub struct ExMmapRegion(lucet_runtime::MmapRegion);

/// Untyped return value of a guest function.
#[verifier::external_type_specification]
#[verifier::external_body]
pub struct ExUntypedRetVal(lucet_runtime::UntypedRetVal);

/// Number of instances that the region of an instance has room for. Every
/// instance owns its region, so the region never holds a second one.
pub const REGION_CAPACITY: usize = 1;

/// The number of instance slots that a region was made with. The runtime
/// records it when it creates the region and never changes it.
pub uninterp spec fn region_capacity(region: lucet_runtime::MmapRegion) -> nat;

/// Calls `lucet_runtime::MmapRegion::create` with the runtime's default
/// limits, which maps memory for `instance_capacity` slots and runs no guest
/// code. Whether that succeeds depends on the machine; a region that comes
/// back was made with the capacity that was asked for, and no more is
/// claimed of it. The bound keeps the allocation of the slot list within
/// what a vector can hold.
#[verifier::external_body]
fn create_region(instance_capacity: usize) -> (region: Result<
    Arc<lucet_runtime::MmapRegion>,
    lucet_runtime::Error,
>)
    requires
        instance_capacity <= 0xffff,
    ensures
        region matches Ok(made) ==> region_capacity(*made) == instance_capacity,
{
    lucet_runtime::MmapRegion::create(instance_capacity, &lucet_runtime::Limits::default())
}

/// One live, invocable instantiation of a module.
pub struct Instance {
    region: Arc<lucet_runtime::MmapRegion>,
    handle: lucet_runtime::InstanceHandle,
}

impl Instance {
    /// The region that backs the instance.
    pub closed spec fn region_handle(self) -> Arc<lucet_runtime::MmapRegion> {
        self.region
    }

    /// The sandbox context through which the instance runs.
    pub closed spec fn context(self) -> lucet_runtime::InstanceHandle {
        self.handle
    }

    /// The instance with another state of its sandbox context, in the same
    /// region.
    pub closed spec fn with_context(self, context: lucet_runtime::InstanceHandle) -> Instance {
        Instance { region: self.region, handle: context }
    }

    /// Replacing the context of an instance changes its context and nothing
    /// else.
    pub proof fn lemma_with_context(self, context: lucet_runtime::InstanceHandle)
        ensures
            self.with_context(context).context() == context,
            self.with_context(context).region_handle() == self.region_handle(),
            self.with_context(self.context()) == self,
    {
    }

    /// Makes the region for one instance: room for exactly that instance,
    /// under the runtime's default limits. No guest code runs here. Whether
    /// the machine grants the memory is for the runtime to say; where it
    /// does not, the instantiation step has failed.
    pub fn region() -> (made: Result<Arc<lucet_runtime::MmapRegion>, StageFailure>)
        ensures
            match made {
                Ok(region) => region_capacity(*region) == REGION_CAPACITY,
                Err(failure) => failure is Instantiate,
            },
    {
        match create_region(REGION_CAPACITY) {
            Ok(region) => Ok(region),
            Err(e) => Err(StageFailure::Instantiate(e)),
        }
    }

    /// Bundles a region with the sandbox context that it handed out. The
    /// context itself keeps the loaded module alive.
    pub fn new(region: Arc<lucet_runtime::MmapRegion>, handle: lucet_runtime::InstanceHandle) -> (instance:
        Instance)
        ensures
            instance.region_handle() == region,
            instance.context() == handle,
    {
        Instance { region, handle }
    }

    /// Hands out the sandbox context for an invocation. Whatever state the
    /// invocation leaves the context in becomes the state of the instance;
    /// the region stays.
    pub fn context_mut(&mut self) -> (context: &mut lucet_runtime::InstanceHandle)
        ensures
            *context == old(self).context(),
            *final(self) == old(self).with_context(*final(context)),
    {
        &mut self.handle
    }
}

} // verus!

//! Controller registry: a shared mapping from controller identity to the
//! controller handle, looked up by every channel-creation event.

use vstd::prelude::*;

verus! {

/// One remote or local storage controller known to this node.
///
/// The driver-side controller object is opaque to this subsystem; what channel
/// creation reads of it is carried here as plain values: the identity used as
/// the registry key, the driver handle passed back to queue-pair allocation,
/// and the controller's default queue depth used by the option merge.
pub struct NvmeController {
    /// Unique identity of this controller.
    pub id: u64,
    /// Driver handle for the controller, handed to queue-pair operations.
    pub ctrlr_handle: u64,
    /// Queue depth the controller's transport reports as its default.
    pub default_io_queue_requests: u32,
}

/// Registry of controllers, keyed by identity.
///
/// Population and removal belong to the attachment component; channel
/// creation only looks entries up.
pub struct ControllerRegistry {
    pub controllers: Vec<NvmeController>,
}

impl ControllerRegistry {
    /// All identities registered are distinct.
    pub open spec fn wf(self) -> bool {
        forall|i: int, j: int|
            0 <= i < j < self.controllers@.len() ==> self.controllers@[i].id != self.controllers@[j].id
    }

    /// The registry holds a controller with this identity.
    pub open spec fn spec_contains(self, id: u64) -> bool {
        exists|i: int| 0 <= i < self.controllers@.len() && self.controllers@[i].id == id
    }

    pub fn new() -> (r: ControllerRegistry)
        ensures
            r.wf(),
            forall|id: u64| !r.spec_contains(id),
    {
        ControllerRegistry { controllers: Vec::new() }
    }

    /// Add a controller; refused when the identity is already taken.
    pub fn register(&mut self, c: NvmeController) -> (ok: bool)
        requires
            old(self).wf(),
        ensures
            final(self).wf(),
            ok <==> !old(self).spec_contains(c.id),
            ok ==> final(self).controllers@ == old(self).controllers@.push(c),
            !ok ==> final(self).controllers@ == old(self).controllers@,
            forall|id: u64|
                final(self).spec_contains(id) <==> (old(self).spec_contains(id) || (ok && id == c.id)),
    {
        if self.lookup_by_id(c.id).is_some() {
            return false;
        }
        self.controllers.push(c);
        proof {
            let so = old(self).controllers@;
            let sn = self.controllers@;
            assert(sn[so.len() as int].id == c.id);
            assert forall|id: u64| old(self).spec_contains(id) implies self.spec_contains(id) by {
                let i = choose|i: int| 0 <= i < so.len() && so[i].id == id;
                assert(sn[i].id == id);
            };
            assert forall|id: u64| self.spec_contains(id) implies (old(self).spec_contains(id)
                || id == c.id) by {
                let i = choose|i: int| 0 <= i < sn.len() && sn[i].id == id;
                if i < so.len() {
                    assert(so[i].id == id);
                }
            };
        }
        true
    }

    /// Resolve a controller by identity; `None` when the identity is absent.
    pub fn lookup_by_id(&self, id: u64) -> (r: Option<&NvmeController>)
        ensures
            r is Some <==> self.spec_contains(id),
            r matches Some(c) ==> c.id == id && self.controllers@.contains(*c),
    {
        let n = self.controllers.len();
        for i in 0..n
            invariant
                n == self.controllers@.len(),
                forall|k: int| 0 <= k < i ==> self.controllers@[k].id != id,
        {
            if self.controllers[i].id == id {
                return Some(&self.controllers[i]);
            }
        }
        None
    }
}

} // verus!

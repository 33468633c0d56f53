//! Remote target attachment: the one-shot protocol that makes a remote
//! block target visible as a local device, and its synchronous detachment
//! counterpart.
//!
//! The driver's device create/delete primitives are external collaborators:
//! the call-site errno and the completion result enter as plain values, and
//! the decisions taken on them - the existence precheck, parameter
//! assembly, error mapping and table upkeep - are verified for every value
//! the driver can report.

use vstd::prelude::*;

verus! {

/// The maximum number of namespaces a single attachment connects to; fixed
/// at exactly one in this design.
pub const MAX_NAMESPACES: usize = 1;

/// Transport type for NVMe over TCP, the one transport this design supports.
pub const TRANSPORT_TCP: u32 = 3;

/// Address family for IPv4, the one family this design supports.
pub const ADRFAM_IPV4: u32 = 1;

/// I/O flag enabling protection-information checking of the reference tag.
pub const IO_FLAG_PRCHK_REFTAG: u32 = 1u32 << 26;

/// I/O flag enabling protection-information checking of the guard tag.
pub const IO_FLAG_PRCHK_GUARD: u32 = 1u32 << 28;

/// Arguments for creating the local device backing one remote target.
/// Produced by parsing a connection URL; consumed once by attachment.
#[derive(Debug)]
pub struct NvmfBdev {
    /// Name of the device that should be created.
    pub name: String,
    /// Transport type (only TCP in this design).
    pub trtype: String,
    /// Address family, IPv4 in this design.
    pub adrfam: String,
    /// The remote target address.
    pub traddr: String,
    /// The service id (port).
    pub trsvcid: String,
    /// The identifier of the subsystem to connect to.
    pub subnqn: String,
    /// Our own host identity to advertise, when not empty.
    pub hostnqn: String,
    /// Our connection address, when not empty.
    pub hostaddr: String,
    /// Our service id, when not empty.
    pub hostsvcid: String,
    /// Enable protection-information checking of the reference tag.
    pub prchk_reftag: bool,
    /// Enable protection-information checking of the guard tag.
    pub prchk_guard: bool,
}

impl Default for NvmfBdev {
    /// All request fields empty, both protection checks off.
    fn default() -> (d: Self)
        ensures
            d.name@ == Seq::<char>::empty(),
            d.trtype@ == Seq::<char>::empty(),
            d.adrfam@ == Seq::<char>::empty(),
            d.traddr@ == Seq::<char>::empty(),
            d.trsvcid@ == Seq::<char>::empty(),
            d.subnqn@ == Seq::<char>::empty(),
            d.hostnqn@ == Seq::<char>::empty(),
            d.hostaddr@ == Seq::<char>::empty(),
            d.hostsvcid@ == Seq::<char>::empty(),
            !d.prchk_reftag,
            !d.prchk_guard,
    {
        NvmfBdev {
            name: String::new(),
            trtype: String::new(),
            adrfam: String::new(),
            traddr: String::new(),
            trsvcid: String::new(),
            subnqn: String::new(),
            hostnqn: String::new(),
            hostaddr: String::new(),
            hostsvcid: String::new(),
            prchk_reftag: false,
            prchk_guard: false,
        }
    }
}

/// Transport identity of the remote target, assembled from the request.
pub struct NvmeTransportId {
    /// Transport type code.
    pub trtype: u32,
    /// Address family code.
    pub adrfam: u32,
    /// Remote target address.
    pub traddr: String,
    /// Remote service id.
    pub trsvcid: String,
    /// Subsystem identifier.
    pub subnqn: String,
}

/// Identity this host presents to the target; fields may be empty.
pub struct NvmeHostId {
    /// Our connection address.
    pub hostaddr: String,
    /// Our service id.
    pub hostsvcid: String,
}

/// The argument block of one driver creation call: what the driver is asked
/// to connect to, and the slot it fills with the assigned device name.
pub struct NvmeCreateCtx {
    /// Name the devices are derived from.
    pub name: String,
    /// Device name per namespace, filled by the driver; one slot here.
    pub names: Vec<String>,
    /// Number of namespace slots.
    pub count: u32,
    /// Where to connect.
    pub transport_id: NvmeTransportId,
    /// Who we are.
    pub host_id: NvmeHostId,
}

/// The creation context carries exactly the request's values: TCP over IPv4,
/// the target's address triple, our host identity, and one still-empty
/// device-name slot.
pub open spec fn ctx_matches(c: NvmeCreateCtx, a: NvmfBdev) -> bool {
    &&& c.name@ == a.name@
    &&& c.count == MAX_NAMESPACES as u32
    &&& c.names@.len() == MAX_NAMESPACES
    &&& c.names@[0]@ == Seq::<char>::empty()
    &&& c.transport_id.trtype == TRANSPORT_TCP
    &&& c.transport_id.adrfam == ADRFAM_IPV4
    &&& c.transport_id.traddr@ == a.traddr@
    &&& c.transport_id.trsvcid@ == a.trsvcid@
    &&& c.transport_id.subnqn@ == a.subnqn@
    &&& c.host_id.hostaddr@ == a.hostaddr@
    &&& c.host_id.hostsvcid@ == a.hostsvcid@
}

impl NvmeCreateCtx {
    pub fn new(args: &NvmfBdev) -> (c: NvmeCreateCtx)
        ensures
            ctx_matches(c, *args),
    {
        let mut names: Vec<String> = Vec::new();
        names.push(String::new());
        NvmeCreateCtx {
            name: clone_string(&args.name),
            names,
            count: MAX_NAMESPACES as u32,
            transport_id: NvmeTransportId {
                trtype: TRANSPORT_TCP,
                adrfam: ADRFAM_IPV4,
                traddr: clone_string(&args.traddr),
                trsvcid: clone_string(&args.trsvcid),
                subnqn: clone_string(&args.subnqn),
            },
            host_id: NvmeHostId {
                hostaddr: clone_string(&args.hostaddr),
                hostsvcid: clone_string(&args.hostsvcid),
            },
        }
    }
}

/// A copy of a string with the same characters.
fn clone_string(s: &String) -> (r: String)
    ensures
        r@ == s@,
{
    s.clone()
}

/// The table of locally visible block devices, by name; what device lookup
/// consults, what successful attachment extends and successful detachment
/// shrinks.  Device names are unique.
pub struct BdevList {
    /// Names of the devices currently visible.
    pub names: Vec<String>,
}

impl BdevList {
    /// No two devices share a name.
    pub open spec fn wf(self) -> bool {
        forall|i: int, j: int| 0 <= i < j < self.names@.len() ==> self.names@[i]@ != self.names@[j]@
    }

    /// A device with this name is visible.
    pub open spec fn spec_contains(self, n: Seq<char>) -> bool {
        exists|i: int| 0 <= i < self.names@.len() && self.names@[i]@ == n
    }

    pub fn new() -> (r: BdevList)
        ensures
            r.wf(),
            forall|n: Seq<char>| !r.spec_contains(n),
    {
        BdevList { names: Vec::new() }
    }

    /// Whether a device with this name is visible.
    pub fn lookup_by_name(&self, name: &str) -> (r: bool)
        ensures
            r == self.spec_contains(name@),
    {
        let n = self.names.len();
        for i in 0..n
            invariant
                n == self.names@.len(),
                forall|k: int| 0 <= k < i ==> self.names@[k]@ != name@,
        {
            if str_eq(self.names[i].as_str(), name) {
                return true;
            }
        }
        false
    }

    /// Record a device as visible; a name already present stays as it is.
    fn insert(&mut self, name: String)
        requires
            old(self).wf(),
        ensures
            final(self).wf(),
            final(self).spec_contains(name@),
            old(self).spec_contains(name@) ==> final(self).names@ == old(self).names@,
            !old(self).spec_contains(name@) ==> final(self).names@ == old(self).names@.push(name),
            forall|m: Seq<char>|
                final(self).spec_contains(m) <==> (old(self).spec_contains(m) || m == name@),
    {
        if self.lookup_by_name(name.as_str()) {
            return;
        }
        self.names.push(name);
        proof {
            let so = old(self).names@;
            let sn = self.names@;
            assert(sn[so.len() as int]@ == name@);
            assert forall|m: Seq<char>| old(self).spec_contains(m) implies self.spec_contains(m) by {
                let i = choose|i: int| 0 <= i < so.len() && so[i]@ == m;
                assert(sn[i]@ == m);
            };
            assert forall|m: Seq<char>| self.spec_contains(m) implies (old(self).spec_contains(m)
                || m == name@) by {
                let i = choose|i: int| 0 <= i < sn.len() && sn[i]@ == m;
                if i < so.len() {
                    assert(so[i]@ == m);
                }
            };
        }
    }

    /// Remove the device with this name.
    fn remove(&mut self, name: &str)
        requires
            old(self).wf(),
            old(self).spec_contains(name@),
        ensures
            final(self).wf(),
            !final(self).spec_contains(name@),
            final(self).names@.len() == old(self).names@.len() - 1,
            forall|m: Seq<char>|
                m != name@ ==> (final(self).spec_contains(m) <==> old(self).spec_contains(m)),
    {
        let ghost orig = self.names@;
        let n = self.names.len();
        let mut i: usize = 0;
        while i < n
            invariant
                n == self.names@.len(),
                self.names@ == orig,
                orig == old(self).names@,
                i <= n,
                old(self).wf(),
                old(self).spec_contains(name@),
                forall|k: int| 0 <= k < i ==> orig[k]@ != name@,
            decreases n - i,
        {
            if str_eq(self.names[i].as_str(), name) {
                self.names.remove(i);
                proof {
                    let r = self.names@;
                    assert forall|p: int, q: int| 0 <= p < q < r.len() implies r[p]@ != r[q]@ by {
                        if q < i {
                            assert(orig[p]@ != orig[q]@);
                        } else if p < i {
                            assert(orig[p]@ != orig[q + 1]@);
                        } else {
                            assert(orig[p + 1]@ != orig[q + 1]@);
                        }
                    };
                    assert forall|k: int| 0 <= k < r.len() implies r[k]@ != name@ by {
                        if k < i {
                            assert(orig[k]@ != orig[i as int]@);
                        } else {
                            assert(orig[i as int]@ != orig[k + 1]@);
                        }
                    };
                    assert forall|m: Seq<char>|
                        m != name@ && old(self).spec_contains(m) implies self.spec_contains(m) by {
                        let k = choose|k: int| 0 <= k < orig.len() && orig[k]@ == m;
                        if k < i {
                            assert(r[k]@ == m);
                        } else {
                            assert(k != i);
                            assert(r[k - 1]@ == m);
                        }
                    };
                    assert forall|m: Seq<char>|
                        m != name@ && self.spec_contains(m) implies old(self).spec_contains(m) by {
                        let k = choose|k: int| 0 <= k < r.len() && r[k]@ == m;
                        if k < i {
                            assert(orig[k]@ == m);
                        } else {
                            assert(orig[k + 1]@ == m);
                        }
                    };
                }
                return;
            }
            i = i + 1;
        }
        proof {
            let j = choose|j: int| 0 <= j < orig.len() && orig[j]@ == name@;
            assert(false);
        }
    }
}

/// Character-for-character string equality.
pub fn str_eq(a: &str, b: &str) -> (r: bool)
    ensures
        r == (a@ == b@),
{
    let la = a.unicode_len();
    let lb = b.unicode_len();
    if la != lb {
        proof {
            assert(a@ != b@) by {
                if a@ == b@ {
                    assert(a@.len() == b@.len());
                }
            }
        }
        return false;
    }
    let mut i: usize = 0;
    while i < la
        invariant
            la == a@.len(),
            la == b@.len(),
            i <= la,
            forall|k: int| 0 <= k < i ==> a@[k] == b@[k],
        decreases la - i,
    {
        if a.get_char(i) != b.get_char(i) {
            proof {
                assert(a@ != b@) by {
                    if a@ == b@ {
                        assert(a@[i as int] == b@[i as int]);
                    }
                }
            }
            return false;
        }
        i = i + 1;
    }
    proof {
        assert(a@ =~= b@);
    }
    true
}

/// The driver's answers to one attachment: the errno of the creation call
/// itself, the result later reported by the completion callback, and the
/// device name the driver assigned to the target's one namespace.
pub struct AttachReply {
    /// Errno of the creation call; `0` when the call was accepted.
    pub call_errno: i32,
    /// Result the completion callback reported; `0` on success.
    pub completion_rc: i32,
    /// Device name the driver assigned.
    pub assigned_name: String,
}

/// Why an attachment failed.
#[derive(Clone, Copy, Debug, PartialEq, Eq, Structural)]
pub enum AttachError {
    /// A device with the requested name already exists locally.
    StateConflict,
    /// The creation call itself was rejected, with its errno.
    InvalidParams { errno: i32 },
    /// The completion callback reported a failure, with its error code.
    CreationFailed { errno: i32 },
}

/// Why a detachment failed.
#[derive(Clone, Copy, Debug, PartialEq, Eq, Structural)]
pub enum DetachError {
    /// No device with the given name is visible locally.
    LookupFailure,
    /// The driver's delete call failed, with its errno.
    DeleteFailed { errno: i32 },
}

/// How one attachment ends, given the table before it and the driver's
/// answers: a conflict before any driver call when the name is taken, then
/// the call-site rejection, then the completion failure; `None` is success.
pub open spec fn attach_outcome(pre: BdevList, name: Seq<char>, reply: AttachReply) -> Option<
    AttachError,
> {
    if pre.spec_contains(name) {
        Some(AttachError::StateConflict)
    } else if reply.call_errno != 0 {
        Some(AttachError::InvalidParams { errno: reply.call_errno })
    } else if reply.completion_rc != 0 {
        Some(AttachError::CreationFailed { errno: reply.completion_rc })
    } else {
        None
    }
}

/// Attach a remote target as a local device.
///
/// When a device with the requested name already exists the attachment fails
/// with a state conflict before any driver call: the first component of the
/// result, the argument block of the creation call, is `None` in exactly
/// that case.  Otherwise the assembled call is returned, a rejected call
/// maps to invalid parameters, a failed completion to a creation failure,
/// and on success the driver-assigned device name becomes visible and is
/// returned.  On every failure the device table is left untouched.
pub fn attach_target(bdevs: &mut BdevList, args: &NvmfBdev, reply: &AttachReply) -> (r: (
    Option<NvmeCreateCtx>,
    Result<String, AttachError>,
))
    requires
        old(bdevs).wf(),
    ensures
        final(bdevs).wf(),
        r.0 is None <==> old(bdevs).spec_contains(args.name@),
        r.0 matches Some(c) ==> ctx_matches(c, *args),
        attach_outcome(*old(bdevs), args.name@, *reply) matches Some(e) ==> r.1 == Err::<
            String,
            AttachError,
        >(e) && final(bdevs).names@ == old(bdevs).names@,
        attach_outcome(*old(bdevs), args.name@, *reply) is None ==> (r.1 matches Ok(n) && n@
            == reply.assigned_name@ && (forall|m: Seq<char>|
            final(bdevs).spec_contains(m) <==> (old(bdevs).spec_contains(m) || m
                == reply.assigned_name@))),
{
    let ctx = NvmeCreateCtx::new(args);

    if bdevs.lookup_by_name(args.name.as_str()) {
        return (None, Err(AttachError::StateConflict));
    }

    if reply.call_errno != 0 {
        return (Some(ctx), Err(AttachError::InvalidParams { errno: reply.call_errno }));
    }

    if reply.completion_rc != 0 {
        return (Some(ctx), Err(AttachError::CreationFailed { errno: reply.completion_rc }));
    }

    let assigned = clone_string(&reply.assigned_name);
    bdevs.insert(clone_string(&assigned));
    (Some(ctx), Ok(assigned))
}

/// How one detachment ends, given the table before it and the delete call's
/// errno: a lookup failure for an unknown name, otherwise the errno mapped;
/// `None` is success.
pub open spec fn detach_outcome(pre: BdevList, name: Seq<char>, delete_errno: i32) -> Option<
    DetachError,
> {
    if !pre.spec_contains(name) {
        Some(DetachError::LookupFailure)
    } else if delete_errno != 0 {
        Some(DetachError::DeleteFailed { errno: delete_errno })
    } else {
        None
    }
}

/// Detach the device with this name.
///
/// An unknown name fails with a lookup failure and no side effect at all;
/// otherwise the driver's delete call is issued and its errno mapped, the
/// device disappearing from the table exactly when the delete succeeded.
pub fn detach_target(bdevs: &mut BdevList, name: &str, delete_errno: i32) -> (r: Result<
    (),
    DetachError,
>)
    requires
        old(bdevs).wf(),
    ensures
        final(bdevs).wf(),
        detach_outcome(*old(bdevs), name@, delete_errno) matches Some(e) ==> r == Err::<
            (),
            DetachError,
        >(e) && final(bdevs).names@ == old(bdevs).names@,
        detach_outcome(*old(bdevs), name@, delete_errno) is None ==> (r == Ok::<(), DetachError>(())
            && !final(bdevs).spec_contains(name@) && final(bdevs).names@.len() == old(bdevs).names@.len() - 1
            && (forall|m: Seq<char>|
            m != name@ ==> (final(bdevs).spec_contains(m) <==> old(bdevs).spec_contains(m)))),
{
    if !bdevs.lookup_by_name(name) {
        return Err(DetachError::LookupFailure);
    }

    if delete_errno != 0 {
        return Err(DetachError::DeleteFailed { errno: delete_errno });
    }

    bdevs.remove(name);
    Ok(())
}

/// Mapping of a driver errno to a result: `0` is success, anything else is
/// handed back as the error.
pub open spec fn spec_errno_result(rc: i32) -> Result<(), i32> {
    if rc == 0 {
        Ok(())
    } else {
        Err(rc)
    }
}

impl NvmfBdev {
    /// The protection-check flags of the creation call: the reference-tag
    /// bit and the guard bit, each set exactly when the request asks for it.
    pub fn io_flags(&self) -> (f: u32)
        ensures
            f == spec_io_flags(self.prchk_reftag, self.prchk_guard),
    {
        let reftag: u32 = if self.prchk_reftag {
            IO_FLAG_PRCHK_REFTAG
        } else {
            0
        };
        let guard: u32 = if self.prchk_guard {
            IO_FLAG_PRCHK_GUARD
        } else {
            0
        };
        reftag | guard
    }

    /// Deliver a creation-completion result to whoever awaits it.
    ///
    /// The completion callback may fire after the awaiting side has been
    /// abandoned; that is expected, never a fault: the result is simply
    /// discarded, and something is delivered exactly when a receiver is
    /// still listening.
    pub fn nvme_done(rc: i32, receiver_alive: bool) -> (delivered: Option<Result<(), i32>>)
        ensures
            delivered is Some <==> receiver_alive,
            receiver_alive ==> delivered == Some(spec_errno_result(rc)),
    {
        if receiver_alive {
            if rc == 0 {
                Some(Ok(()))
            } else {
                Some(Err(rc))
            }
        } else {
            None
        }
    }

    /// Attach the target this request describes; see [`attach_target`].
    pub fn create(self, bdevs: &mut BdevList, reply: &AttachReply) -> (r: (
        Option<NvmeCreateCtx>,
        Result<String, AttachError>,
    ))
        requires
            old(bdevs).wf(),
        ensures
            final(bdevs).wf(),
            r.0 is None <==> old(bdevs).spec_contains(self.name@),
            r.0 matches Some(c) ==> ctx_matches(c, self),
            attach_outcome(*old(bdevs), self.name@, *reply) matches Some(e) ==> r.1 == Err::<
                String,
                AttachError,
            >(e) && final(bdevs).names@ == old(bdevs).names@,
            attach_outcome(*old(bdevs), self.name@, *reply) is None ==> (r.1 matches Ok(n) && n@
                == reply.assigned_name@ && final(bdevs).spec_contains(reply.assigned_name@)),
    {
        attach_target(bdevs, &self, reply)
    }

    /// Detach the device with this name; see [`detach_target`].
    pub fn destroy(self, bdevs: &mut BdevList, bdev_name: &str, delete_errno: i32) -> (r: Result<
        (),
        DetachError,
    >)
        requires
            old(bdevs).wf(),
        ensures
            final(bdevs).wf(),
            detach_outcome(*old(bdevs), bdev_name@, delete_errno) matches Some(e) ==> r == Err::<
                (),
                DetachError,
            >(e) && final(bdevs).names@ == old(bdevs).names@,
            detach_outcome(*old(bdevs), bdev_name@, delete_errno) is None ==> (r == Ok::<
                (),
                DetachError,
            >(()) && !final(bdevs).spec_contains(bdev_name@)),
    {
        detach_target(bdevs, bdev_name, delete_errno)
    }
}

/// The protection-check flags as a bit pattern.
pub open spec fn spec_io_flags(reftag: bool, guard: bool) -> u32 {
    (if reftag {
        IO_FLAG_PRCHK_REFTAG
    } else {
        0u32
    }) | (if guard {
        IO_FLAG_PRCHK_GUARD
    } else {
        0u32
    })
}

} // verus!

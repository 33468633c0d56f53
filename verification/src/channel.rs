//! Per-core I/O channel lifecycle: creation with full rollback on partial
//! failure, and destruction in the order that keeps the poller from ever
//! observing a freed resource.
//!
//! The driver transport layer is an external collaborator.  Its replies to
//! the fallible steps of channel creation enter as a [`DriverReplies`] value,
//! and the driver calls that destruction must issue are returned as a
//! [`DriverCall`] sequence, so the rollback and ordering decisions taken here
//! are verified for every outcome the driver can report.

use vstd::prelude::*;

use crate::registry::ControllerRegistry;

verus! {

/// A call this subsystem issues to the driver transport layer.
///
/// Channel destruction returns the exact sequence it performs, which pins the
/// required ordering: the poller is unregistered before anything the poller's
/// callback would touch is released.
#[derive(Clone, Copy, Debug, PartialEq, Eq, Structural)]
pub enum DriverCall {
    /// Stop the recurring poller with this handle.
    UnregisterPoller(u64),
    /// Detach a queue pair (first field) from its poll group (second field).
    RemoveQpairFromGroup(u64, u64),
    /// Release a poll group.
    DestroyPollGroup(u64),
    /// Release a queue pair.
    FreeQpair(u64),
    /// Ask the driver to reconnect a disconnected queue pair in place.
    ReconnectQpair(u64),
}

/// Driver replies to the fallible steps of channel creation.
///
/// The driver decides these; channel creation is verified for every
/// combination, including every injected failure.
pub struct DriverReplies {
    /// Queue-pair allocation returned a valid handle.
    pub qpair_ok: bool,
    /// Poll-group creation returned a valid handle.
    pub poll_group_ok: bool,
    /// Result of adding the queue pair to the poll group; `0` is success.
    pub add_rc: i32,
    /// Result of connecting the queue pair; `0` is success.
    pub connect_rc: i32,
}

/// Configured defaults for channels on this node.
pub struct NvmeBdevOpts {
    /// Configured lower bound for the queue depth of a new queue pair.
    pub io_queue_requests: u32,
    /// Period, in microseconds, of the completion poller.
    pub nvme_ioq_poll_period_us: u64,
}

/// Options a queue pair is allocated with.
pub struct IoQpairOpts {
    /// Queue depth of the pair.
    pub io_queue_requests: u32,
    /// The pair must not auto-connect on allocation.
    pub create_only: bool,
}

/// Per-core accounting of live driver resources: every queue pair, poll group
/// and poller this subsystem has acquired on this core and not yet released.
///
/// Handles are issued in increasing order, so a handle is live exactly when
/// its table holds it, and a freshly issued one is never confused with an
/// older one.
pub struct DeviceCore {
    /// Live queue-pair handles.
    pub qpairs: Vec<u64>,
    /// Live poll-group handles.
    pub poll_groups: Vec<u64>,
    /// Live poller handles.
    pub pollers: Vec<u64>,
    /// Next handle to issue; strictly above every handle ever issued.
    pub next_handle: u64,
}

/// No value occurs twice in the sequence.
pub open spec fn no_dup(s: Seq<u64>) -> bool {
    forall|i: int, j: int| 0 <= i < j < s.len() ==> s[i] != s[j]
}

/// Every handle in the sequence is valid (nonzero) and was issued before `next`.
pub open spec fn handles_below(s: Seq<u64>, next: u64) -> bool {
    forall|i: int| 0 <= i < s.len() ==> 0 < #[trigger] s[i] < next
}

/// The index at which a live handle sits in its table; meaningful when the
/// table holds it exactly once.
pub open spec fn handle_index(s: Seq<u64>, h: u64) -> int {
    choose|i: int| 0 <= i < s.len() && s[i] == h
}

impl DeviceCore {
    pub open spec fn wf(self) -> bool {
        &&& 0 < self.next_handle
        &&& handles_below(self.qpairs@, self.next_handle)
        &&& handles_below(self.poll_groups@, self.next_handle)
        &&& handles_below(self.pollers@, self.next_handle)
        &&& no_dup(self.qpairs@)
        &&& no_dup(self.poll_groups@)
        &&& no_dup(self.pollers@)
    }

    /// A fresh core with no live resources.
    pub fn new() -> (r: DeviceCore)
        ensures
            r.wf(),
            r.qpairs@ =~= Seq::<u64>::empty(),
            r.poll_groups@ =~= Seq::<u64>::empty(),
            r.pollers@ =~= Seq::<u64>::empty(),
            r.next_handle == 1,
    {
        DeviceCore { qpairs: Vec::new(), poll_groups: Vec::new(), pollers: Vec::new(), next_handle: 1 }
    }

    /// Issue the next handle into the given table.
    fn issue(&mut self, which: usize) -> (h: u64)
        requires
            old(self).wf(),
            old(self).next_handle < u64::MAX,
            which < 3,
        ensures
            final(self).wf(),
            h == old(self).next_handle,
            final(self).next_handle == old(self).next_handle + 1,
            which == 0 ==> final(self).qpairs@ == old(self).qpairs@.push(h)
                && final(self).poll_groups@ == old(self).poll_groups@
                && final(self).pollers@ == old(self).pollers@,
            which == 1 ==> final(self).poll_groups@ == old(self).poll_groups@.push(h)
                && final(self).qpairs@ == old(self).qpairs@
                && final(self).pollers@ == old(self).pollers@,
            which == 2 ==> final(self).pollers@ == old(self).pollers@.push(h)
                && final(self).qpairs@ == old(self).qpairs@
                && final(self).poll_groups@ == old(self).poll_groups@,
            !old(self).qpairs@.contains(h) && !old(self).poll_groups@.contains(h)
                && !old(self).pollers@.contains(h),
    {
        let h = self.next_handle;
        self.next_handle = self.next_handle + 1;
        if which == 0 {
            self.qpairs.push(h);
        } else if which == 1 {
            self.poll_groups.push(h);
        } else {
            self.pollers.push(h);
        }
        h
    }
}

/// Remove a handle from a duplicate-free table.
fn remove_handle(v: &mut Vec<u64>, h: u64)
    requires
        no_dup(old(v)@),
        old(v)@.contains(h),
    ensures
        final(v)@ == old(v)@.remove(handle_index(old(v)@, h)),
        no_dup(final(v)@),
        !final(v)@.contains(h),
        forall|x: u64| x != h ==> (final(v)@.contains(x) <==> old(v)@.contains(x)),
        forall|x: u64| final(v)@.contains(x) ==> old(v)@.contains(x),
    {
    let ghost orig = v@;
    let n = v.len();
    let mut i: usize = 0;
    while i < n
        invariant
            n == v@.len(),
            v@ == orig,
            orig == old(v)@,
            i <= n,
            no_dup(orig),
            orig.contains(h),
            forall|k: int| 0 <= k < i ==> orig[k] != h,
        decreases n - i,
    {
        if v[i] == h {
            proof {
                let j = handle_index(orig, h);
                assert(orig[i as int] == h);
                assert(0 <= j < orig.len() && orig[j] == h);
                if j != i {
                    assert(no_dup(orig));
                    assert(false);
                }
                lemma_remove_unique(orig, h, i as int);
            }
            v.remove(i);
            return;
        }
        i = i + 1;
    }
    proof {
        let j = handle_index(orig, h);
        assert(0 <= j < orig.len() && orig[j] == h);
        assert(false);
    }
}

/// After removing the only occurrence of `h` at index `i`, the sequence no
/// longer holds `h`, holds everything else it held, and stays duplicate-free.
proof fn lemma_remove_unique(s: Seq<u64>, h: u64, i: int)
    requires
        no_dup(s),
        0 <= i < s.len(),
        s[i] == h,
    ensures
        no_dup(s.remove(i)),
        !s.remove(i).contains(h),
        forall|x: u64| x != h ==> (s.remove(i).contains(x) <==> s.contains(x)),
        forall|x: u64| s.remove(i).contains(x) ==> s.contains(x),
{
    let r = s.remove(i);
    assert forall|x: u64| r.contains(x) implies s.contains(x) by {
        let k = choose|k: int| 0 <= k < r.len() && r[k] == x;
        if k < i {
            assert(s[k] == x);
        } else {
            assert(s[k + 1] == x);
        }
    };
    assert forall|x: u64| x != h && s.contains(x) implies r.contains(x) by {
        let k = choose|k: int| 0 <= k < s.len() && s[k] == x;
        if k < i {
            assert(r[k] == x);
        } else {
            assert(k != i);
            assert(r[k - 1] == x);
        }
    };
    if r.contains(h) {
        let k = choose|k: int| 0 <= k < r.len() && r[k] == h;
        if k < i {
            assert(s[k] == h);
        } else {
            assert(s[k + 1] == h);
        }
    }
}

/// Pushing a fresh value and then removing it returns the table to what it
/// was.
pub proof fn lemma_push_remove(s: Seq<u64>, x: u64)
    requires
        !s.contains(x),
    ensures
        handle_index(s.push(x), x) == s.len() as int,
        s.push(x).remove(s.len() as int) == s,
{
    let t = s.push(x);
    assert(t[s.len() as int] == x);
    let j = handle_index(t, x);
    assert(0 <= j < t.len() && t[j] == x);
    if j < s.len() {
        assert(s[j] == x);
    }
    assert(t.remove(s.len() as int) =~= s);
}

/// Owned state of one core's channel to one controller: the queue-pair,
/// poll-group and poller handles, each live in the core's tables while the
/// channel exists.
pub struct NvmeIoChannelInner {
    /// The channel's queue pair.
    pub qpair: u64,
    /// The poll group the queue pair is registered with.
    pub poll_group: u64,
    /// The recurring poller driving the poll group.
    pub poller: u64,
}

/// One core's channel slot for one controller: empty until creation succeeds,
/// empty again after destruction.
pub struct NvmeIoChannel {
    /// The owned resource bundle; `None` while no channel is established.
    pub inner: Option<NvmeIoChannelInner>,
}

impl NvmeIoChannel {
    /// A channel slot with nothing established.
    pub fn new() -> (r: NvmeIoChannel)
        ensures
            r.inner is None,
    {
        NvmeIoChannel { inner: None }
    }

    /// The established state of this channel, when there is one.
    pub fn inner_from_channel(&self) -> (r: Option<&NvmeIoChannelInner>)
        ensures
            r is Some <==> self.inner is Some,
            r matches Some(i) ==> *i == self.inner.unwrap(),
    {
        self.inner.as_ref()
    }
}

/// The channel's handles are all live in the core's tables.
pub open spec fn channel_live(ch: NvmeIoChannel, core: DeviceCore) -> bool {
    ch.inner matches Some(i) ==> {
        &&& core.qpairs@.contains(i.qpair)
        &&& core.poll_groups@.contains(i.poll_group)
        &&& core.pollers@.contains(i.poller)
    }
}

/// Merge the transport's default queue-pair options with the configured
/// defaults.  The depth takes the larger of the two - deliberately favouring
/// throughput over a strict caller-fixed depth - and the pair is marked
/// create-only so it does not auto-connect before it joins its poll group.
pub fn merge_io_qpair_opts(transport_default: u32, configured: u32) -> (r: IoQpairOpts)
    ensures
        r.io_queue_requests == if transport_default >= configured {
            transport_default
        } else {
            configured
        },
        r.io_queue_requests >= configured,
        r.create_only,
{
    let depth = if transport_default >= configured { transport_default } else { configured };
    IoQpairOpts { io_queue_requests: depth, create_only: true }
}

/// Channel creation and destruction entry points, invoked by the device
/// channel framework when a core first touches a controller and when the
/// core's channel is torn down.
pub struct NvmeControllerIoChannel {}

impl NvmeControllerIoChannel {
    /// Establish this core's channel to the controller with `controller_id`.
    ///
    /// Resolves the controller, merges queue-pair options, then acquires a
    /// queue pair, a poll group and a poller, adds the pair to the group and
    /// connects it, in that order.  Returns `0` only when every step
    /// succeeded; on any failure every resource acquired by an earlier step
    /// is released again before returning, so a failed creation leaves zero
    /// resources attributable to this channel.
    pub fn create(
        registry: &ControllerRegistry,
        core: &mut DeviceCore,
        channel: &mut NvmeIoChannel,
        controller_id: u64,
        defaults: &NvmeBdevOpts,
        replies: &DriverReplies,
    ) -> (rc: i32)
        requires
            old(core).wf(),
            old(core).next_handle <= u64::MAX - 3,
            old(channel).inner is None,
        ensures
            final(core).wf(),
            rc == 0 || rc == 1,
            (rc == 0) <==> (registry.spec_contains(controller_id) && replies.qpair_ok
                && replies.poll_group_ok && replies.add_rc == 0 && replies.connect_rc == 0),
            rc == 1 ==> final(channel).inner is None
                && final(core).qpairs@ == old(core).qpairs@
                && final(core).poll_groups@ == old(core).poll_groups@
                && final(core).pollers@ == old(core).pollers@,
            rc == 0 ==> (final(channel).inner matches Some(i)
                && final(core).qpairs@ == old(core).qpairs@.push(i.qpair)
                && final(core).poll_groups@ == old(core).poll_groups@.push(i.poll_group)
                && final(core).pollers@ == old(core).pollers@.push(i.poller)
                && !old(core).qpairs@.contains(i.qpair)
                && !old(core).poll_groups@.contains(i.poll_group)
                && !old(core).pollers@.contains(i.poller)
                && channel_live(*final(channel), *final(core))),
    {
        let controller = match registry.lookup_by_id(controller_id) {
            None => {
                return 1;
            },
            Some(c) => c,
        };

        let _opts = merge_io_qpair_opts(
            controller.default_io_queue_requests,
            defaults.io_queue_requests,
        );

        let qpair = if replies.qpair_ok {
            core.issue(0)
        } else {
            return 1;
        };

        let poll_group = if replies.poll_group_ok {
            core.issue(1)
        } else {
            proof {
                assert(core.qpairs@[core.qpairs@.len() - 1] == qpair);
                lemma_push_remove(old(core).qpairs@, qpair);
            }
            remove_handle(&mut core.qpairs, qpair);
            return 1;
        };

        let poller = core.issue(2);

        channel.inner = Some(NvmeIoChannelInner { qpair, poll_group, poller });

        if replies.add_rc != 0 {
            Self::roll_back(core, channel, qpair, poll_group, poller);
            return 1;
        }

        if replies.connect_rc != 0 {
            Self::roll_back(core, channel, qpair, poll_group, poller);
            return 1;
        }

        proof {
            assert(core.qpairs@[core.qpairs@.len() - 1] == qpair);
            assert(core.poll_groups@[core.poll_groups@.len() - 1] == poll_group);
            assert(core.pollers@[core.pollers@.len() - 1] == poller);
        }
        0
    }

    /// Release the three resources of a partially created channel, newest
    /// first, and empty the channel slot.
    fn roll_back(
        core: &mut DeviceCore,
        channel: &mut NvmeIoChannel,
        qpair: u64,
        poll_group: u64,
        poller: u64,
    )
        requires
            old(core).wf(),
            old(core).qpairs@.last() == qpair && old(core).qpairs@.len() > 0,
            old(core).poll_groups@.last() == poll_group && old(core).poll_groups@.len() > 0,
            old(core).pollers@.last() == poller && old(core).pollers@.len() > 0,
        ensures
            final(core).wf(),
            final(channel).inner is None,
            final(core).qpairs@ == old(core).qpairs@.drop_last(),
            final(core).poll_groups@ == old(core).poll_groups@.drop_last(),
            final(core).pollers@ == old(core).pollers@.drop_last(),
    {
        channel.inner = None;
        proof {
            assert(old(core).pollers@[old(core).pollers@.len() - 1] == poller);
            assert(old(core).poll_groups@[old(core).poll_groups@.len() - 1] == poll_group);
            assert(old(core).qpairs@[old(core).qpairs@.len() - 1] == qpair);
            lemma_last_remove(old(core).pollers@);
            lemma_last_remove(old(core).poll_groups@);
            lemma_last_remove(old(core).qpairs@);
        }
        remove_handle(&mut core.pollers, poller);
        remove_handle(&mut core.poll_groups, poll_group);
        remove_handle(&mut core.qpairs, qpair);
    }

    /// Tear down this core's channel.
    ///
    /// Returns the driver calls to perform, in the only safe order: stop the
    /// poller first, so no callback can fire against state about to be freed,
    /// then detach the queue pair from its poll group, release the poll
    /// group, and finally release the queue pair.  A slot that holds no
    /// channel is left untouched and produces no driver call, so destroying
    /// an already-destroyed channel is a no-op.
    pub fn destroy(core: &mut DeviceCore, channel: &mut NvmeIoChannel) -> (calls: Vec<DriverCall>)
        requires
            old(core).wf(),
            channel_live(*old(channel), *old(core)),
        ensures
            final(core).wf(),
            final(channel).inner is None,
            old(channel).inner is None ==> *final(core) == *old(core)
                && calls@ =~= Seq::<DriverCall>::empty(),
            old(channel).inner matches Some(i) ==> (calls@ =~= seq![
                DriverCall::UnregisterPoller(i.poller),
                DriverCall::RemoveQpairFromGroup(i.qpair, i.poll_group),
                DriverCall::DestroyPollGroup(i.poll_group),
                DriverCall::FreeQpair(i.qpair),
            ]
                && final(core).qpairs@ == old(core).qpairs@.remove(
                    handle_index(old(core).qpairs@, i.qpair),
                )
                && final(core).poll_groups@ == old(core).poll_groups@.remove(
                    handle_index(old(core).poll_groups@, i.poll_group),
                )
                && final(core).pollers@ == old(core).pollers@.remove(
                    handle_index(old(core).pollers@, i.poller),
                )
                && !final(core).qpairs@.contains(i.qpair)
                && !final(core).poll_groups@.contains(i.poll_group)
                && !final(core).pollers@.contains(i.poller)),
    {
        let inner = match channel.inner {
            None => {
                return Vec::new();
            },
            Some(ref i) => NvmeIoChannelInner {
                qpair: i.qpair,
                poll_group: i.poll_group,
                poller: i.poller,
            },
        };
        channel.inner = None;

        let mut calls: Vec<DriverCall> = Vec::new();
        calls.push(DriverCall::UnregisterPoller(inner.poller));
        remove_handle(&mut core.pollers, inner.poller);
        calls.push(DriverCall::RemoveQpairFromGroup(inner.qpair, inner.poll_group));
        calls.push(DriverCall::DestroyPollGroup(inner.poll_group));
        remove_handle(&mut core.poll_groups, inner.poll_group);
        calls.push(DriverCall::FreeQpair(inner.qpair));
        remove_handle(&mut core.qpairs, inner.qpair);
        calls
    }
}

/// Removing the last element of a duplicate-free sequence is `drop_last`.
proof fn lemma_last_remove(s: Seq<u64>)
    requires
        no_dup(s),
        s.len() > 0,
    ensures
        handle_index(s, s.last()) == s.len() - 1,
        s.remove(s.len() - 1) == s.drop_last(),
{
    let j = handle_index(s, s.last());
    assert(s[s.len() - 1] == s.last());
    assert(0 <= j < s.len() && s[j] == s.last());
    if j != s.len() - 1 {
        assert(false);
    }
    assert(s.remove(s.len() - 1) =~= s.drop_last());
}

/// Creating a channel and at once destroying it returns the core to exactly
/// the live resources it started with: zero leaked queue pairs, poll groups
/// or pollers.  The hypotheses are the postconditions of a successful
/// `create` and of the `destroy` that follows it.
pub proof fn lemma_create_destroy_balanced(
    pre: DeviceCore,
    mid: DeviceCore,
    post: DeviceCore,
    i: NvmeIoChannelInner,
)
    requires
        mid.qpairs@ == pre.qpairs@.push(i.qpair),
        mid.poll_groups@ == pre.poll_groups@.push(i.poll_group),
        mid.pollers@ == pre.pollers@.push(i.poller),
        !pre.qpairs@.contains(i.qpair),
        !pre.poll_groups@.contains(i.poll_group),
        !pre.pollers@.contains(i.poller),
        post.qpairs@ == mid.qpairs@.remove(handle_index(mid.qpairs@, i.qpair)),
        post.poll_groups@ == mid.poll_groups@.remove(
            handle_index(mid.poll_groups@, i.poll_group),
        ),
        post.pollers@ == mid.pollers@.remove(handle_index(mid.pollers@, i.poller)),
    ensures
        post.qpairs@ == pre.qpairs@,
        post.poll_groups@ == pre.poll_groups@,
        post.pollers@ == pre.pollers@,
{
    lemma_push_remove(pre.qpairs@, i.qpair);
    lemma_push_remove(pre.poll_groups@, i.poll_group);
    lemma_push_remove(pre.pollers@, i.poller);
}

} // verus!

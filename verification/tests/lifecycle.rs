use nvmx_channel::channel::{
    merge_io_qpair_opts, DeviceCore, DriverCall, DriverReplies, NvmeBdevOpts,
    NvmeControllerIoChannel, NvmeIoChannel,
};
use nvmx_channel::poller::{
    disconnected_qpair_cb, nvme_poll, qpair_next_state, PollEvent, QpairEvent, QpairState,
};
use nvmx_channel::registry::{ControllerRegistry, NvmeController};

fn test_registry() -> ControllerRegistry {
    let mut registry = ControllerRegistry::new();
    let ok = registry.register(NvmeController {
        id: 0x1,
        ctrlr_handle: 77,
        default_io_queue_requests: 128,
    });
    assert!(ok);
    registry
}

fn defaults() -> NvmeBdevOpts {
    NvmeBdevOpts { io_queue_requests: 512, nvme_ioq_poll_period_us: 1000 }
}

fn all_ok() -> DriverReplies {
    DriverReplies { qpair_ok: true, poll_group_ok: true, add_rc: 0, connect_rc: 0 }
}

#[test]
fn create_then_destroy_leaves_nothing() {
    let registry = test_registry();
    let mut core = DeviceCore::new();
    let mut channel = NvmeIoChannel::new();

    let rc = NvmeControllerIoChannel::create(&registry, &mut core, &mut channel, 0x1, &defaults(), &all_ok());
    assert_eq!(rc, 0);
    let inner = channel.inner_from_channel().unwrap();
    let (q, g, p) = (inner.qpair, inner.poll_group, inner.poller);
    assert_eq!(core.qpairs.len(), 1);
    assert_eq!(core.poll_groups.len(), 1);
    assert_eq!(core.pollers.len(), 1);

    let calls = NvmeControllerIoChannel::destroy(&mut core, &mut channel);
    assert_eq!(
        calls,
        vec![
            DriverCall::UnregisterPoller(p),
            DriverCall::RemoveQpairFromGroup(q, g),
            DriverCall::DestroyPollGroup(g),
            DriverCall::FreeQpair(q),
        ]
    );
    assert!(channel.inner.is_none());
    assert_eq!(core.qpairs.len(), 0);
    assert_eq!(core.poll_groups.len(), 0);
    assert_eq!(core.pollers.len(), 0);
}

#[test]
fn create_unknown_controller_fails() {
    let registry = test_registry();
    let mut core = DeviceCore::new();
    let mut channel = NvmeIoChannel::new();

    let rc = NvmeControllerIoChannel::create(&registry, &mut core, &mut channel, 0x2, &defaults(), &all_ok());
    assert_eq!(rc, 1);
    assert!(channel.inner.is_none());
    assert_eq!(core.qpairs.len(), 0);
    assert_eq!(core.poll_groups.len(), 0);
    assert_eq!(core.pollers.len(), 0);
}

#[test]
fn create_failure_injection_leaves_nothing() {
    let failures = [
        DriverReplies { qpair_ok: false, poll_group_ok: true, add_rc: 0, connect_rc: 0 },
        DriverReplies { qpair_ok: true, poll_group_ok: false, add_rc: 0, connect_rc: 0 },
        DriverReplies { qpair_ok: true, poll_group_ok: true, add_rc: -12, connect_rc: 0 },
        DriverReplies { qpair_ok: true, poll_group_ok: true, add_rc: 0, connect_rc: -5 },
    ];
    for replies in failures.iter() {
        let registry = test_registry();
        let mut core = DeviceCore::new();
        let mut channel = NvmeIoChannel::new();

        let rc = NvmeControllerIoChannel::create(&registry, &mut core, &mut channel, 0x1, &defaults(), replies);
        assert_eq!(rc, 1);
        assert!(channel.inner.is_none());
        assert_eq!(core.qpairs.len(), 0);
        assert_eq!(core.poll_groups.len(), 0);
        assert_eq!(core.pollers.len(), 0);
    }
}

#[test]
fn destroy_twice_is_a_no_op() {
    let registry = test_registry();
    let mut core = DeviceCore::new();
    let mut channel = NvmeIoChannel::new();

    let rc = NvmeControllerIoChannel::create(&registry, &mut core, &mut channel, 0x1, &defaults(), &all_ok());
    assert_eq!(rc, 0);

    let first = NvmeControllerIoChannel::destroy(&mut core, &mut channel);
    assert_eq!(first.len(), 4);

    let second = NvmeControllerIoChannel::destroy(&mut core, &mut channel);
    assert!(second.is_empty());
    assert!(channel.inner.is_none());
    assert_eq!(core.qpairs.len(), 0);
    assert_eq!(core.poll_groups.len(), 0);
    assert_eq!(core.pollers.len(), 0);
}

#[test]
fn queue_depth_merge_takes_the_larger() {
    let merged = merge_io_qpair_opts(128, 512);
    assert_eq!(merged.io_queue_requests, 512);
    assert!(merged.create_only);
    let merged = merge_io_qpair_opts(1024, 512);
    assert_eq!(merged.io_queue_requests, 1024);
    assert!(merged.create_only);
    let merged = merge_io_qpair_opts(256, 256);
    assert_eq!(merged.io_queue_requests, 256);
}

#[test]
fn registry_rejects_duplicate_identity() {
    let mut registry = test_registry();
    let dup = registry.register(NvmeController {
        id: 0x1,
        ctrlr_handle: 99,
        default_io_queue_requests: 64,
    });
    assert!(!dup);
    assert!(registry.lookup_by_id(0x1).is_some());
    assert_eq!(registry.lookup_by_id(0x1).unwrap().ctrlr_handle, 77);
    assert!(registry.lookup_by_id(0x3).is_none());
}

#[test]
fn poll_reports_work_without_disconnect() {
    let registry = test_registry();
    let mut core = DeviceCore::new();
    let mut channel = NvmeIoChannel::new();
    NvmeControllerIoChannel::create(&registry, &mut core, &mut channel, 0x1, &defaults(), &all_ok());

    let (did_work, calls) = nvme_poll(&channel, &PollEvent { num_completions: 3, qpair_disconnected: false });
    assert_eq!(did_work, 1);
    assert!(calls.is_empty());

    let (did_work, calls) = nvme_poll(&channel, &PollEvent { num_completions: 0, qpair_disconnected: false });
    assert_eq!(did_work, 0);
    assert!(calls.is_empty());
}

#[test]
fn poll_disconnect_reconnects_same_qpair_once() {
    let registry = test_registry();
    let mut core = DeviceCore::new();
    let mut channel = NvmeIoChannel::new();
    NvmeControllerIoChannel::create(&registry, &mut core, &mut channel, 0x1, &defaults(), &all_ok());
    let inner = channel.inner_from_channel().unwrap();
    let (q, g, p) = (inner.qpair, inner.poll_group, inner.poller);

    let (did_work, calls) = nvme_poll(&channel, &PollEvent { num_completions: 0, qpair_disconnected: true });
    assert_eq!(did_work, 0);
    assert_eq!(calls, vec![DriverCall::ReconnectQpair(q)]);

    // No resource was reallocated: the channel's handles are unchanged.
    let after = channel.inner_from_channel().unwrap();
    assert_eq!(after.qpair, q);
    assert_eq!(after.poll_group, g);
    assert_eq!(after.poller, p);
    assert_eq!(core.qpairs.len(), 1);
    assert_eq!(core.poll_groups.len(), 1);
    assert_eq!(core.pollers.len(), 1);
}

#[test]
fn poll_skips_empty_channel() {
    let channel = NvmeIoChannel::new();
    let (did_work, calls) = nvme_poll(&channel, &PollEvent { num_completions: 5, qpair_disconnected: true });
    assert_eq!(did_work, 0);
    assert!(calls.is_empty());
}

#[test]
fn disconnect_callback_issues_reconnect() {
    assert_eq!(disconnected_qpair_cb(9), DriverCall::ReconnectQpair(9));
}

#[test]
fn qpair_state_machine() {
    assert_eq!(qpair_next_state(QpairState::Created, QpairEvent::Connect), QpairState::Connected);
    assert_eq!(
        qpair_next_state(QpairState::Connected, QpairEvent::DisconnectObserved),
        QpairState::Disconnected
    );
    assert_eq!(
        qpair_next_state(QpairState::Disconnected, QpairEvent::ReconnectIssued),
        QpairState::Reconnecting
    );
    assert_eq!(
        qpair_next_state(QpairState::Reconnecting, QpairEvent::ReconnectDone),
        QpairState::Connected
    );
    assert_eq!(qpair_next_state(QpairState::Connected, QpairEvent::Destroy), QpairState::Destroyed);
    // Destroyed is terminal.
    assert_eq!(qpair_next_state(QpairState::Destroyed, QpairEvent::Connect), QpairState::Destroyed);
    assert_eq!(
        qpair_next_state(QpairState::Destroyed, QpairEvent::ReconnectDone),
        QpairState::Destroyed
    );
    // Unrelated events leave the state alone.
    assert_eq!(qpair_next_state(QpairState::Created, QpairEvent::ReconnectDone), QpairState::Created);
}

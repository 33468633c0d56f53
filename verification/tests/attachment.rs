use nvmx_channel::attach::{
    attach_target, detach_target, str_eq, AttachError, AttachReply, BdevList, DetachError,
    NvmeCreateCtx, NvmfBdev, ADRFAM_IPV4, IO_FLAG_PRCHK_GUARD, IO_FLAG_PRCHK_REFTAG, MAX_NAMESPACES,
    TRANSPORT_TCP,
};

fn request(name: &str) -> NvmfBdev {
    let mut args = NvmfBdev::default();
    args.name = name.to_string();
    args.trtype = "TCP".to_string();
    args.adrfam = "IPv4".to_string();
    args.traddr = "10.0.0.5".to_string();
    args.trsvcid = "4420".to_string();
    args.subnqn = "nqn.test-subsys".to_string();
    args
}

fn good_reply(assigned: &str) -> AttachReply {
    AttachReply { call_errno: 0, completion_rc: 0, assigned_name: assigned.to_string() }
}

#[test]
fn attach_success_registers_assigned_name() {
    let mut bdevs = BdevList::new();
    let (ctx, r) = attach_target(&mut bdevs, &request("nvmf://a"), &good_reply("nvmf://an1"));
    assert!(ctx.is_some());
    assert_eq!(r.unwrap(), "nvmf://an1");
    assert!(bdevs.lookup_by_name("nvmf://an1"));
}

#[test]
fn attach_existing_name_conflicts_without_driver_call() {
    let mut bdevs = BdevList::new();
    let (_, r) = attach_target(&mut bdevs, &request("nvmf://a"), &good_reply("nvmf://a"));
    r.unwrap();

    // The name now exists: no creation call is assembled at all.
    let (ctx, r) = attach_target(&mut bdevs, &request("nvmf://a"), &good_reply("nvmf://an2"));
    assert!(ctx.is_none());
    assert_eq!(r.unwrap_err(), AttachError::StateConflict);
    assert!(!bdevs.lookup_by_name("nvmf://an2"));
}

#[test]
fn attach_rejected_call_maps_to_invalid_params() {
    let mut bdevs = BdevList::new();
    let reply = AttachReply { call_errno: 22, completion_rc: 0, assigned_name: "n".to_string() };
    let (ctx, r) = attach_target(&mut bdevs, &request("nvmf://a"), &reply);
    assert!(ctx.is_some());
    assert_eq!(r.unwrap_err(), AttachError::InvalidParams { errno: 22 });
    assert!(!bdevs.lookup_by_name("n"));
}

#[test]
fn attach_failed_completion_maps_to_creation_failure() {
    let mut bdevs = BdevList::new();
    let reply = AttachReply { call_errno: 0, completion_rc: -5, assigned_name: "n".to_string() };
    let (ctx, r) = attach_target(&mut bdevs, &request("nvmf://a"), &reply);
    assert!(ctx.is_some());
    assert_eq!(r.unwrap_err(), AttachError::CreationFailed { errno: -5 });
    assert!(!bdevs.lookup_by_name("n"));
}

#[test]
fn completion_after_abandoned_wait_is_discarded() {
    // The awaiting side is gone: the handler delivers nothing and does not fault.
    assert!(NvmfBdev::nvme_done(0, false).is_none());
    assert!(NvmfBdev::nvme_done(-7, false).is_none());
    // With a listener, the errno is mapped and delivered.
    assert_eq!(NvmfBdev::nvme_done(0, true), Some(Ok(())));
    assert_eq!(NvmfBdev::nvme_done(-7, true), Some(Err(-7)));
}

#[test]
fn detach_unknown_name_has_no_side_effects() {
    let mut bdevs = BdevList::new();
    let (_, r) = attach_target(&mut bdevs, &request("nvmf://a"), &good_reply("existing"));
    r.unwrap();

    let r = detach_target(&mut bdevs, "missing", 0);
    assert_eq!(r.unwrap_err(), DetachError::LookupFailure);
    assert!(bdevs.lookup_by_name("existing"));
    assert_eq!(bdevs.names.len(), 1);
}

#[test]
fn detach_removes_the_device() {
    let mut bdevs = BdevList::new();
    let (_, r) = attach_target(&mut bdevs, &request("nvmf://a"), &good_reply("dev0"));
    r.unwrap();

    detach_target(&mut bdevs, "dev0", 0).unwrap();
    assert!(!bdevs.lookup_by_name("dev0"));
    assert_eq!(bdevs.names.len(), 0);
}

#[test]
fn detach_failed_delete_keeps_the_device() {
    let mut bdevs = BdevList::new();
    let (_, r) = attach_target(&mut bdevs, &request("nvmf://a"), &good_reply("dev0"));
    r.unwrap();

    let r = detach_target(&mut bdevs, "dev0", -16);
    assert_eq!(r.unwrap_err(), DetachError::DeleteFailed { errno: -16 });
    assert!(bdevs.lookup_by_name("dev0"));
}

#[test]
fn bdev_methods_delegate() {
    let mut bdevs = BdevList::new();
    let (ctx, r) = request("nvmf://a").create(&mut bdevs, &good_reply("dev0"));
    assert!(ctx.is_some());
    assert_eq!(r.unwrap(), "dev0");

    let r = request("nvmf://a").destroy(&mut bdevs, "dev0", 0);
    assert!(r.is_ok());
    assert!(!bdevs.lookup_by_name("dev0"));

    let r = request("nvmf://a").destroy(&mut bdevs, "dev0", 0);
    assert_eq!(r.unwrap_err(), DetachError::LookupFailure);
}

#[test]
fn create_ctx_copies_the_request() {
    let mut args = request("nvmf://a");
    args.hostnqn = "nqn.host".to_string();
    args.hostaddr = "192.168.1.2".to_string();
    args.hostsvcid = "4421".to_string();
    let ctx = NvmeCreateCtx::new(&args);
    assert_eq!(ctx.name, "nvmf://a");
    assert_eq!(ctx.count as usize, MAX_NAMESPACES);
    assert_eq!(ctx.names.len(), MAX_NAMESPACES);
    assert_eq!(ctx.names[0], "");
    assert_eq!(ctx.transport_id.trtype, TRANSPORT_TCP);
    assert_eq!(ctx.transport_id.adrfam, ADRFAM_IPV4);
    assert_eq!(ctx.transport_id.traddr, "10.0.0.5");
    assert_eq!(ctx.transport_id.trsvcid, "4420");
    assert_eq!(ctx.transport_id.subnqn, "nqn.test-subsys");
    assert_eq!(ctx.host_id.hostaddr, "192.168.1.2");
    assert_eq!(ctx.host_id.hostsvcid, "4421");
}

#[test]
fn io_flags_set_the_protection_bits() {
    let mut args = request("nvmf://a");
    assert_eq!(args.io_flags(), 0);
    args.prchk_reftag = true;
    assert_eq!(args.io_flags(), IO_FLAG_PRCHK_REFTAG);
    args.prchk_guard = true;
    assert_eq!(args.io_flags(), IO_FLAG_PRCHK_REFTAG | IO_FLAG_PRCHK_GUARD);
    args.prchk_reftag = false;
    assert_eq!(args.io_flags(), IO_FLAG_PRCHK_GUARD);
    assert_eq!(IO_FLAG_PRCHK_REFTAG, 1 << 26);
    assert_eq!(IO_FLAG_PRCHK_GUARD, 1 << 28);
}

#[test]
fn string_equality_compares_characters() {
    assert!(str_eq("nqn.a", "nqn.a"));
    assert!(!str_eq("nqn.a", "nqn.b"));
    assert!(!str_eq("nqn", "nqn.a"));
    assert!(str_eq("", ""));
}

use cloud_hypervisor_command_builder::to_command::ToCommand;
use cloud_hypervisor_command_builder::{
    ByteSize, CloudHypervisorInstance, Console, CpuAffinity, CpusBuilder, DebugConsole,
    DebugConsoleType, DiskBuilder, FsBuilder, MemoryZone, Net, Numa, OnOff,
    PathOrFileDescriptorOption, Pmem, Restore, Rng, SecComp, Serial, SgxEpc, VhostMode,
    RateLimitGroup,
};

#[test]
fn empty_instances_are_dropped() {
    let mut ch = CloudHypervisorInstance::new("/vmm".to_string());
    ch.disk(DiskBuilder::default().build().unwrap());
    ch.fs(FsBuilder::default().build().unwrap());
    ch.rate_limit_group(RateLimitGroup::default());
    assert_eq!(ch.to_command(), ["/vmm"]);
}

#[test]
fn empty_instance_between_full_ones_is_skipped() {
    let mut ch = CloudHypervisorInstance::new("/vmm".to_string());
    ch.disk(DiskBuilder::default().path("/dev/a").build().unwrap());
    ch.disk(DiskBuilder::default().build().unwrap());
    ch.disk(DiskBuilder::default().path("/dev/c").build().unwrap());
    assert_eq!(
        ch.to_command(),
        ["/vmm", "--disk", "path=/dev/a", "--disk", "path=/dev/c"]
    );
}

#[test]
fn rate_limit_group_renders_own_flag() {
    let mut ch = CloudHypervisorInstance::new("/vmm".to_string());
    let mut g = RateLimitGroup::default();
    g.bw_size = Some(ByteSize::mb(1));
    g.bw_one_time_burst = Some(ByteSize::b(512));
    g.ops_refill_time = Some(7);
    g.id = Some("grp".to_string());
    ch.rate_limit_group(g);
    assert_eq!(
        ch.to_command(),
        [
            "/vmm",
            "--rate_limit_group",
            "bw_size=1000000,bw_one_time_burst=512,ops_refill_time=7,id=grp",
        ]
    );
}

#[test]
fn net_renders_lists_and_modes() {
    let mut ch = CloudHypervisorInstance::new("/vmm".to_string());
    let mut net = Net::default();
    net.tap = Some("tap0".to_string());
    net.ip = Some("192.168.1.10".to_string());
    net.mask = Some(24);
    net.mac = Some("12:34:56:78:9a:bc".to_string());
    net.fd = Some(vec![3, 4]);
    net.vhost_mode = Some(VhostMode::Client);
    net.offload_tso = Some(OnOff::On);
    ch.net(net);
    assert_eq!(
        ch.to_command(),
        [
            "/vmm",
            "--net",
            "tap=tap0,ip=192.168.1.10,mask=24,mac=12:34:56:78:9a:bc,fd=3,4,vhost_mode=client,offload_tso=on",
        ]
    );
}

#[test]
fn memory_zone_renders_own_flag() {
    let mut ch = CloudHypervisorInstance::new("/vmm".to_string());
    let mut zone = MemoryZone::default();
    zone.size = Some(ByteSize::mb(512));
    zone.file = Some("/dev/shm/zone".to_string());
    zone.host_numa_node = Some(1);
    zone.id = Some("zone0".to_string());
    ch.memory_zone(zone);
    assert_eq!(
        ch.to_command(),
        [
            "/vmm",
            "--memory-zone",
            "size=512000000,file=/dev/shm/zone,host_numa_node=1,id=zone0",
        ]
    );
}

#[test]
fn numa_lists_join_without_brackets() {
    let mut ch = CloudHypervisorInstance::new("/vmm".to_string());
    let mut numa = Numa::default();
    numa.guest_numa_id = Some("0".to_string());
    numa.cpus = Some(vec![0, 1]);
    numa.distances = Some(vec![10, 20]);
    numa.memory_zones = Some(vec!["zone0".to_string(), "zone1".to_string()]);
    numa.pci_segments = Some(vec![]);
    ch.numa(numa);
    assert_eq!(
        ch.to_command(),
        [
            "/vmm",
            "--numa",
            "guest_numa_id=0,cpus=0,1,distances=10,20,memory_zones=zone0,zone1,pci_segments=",
        ]
    );
}

#[test]
fn pmem_renders_own_flag() {
    let mut ch = CloudHypervisorInstance::new("/vmm".to_string());
    let mut pmem = Pmem::default();
    pmem.file = Some("/pmem0".to_string());
    pmem.size = Some(65536);
    pmem.discard_writes = Some(OnOff::On);
    ch.pmem(pmem);
    assert_eq!(
        ch.to_command(),
        ["/vmm", "--pmem", "file=/pmem0,size=65536,discard_writes=on"]
    );
}

#[test]
fn restore_renders_both_fields() {
    let mut ch = CloudHypervisorInstance::new("/vmm".to_string());
    ch.restore(Restore {
        source_url: Some("file:///snapshot".to_string()),
        prefault: Some(OnOff::Off),
    });
    assert_eq!(
        ch.to_command(),
        ["/vmm", "--restore", "source_url=file:///snapshot,prefault=off"]
    );
}

#[test]
fn sgx_epc_renders_own_flag() {
    let mut ch = CloudHypervisorInstance::new("/vmm".to_string());
    ch.sgx_epc(SgxEpc {
        id: Some("epc0".to_string()),
        size: Some("64M".to_string()),
        prefault: Some(OnOff::On),
    });
    assert_eq!(
        ch.to_command(),
        ["/vmm", "--sgx-epc", "id=epc0,size=64M,prefault=on"]
    );
}

#[test]
fn debug_console_renders_kind_and_iobase() {
    let mut ch = CloudHypervisorInstance::new("/vmm".to_string());
    ch.debug_console(DebugConsole {
        console_type: Some(DebugConsoleType::File("/dc.log".to_string())),
        iobase: Some("0xe9".to_string()),
    });
    assert_eq!(
        ch.to_command(),
        ["/vmm", "--debug-console", "file=/dc.log,iobase=0xe9"]
    );
}

#[test]
fn tagged_variants_render_even_bare_tags() {
    let mut ch = CloudHypervisorInstance::new("/vmm".to_string());
    ch.serial(Serial::Off);
    assert_eq!(ch.to_command(), ["/vmm", "--serial", "off"]);

    let mut ch = CloudHypervisorInstance::new("/vmm".to_string());
    ch.serial(Serial::File("/serial.log".to_string()));
    ch.console(Console::Iommu(OnOff::On));
    ch.rng(Rng::Iommu(OnOff::Off));
    assert_eq!(
        ch.to_command(),
        [
            "/vmm", "--rng", "iommu=off", "--serial", "file=/serial.log", "--console", "iommu=on",
        ]
    );
}

#[test]
fn seccomp_variants_render_fixed_literals() {
    for (mode, text) in [
        (SecComp::True, "true"),
        (SecComp::False, "false"),
        (SecComp::Log, "log"),
    ] {
        let mut ch = CloudHypervisorInstance::new("/vmm".to_string());
        ch.seccomp(mode);
        assert_eq!(ch.to_command(), ["/vmm", "--seccomp", text]);
    }
}

#[test]
fn path_or_fd_always_keyed() {
    let mut ch = CloudHypervisorInstance::new("/vmm".to_string());
    ch.api_socket(PathOrFileDescriptorOption::Fd(9));
    ch.event_monitor(PathOrFileDescriptorOption::Path("/events".to_string()));
    assert_eq!(
        ch.to_command(),
        [
            "/vmm",
            "--api-socket",
            "fd=9",
            "--event-monitor",
            "path=/events",
        ]
    );
}

#[test]
fn scalar_paths_render_bare() {
    let mut ch = CloudHypervisorInstance::new("/vmm".to_string());
    ch.log_file("/log".to_string());
    ch.tpm("/tpm0".to_string());
    assert_eq!(
        ch.to_command(),
        ["/vmm", "--log-file", "/log", "--tpm", "/tpm0"]
    );
}

#[test]
fn empty_bracketed_lists_are_suppressed() {
    let mut ch = CloudHypervisorInstance::new("/vmm".to_string());
    ch.cpus(
        CpusBuilder::default()
            .boot(1)
            .affinity(vec![])
            .build()
            .unwrap(),
    );
    assert_eq!(ch.to_command(), ["/vmm", "--cpus", "boot=1"]);
}

#[test]
fn affinity_entry_with_no_hosts_renders_empty_brackets() {
    let mut ch = CloudHypervisorInstance::new("/vmm".to_string());
    ch.cpus(
        CpusBuilder::default()
            .affinity(vec![CpuAffinity {
                vcpu: 3,
                host_cpus: vec![],
            }])
            .build()
            .unwrap(),
    );
    assert_eq!(ch.to_command(), ["/vmm", "--cpus", "affinity=[3@[]]"]);
}

#[test]
fn group_to_command_is_empty_for_all_absent_group() {
    let cpus = CpusBuilder::default().build().unwrap();
    assert_eq!(cpus.to_command(), Vec::<String>::new());
    assert_eq!(cpus.to_single_command(), "");
}

#[test]
fn builders_never_fail() {
    assert!(CpusBuilder::default().build().is_ok());
    assert!(DiskBuilder::default().path("/d").build().is_ok());
}

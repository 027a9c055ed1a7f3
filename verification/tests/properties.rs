use cloud_hypervisor_command_builder::to_command::ToCommand;
use cloud_hypervisor_command_builder::{
    ByteSize, CloudHypervisorInstance, Console, DiskBuilder, MemoryBuilder, OnOff,
};

#[test]
fn render_is_deterministic() {
    let mut ch = CloudHypervisorInstance::new("/vmm".to_string());
    ch.memory(MemoryBuilder::default().size(ByteSize::gb(4)).build().unwrap());
    ch.disk(DiskBuilder::default().path("/dev/disk0").build().unwrap());
    ch.pvpanic(true);
    ch.v();

    let first = ch.to_command();
    let second = ch.to_command();
    assert_eq!(first, second);
    assert_eq!(ch.to_single_command(), ch.to_single_command());
}

#[test]
fn all_absent_renders_only_path() {
    let ch = CloudHypervisorInstance::new("/vmm".to_string());
    assert_eq!(ch.to_command(), ["/vmm"]);
    assert_eq!(ch.to_single_command(), "/vmm");
}

#[test]
fn pvpanic_true_emits_bare_flag() {
    let mut ch = CloudHypervisorInstance::new("/vmm".to_string());
    ch.pvpanic(true);
    assert_eq!(ch.to_command(), ["/vmm", "--pvpanic"]);
}

#[test]
fn pvpanic_false_emits_nothing() {
    let mut ch = CloudHypervisorInstance::new("/vmm".to_string());
    ch.pvpanic(false);
    assert_eq!(ch.to_command(), ["/vmm"]);
}

#[test]
fn watchdog_false_emits_nothing() {
    let mut ch = CloudHypervisorInstance::new("/vmm".to_string());
    ch.watchdog(false);
    assert_eq!(ch.to_command(), ["/vmm"]);
    ch.watchdog(true);
    assert_eq!(ch.to_command(), ["/vmm", "--watchdog"]);
}

#[test]
fn disks_keep_insertion_order() {
    let mut ch = CloudHypervisorInstance::new("/vmm".to_string());
    ch.disk(DiskBuilder::default().path("/dev/a").build().unwrap());
    ch.disk(DiskBuilder::default().path("/dev/b").build().unwrap());
    ch.disk(DiskBuilder::default().path("/dev/c").build().unwrap());
    assert_eq!(
        ch.to_command(),
        [
            "/vmm", "--disk", "path=/dev/a", "--disk", "path=/dev/b", "--disk", "path=/dev/c",
        ]
    );
}

#[test]
fn byte_sizes_render_as_si_byte_counts() {
    assert_eq!(ByteSize::gb(4).0, 4_000_000_000);
    assert_eq!(ByteSize::mb(100).0, 100_000_000);

    let mut ch = CloudHypervisorInstance::new("/vmm".to_string());
    ch.memory(MemoryBuilder::default().size(ByteSize::gb(4)).build().unwrap());
    assert_eq!(ch.to_command(), ["/vmm", "--memory", "size=4000000000"]);

    let mut ch = CloudHypervisorInstance::new("/vmm".to_string());
    ch.memory(
        MemoryBuilder::default()
            .size(ByteSize::mb(100))
            .build()
            .unwrap(),
    );
    assert_eq!(ch.to_command(), ["/vmm", "--memory", "size=100000000"]);
}

#[test]
fn verbosity_flags_come_last() {
    let mut ch = CloudHypervisorInstance::new("/vmm".to_string());
    ch.memory(MemoryBuilder::default().size(ByteSize::gb(1)).build().unwrap());
    ch.pvpanic(true);
    ch.v();
    ch.v();
    assert_eq!(
        ch.to_command(),
        ["/vmm", "--memory", "size=1000000000", "--pvpanic", "-v", "-v"]
    );
}

#[test]
fn end_to_end_scenario() {
    let mut ch = CloudHypervisorInstance::new("/vmm".to_string());
    ch.memory(
        MemoryBuilder::default()
            .size(ByteSize::gb(4))
            .mergeable(OnOff::On)
            .build()
            .unwrap(),
    );
    ch.console(Console::Pty);
    ch.pvpanic(true);
    ch.v();
    ch.v();
    assert_eq!(
        ch.to_command(),
        [
            "/vmm",
            "--memory",
            "size=4000000000,mergeable=on",
            "--console",
            "pty",
            "--pvpanic",
            "-v",
            "-v",
        ]
    );
}

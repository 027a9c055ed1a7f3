//! The root configuration aggregate: one field per option group, setters
//! for singular groups, accumulators for multi-valued ones, and the
//! renderer that turns the whole into the monitor's argv token sequence.

use vstd::prelude::*;
use crate::text::{views, join_with};
use crate::tokens::{opt_group_tokens, opt_list_tokens, opt_tag_tokens, opt_plain_tokens,
    presence_tokens, verbosity_tokens, seq_of, push_opt_group, push_opt_list, push_opt_tag,
    push_opt_plain, push_presence, push_verbosity};
use crate::to_command::ToCommand;
use crate::cpus::Cpus;
use crate::devices::{Device, Numa, SgxEpc, UserDevice, Vdpa, Vsock};
use crate::memory::{Balloon, Memory, MemoryZone};
use crate::net::Net;
use crate::platform::{DebugConsole, Platform, Restore};
use crate::storage::{Disk, Fs, Pmem, RateLimitGroup};
use crate::values::{Console, PathOrFileDescriptorOption, Rng, SecComp, Serial};

verus! {

/// The whole VM instance configuration: the mandatory executable path and
/// one optional field per option group. Every optional field means
/// "absent = do not emit".
#[derive(Clone, Debug, Default, PartialEq, Eq)]
pub struct CloudHypervisorInstance {
    pub bin_path: String,
    pub cpus: Option<Cpus>,
    pub platform: Option<Platform>,
    pub memory: Option<Memory>,
    pub memory_zone: Option<MemoryZone>,
    pub firmware: Option<String>,
    pub kernel: Option<String>,
    pub initramfs: Option<String>,
    pub cmdline: Option<String>,
    pub rate_limit_group: Option<Vec<RateLimitGroup>>,
    pub disk: Option<Vec<Disk>>,
    pub net: Option<Vec<Net>>,
    pub rng: Option<Rng>,
    pub balloon: Option<Balloon>,
    pub fs: Option<Vec<Fs>>,
    pub pmem: Option<Vec<Pmem>>,
    pub serial: Option<Serial>,
    pub console: Option<Console>,
    pub device: Option<Vec<Device>>,
    pub user_device: Option<Vec<UserDevice>>,
    pub vdpa: Option<Vec<Vdpa>>,
    pub vsock: Option<Vsock>,
    pub pvpanic: Option<bool>,
    pub numa: Option<Vec<Numa>>,
    pub watchdog: Option<bool>,
    pub log_file: Option<String>,
    pub api_socket: Option<PathOrFileDescriptorOption>,
    pub event_monitor: Option<PathOrFileDescriptorOption>,
    pub restore: Option<Restore>,
    pub seccomp: Option<SecComp>,
    pub tpm: Option<String>,
    pub sgx_epc: Option<Vec<SgxEpc>>,
    pub debug_console: Option<DebugConsole>,
    pub v: Option<u8>,
}

/// Whether every optional field of the configuration is absent.
pub open spec fn all_absent(c: CloudHypervisorInstance) -> bool {
    &&& c.cpus is None
    &&& c.platform is None
    &&& c.memory is None
    &&& c.memory_zone is None
    &&& c.firmware is None
    &&& c.kernel is None
    &&& c.initramfs is None
    &&& c.cmdline is None
    &&& c.rate_limit_group is None
    &&& c.disk is None
    &&& c.net is None
    &&& c.rng is None
    &&& c.balloon is None
    &&& c.fs is None
    &&& c.pmem is None
    &&& c.serial is None
    &&& c.console is None
    &&& c.device is None
    &&& c.user_device is None
    &&& c.vdpa is None
    &&& c.vsock is None
    &&& c.pvpanic is None
    &&& c.numa is None
    &&& c.watchdog is None
    &&& c.log_file is None
    &&& c.api_socket is None
    &&& c.event_monitor is None
    &&& c.restore is None
    &&& c.seccomp is None
    &&& c.tpm is None
    &&& c.sgx_epc is None
    &&& c.debug_console is None
    &&& c.v is None
}

/// The verbosity count a configuration holds: zero while the counter is
/// absent.
pub open spec fn v_count(c: CloudHypervisorInstance) -> nat {
    match c.v {
        Option::None => 0nat,
        Option::Some(n) => n as nat,
    }
}

impl CloudHypervisorInstance {
    /// A configuration with the given executable path and every option
    /// group absent.
    pub fn new(bin_path: String) -> (r: CloudHypervisorInstance)
        ensures
            r == (CloudHypervisorInstance {
                bin_path,
                cpus: Option::None,
                platform: Option::None,
                memory: Option::None,
                memory_zone: Option::None,
                firmware: Option::None,
                kernel: Option::None,
                initramfs: Option::None,
                cmdline: Option::None,
                rate_limit_group: Option::None,
                disk: Option::None,
                net: Option::None,
                rng: Option::None,
                balloon: Option::None,
                fs: Option::None,
                pmem: Option::None,
                serial: Option::None,
                console: Option::None,
                device: Option::None,
                user_device: Option::None,
                vdpa: Option::None,
                vsock: Option::None,
                pvpanic: Option::None,
                numa: Option::None,
                watchdog: Option::None,
                log_file: Option::None,
                api_socket: Option::None,
                event_monitor: Option::None,
                restore: Option::None,
                seccomp: Option::None,
                tpm: Option::None,
                sgx_epc: Option::None,
                debug_console: Option::None,
                v: Option::None,
            }),
    {
        CloudHypervisorInstance {
            bin_path,
            cpus: Option::None,
            platform: Option::None,
            memory: Option::None,
            memory_zone: Option::None,
            firmware: Option::None,
            kernel: Option::None,
            initramfs: Option::None,
            cmdline: Option::None,
            rate_limit_group: Option::None,
            disk: Option::None,
            net: Option::None,
            rng: Option::None,
            balloon: Option::None,
            fs: Option::None,
            pmem: Option::None,
            serial: Option::None,
            console: Option::None,
            device: Option::None,
            user_device: Option::None,
            vdpa: Option::None,
            vsock: Option::None,
            pvpanic: Option::None,
            numa: Option::None,
            watchdog: Option::None,
            log_file: Option::None,
            api_socket: Option::None,
            event_monitor: Option::None,
            restore: Option::None,
            seccomp: Option::None,
            tpm: Option::None,
            sgx_epc: Option::None,
            debug_console: Option::None,
            v: Option::None,
        }
    }

    /// Replaces the CPU spec.
    pub fn cpus(&mut self, cpus: Cpus)
        ensures
            *final(self) == (CloudHypervisorInstance { cpus: Option::Some(cpus), ..*old(self) }),
    {
        self.cpus = Option::Some(cpus);
    }

    /// Replaces the platform spec.
    pub fn platform(&mut self, platform: Platform)
        ensures
            *final(self) == (CloudHypervisorInstance {
                platform: Option::Some(platform),
                ..*old(self)
            }),
    {
        self.platform = Option::Some(platform);
    }

    /// Replaces the memory spec.
    pub fn memory(&mut self, memory: Memory)
        ensures
            *final(self) == (CloudHypervisorInstance {
                memory: Option::Some(memory),
                ..*old(self)
            }),
    {
        self.memory = Option::Some(memory);
    }

    /// Replaces the memory-zone spec.
    pub fn memory_zone(&mut self, memory_zone: MemoryZone)
        ensures
            *final(self) == (CloudHypervisorInstance {
                memory_zone: Option::Some(memory_zone),
                ..*old(self)
            }),
    {
        self.memory_zone = Option::Some(memory_zone);
    }

    /// Replaces the firmware path.
    pub fn firmware(&mut self, firmware: String)
        ensures
            *final(self) == (CloudHypervisorInstance {
                firmware: Option::Some(firmware),
                ..*old(self)
            }),
    {
        self.firmware = Option::Some(firmware);
    }

    /// Replaces the kernel path.
    pub fn kernel(&mut self, kernel: String)
        ensures
            *final(self) == (CloudHypervisorInstance {
                kernel: Option::Some(kernel),
                ..*old(self)
            }),
    {
        self.kernel = Option::Some(kernel);
    }

    /// Replaces the initramfs path.
    pub fn initramfs(&mut self, initramfs: String)
        ensures
            *final(self) == (CloudHypervisorInstance {
                initramfs: Option::Some(initramfs),
                ..*old(self)
            }),
    {
        self.initramfs = Option::Some(initramfs);
    }

    /// Replaces the guest command line.
    pub fn cmdline(&mut self, cmdline: String)
        ensures
            *final(self) == (CloudHypervisorInstance {
                cmdline: Option::Some(cmdline),
                ..*old(self)
            }),
    {
        self.cmdline = Option::Some(cmdline);
    }

    /// Appends one rate-limit group, keeping prior entries.
    pub fn rate_limit_group(&mut self, rate_limit_group: RateLimitGroup)
        ensures
            seq_of(final(self).rate_limit_group) == seq_of(old(self).rate_limit_group).push(
                rate_limit_group,
            ),
            final(self).rate_limit_group is Some,
            *final(self) == (CloudHypervisorInstance {
                rate_limit_group: final(self).rate_limit_group,
                ..*old(self)
            }),
    {
        match self.rate_limit_group.take() {
            Option::None => {
                self.rate_limit_group = Option::Some(vec![rate_limit_group]);
            },
            Option::Some(mut v) => {
                v.push(rate_limit_group);
                self.rate_limit_group = Option::Some(v);
            },
        }
    }

    /// Appends one disk, keeping prior entries.
    pub fn disk(&mut self, disk: Disk)
        ensures
            seq_of(final(self).disk) == seq_of(old(self).disk).push(disk),
            final(self).disk is Some,
            *final(self) == (CloudHypervisorInstance { disk: final(self).disk, ..*old(self) }),
    {
        match self.disk.take() {
            Option::None => {
                self.disk = Option::Some(vec![disk]);
            },
            Option::Some(mut v) => {
                v.push(disk);
                self.disk = Option::Some(v);
            },
        }
    }

    /// Appends one network interface, keeping prior entries.
    pub fn net(&mut self, net: Net)
        ensures
            seq_of(final(self).net) == seq_of(old(self).net).push(net),
            final(self).net is Some,
            *final(self) == (CloudHypervisorInstance { net: final(self).net, ..*old(self) }),
    {
        match self.net.take() {
            Option::None => {
                self.net = Option::Some(vec![net]);
            },
            Option::Some(mut v) => {
                v.push(net);
                self.net = Option::Some(v);
            },
        }
    }

    /// Replaces the RNG source.
    pub fn rng(&mut self, rng: Rng)
        ensures
            *final(self) == (CloudHypervisorInstance { rng: Option::Some(rng), ..*old(self) }),
    {
        self.rng = Option::Some(rng);
    }

    /// Replaces the balloon spec.
    pub fn balloon(&mut self, balloon: Balloon)
        ensures
            *final(self) == (CloudHypervisorInstance {
                balloon: Option::Some(balloon),
                ..*old(self)
            }),
    {
        self.balloon = Option::Some(balloon);
    }

    /// Appends one filesystem share, keeping prior entries.
    pub fn fs(&mut self, fs: Fs)
        ensures
            seq_of(final(self).fs) == seq_of(old(self).fs).push(fs),
            final(self).fs is Some,
            *final(self) == (CloudHypervisorInstance { fs: final(self).fs, ..*old(self) }),
    {
        match self.fs.take() {
            Option::None => {
                self.fs = Option::Some(vec![fs]);
            },
            Option::Some(mut v) => {
                v.push(fs);
                self.fs = Option::Some(v);
            },
        }
    }

    /// Appends one persistent-memory region, keeping prior entries.
    pub fn pmem(&mut self, pmem: Pmem)
        ensures
            seq_of(final(self).pmem) == seq_of(old(self).pmem).push(pmem),
            final(self).pmem is Some,
            *final(self) == (CloudHypervisorInstance { pmem: final(self).pmem, ..*old(self) }),
    {
        match self.pmem.take() {
            Option::None => {
                self.pmem = Option::Some(vec![pmem]);
            },
            Option::Some(mut v) => {
                v.push(pmem);
                self.pmem = Option::Some(v);
            },
        }
    }

    /// Replaces the serial target.
    pub fn serial(&mut self, serial: Serial)
        ensures
            *final(self) == (CloudHypervisorInstance {
                serial: Option::Some(serial),
                ..*old(self)
            }),
    {
        self.serial = Option::Some(serial);
    }

    /// Replaces the console target.
    pub fn console(&mut self, console: Console)
        ensures
            *final(self) == (CloudHypervisorInstance {
                console: Option::Some(console),
                ..*old(self)
            }),
    {
        self.console = Option::Some(console);
    }

    /// Appends one pass-through device, keeping prior entries.
    pub fn device(&mut self, device: Device)
        ensures
            seq_of(final(self).device) == seq_of(old(self).device).push(device),
            final(self).device is Some,
            *final(self) == (CloudHypervisorInstance { device: final(self).device, ..*old(self) }),
    {
        match self.device.take() {
            Option::None => {
                self.device = Option::Some(vec![device]);
            },
            Option::Some(mut v) => {
                v.push(device);
                self.device = Option::Some(v);
            },
        }
    }

    /// Appends one user device, keeping prior entries.
    pub fn user_device(&mut self, user_device: UserDevice)
        ensures
            seq_of(final(self).user_device) == seq_of(old(self).user_device).push(user_device),
            final(self).user_device is Some,
            *final(self) == (CloudHypervisorInstance {
                user_device: final(self).user_device,
                ..*old(self)
            }),
    {
        match self.user_device.take() {
            Option::None => {
                self.user_device = Option::Some(vec![user_device]);
            },
            Option::Some(mut v) => {
                v.push(user_device);
                self.user_device = Option::Some(v);
            },
        }
    }

    /// Appends one vDPA device, keeping prior entries.
    pub fn vdpa(&mut self, vdpa: Vdpa)
        ensures
            seq_of(final(self).vdpa) == seq_of(old(self).vdpa).push(vdpa),
            final(self).vdpa is Some,
            *final(self) == (CloudHypervisorInstance { vdpa: final(self).vdpa, ..*old(self) }),
    {
        match self.vdpa.take() {
            Option::None => {
                self.vdpa = Option::Some(vec![vdpa]);
            },
            Option::Some(mut v) => {
                v.push(vdpa);
                self.vdpa = Option::Some(v);
            },
        }
    }

    /// Replaces the vsock spec.
    pub fn vsock(&mut self, vsock: Vsock)
        ensures
            *final(self) == (CloudHypervisorInstance { vsock: Option::Some(vsock), ..*old(self) }),
    {
        self.vsock = Option::Some(vsock);
    }

    /// Sets the PV-panic presence flag.
    pub fn pvpanic(&mut self, pvpanic: bool)
        ensures
            *final(self) == (CloudHypervisorInstance {
                pvpanic: Option::Some(pvpanic),
                ..*old(self)
            }),
    {
        self.pvpanic = Option::Some(pvpanic);
    }

    /// Appends one NUMA node, keeping prior entries.
    pub fn numa(&mut self, numa: Numa)
        ensures
            seq_of(final(self).numa) == seq_of(old(self).numa).push(numa),
            final(self).numa is Some,
            *final(self) == (CloudHypervisorInstance { numa: final(self).numa, ..*old(self) }),
    {
        match self.numa.take() {
            Option::None => {
                self.numa = Option::Some(vec![numa]);
            },
            Option::Some(mut v) => {
                v.push(numa);
                self.numa = Option::Some(v);
            },
        }
    }

    /// Sets the watchdog presence flag.
    pub fn watchdog(&mut self, watchdog: bool)
        ensures
            *final(self) == (CloudHypervisorInstance {
                watchdog: Option::Some(watchdog),
                ..*old(self)
            }),
    {
        self.watchdog = Option::Some(watchdog);
    }

    /// Replaces the log-file path.
    pub fn log_file(&mut self, log_file: String)
        ensures
            *final(self) == (CloudHypervisorInstance {
                log_file: Option::Some(log_file),
                ..*old(self)
            }),
    {
        self.log_file = Option::Some(log_file);
    }

    /// Replaces the API-socket target.
    pub fn api_socket(&mut self, api_socket: PathOrFileDescriptorOption)
        ensures
            *final(self) == (CloudHypervisorInstance {
                api_socket: Option::Some(api_socket),
                ..*old(self)
            }),
    {
        self.api_socket = Option::Some(api_socket);
    }

    /// Replaces the event-monitor target.
    pub fn event_monitor(&mut self, event_monitor: PathOrFileDescriptorOption)
        ensures
            *final(self) == (CloudHypervisorInstance {
                event_monitor: Option::Some(event_monitor),
                ..*old(self)
            }),
    {
        self.event_monitor = Option::Some(event_monitor);
    }

    /// Replaces the restore spec.
    pub fn restore(&mut self, restore: Restore)
        ensures
            *final(self) == (CloudHypervisorInstance {
                restore: Option::Some(restore),
                ..*old(self)
            }),
    {
        self.restore = Option::Some(restore);
    }

    /// Replaces the seccomp mode.
    pub fn seccomp(&mut self, seccomp: SecComp)
        ensures
            *final(self) == (CloudHypervisorInstance {
                seccomp: Option::Some(seccomp),
                ..*old(self)
            }),
    {
        self.seccomp = Option::Some(seccomp);
    }

    /// Replaces the TPM path.
    pub fn tpm(&mut self, tpm: String)
        ensures
            *final(self) == (CloudHypervisorInstance { tpm: Option::Some(tpm), ..*old(self) }),
    {
        self.tpm = Option::Some(tpm);
    }

    /// Appends one SGX EPC section, keeping prior entries.
    pub fn sgx_epc(&mut self, sgx_epc: SgxEpc)
        ensures
            seq_of(final(self).sgx_epc) == seq_of(old(self).sgx_epc).push(sgx_epc),
            final(self).sgx_epc is Some,
            *final(self) == (CloudHypervisorInstance {
                sgx_epc: final(self).sgx_epc,
                ..*old(self)
            }),
    {
        match self.sgx_epc.take() {
            Option::None => {
                self.sgx_epc = Option::Some(vec![sgx_epc]);
            },
            Option::Some(mut v) => {
                v.push(sgx_epc);
                self.sgx_epc = Option::Some(v);
            },
        }
    }

    /// Replaces the debug-console spec.
    pub fn debug_console(&mut self, debug_console: DebugConsole)
        ensures
            *final(self) == (CloudHypervisorInstance {
                debug_console: Option::Some(debug_console),
                ..*old(self)
            }),
    {
        self.debug_console = Option::Some(debug_console);
    }

    /// Raises the verbosity by one: the counter starts at one on the first
    /// call and grows by one per further call.
    pub fn v(&mut self)
        requires
            v_count(*old(self)) < u8::MAX,
        ensures
            final(self).v == Option::Some((v_count(*old(self)) + 1) as u8),
            *final(self) == (CloudHypervisorInstance { v: final(self).v, ..*old(self) }),
    {
        match self.v.take() {
            Option::None => {
                self.v = Option::Some(1);
            },
            Option::Some(n) => {
                self.v = Option::Some(n + 1);
            },
        }
    }
}

impl ToCommand for CloudHypervisorInstance {
    /// The full canonical rendering: the executable path first, then every
    /// option group in the fixed order, the verbosity flags last.
    open spec fn command_view(&self) -> Seq<Seq<char>> {
        seq![self.bin_path@] + opt_group_tokens("--cpus"@, self.cpus) + opt_group_tokens(
            "--platform"@,
            self.platform,
        ) + opt_group_tokens("--memory"@, self.memory) + opt_group_tokens(
            "--memory-zone"@,
            self.memory_zone,
        ) + opt_plain_tokens("--firmware"@, self.firmware) + opt_plain_tokens(
            "--kernel"@,
            self.kernel,
        ) + opt_plain_tokens("--initramfs"@, self.initramfs) + opt_plain_tokens(
            "--cmdline"@,
            self.cmdline,
        ) + opt_list_tokens("--rate_limit_group"@, self.rate_limit_group) + opt_list_tokens(
            "--disk"@,
            self.disk,
        ) + opt_list_tokens("--net"@, self.net) + opt_tag_tokens("--rng"@, self.rng)
            + opt_group_tokens("--balloon"@, self.balloon) + opt_list_tokens("--fs"@, self.fs)
            + opt_list_tokens("--pmem"@, self.pmem) + opt_tag_tokens("--serial"@, self.serial)
            + opt_tag_tokens("--console"@, self.console) + opt_list_tokens(
            "--device"@,
            self.device,
        ) + opt_list_tokens("--user-device"@, self.user_device) + opt_group_tokens(
            "--vsock"@,
            self.vsock,
        ) + opt_list_tokens("--vdpa"@, self.vdpa) + presence_tokens("--pvpanic"@, self.pvpanic)
            + opt_list_tokens("--numa"@, self.numa) + presence_tokens(
            "--watchdog"@,
            self.watchdog,
        ) + opt_plain_tokens("--log-file"@, self.log_file) + opt_tag_tokens(
            "--api-socket"@,
            self.api_socket,
        ) + opt_tag_tokens("--event-monitor"@, self.event_monitor) + opt_group_tokens(
            "--restore"@,
            self.restore,
        ) + opt_tag_tokens("--seccomp"@, self.seccomp) + opt_plain_tokens("--tpm"@, self.tpm)
            + opt_list_tokens("--sgx-epc"@, self.sgx_epc) + opt_group_tokens(
            "--debug-console"@,
            self.debug_console,
        ) + verbosity_tokens(self.v)
    }

    fn to_command(&self) -> (r: Vec<String>) {
        let mut cmd: Vec<String> = Vec::new();
        cmd.push(self.bin_path.clone());
        push_opt_group(&mut cmd, "--cpus", &self.cpus);
        push_opt_group(&mut cmd, "--platform", &self.platform);
        push_opt_group(&mut cmd, "--memory", &self.memory);
        push_opt_group(&mut cmd, "--memory-zone", &self.memory_zone);
        push_opt_plain(&mut cmd, "--firmware", &self.firmware);
        push_opt_plain(&mut cmd, "--kernel", &self.kernel);
        push_opt_plain(&mut cmd, "--initramfs", &self.initramfs);
        push_opt_plain(&mut cmd, "--cmdline", &self.cmdline);
        push_opt_list(&mut cmd, "--rate_limit_group", &self.rate_limit_group);
        push_opt_list(&mut cmd, "--disk", &self.disk);
        push_opt_list(&mut cmd, "--net", &self.net);
        push_opt_tag(&mut cmd, "--rng", &self.rng);
        push_opt_group(&mut cmd, "--balloon", &self.balloon);
        push_opt_list(&mut cmd, "--fs", &self.fs);
        push_opt_list(&mut cmd, "--pmem", &self.pmem);
        push_opt_tag(&mut cmd, "--serial", &self.serial);
        push_opt_tag(&mut cmd, "--console", &self.console);
        push_opt_list(&mut cmd, "--device", &self.device);
        push_opt_list(&mut cmd, "--user-device", &self.user_device);
        push_opt_group(&mut cmd, "--vsock", &self.vsock);
        push_opt_list(&mut cmd, "--vdpa", &self.vdpa);
        push_presence(&mut cmd, "--pvpanic", &self.pvpanic);
        push_opt_list(&mut cmd, "--numa", &self.numa);
        push_presence(&mut cmd, "--watchdog", &self.watchdog);
        push_opt_plain(&mut cmd, "--log-file", &self.log_file);
        push_opt_tag(&mut cmd, "--api-socket", &self.api_socket);
        push_opt_tag(&mut cmd, "--event-monitor", &self.event_monitor);
        push_opt_group(&mut cmd, "--restore", &self.restore);
        push_opt_tag(&mut cmd, "--seccomp", &self.seccomp);
        push_opt_plain(&mut cmd, "--tpm", &self.tpm);
        push_opt_list(&mut cmd, "--sgx-epc", &self.sgx_epc);
        push_opt_group(&mut cmd, "--debug-console", &self.debug_console);
        push_verbosity(&mut cmd, &self.v);
        proof {
            assert(views(cmd@) =~= self.command_view());
        }
        cmd
    }

    fn to_single_command(&self) -> (r: String) {
        let cmd = self.to_command();
        join_with(&cmd, " ")
    }
}

} // verus!

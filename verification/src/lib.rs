//! Configuration model and command-line renderer for a virtual-machine
//! monitor: a tree of typed, optional option groups is rendered into the
//! exact, deterministic sequence of argv tokens the monitor expects.

pub mod builders;
pub mod cpus;
pub mod devices;
pub mod instance;
pub mod laws;
pub mod memory;
pub mod net;
pub mod parts;
pub mod platform;
pub mod storage;
pub mod text;
pub mod to_command;
pub mod tokens;
pub mod values;

pub use builders::BalloonBuilder;
pub use builders::BuilderError;
pub use builders::CpusBuilder;
pub use builders::DeviceBuilder;
pub use builders::DiskBuilder;
pub use builders::FsBuilder;
pub use builders::MemoryBuilder;
pub use builders::PlatformBuilder;
pub use builders::UserDeviceBuilder;
pub use builders::VdpaBuilder;
pub use cpus::CpuAffinity;
pub use cpus::CpuFeatures;
pub use cpus::CpuTopology;
pub use cpus::Cpus;
pub use devices::Device;
pub use devices::Numa;
pub use devices::SgxEpc;
pub use devices::UserDevice;
pub use devices::Vdpa;
pub use devices::Vsock;
pub use instance::CloudHypervisorInstance;
pub use memory::Balloon;
pub use memory::Memory;
pub use memory::MemoryZone;
pub use net::Net;
pub use platform::DebugConsole;
pub use platform::Platform;
pub use platform::Restore;
pub use storage::Disk;
pub use storage::Fs;
pub use storage::Pmem;
pub use storage::RateLimitGroup;
pub use text::u64_to_string;
pub use values::ByteSize;
pub use values::Console;
pub use values::DebugConsoleType;
pub use values::MemoryHotplugMethod;
pub use values::OnOff;
pub use values::PathOrFileDescriptorOption;
pub use values::Rng;
pub use values::SecComp;
pub use values::Serial;
pub use values::VhostMode;

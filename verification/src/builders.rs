//! Builders for the option groups: each starts from an all-absent value,
//! each setter fills one field, and `build` hands the assembled value out.
//! With every field optional and defaulted, building never fails.

use vstd::prelude::*;
use crate::cpus::{CpuAffinity, CpuFeatures, CpuTopology, Cpus};
use crate::devices::{Device, UserDevice, Vdpa};
use crate::memory::{Balloon, Memory};
use crate::platform::Platform;
use crate::storage::{Disk, Fs};
use crate::values::{ByteSize, MemoryHotplugMethod, OnOff};

verus! {

/// The error a builder could report; with every field optional none is
/// ever reported, so the type has no cases to distinguish.
#[derive(Clone, Debug, Default, PartialEq, Eq)]
pub struct BuilderError;

/// Assembles a `Cpus` field by field.
#[derive(Clone, Debug, Default, PartialEq, Eq)]
pub struct CpusBuilder {
    pub inner: Cpus,
}

impl CpusBuilder {
    pub fn boot(self, value: u8) -> (r: Self)
        ensures
            r.inner == (Cpus { boot: Option::Some(value), ..self.inner }),
    {
        CpusBuilder { inner: Cpus { boot: Option::Some(value), ..self.inner } }
    }

    pub fn max(self, value: u8) -> (r: Self)
        ensures
            r.inner == (Cpus { max: Option::Some(value), ..self.inner }),
    {
        CpusBuilder { inner: Cpus { max: Option::Some(value), ..self.inner } }
    }

    pub fn topology(self, value: CpuTopology) -> (r: Self)
        ensures
            r.inner == (Cpus { topology: Option::Some(value), ..self.inner }),
    {
        CpusBuilder { inner: Cpus { topology: Option::Some(value), ..self.inner } }
    }

    pub fn kvm_hyperv(self, value: OnOff) -> (r: Self)
        ensures
            r.inner == (Cpus { kvm_hyperv: Option::Some(value), ..self.inner }),
    {
        CpusBuilder { inner: Cpus { kvm_hyperv: Option::Some(value), ..self.inner } }
    }

    pub fn max_phys_bits(self, value: u8) -> (r: Self)
        ensures
            r.inner == (Cpus { max_phys_bits: Option::Some(value), ..self.inner }),
    {
        CpusBuilder { inner: Cpus { max_phys_bits: Option::Some(value), ..self.inner } }
    }

    pub fn affinity(self, value: Vec<CpuAffinity>) -> (r: Self)
        ensures
            r.inner == (Cpus { affinity: Option::Some(value), ..self.inner }),
    {
        CpusBuilder { inner: Cpus { affinity: Option::Some(value), ..self.inner } }
    }

    pub fn features(self, value: CpuFeatures) -> (r: Self)
        ensures
            r.inner == (Cpus { features: Option::Some(value), ..self.inner }),
    {
        CpusBuilder { inner: Cpus { features: Option::Some(value), ..self.inner } }
    }

    pub fn build(self) -> (r: Result<Cpus, BuilderError>)
        ensures
            r == Result::<Cpus, BuilderError>::Ok(self.inner),
    {
        Result::Ok(self.inner)
    }
}

/// Assembles a `Platform` field by field.
#[derive(Clone, Debug, Default, PartialEq, Eq)]
pub struct PlatformBuilder {
    pub inner: Platform,
}

impl PlatformBuilder {
    pub fn num_pci_segments(self, value: u8) -> (r: Self)
        ensures
            r.inner == (Platform { num_pci_segments: Option::Some(value), ..self.inner }),
    {
        PlatformBuilder { inner: Platform { num_pci_segments: Option::Some(value), ..self.inner } }
    }

    pub fn iommu_segments(self, value: u8) -> (r: Self)
        ensures
            r.inner == (Platform { iommu_segments: Option::Some(value), ..self.inner }),
    {
        PlatformBuilder { inner: Platform { iommu_segments: Option::Some(value), ..self.inner } }
    }

    pub fn serial_number(self, value: &str) -> (r: Self)
        ensures
            r.inner.serial_number is Some,
            r.inner.serial_number.unwrap()@ == value@,
            r.inner == (Platform { serial_number: r.inner.serial_number, ..self.inner }),
    {
        PlatformBuilder { inner: Platform { serial_number: Option::Some(value.to_owned()), ..self.inner } }
    }

    pub fn uuid(self, value: &str) -> (r: Self)
        ensures
            r.inner.uuid is Some,
            r.inner.uuid.unwrap()@ == value@,
            r.inner == (Platform { uuid: r.inner.uuid, ..self.inner }),
    {
        PlatformBuilder { inner: Platform { uuid: Option::Some(value.to_owned()), ..self.inner } }
    }

    pub fn oem_strings(self, value: Vec<String>) -> (r: Self)
        ensures
            r.inner == (Platform { oem_strings: Option::Some(value), ..self.inner }),
    {
        PlatformBuilder { inner: Platform { oem_strings: Option::Some(value), ..self.inner } }
    }

    pub fn build(self) -> (r: Result<Platform, BuilderError>)
        ensures
            r == Result::<Platform, BuilderError>::Ok(self.inner),
    {
        Result::Ok(self.inner)
    }
}

/// Assembles a `Memory` field by field.
#[derive(Clone, Debug, Default, PartialEq, Eq)]
pub struct MemoryBuilder {
    pub inner: Memory,
}

impl MemoryBuilder {
    pub fn size(self, value: ByteSize) -> (r: Self)
        ensures
            r.inner == (Memory { size: Option::Some(value), ..self.inner }),
    {
        MemoryBuilder { inner: Memory { size: Option::Some(value), ..self.inner } }
    }

    pub fn mergeable(self, value: OnOff) -> (r: Self)
        ensures
            r.inner == (Memory { mergeable: Option::Some(value), ..self.inner }),
    {
        MemoryBuilder { inner: Memory { mergeable: Option::Some(value), ..self.inner } }
    }

    pub fn shared(self, value: OnOff) -> (r: Self)
        ensures
            r.inner == (Memory { shared: Option::Some(value), ..self.inner }),
    {
        MemoryBuilder { inner: Memory { shared: Option::Some(value), ..self.inner } }
    }

    pub fn hugepages(self, value: OnOff) -> (r: Self)
        ensures
            r.inner == (Memory { hugepages: Option::Some(value), ..self.inner }),
    {
        MemoryBuilder { inner: Memory { hugepages: Option::Some(value), ..self.inner } }
    }

    pub fn hugepage_size(self, value: ByteSize) -> (r: Self)
        ensures
            r.inner == (Memory { hugepage_size: Option::Some(value), ..self.inner }),
    {
        MemoryBuilder { inner: Memory { hugepage_size: Option::Some(value), ..self.inner } }
    }

    pub fn hotplug_method(self, value: MemoryHotplugMethod) -> (r: Self)
        ensures
            r.inner == (Memory { hotplug_method: Option::Some(value), ..self.inner }),
    {
        MemoryBuilder { inner: Memory { hotplug_method: Option::Some(value), ..self.inner } }
    }

    pub fn hotplug_size(self, value: ByteSize) -> (r: Self)
        ensures
            r.inner == (Memory { hotplug_size: Option::Some(value), ..self.inner }),
    {
        MemoryBuilder { inner: Memory { hotplug_size: Option::Some(value), ..self.inner } }
    }

    pub fn hotplugged_size(self, value: ByteSize) -> (r: Self)
        ensures
            r.inner == (Memory { hotplugged_size: Option::Some(value), ..self.inner }),
    {
        MemoryBuilder { inner: Memory { hotplugged_size: Option::Some(value), ..self.inner } }
    }

    pub fn prefault(self, value: OnOff) -> (r: Self)
        ensures
            r.inner == (Memory { prefault: Option::Some(value), ..self.inner }),
    {
        MemoryBuilder { inner: Memory { prefault: Option::Some(value), ..self.inner } }
    }

    pub fn thp(self, value: OnOff) -> (r: Self)
        ensures
            r.inner == (Memory { thp: Option::Some(value), ..self.inner }),
    {
        MemoryBuilder { inner: Memory { thp: Option::Some(value), ..self.inner } }
    }

    pub fn build(self) -> (r: Result<Memory, BuilderError>)
        ensures
            r == Result::<Memory, BuilderError>::Ok(self.inner),
    {
        Result::Ok(self.inner)
    }
}

/// Assembles a `Disk` field by field.
#[derive(Clone, Debug, Default, PartialEq, Eq)]
pub struct DiskBuilder {
    pub inner: Disk,
}

impl DiskBuilder {
    pub fn path(self, value: &str) -> (r: Self)
        ensures
            r.inner.path is Some,
            r.inner.path.unwrap()@ == value@,
            r.inner == (Disk { path: r.inner.path, ..self.inner }),
    {
        DiskBuilder { inner: Disk { path: Option::Some(value.to_owned()), ..self.inner } }
    }

    pub fn readonly(self, value: OnOff) -> (r: Self)
        ensures
            r.inner == (Disk { readonly: Option::Some(value), ..self.inner }),
    {
        DiskBuilder { inner: Disk { readonly: Option::Some(value), ..self.inner } }
    }

    pub fn direct(self, value: OnOff) -> (r: Self)
        ensures
            r.inner == (Disk { direct: Option::Some(value), ..self.inner }),
    {
        DiskBuilder { inner: Disk { direct: Option::Some(value), ..self.inner } }
    }

    pub fn iommu(self, value: OnOff) -> (r: Self)
        ensures
            r.inner == (Disk { iommu: Option::Some(value), ..self.inner }),
    {
        DiskBuilder { inner: Disk { iommu: Option::Some(value), ..self.inner } }
    }

    pub fn num_queues(self, value: usize) -> (r: Self)
        ensures
            r.inner == (Disk { num_queues: Option::Some(value), ..self.inner }),
    {
        DiskBuilder { inner: Disk { num_queues: Option::Some(value), ..self.inner } }
    }

    pub fn queue_size(self, value: usize) -> (r: Self)
        ensures
            r.inner == (Disk { queue_size: Option::Some(value), ..self.inner }),
    {
        DiskBuilder { inner: Disk { queue_size: Option::Some(value), ..self.inner } }
    }

    pub fn vhost_user(self, value: OnOff) -> (r: Self)
        ensures
            r.inner == (Disk { vhost_user: Option::Some(value), ..self.inner }),
    {
        DiskBuilder { inner: Disk { vhost_user: Option::Some(value), ..self.inner } }
    }

    pub fn socket(self, value: &str) -> (r: Self)
        ensures
            r.inner.socket is Some,
            r.inner.socket.unwrap()@ == value@,
            r.inner == (Disk { socket: r.inner.socket, ..self.inner }),
    {
        DiskBuilder { inner: Disk { socket: Option::Some(value.to_owned()), ..self.inner } }
    }

    pub fn bw_size(self, value: ByteSize) -> (r: Self)
        ensures
            r.inner == (Disk { bw_size: Option::Some(value), ..self.inner }),
    {
        DiskBuilder { inner: Disk { bw_size: Option::Some(value), ..self.inner } }
    }

    pub fn bw_one_time_burst(self, value: ByteSize) -> (r: Self)
        ensures
            r.inner == (Disk { bw_one_time_burst: Option::Some(value), ..self.inner }),
    {
        DiskBuilder { inner: Disk { bw_one_time_burst: Option::Some(value), ..self.inner } }
    }

    pub fn bw_refill_time(self, value: usize) -> (r: Self)
        ensures
            r.inner == (Disk { bw_refill_time: Option::Some(value), ..self.inner }),
    {
        DiskBuilder { inner: Disk { bw_refill_time: Option::Some(value), ..self.inner } }
    }

    pub fn ops_size(self, value: usize) -> (r: Self)
        ensures
            r.inner == (Disk { ops_size: Option::Some(value), ..self.inner }),
    {
        DiskBuilder { inner: Disk { ops_size: Option::Some(value), ..self.inner } }
    }

    pub fn ops_one_time_burst(self, value: usize) -> (r: Self)
        ensures
            r.inner == (Disk { ops_one_time_burst: Option::Some(value), ..self.inner }),
    {
        DiskBuilder { inner: Disk { ops_one_time_burst: Option::Some(value), ..self.inner } }
    }

    pub fn ops_refill_time(self, value: usize) -> (r: Self)
        ensures
            r.inner == (Disk { ops_refill_time: Option::Some(value), ..self.inner }),
    {
        DiskBuilder { inner: Disk { ops_refill_time: Option::Some(value), ..self.inner } }
    }

    pub fn id(self, value: &str) -> (r: Self)
        ensures
            r.inner.id is Some,
            r.inner.id.unwrap()@ == value@,
            r.inner == (Disk { id: r.inner.id, ..self.inner }),
    {
        DiskBuilder { inner: Disk { id: Option::Some(value.to_owned()), ..self.inner } }
    }

    pub fn pci_segment(self, value: &str) -> (r: Self)
        ensures
            r.inner.pci_segment is Some,
            r.inner.pci_segment.unwrap()@ == value@,
            r.inner == (Disk { pci_segment: r.inner.pci_segment, ..self.inner }),
    {
        DiskBuilder { inner: Disk { pci_segment: Option::Some(value.to_owned()), ..self.inner } }
    }

    pub fn rate_limit_group(self, value: &str) -> (r: Self)
        ensures
            r.inner.rate_limit_group is Some,
            r.inner.rate_limit_group.unwrap()@ == value@,
            r.inner == (Disk { rate_limit_group: r.inner.rate_limit_group, ..self.inner }),
    {
        DiskBuilder { inner: Disk { rate_limit_group: Option::Some(value.to_owned()), ..self.inner } }
    }

    pub fn queue_affinity(self, value: &str) -> (r: Self)
        ensures
            r.inner.queue_affinity is Some,
            r.inner.queue_affinity.unwrap()@ == value@,
            r.inner == (Disk { queue_affinity: r.inner.queue_affinity, ..self.inner }),
    {
        DiskBuilder { inner: Disk { queue_affinity: Option::Some(value.to_owned()), ..self.inner } }
    }

    pub fn build(self) -> (r: Result<Disk, BuilderError>)
        ensures
            r == Result::<Disk, BuilderError>::Ok(self.inner),
    {
        Result::Ok(self.inner)
    }
}

/// Assembles a `Balloon` field by field.
#[derive(Clone, Debug, Default, PartialEq, Eq)]
pub struct BalloonBuilder {
    pub inner: Balloon,
}

impl BalloonBuilder {
    pub fn size(self, value: ByteSize) -> (r: Self)
        ensures
            r.inner == (Balloon { size: Option::Some(value), ..self.inner }),
    {
        BalloonBuilder { inner: Balloon { size: Option::Some(value), ..self.inner } }
    }

    pub fn deflate_on_oom(self, value: OnOff) -> (r: Self)
        ensures
            r.inner == (Balloon { deflate_on_oom: Option::Some(value), ..self.inner }),
    {
        BalloonBuilder { inner: Balloon { deflate_on_oom: Option::Some(value), ..self.inner } }
    }

    pub fn free_page_reporting(self, value: OnOff) -> (r: Self)
        ensures
            r.inner == (Balloon { free_page_reporting: Option::Some(value), ..self.inner }),
    {
        BalloonBuilder { inner: Balloon { free_page_reporting: Option::Some(value), ..self.inner } }
    }

    pub fn build(self) -> (r: Result<Balloon, BuilderError>)
        ensures
            r == Result::<Balloon, BuilderError>::Ok(self.inner),
    {
        Result::Ok(self.inner)
    }
}

/// Assembles a `Fs` field by field.
#[derive(Clone, Debug, Default, PartialEq, Eq)]
pub struct FsBuilder {
    pub inner: Fs,
}

impl FsBuilder {
    pub fn tag(self, value: &str) -> (r: Self)
        ensures
            r.inner.tag is Some,
            r.inner.tag.unwrap()@ == value@,
            r.inner == (Fs { tag: r.inner.tag, ..self.inner }),
    {
        FsBuilder { inner: Fs { tag: Option::Some(value.to_owned()), ..self.inner } }
    }

    pub fn socket(self, value: &str) -> (r: Self)
        ensures
            r.inner.socket is Some,
            r.inner.socket.unwrap()@ == value@,
            r.inner == (Fs { socket: r.inner.socket, ..self.inner }),
    {
        FsBuilder { inner: Fs { socket: Option::Some(value.to_owned()), ..self.inner } }
    }

    pub fn num_queues(self, value: usize) -> (r: Self)
        ensures
            r.inner == (Fs { num_queues: Option::Some(value), ..self.inner }),
    {
        FsBuilder { inner: Fs { num_queues: Option::Some(value), ..self.inner } }
    }

    pub fn queue_size(self, value: usize) -> (r: Self)
        ensures
            r.inner == (Fs { queue_size: Option::Some(value), ..self.inner }),
    {
        FsBuilder { inner: Fs { queue_size: Option::Some(value), ..self.inner } }
    }

    pub fn id(self, value: &str) -> (r: Self)
        ensures
            r.inner.id is Some,
            r.inner.id.unwrap()@ == value@,
            r.inner == (Fs { id: r.inner.id, ..self.inner }),
    {
        FsBuilder { inner: Fs { id: Option::Some(value.to_owned()), ..self.inner } }
    }

    pub fn pci_segment(self, value: &str) -> (r: Self)
        ensures
            r.inner.pci_segment is Some,
            r.inner.pci_segment.unwrap()@ == value@,
            r.inner == (Fs { pci_segment: r.inner.pci_segment, ..self.inner }),
    {
        FsBuilder { inner: Fs { pci_segment: Option::Some(value.to_owned()), ..self.inner } }
    }

    pub fn build(self) -> (r: Result<Fs, BuilderError>)
        ensures
            r == Result::<Fs, BuilderError>::Ok(self.inner),
    {
        Result::Ok(self.inner)
    }
}

/// Assembles a `Device` field by field.
#[derive(Clone, Debug, Default, PartialEq, Eq)]
pub struct DeviceBuilder {
    pub inner: Device,
}

impl DeviceBuilder {
    pub fn path(self, value: &str) -> (r: Self)
        ensures
            r.inner.path is Some,
            r.inner.path.unwrap()@ == value@,
            r.inner == (Device { path: r.inner.path, ..self.inner }),
    {
        DeviceBuilder { inner: Device { path: Option::Some(value.to_owned()), ..self.inner } }
    }

    pub fn iommu(self, value: OnOff) -> (r: Self)
        ensures
            r.inner == (Device { iommu: Option::Some(value), ..self.inner }),
    {
        DeviceBuilder { inner: Device { iommu: Option::Some(value), ..self.inner } }
    }

    pub fn id(self, value: &str) -> (r: Self)
        ensures
            r.inner.id is Some,
            r.inner.id.unwrap()@ == value@,
            r.inner == (Device { id: r.inner.id, ..self.inner }),
    {
        DeviceBuilder { inner: Device { id: Option::Some(value.to_owned()), ..self.inner } }
    }

    pub fn pci_segment(self, value: &str) -> (r: Self)
        ensures
            r.inner.pci_segment is Some,
            r.inner.pci_segment.unwrap()@ == value@,
            r.inner == (Device { pci_segment: r.inner.pci_segment, ..self.inner }),
    {
        DeviceBuilder { inner: Device { pci_segment: Option::Some(value.to_owned()), ..self.inner } }
    }

    pub fn build(self) -> (r: Result<Device, BuilderError>)
        ensures
            r == Result::<Device, BuilderError>::Ok(self.inner),
    {
        Result::Ok(self.inner)
    }
}

/// Assembles a `UserDevice` field by field.
#[derive(Clone, Debug, Default, PartialEq, Eq)]
pub struct UserDeviceBuilder {
    pub inner: UserDevice,
}

impl UserDeviceBuilder {
    pub fn socket(self, value: &str) -> (r: Self)
        ensures
            r.inner.socket is Some,
            r.inner.socket.unwrap()@ == value@,
            r.inner == (UserDevice { socket: r.inner.socket, ..self.inner }),
    {
        UserDeviceBuilder { inner: UserDevice { socket: Option::Some(value.to_owned()), ..self.inner } }
    }

    pub fn id(self, value: &str) -> (r: Self)
        ensures
            r.inner.id is Some,
            r.inner.id.unwrap()@ == value@,
            r.inner == (UserDevice { id: r.inner.id, ..self.inner }),
    {
        UserDeviceBuilder { inner: UserDevice { id: Option::Some(value.to_owned()), ..self.inner } }
    }

    pub fn pci_segment(self, value: &str) -> (r: Self)
        ensures
            r.inner.pci_segment is Some,
            r.inner.pci_segment.unwrap()@ == value@,
            r.inner == (UserDevice { pci_segment: r.inner.pci_segment, ..self.inner }),
    {
        UserDeviceBuilder { inner: UserDevice { pci_segment: Option::Some(value.to_owned()), ..self.inner } }
    }

    pub fn build(self) -> (r: Result<UserDevice, BuilderError>)
        ensures
            r == Result::<UserDevice, BuilderError>::Ok(self.inner),
    {
        Result::Ok(self.inner)
    }
}

/// Assembles a `Vdpa` field by field.
#[derive(Clone, Debug, Default, PartialEq, Eq)]
pub struct VdpaBuilder {
    pub inner: Vdpa,
}

impl VdpaBuilder {
    pub fn path(self, value: &str) -> (r: Self)
        ensures
            r.inner.path is Some,
            r.inner.path.unwrap()@ == value@,
            r.inner == (Vdpa { path: r.inner.path, ..self.inner }),
    {
        VdpaBuilder { inner: Vdpa { path: Option::Some(value.to_owned()), ..self.inner } }
    }

    pub fn num_queues(self, value: usize) -> (r: Self)
        ensures
            r.inner == (Vdpa { num_queues: Option::Some(value), ..self.inner }),
    {
        VdpaBuilder { inner: Vdpa { num_queues: Option::Some(value), ..self.inner } }
    }

    pub fn iommu(self, value: OnOff) -> (r: Self)
        ensures
            r.inner == (Vdpa { iommu: Option::Some(value), ..self.inner }),
    {
        VdpaBuilder { inner: Vdpa { iommu: Option::Some(value), ..self.inner } }
    }

    pub fn id(self, value: &str) -> (r: Self)
        ensures
            r.inner.id is Some,
            r.inner.id.unwrap()@ == value@,
            r.inner == (Vdpa { id: r.inner.id, ..self.inner }),
    {
        VdpaBuilder { inner: Vdpa { id: Option::Some(value.to_owned()), ..self.inner } }
    }

    pub fn pci_segment(self, value: &str) -> (r: Self)
        ensures
            r.inner.pci_segment is Some,
            r.inner.pci_segment.unwrap()@ == value@,
            r.inner == (Vdpa { pci_segment: r.inner.pci_segment, ..self.inner }),
    {
        VdpaBuilder { inner: Vdpa { pci_segment: Option::Some(value.to_owned()), ..self.inner } }
    }

    pub fn build(self) -> (r: Result<Vdpa, BuilderError>)
        ensures
            r == Result::<Vdpa, BuilderError>::Ok(self.inner),
    {
        Result::Ok(self.inner)
    }
}

} // verus!

//! The storage-related option groups: rate-limit groups, disks,
//! filesystem shares and persistent-memory regions.

use vstd::prelude::*;
use crate::text::views;
use crate::tokens::ArgSource;
use crate::parts::{new_parts, size_part, push_size_part, usize_part, push_usize_part, onoff_part,
    push_onoff_part, string_part, push_string_part};
use crate::values::{ByteSize, OnOff};

verus! {

/// A named token-bucket rate limit shared between devices.
#[derive(Clone, Debug, Default, PartialEq, Eq)]
pub struct RateLimitGroup {
    pub bw_size: Option<ByteSize>,
    pub bw_one_time_burst: Option<ByteSize>,
    pub bw_refill_time: Option<usize>,
    pub ops_size: Option<usize>,
    pub ops_one_time_burst: Option<usize>,
    pub ops_refill_time: Option<usize>,
    pub id: Option<String>,
}

/// One block device.
#[derive(Clone, Debug, Default, PartialEq, Eq)]
pub struct Disk {
    pub path: Option<String>,
    pub readonly: Option<OnOff>,
    pub direct: Option<OnOff>,
    pub iommu: Option<OnOff>,
    pub num_queues: Option<usize>,
    pub queue_size: Option<usize>,
    pub vhost_user: Option<OnOff>,
    pub socket: Option<String>,
    pub bw_size: Option<ByteSize>,
    pub bw_one_time_burst: Option<ByteSize>,
    pub bw_refill_time: Option<usize>,
    pub ops_size: Option<usize>,
    pub ops_one_time_burst: Option<usize>,
    pub ops_refill_time: Option<usize>,
    pub id: Option<String>,
    pub pci_segment: Option<String>,
    pub rate_limit_group: Option<String>,
    pub queue_affinity: Option<String>,
}

/// One shared filesystem.
#[derive(Clone, Debug, Default, PartialEq, Eq)]
pub struct Fs {
    pub tag: Option<String>,
    pub socket: Option<String>,
    pub num_queues: Option<usize>,
    pub queue_size: Option<usize>,
    pub id: Option<String>,
    pub pci_segment: Option<String>,
}

/// One persistent-memory region.
#[derive(Clone, Debug, Default, PartialEq, Eq)]
pub struct Pmem {
    pub file: Option<String>,
    pub size: Option<usize>,
    pub iommu: Option<OnOff>,
    pub discard_writes: Option<OnOff>,
    pub id: Option<String>,
    pub pci_segment: Option<String>,
}

impl ArgSource for RateLimitGroup {
    open spec fn parts_view(&self) -> Seq<Seq<char>> {
        size_part("bw_size="@, self.bw_size) + size_part(
            "bw_one_time_burst="@,
            self.bw_one_time_burst,
        ) + usize_part("bw_refill_time="@, self.bw_refill_time) + usize_part(
            "ops_size="@,
            self.ops_size,
        ) + usize_part("ops_one_time_burst="@, self.ops_one_time_burst) + usize_part(
            "ops_refill_time="@,
            self.ops_refill_time,
        ) + string_part("id="@, self.id)
    }

    fn parts(&self) -> (r: Vec<String>) {
        let mut parts = new_parts();
        push_size_part(&mut parts, "bw_size=", &self.bw_size);
        push_size_part(&mut parts, "bw_one_time_burst=", &self.bw_one_time_burst);
        push_usize_part(&mut parts, "bw_refill_time=", &self.bw_refill_time);
        push_usize_part(&mut parts, "ops_size=", &self.ops_size);
        push_usize_part(&mut parts, "ops_one_time_burst=", &self.ops_one_time_burst);
        push_usize_part(&mut parts, "ops_refill_time=", &self.ops_refill_time);
        push_string_part(&mut parts, "id=", &self.id);
        proof {
            assert(views(parts@) =~= self.parts_view());
        }
        parts
    }
}

impl ArgSource for Disk {
    open spec fn parts_view(&self) -> Seq<Seq<char>> {
        string_part("path="@, self.path) + onoff_part("readonly="@, self.readonly) + onoff_part(
            "direct="@,
            self.direct,
        ) + onoff_part("iommu="@, self.iommu) + usize_part("num_queues="@, self.num_queues)
            + usize_part("queue_size="@, self.queue_size) + onoff_part(
            "vhost_user="@,
            self.vhost_user,
        ) + string_part("socket="@, self.socket) + size_part("bw_size="@, self.bw_size)
            + size_part("bw_one_time_burst="@, self.bw_one_time_burst) + usize_part(
            "bw_refill_time="@,
            self.bw_refill_time,
        ) + usize_part("ops_size="@, self.ops_size) + usize_part(
            "ops_one_time_burst="@,
            self.ops_one_time_burst,
        ) + usize_part("ops_refill_time="@, self.ops_refill_time) + string_part("id="@, self.id)
            + string_part("pci_segment="@, self.pci_segment) + string_part(
            "rate_limit_group="@,
            self.rate_limit_group,
        ) + string_part("queue_affinity="@, self.queue_affinity)
    }

    fn parts(&self) -> (r: Vec<String>) {
        let mut parts = new_parts();
        push_string_part(&mut parts, "path=", &self.path);
        push_onoff_part(&mut parts, "readonly=", &self.readonly);
        push_onoff_part(&mut parts, "direct=", &self.direct);
        push_onoff_part(&mut parts, "iommu=", &self.iommu);
        push_usize_part(&mut parts, "num_queues=", &self.num_queues);
        push_usize_part(&mut parts, "queue_size=", &self.queue_size);
        push_onoff_part(&mut parts, "vhost_user=", &self.vhost_user);
        push_string_part(&mut parts, "socket=", &self.socket);
        push_size_part(&mut parts, "bw_size=", &self.bw_size);
        push_size_part(&mut parts, "bw_one_time_burst=", &self.bw_one_time_burst);
        push_usize_part(&mut parts, "bw_refill_time=", &self.bw_refill_time);
        push_usize_part(&mut parts, "ops_size=", &self.ops_size);
        push_usize_part(&mut parts, "ops_one_time_burst=", &self.ops_one_time_burst);
        push_usize_part(&mut parts, "ops_refill_time=", &self.ops_refill_time);
        push_string_part(&mut parts, "id=", &self.id);
        push_string_part(&mut parts, "pci_segment=", &self.pci_segment);
        push_string_part(&mut parts, "rate_limit_group=", &self.rate_limit_group);
        push_string_part(&mut parts, "queue_affinity=", &self.queue_affinity);
        proof {
            assert(views(parts@) =~= self.parts_view());
        }
        parts
    }
}

impl ArgSource for Fs {
    open spec fn parts_view(&self) -> Seq<Seq<char>> {
        string_part("tag="@, self.tag) + string_part("socket="@, self.socket) + usize_part(
            "num_queues="@,
            self.num_queues,
        ) + usize_part("queue_size="@, self.queue_size) + string_part("id="@, self.id)
            + string_part("pci_segment="@, self.pci_segment)
    }

    fn parts(&self) -> (r: Vec<String>) {
        let mut parts = new_parts();
        push_string_part(&mut parts, "tag=", &self.tag);
        push_string_part(&mut parts, "socket=", &self.socket);
        push_usize_part(&mut parts, "num_queues=", &self.num_queues);
        push_usize_part(&mut parts, "queue_size=", &self.queue_size);
        push_string_part(&mut parts, "id=", &self.id);
        push_string_part(&mut parts, "pci_segment=", &self.pci_segment);
        proof {
            assert(views(parts@) =~= self.parts_view());
        }
        parts
    }
}

impl ArgSource for Pmem {
    open spec fn parts_view(&self) -> Seq<Seq<char>> {
        string_part("file="@, self.file) + usize_part("size="@, self.size) + onoff_part(
            "iommu="@,
            self.iommu,
        ) + onoff_part("discard_writes="@, self.discard_writes) + string_part("id="@, self.id)
            + string_part("pci_segment="@, self.pci_segment)
    }

    fn parts(&self) -> (r: Vec<String>) {
        let mut parts = new_parts();
        push_string_part(&mut parts, "file=", &self.file);
        push_usize_part(&mut parts, "size=", &self.size);
        push_onoff_part(&mut parts, "iommu=", &self.iommu);
        push_onoff_part(&mut parts, "discard_writes=", &self.discard_writes);
        push_string_part(&mut parts, "id=", &self.id);
        push_string_part(&mut parts, "pci_segment=", &self.pci_segment);
        proof {
            assert(views(parts@) =~= self.parts_view());
        }
        parts
    }
}

} // verus!

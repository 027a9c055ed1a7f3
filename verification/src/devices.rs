//! The device-like option groups: pass-through devices, user devices,
//! vDPA devices, the vsock device, NUMA nodes and SGX EPC sections.

use vstd::prelude::*;
use crate::text::views;
use crate::tokens::ArgSource;
use crate::parts::{new_parts, usize_part, push_usize_part, onoff_part, push_onoff_part,
    string_part, push_string_part, usize_list_part, push_usize_list_part, string_list_part,
    push_string_list_part};
use crate::values::OnOff;

verus! {

/// One directly assigned host device.
#[derive(Clone, Debug, Default, PartialEq, Eq)]
pub struct Device {
    pub path: Option<String>,
    pub iommu: Option<OnOff>,
    pub id: Option<String>,
    pub pci_segment: Option<String>,
}

/// One user-space emulated device.
#[derive(Clone, Debug, Default, PartialEq, Eq)]
pub struct UserDevice {
    pub socket: Option<String>,
    pub id: Option<String>,
    pub pci_segment: Option<String>,
}

/// One vDPA device.
#[derive(Clone, Debug, Default, PartialEq, Eq)]
pub struct Vdpa {
    pub path: Option<String>,
    pub num_queues: Option<usize>,
    pub iommu: Option<OnOff>,
    pub id: Option<String>,
    pub pci_segment: Option<String>,
}

/// The vsock device.
#[derive(Clone, Debug, Default, PartialEq, Eq)]
pub struct Vsock {
    pub cid: Option<String>,
    pub socket: Option<String>,
    pub iommu: Option<OnOff>,
    pub id: Option<String>,
    pub pci_segment: Option<String>,
}

/// One guest NUMA node.
#[derive(Clone, Debug, Default, PartialEq, Eq)]
pub struct Numa {
    pub guest_numa_id: Option<String>,
    pub cpus: Option<Vec<usize>>,
    pub distances: Option<Vec<usize>>,
    pub memory_zones: Option<Vec<String>>,
    pub sgx_epc_sections: Option<Vec<String>>,
    pub pci_segments: Option<Vec<String>>,
}

/// One SGX EPC section.
#[derive(Clone, Debug, Default, PartialEq, Eq)]
pub struct SgxEpc {
    pub id: Option<String>,
    pub size: Option<String>,
    pub prefault: Option<OnOff>,
}

impl ArgSource for Device {
    open spec fn parts_view(&self) -> Seq<Seq<char>> {
        string_part("path="@, self.path) + onoff_part("iommu="@, self.iommu) + string_part(
            "id="@,
            self.id,
        ) + string_part("pci_segment="@, self.pci_segment)
    }

    fn parts(&self) -> (r: Vec<String>) {
        let mut parts = new_parts();
        push_string_part(&mut parts, "path=", &self.path);
        push_onoff_part(&mut parts, "iommu=", &self.iommu);
        push_string_part(&mut parts, "id=", &self.id);
        push_string_part(&mut parts, "pci_segment=", &self.pci_segment);
        proof {
            assert(views(parts@) =~= self.parts_view());
        }
        parts
    }
}

impl ArgSource for UserDevice {
    open spec fn parts_view(&self) -> Seq<Seq<char>> {
        string_part("socket="@, self.socket) + string_part("id="@, self.id) + string_part(
            "pci_segment="@,
            self.pci_segment,
        )
    }

    fn parts(&self) -> (r: Vec<String>) {
        let mut parts = new_parts();
        push_string_part(&mut parts, "socket=", &self.socket);
        push_string_part(&mut parts, "id=", &self.id);
        push_string_part(&mut parts, "pci_segment=", &self.pci_segment);
        proof {
            assert(views(parts@) =~= self.parts_view());
        }
        parts
    }
}

impl ArgSource for Vdpa {
    open spec fn parts_view(&self) -> Seq<Seq<char>> {
        string_part("path="@, self.path) + usize_part("num_queues="@, self.num_queues)
            + onoff_part("iommu="@, self.iommu) + string_part("id="@, self.id) + string_part(
            "pci_segment="@,
            self.pci_segment,
        )
    }

    fn parts(&self) -> (r: Vec<String>) {
        let mut parts = new_parts();
        push_string_part(&mut parts, "path=", &self.path);
        push_usize_part(&mut parts, "num_queues=", &self.num_queues);
        push_onoff_part(&mut parts, "iommu=", &self.iommu);
        push_string_part(&mut parts, "id=", &self.id);
        push_string_part(&mut parts, "pci_segment=", &self.pci_segment);
        proof {
            assert(views(parts@) =~= self.parts_view());
        }
        parts
    }
}

impl ArgSource for Vsock {
    open spec fn parts_view(&self) -> Seq<Seq<char>> {
        string_part("cid="@, self.cid) + string_part("socket="@, self.socket) + onoff_part(
            "iommu="@,
            self.iommu,
        ) + string_part("id="@, self.id) + string_part("pci_segment="@, self.pci_segment)
    }

    fn parts(&self) -> (r: Vec<String>) {
        let mut parts = new_parts();
        push_string_part(&mut parts, "cid=", &self.cid);
        push_string_part(&mut parts, "socket=", &self.socket);
        push_onoff_part(&mut parts, "iommu=", &self.iommu);
        push_string_part(&mut parts, "id=", &self.id);
        push_string_part(&mut parts, "pci_segment=", &self.pci_segment);
        proof {
            assert(views(parts@) =~= self.parts_view());
        }
        parts
    }
}

impl ArgSource for Numa {
    open spec fn parts_view(&self) -> Seq<Seq<char>> {
        string_part("guest_numa_id="@, self.guest_numa_id) + usize_list_part("cpus="@, self.cpus)
            + usize_list_part("distances="@, self.distances) + string_list_part(
            "memory_zones="@,
            self.memory_zones,
        ) + string_list_part("sgx_epc_sections="@, self.sgx_epc_sections) + string_list_part(
            "pci_segments="@,
            self.pci_segments,
        )
    }

    fn parts(&self) -> (r: Vec<String>) {
        let mut parts = new_parts();
        push_string_part(&mut parts, "guest_numa_id=", &self.guest_numa_id);
        push_usize_list_part(&mut parts, "cpus=", &self.cpus);
        push_usize_list_part(&mut parts, "distances=", &self.distances);
        push_string_list_part(&mut parts, "memory_zones=", &self.memory_zones);
        push_string_list_part(&mut parts, "sgx_epc_sections=", &self.sgx_epc_sections);
        push_string_list_part(&mut parts, "pci_segments=", &self.pci_segments);
        proof {
            assert(views(parts@) =~= self.parts_view());
        }
        parts
    }
}

impl ArgSource for SgxEpc {
    open spec fn parts_view(&self) -> Seq<Seq<char>> {
        string_part("id="@, self.id) + string_part("size="@, self.size) + onoff_part(
            "prefault="@,
            self.prefault,
        )
    }

    fn parts(&self) -> (r: Vec<String>) {
        let mut parts = new_parts();
        push_string_part(&mut parts, "id=", &self.id);
        push_string_part(&mut parts, "size=", &self.size);
        push_onoff_part(&mut parts, "prefault=", &self.prefault);
        proof {
            assert(views(parts@) =~= self.parts_view());
        }
        parts
    }
}

} // verus!

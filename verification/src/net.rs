//! The network-interface option group.

use vstd::prelude::*;
use crate::text::{views, prefixed};
use crate::tokens::ArgSource;
use crate::parts::{new_parts, u8_part, push_u8_part, usize_part, push_usize_part, size_part,
    push_size_part, onoff_part, push_onoff_part, string_part, push_string_part,
    usize_list_part, push_usize_list_part, push_part};
use crate::values::{ByteSize, OnOff, VhostMode};

verus! {

/// One network interface.
#[derive(Clone, Debug, Default, PartialEq, Eq)]
pub struct Net {
    pub tap: Option<String>,
    pub ip: Option<String>,
    pub mask: Option<u8>,
    pub mac: Option<String>,
    pub fd: Option<Vec<usize>>,
    pub iommu: Option<OnOff>,
    pub num_queues: Option<usize>,
    pub queue_size: Option<usize>,
    pub id: Option<String>,
    pub vhost_user: Option<OnOff>,
    pub socket: Option<String>,
    pub vhost_mode: Option<VhostMode>,
    pub bw_size: Option<ByteSize>,
    pub bw_one_time_burst: Option<ByteSize>,
    pub bw_refill_time: Option<usize>,
    pub ops_size: Option<usize>,
    pub ops_one_time_burst: Option<usize>,
    pub ops_refill_time: Option<usize>,
    pub pci_segment: Option<String>,
    pub offload_tso: Option<OnOff>,
    pub offload_ufo: Option<OnOff>,
    pub offload_csum: Option<OnOff>,
}

/// The part the vhost mode contributes.
pub open spec fn vhost_mode_part(o: Option<VhostMode>) -> Seq<Seq<char>> {
    match o {
        Option::None => Seq::<Seq<char>>::empty(),
        Option::Some(m) => seq!["vhost_mode="@ + m.text_view()],
    }
}

impl ArgSource for Net {
    open spec fn parts_view(&self) -> Seq<Seq<char>> {
        string_part("tap="@, self.tap) + string_part("ip="@, self.ip) + u8_part(
            "mask="@,
            self.mask,
        ) + string_part("mac="@, self.mac) + usize_list_part("fd="@, self.fd) + onoff_part(
            "iommu="@,
            self.iommu,
        ) + usize_part("num_queues="@, self.num_queues) + usize_part(
            "queue_size="@,
            self.queue_size,
        ) + string_part("id="@, self.id) + onoff_part("vhost_user="@, self.vhost_user)
            + string_part("socket="@, self.socket) + vhost_mode_part(self.vhost_mode)
            + size_part("bw_size="@, self.bw_size) + size_part(
            "bw_one_time_burst="@,
            self.bw_one_time_burst,
        ) + usize_part("bw_refill_time="@, self.bw_refill_time) + usize_part(
            "ops_size="@,
            self.ops_size,
        ) + usize_part("ops_one_time_burst="@, self.ops_one_time_burst) + usize_part(
            "ops_refill_time="@,
            self.ops_refill_time,
        ) + string_part("pci_segment="@, self.pci_segment) + onoff_part(
            "offload_tso="@,
            self.offload_tso,
        ) + onoff_part("offload_ufo="@, self.offload_ufo) + onoff_part(
            "offload_csum="@,
            self.offload_csum,
        )
    }

    fn parts(&self) -> (r: Vec<String>) {
        let mut parts = new_parts();
        push_string_part(&mut parts, "tap=", &self.tap);
        push_string_part(&mut parts, "ip=", &self.ip);
        push_u8_part(&mut parts, "mask=", &self.mask);
        push_string_part(&mut parts, "mac=", &self.mac);
        push_usize_list_part(&mut parts, "fd=", &self.fd);
        push_onoff_part(&mut parts, "iommu=", &self.iommu);
        push_usize_part(&mut parts, "num_queues=", &self.num_queues);
        push_usize_part(&mut parts, "queue_size=", &self.queue_size);
        push_string_part(&mut parts, "id=", &self.id);
        push_onoff_part(&mut parts, "vhost_user=", &self.vhost_user);
        push_string_part(&mut parts, "socket=", &self.socket);
        match &self.vhost_mode {
            Option::Some(m) => {
                push_part(&mut parts, prefixed("vhost_mode=", m.as_text()));
            },
            Option::None => {},
        }
        push_size_part(&mut parts, "bw_size=", &self.bw_size);
        push_size_part(&mut parts, "bw_one_time_burst=", &self.bw_one_time_burst);
        push_usize_part(&mut parts, "bw_refill_time=", &self.bw_refill_time);
        push_usize_part(&mut parts, "ops_size=", &self.ops_size);
        push_usize_part(&mut parts, "ops_one_time_burst=", &self.ops_one_time_burst);
        push_usize_part(&mut parts, "ops_refill_time=", &self.ops_refill_time);
        push_string_part(&mut parts, "pci_segment=", &self.pci_segment);
        push_onoff_part(&mut parts, "offload_tso=", &self.offload_tso);
        push_onoff_part(&mut parts, "offload_ufo=", &self.offload_ufo);
        push_onoff_part(&mut parts, "offload_csum=", &self.offload_csum);
        proof {
            assert(views(parts@) =~= self.parts_view());
        }
        parts
    }
}

} // verus!

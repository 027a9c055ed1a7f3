//! The memory, memory-zone and balloon option groups.

use vstd::prelude::*;
use crate::text::{views, join_with, prefixed};
use crate::tokens::{ArgSource, group_tokens, push_group};
use crate::to_command::ToCommand;
use crate::parts::{new_parts, size_part, push_size_part, onoff_part, push_onoff_part, string_part,
    push_string_part, usize_part, push_usize_part, push_part};
use crate::values::{ByteSize, MemoryHotplugMethod, OnOff};

verus! {

/// The memory option group.
#[derive(Clone, Debug, Default, PartialEq, Eq)]
pub struct Memory {
    pub size: Option<ByteSize>,
    pub mergeable: Option<OnOff>,
    pub shared: Option<OnOff>,
    pub hugepages: Option<OnOff>,
    pub hugepage_size: Option<ByteSize>,
    pub hotplug_method: Option<MemoryHotplugMethod>,
    pub hotplug_size: Option<ByteSize>,
    pub hotplugged_size: Option<ByteSize>,
    pub prefault: Option<OnOff>,
    pub thp: Option<OnOff>,
}

/// A user-defined memory zone.
#[derive(Clone, Debug, Default, PartialEq, Eq)]
pub struct MemoryZone {
    pub size: Option<ByteSize>,
    pub file: Option<String>,
    pub shared: Option<OnOff>,
    pub hugepages: Option<OnOff>,
    pub hugepage_size: Option<ByteSize>,
    pub host_numa_node: Option<usize>,
    pub id: Option<String>,
    pub hotplug_size: Option<ByteSize>,
    pub hotplugged_size: Option<ByteSize>,
    pub prefault: Option<OnOff>,
}

/// The balloon option group.
#[derive(Clone, Debug, Default, PartialEq, Eq)]
pub struct Balloon {
    pub size: Option<ByteSize>,
    pub deflate_on_oom: Option<OnOff>,
    pub free_page_reporting: Option<OnOff>,
}

/// The part the hotplug method contributes.
pub open spec fn hotplug_method_part(o: Option<MemoryHotplugMethod>) -> Seq<Seq<char>> {
    match o {
        Option::None => Seq::<Seq<char>>::empty(),
        Option::Some(m) => seq!["hotplug_method="@ + m.text_view()],
    }
}

impl ArgSource for Memory {
    open spec fn parts_view(&self) -> Seq<Seq<char>> {
        size_part("size="@, self.size) + onoff_part("mergeable="@, self.mergeable) + onoff_part(
            "shared="@,
            self.shared,
        ) + onoff_part("hugepages="@, self.hugepages) + size_part(
            "hugepage_size="@,
            self.hugepage_size,
        ) + hotplug_method_part(self.hotplug_method) + size_part(
            "hotplug_size="@,
            self.hotplug_size,
        ) + size_part("hotplugged_size="@, self.hotplugged_size) + onoff_part(
            "prefault="@,
            self.prefault,
        ) + onoff_part("thp="@, self.thp)
    }

    fn parts(&self) -> (r: Vec<String>) {
        let mut parts = new_parts();
        push_size_part(&mut parts, "size=", &self.size);
        push_onoff_part(&mut parts, "mergeable=", &self.mergeable);
        push_onoff_part(&mut parts, "shared=", &self.shared);
        push_onoff_part(&mut parts, "hugepages=", &self.hugepages);
        push_size_part(&mut parts, "hugepage_size=", &self.hugepage_size);
        match &self.hotplug_method {
            Option::Some(m) => {
                push_part(&mut parts, prefixed("hotplug_method=", m.as_text()));
            },
            Option::None => {},
        }
        push_size_part(&mut parts, "hotplug_size=", &self.hotplug_size);
        push_size_part(&mut parts, "hotplugged_size=", &self.hotplugged_size);
        push_onoff_part(&mut parts, "prefault=", &self.prefault);
        push_onoff_part(&mut parts, "thp=", &self.thp);
        proof {
            assert(views(parts@) =~= self.parts_view());
        }
        parts
    }
}

impl ToCommand for Memory {
    /// `--memory` and its joined payload, or nothing when every field is
    /// absent.
    open spec fn command_view(&self) -> Seq<Seq<char>> {
        group_tokens("--memory"@, self.parts_view())
    }

    fn to_command(&self) -> (r: Vec<String>) {
        let mut cmd: Vec<String> = Vec::new();
        push_group(&mut cmd, "--memory", self);
        proof {
            assert(views(cmd@) =~= self.command_view());
        }
        cmd
    }

    fn to_single_command(&self) -> (r: String) {
        let cmd = self.to_command();
        join_with(&cmd, " ")
    }
}

impl ArgSource for MemoryZone {
    open spec fn parts_view(&self) -> Seq<Seq<char>> {
        size_part("size="@, self.size) + string_part("file="@, self.file) + onoff_part(
            "shared="@,
            self.shared,
        ) + onoff_part("hugepages="@, self.hugepages) + size_part(
            "hugepage_size="@,
            self.hugepage_size,
        ) + usize_part("host_numa_node="@, self.host_numa_node) + string_part("id="@, self.id)
            + size_part("hotplug_size="@, self.hotplug_size) + size_part(
            "hotplugged_size="@,
            self.hotplugged_size,
        ) + onoff_part("prefault="@, self.prefault)
    }

    fn parts(&self) -> (r: Vec<String>) {
        let mut parts = new_parts();
        push_size_part(&mut parts, "size=", &self.size);
        push_string_part(&mut parts, "file=", &self.file);
        push_onoff_part(&mut parts, "shared=", &self.shared);
        push_onoff_part(&mut parts, "hugepages=", &self.hugepages);
        push_size_part(&mut parts, "hugepage_size=", &self.hugepage_size);
        push_usize_part(&mut parts, "host_numa_node=", &self.host_numa_node);
        push_string_part(&mut parts, "id=", &self.id);
        push_size_part(&mut parts, "hotplug_size=", &self.hotplug_size);
        push_size_part(&mut parts, "hotplugged_size=", &self.hotplugged_size);
        push_onoff_part(&mut parts, "prefault=", &self.prefault);
        proof {
            assert(views(parts@) =~= self.parts_view());
        }
        parts
    }
}

impl ToCommand for MemoryZone {
    /// `--memory-zone` and its joined payload, or nothing when every field
    /// is absent.
    open spec fn command_view(&self) -> Seq<Seq<char>> {
        group_tokens("--memory-zone"@, self.parts_view())
    }

    fn to_command(&self) -> (r: Vec<String>) {
        let mut cmd: Vec<String> = Vec::new();
        push_group(&mut cmd, "--memory-zone", self);
        proof {
            assert(views(cmd@) =~= self.command_view());
        }
        cmd
    }

    fn to_single_command(&self) -> (r: String) {
        let cmd = self.to_command();
        join_with(&cmd, " ")
    }
}

impl ArgSource for Balloon {
    open spec fn parts_view(&self) -> Seq<Seq<char>> {
        size_part("size="@, self.size) + onoff_part("deflate_on_oom="@, self.deflate_on_oom)
            + onoff_part("free_page_reporting="@, self.free_page_reporting)
    }

    fn parts(&self) -> (r: Vec<String>) {
        let mut parts = new_parts();
        push_size_part(&mut parts, "size=", &self.size);
        push_onoff_part(&mut parts, "deflate_on_oom=", &self.deflate_on_oom);
        push_onoff_part(&mut parts, "free_page_reporting=", &self.free_page_reporting);
        proof {
            assert(views(parts@) =~= self.parts_view());
        }
        parts
    }
}

} // verus!

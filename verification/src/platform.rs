//! The platform, restore and debug-console option groups.

use vstd::prelude::*;
use crate::text::{views, join_sep, join_with};
use crate::tokens::{ArgSource, group_tokens, push_group};
use crate::to_command::ToCommand;
use crate::parts::{new_parts, u8_part, push_u8_part, string_part, push_string_part, onoff_part,
    push_onoff_part, push_part};
use crate::values::{DebugConsoleType, OnOff};

verus! {

/// The platform option group.
#[derive(Clone, Debug, Default, PartialEq, Eq)]
pub struct Platform {
    pub num_pci_segments: Option<u8>,
    pub iommu_segments: Option<u8>,
    pub serial_number: Option<String>,
    pub uuid: Option<String>,
    pub oem_strings: Option<Vec<String>>,
}

/// Restoring a saved instance: where from, and whether to prefault.
#[derive(Clone, Debug, Default, PartialEq, Eq)]
pub struct Restore {
    pub source_url: Option<String>,
    pub prefault: Option<OnOff>,
}

/// The debug console: its kind and an optional I/O base.
#[derive(Clone, Debug, Default, PartialEq, Eq)]
pub struct DebugConsole {
    pub console_type: Option<DebugConsoleType>,
    pub iobase: Option<String>,
}

/// The OEM-strings part: the strings comma-joined inside brackets,
/// contributed only when the list is present and non-empty.
pub open spec fn oem_strings_part(o: Option<Vec<String>>) -> Seq<Seq<char>> {
    match o {
        Option::None => Seq::<Seq<char>>::empty(),
        Option::Some(v) => if v@.len() == 0 {
            Seq::<Seq<char>>::empty()
        } else {
            seq!["oem_strings=["@ + join_sep(views(v@), seq![',']) + "]"@]
        },
    }
}

fn oem_strings_text(v: &Vec<String>) -> (r: String)
    ensures
        r@ == "oem_strings=["@ + join_sep(views(v@), seq![',']) + "]"@,
{
    let mut s = "oem_strings=[".to_owned();
    let joined = join_with(v, ",");
    s.append(joined.as_str());
    s.append("]");
    proof {
        reveal_strlit(",");
        assert(","@ =~= seq![',']);
    }
    s
}

impl ArgSource for Platform {
    open spec fn parts_view(&self) -> Seq<Seq<char>> {
        u8_part("num_pci_segments="@, self.num_pci_segments) + u8_part(
            "iommu_segments="@,
            self.iommu_segments,
        ) + string_part("serial_number="@, self.serial_number) + string_part(
            "uuid="@,
            self.uuid,
        ) + oem_strings_part(self.oem_strings)
    }

    fn parts(&self) -> (r: Vec<String>) {
        let mut parts = new_parts();
        push_u8_part(&mut parts, "num_pci_segments=", &self.num_pci_segments);
        push_u8_part(&mut parts, "iommu_segments=", &self.iommu_segments);
        push_string_part(&mut parts, "serial_number=", &self.serial_number);
        push_string_part(&mut parts, "uuid=", &self.uuid);
        match &self.oem_strings {
            Option::Some(v) => {
                if v.len() > 0 {
                    push_part(&mut parts, oem_strings_text(v));
                }
            },
            Option::None => {},
        }
        proof {
            assert(views(parts@) =~= self.parts_view());
        }
        parts
    }
}

impl ToCommand for Platform {
    /// `--platform` and its joined payload, or nothing when every field is
    /// absent.
    open spec fn command_view(&self) -> Seq<Seq<char>> {
        group_tokens("--platform"@, self.parts_view())
    }

    fn to_command(&self) -> (r: Vec<String>) {
        let mut cmd: Vec<String> = Vec::new();
        push_group(&mut cmd, "--platform", self);
        proof {
            assert(views(cmd@) =~= self.command_view());
        }
        cmd
    }

    fn to_single_command(&self) -> (r: String) {
        let cmd = self.to_command();
        join_with(&cmd, " ")
    }
}

impl ArgSource for Restore {
    open spec fn parts_view(&self) -> Seq<Seq<char>> {
        string_part("source_url="@, self.source_url) + onoff_part("prefault="@, self.prefault)
    }

    fn parts(&self) -> (r: Vec<String>) {
        let mut parts = new_parts();
        push_string_part(&mut parts, "source_url=", &self.source_url);
        push_onoff_part(&mut parts, "prefault=", &self.prefault);
        proof {
            assert(views(parts@) =~= self.parts_view());
        }
        parts
    }
}

/// The part the debug console's kind contributes: a bare tag, or
/// `file=<path>` for a backing file.
pub open spec fn console_type_part(o: Option<DebugConsoleType>) -> Seq<Seq<char>> {
    match o {
        Option::None => Seq::<Seq<char>>::empty(),
        Option::Some(t) => seq![t.text_view()],
    }
}

impl ArgSource for DebugConsole {
    open spec fn parts_view(&self) -> Seq<Seq<char>> {
        console_type_part(self.console_type) + string_part("iobase="@, self.iobase)
    }

    fn parts(&self) -> (r: Vec<String>) {
        let mut parts = new_parts();
        match &self.console_type {
            Option::Some(t) => {
                push_part(&mut parts, t.as_text());
            },
            Option::None => {},
        }
        push_string_part(&mut parts, "iobase=", &self.iobase);
        proof {
            assert(views(parts@) =~= self.parts_view());
        }
        parts
    }
}

} // verus!

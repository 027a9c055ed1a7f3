//! The CPU option group: boot/max counts, topology, host affinity and
//! feature selection, rendered behind the `--cpus` flag.

use vstd::prelude::*;
use crate::text::{views, dec_of, join_sep, join_with, prefixed_u64, u64_to_string};
use crate::tokens::{ArgSource, group_tokens, push_group};
use crate::to_command::ToCommand;
use crate::parts::{dec_views, new_parts, u8_part, push_u8_part, onoff_part, push_onoff_part,
    push_part};
use crate::values::OnOff;

verus! {

/// A fixed processor topology, rendered as `threads:cores:dies:packages`.
#[derive(Clone, Debug, Default, PartialEq, Eq)]
pub struct CpuTopology {
    pub threads_per_core: u8,
    pub cores_per_die: u8,
    pub dies_per_package: u8,
    pub packages: u8,
}

/// Pins one guest vCPU to a list of host CPUs, rendered as
/// `vcpu@[host,host,...]`.
#[derive(Clone, Debug, Default, PartialEq, Eq)]
pub struct CpuAffinity {
    pub vcpu: u8,
    pub host_cpus: Vec<usize>,
}

/// Optional CPU features; an enabled feature contributes its name.
#[derive(Clone, Debug, Default, PartialEq, Eq)]
pub struct CpuFeatures {
    pub amx: Option<bool>,
}

/// The CPU option group.
#[derive(Clone, Debug, Default, PartialEq, Eq)]
pub struct Cpus {
    pub boot: Option<u8>,
    pub max: Option<u8>,
    pub topology: Option<CpuTopology>,
    pub kvm_hyperv: Option<OnOff>,
    pub max_phys_bits: Option<u8>,
    pub affinity: Option<Vec<CpuAffinity>>,
    pub features: Option<CpuFeatures>,
}

/// The text of the topology part.
pub open spec fn topology_view(t: CpuTopology) -> Seq<char> {
    "topology="@ + dec_of(t.threads_per_core as nat) + ":"@ + dec_of(t.cores_per_die as nat)
        + ":"@ + dec_of(t.dies_per_package as nat) + ":"@ + dec_of(t.packages as nat)
}

pub open spec fn topology_part(o: Option<CpuTopology>) -> Seq<Seq<char>> {
    match o {
        Option::None => Seq::<Seq<char>>::empty(),
        Option::Some(t) => seq![topology_view(t)],
    }
}

/// The text of one affinity entry: the vCPU number, then its host CPUs
/// bracketed and comma-joined.
pub open spec fn affinity_entry_view(a: CpuAffinity) -> Seq<char> {
    dec_of(a.vcpu as nat) + "@["@ + join_sep(dec_views(a.host_cpus@), seq![',']) + "]"@
}

pub open spec fn affinity_entries_view(v: Seq<CpuAffinity>) -> Seq<Seq<char>> {
    Seq::new(v.len(), |i: int| affinity_entry_view(v[i]))
}

/// The affinity part: the entries comma-joined inside `affinity=[...]`,
/// contributed only when the list is present and non-empty.
pub open spec fn affinity_part(o: Option<Vec<CpuAffinity>>) -> Seq<Seq<char>> {
    match o {
        Option::None => Seq::<Seq<char>>::empty(),
        Option::Some(v) => if v@.len() == 0 {
            Seq::<Seq<char>>::empty()
        } else {
            seq![
                "affinity=["@ + join_sep(affinity_entries_view(v@), seq![',']) + "]"@,
            ]
        },
    }
}

/// The features part: an enabled feature contributes its name; with none
/// enabled the part is omitted.
pub open spec fn features_part(o: Option<CpuFeatures>) -> Seq<Seq<char>> {
    match o {
        Option::None => Seq::<Seq<char>>::empty(),
        Option::Some(f) => if f.amx == Option::Some(true) {
            seq!["features=amx"@]
        } else {
            Seq::<Seq<char>>::empty()
        },
    }
}

fn topology_text(t: &CpuTopology) -> (r: String)
    ensures
        r@ == topology_view(*t),
{
    let mut s = prefixed_u64("topology=", t.threads_per_core as u64);
    s.append(":");
    s.append(u64_to_string(t.cores_per_die as u64).as_str());
    s.append(":");
    s.append(u64_to_string(t.dies_per_package as u64).as_str());
    s.append(":");
    s.append(u64_to_string(t.packages as u64).as_str());
    s
}

fn affinity_entry_text(a: &CpuAffinity) -> (r: String)
    ensures
        r@ == affinity_entry_view(*a),
{
    let mut s = u64_to_string(a.vcpu as u64);
    s.append("@[");
    let decs = crate::parts::dec_strings(&a.host_cpus);
    let joined = join_with(&decs, ",");
    s.append(joined.as_str());
    s.append("]");
    proof {
        reveal_strlit(",");
        assert(","@ =~= seq![',']);
    }
    s
}

fn affinity_text(v: &Vec<CpuAffinity>) -> (r: String)
    ensures
        r@ == "affinity=["@ + join_sep(affinity_entries_view(v@), seq![',']) + "]"@,
{
    let mut entries: Vec<String> = Vec::new();
    let mut i: usize = 0;
    while i < v.len()
        invariant
            i <= v.len(),
            views(entries@) == affinity_entries_view(v@).take(i as int),
        decreases v.len() - i,
    {
        entries.push(affinity_entry_text(&v[i]));
        proof {
            crate::text::lemma_views_push(entries@.drop_last(), entries@.last());
            assert(affinity_entries_view(v@).take(i + 1) =~= affinity_entries_view(v@).take(
                i as int,
            ).push(affinity_entry_view(v@[i as int])));
        }
        i += 1;
    }
    proof {
        assert(affinity_entries_view(v@).take(v@.len() as int) =~= affinity_entries_view(v@));
    }
    let mut s = "affinity=[".to_owned();
    let joined = join_with(&entries, ",");
    s.append(joined.as_str());
    s.append("]");
    proof {
        reveal_strlit(",");
        assert(","@ =~= seq![',']);
    }
    s
}

impl ArgSource for Cpus {
    open spec fn parts_view(&self) -> Seq<Seq<char>> {
        u8_part("boot="@, self.boot) + u8_part("max="@, self.max) + topology_part(self.topology)
            + onoff_part("kvm_hyperv="@, self.kvm_hyperv) + u8_part(
            "max_phys_bits="@,
            self.max_phys_bits,
        ) + affinity_part(self.affinity) + features_part(self.features)
    }

    fn parts(&self) -> (r: Vec<String>) {
        let mut parts = new_parts();
        push_u8_part(&mut parts, "boot=", &self.boot);
        push_u8_part(&mut parts, "max=", &self.max);
        match &self.topology {
            Option::Some(t) => {
                push_part(&mut parts, topology_text(t));
            },
            Option::None => {},
        }
        push_onoff_part(&mut parts, "kvm_hyperv=", &self.kvm_hyperv);
        push_u8_part(&mut parts, "max_phys_bits=", &self.max_phys_bits);
        match &self.affinity {
            Option::Some(v) => {
                if v.len() > 0 {
                    push_part(&mut parts, affinity_text(v));
                }
            },
            Option::None => {},
        }
        match &self.features {
            Option::Some(f) => {
                match f.amx {
                    Option::Some(true) => {
                        push_part(&mut parts, "features=amx".to_owned());
                    },
                    _ => {},
                }
            },
            Option::None => {},
        }
        proof {
            assert(views(parts@) =~= self.parts_view());
        }
        parts
    }
}

impl ToCommand for Cpus {
    /// `--cpus` and its joined payload, or nothing when every field is
    /// absent.
    open spec fn command_view(&self) -> Seq<Seq<char>> {
        group_tokens("--cpus"@, self.parts_view())
    }

    fn to_command(&self) -> (r: Vec<String>) {
        let mut cmd: Vec<String> = Vec::new();
        push_group(&mut cmd, "--cpus", self);
        proof {
            assert(views(cmd@) =~= self.command_view());
        }
        cmd
    }

    fn to_single_command(&self) -> (r: String) {
        let cmd = self.to_command();
        join_with(&cmd, " ")
    }
}

} // verus!

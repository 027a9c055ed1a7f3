//! The renderer's general guarantees, each stated over the same spec
//! functions that the executable functions' contracts use.

use vstd::prelude::*;
use crate::tokens::{ArgSource, group_tokens, list_tokens, opt_list_tokens, presence_tokens,
    seq_of, lemma_list_tokens_push, lemma_list_tokens_concat};
use crate::to_command::ToCommand;
use crate::instance::{CloudHypervisorInstance, all_absent, v_count};
use crate::storage::Disk;

verus! {

/// Determinism: the rendering is a function of the configuration value
/// alone, so any two token sequences the renderer's contract allows for
/// the same configuration are the same sequence.
pub proof fn lemma_render_deterministic(
    c: CloudHypervisorInstance,
    r1: Seq<Seq<char>>,
    r2: Seq<Seq<char>>,
)
    requires
        r1 == c.command_view(),
        r2 == c.command_view(),
    ensures
        r1 == r2,
{
}

/// All-absent silence: a configuration with every optional field absent
/// renders to exactly one token, the executable path.
pub proof fn lemma_all_absent_silent(c: CloudHypervisorInstance)
    requires
        all_absent(c),
    ensures
        c.command_view() == seq![c.bin_path@],
{
    assert(c.command_view() =~= seq![c.bin_path@]);
}

/// Presence-only booleans: `Some(true)` contributes the bare flag token
/// and no payload token; `Some(false)` and absent both contribute
/// nothing.
pub proof fn lemma_presence_flag(flag: Seq<char>, o: Option<bool>)
    ensures
        o == Option::Some(true) ==> presence_tokens(flag, o) == seq![flag],
        o != Option::Some(true) ==> presence_tokens(flag, o) == Seq::<Seq<char>>::empty(),
{
}

/// A configuration whose PV-panic flag is `Some(false)` renders exactly as
/// one where the flag is absent.
pub proof fn lemma_pvpanic_false_like_absent(
    c1: CloudHypervisorInstance,
    c2: CloudHypervisorInstance,
)
    requires
        c1 == (CloudHypervisorInstance { pvpanic: Option::Some(false), ..c2 }),
        c2.pvpanic is None,
    ensures
        c1.command_view() == c2.command_view(),
{
    assert(c1.command_view() =~= c2.command_view());
}

/// Order preservation: the instances of a multi-valued group render in
/// insertion order, each independently; splitting the run anywhere splits
/// the rendered tokens at the matching place, so instances are never
/// merged or reordered.
pub proof fn lemma_order_preserved<T: ArgSource>(flag: Seq<char>, s1: Seq<T>, s2: Seq<T>)
    ensures
        list_tokens(flag, s1 + s2) == list_tokens(flag, s1) + list_tokens(flag, s2),
{
    lemma_list_tokens_concat(flag, s1, s2);
}

/// Appending one disk to a configuration appends exactly that disk's
/// flag/payload contribution to the disk group's rendering, leaving the
/// contributions of the disks already present unchanged.
pub proof fn lemma_disk_append(
    c1: CloudHypervisorInstance,
    c2: CloudHypervisorInstance,
    d: Disk,
)
    requires
        seq_of(c2.disk) == seq_of(c1.disk).push(d),
    ensures
        opt_list_tokens("--disk"@, c2.disk) == opt_list_tokens("--disk"@, c1.disk)
            + group_tokens("--disk"@, d.parts_view()),
{
    lemma_list_tokens_push("--disk"@, seq_of(c1.disk), d);
}

/// Verbosity repetition: the whole rendering is the rendering without the
/// verbosity counter, followed by the short flag repeated exactly
/// counter-many times — the verbosity flags always come last.
pub proof fn lemma_verbosity_last(c1: CloudHypervisorInstance, c2: CloudHypervisorInstance)
    requires
        c1 == (CloudHypervisorInstance { v: Option::None, ..c2 }),
    ensures
        c2.command_view() == c1.command_view() + Seq::new(v_count(c2), |i: int| "-v"@),
{
    match c2.v {
        Option::None => {
            assert(c2.command_view() =~= c1.command_view() + Seq::new(
                v_count(c2),
                |i: int| "-v"@,
            ));
        },
        Option::Some(n) => {
            assert(c2.command_view() =~= c1.command_view() + Seq::new(
                v_count(c2),
                |i: int| "-v"@,
            ));
        },
    }
}

} // verus!

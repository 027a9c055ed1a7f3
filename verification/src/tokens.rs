//! How one option group becomes tokens: a group whose payload has at least
//! one part contributes its flag token followed by one payload token (the
//! parts joined with commas); a group with no parts contributes nothing.

use vstd::prelude::*;
use crate::text::{views, join_sep, join_with, lemma_views_push};

verus! {

broadcast use lemma_views_push;

/// An option group whose payload is a comma-joined list of `key=value`
/// parts, each present field contributing one part.
pub trait ArgSource {
    /// The parts the payload is made of, in the group's fixed field order.
    spec fn parts_view(&self) -> Seq<Seq<char>>;

    /// Builds the payload parts.
    fn parts(&self) -> (r: Vec<String>)
        ensures
            views(r@) == self.parts_view(),
    ;
}

/// An option group rendered as a single payload token: a bare variant tag
/// or one `key=value` pair, never a comma-joined list.
pub trait TagArg {
    /// The payload token's text.
    spec fn arg_view(&self) -> Seq<char>;

    /// Builds the payload token.
    fn arg(&self) -> (r: String)
        ensures
            r@ == self.arg_view(),
    ;
}

/// The tokens a group with the given payload parts contributes: nothing if
/// there are no parts, else the flag token and the joined payload token.
pub open spec fn group_tokens(flag: Seq<char>, parts: Seq<Seq<char>>) -> Seq<Seq<char>> {
    if parts.len() == 0 {
        Seq::<Seq<char>>::empty()
    } else {
        seq![flag, join_sep(parts, seq![','])]
    }
}

/// The tokens a singular group contributes: nothing when absent.
pub open spec fn opt_group_tokens<T: ArgSource>(flag: Seq<char>, o: Option<T>) -> Seq<
    Seq<char>,
> {
    match o {
        Option::None => Seq::<Seq<char>>::empty(),
        Option::Some(t) => group_tokens(flag, t.parts_view()),
    }
}

/// The tokens a multi-valued group contributes: one flag/payload pair per
/// instance with at least one part, in insertion order; all-absent
/// instances are dropped.
pub open spec fn list_tokens<T: ArgSource>(flag: Seq<char>, items: Seq<T>) -> Seq<Seq<char>>
    decreases items.len(),
{
    if items.len() == 0 {
        Seq::<Seq<char>>::empty()
    } else {
        group_tokens(flag, items[0].parts_view()) + list_tokens(flag, items.drop_first())
    }
}

/// The instances a multi-valued field holds: none while the field is
/// absent, else the accumulated sequence.
pub open spec fn seq_of<T>(o: Option<Vec<T>>) -> Seq<T> {
    match o {
        Option::None => Seq::<T>::empty(),
        Option::Some(v) => v@,
    }
}

pub open spec fn opt_list_tokens<T: ArgSource>(flag: Seq<char>, o: Option<Vec<T>>) -> Seq<
    Seq<char>,
> {
    list_tokens(flag, seq_of(o))
}

/// The tokens a tagged-variant group contributes: the flag and its single
/// payload token whenever the group is present at all.
pub open spec fn opt_tag_tokens<T: TagArg>(flag: Seq<char>, o: Option<T>) -> Seq<Seq<char>> {
    match o {
        Option::None => Seq::<Seq<char>>::empty(),
        Option::Some(t) => seq![flag, t.arg_view()],
    }
}

/// The tokens a scalar-valued option contributes: the flag and the bare
/// text when present.
pub open spec fn opt_plain_tokens(flag: Seq<char>, o: Option<String>) -> Seq<Seq<char>> {
    match o {
        Option::None => Seq::<Seq<char>>::empty(),
        Option::Some(s) => seq![flag, s@],
    }
}

/// The tokens a presence flag contributes: the bare flag token when and
/// only when the value is `Some(true)`.
pub open spec fn presence_tokens(flag: Seq<char>, o: Option<bool>) -> Seq<Seq<char>> {
    if o == Option::Some(true) {
        seq![flag]
    } else {
        Seq::<Seq<char>>::empty()
    }
}

/// The tokens the verbosity counter contributes: its short flag repeated
/// exactly counter-many times.
pub open spec fn verbosity_tokens(o: Option<u8>) -> Seq<Seq<char>> {
    match o {
        Option::None => Seq::<Seq<char>>::empty(),
        Option::Some(n) => Seq::new(n as nat, |i: int| "-v"@),
    }
}

/// One instance appended to a multi-valued group extends its tokens by that
/// instance's own flag/payload contribution.
pub proof fn lemma_list_tokens_push<T: ArgSource>(flag: Seq<char>, items: Seq<T>, item: T)
    ensures
        list_tokens(flag, items.push(item)) == list_tokens(flag, items) + group_tokens(
            flag,
            item.parts_view(),
        ),
    decreases items.len(),
{
    if items.len() == 0 {
        let pushed = items.push(item);
        assert(pushed.drop_first() =~= Seq::<T>::empty());
        assert(list_tokens(flag, pushed.drop_first()) == Seq::<Seq<char>>::empty());
        assert(pushed[0] == item);
        assert(list_tokens(flag, pushed) == group_tokens(flag, item.parts_view()) + list_tokens(
            flag,
            pushed.drop_first(),
        ));
        assert(list_tokens(flag, items) == Seq::<Seq<char>>::empty());
        assert(list_tokens(flag, pushed) =~= list_tokens(flag, items) + group_tokens(
            flag,
            item.parts_view(),
        ));
    } else {
        assert(items.push(item).drop_first() =~= items.drop_first().push(item));
        lemma_list_tokens_push(flag, items.drop_first(), item);
        assert(items.push(item)[0] == items[0]);
        assert(list_tokens(flag, items.push(item)) =~= list_tokens(flag, items) + group_tokens(
            flag,
            item.parts_view(),
        ));
    }
}

/// Concatenating two runs of instances concatenates their token
/// contributions: instances are rendered independently, never merged.
pub proof fn lemma_list_tokens_concat<T: ArgSource>(flag: Seq<char>, s1: Seq<T>, s2: Seq<T>)
    ensures
        list_tokens(flag, s1 + s2) == list_tokens(flag, s1) + list_tokens(flag, s2),
    decreases s1.len(),
{
    if s1.len() == 0 {
        assert(s1 + s2 =~= s2);
        assert(list_tokens(flag, s1) == Seq::<Seq<char>>::empty());
        assert(list_tokens(flag, s1) + list_tokens(flag, s2) =~= list_tokens(flag, s2));
    } else {
        assert((s1 + s2).drop_first() =~= s1.drop_first() + s2);
        lemma_list_tokens_concat(flag, s1.drop_first(), s2);
        assert((s1 + s2)[0] == s1[0]);
        assert(list_tokens(flag, s1 + s2) =~= list_tokens(flag, s1) + list_tokens(flag, s2));
    }
}

/// Appends a singular group's tokens.
pub fn push_group<T: ArgSource>(cmd: &mut Vec<String>, flag: &str, item: &T)
    ensures
        views(final(cmd)@) == views(old(cmd)@) + group_tokens(flag@, item.parts_view()),
{
    let parts = item.parts();
    if parts.len() > 0 {
        cmd.push(flag.to_owned());
        cmd.push(join_with(&parts, ","));
        proof {
            reveal_strlit(",");
            assert(","@ =~= seq![',']);
            assert(views(final(cmd)@) =~= views(old(cmd)@) + group_tokens(
                flag@,
                item.parts_view(),
            ));
        }
    } else {
        proof {
            assert(views(final(cmd)@) =~= views(old(cmd)@) + group_tokens(
                flag@,
                item.parts_view(),
            ));
        }
    }
}

/// Appends a singular group's tokens, nothing when the group is absent.
pub fn push_opt_group<T: ArgSource>(cmd: &mut Vec<String>, flag: &str, o: &Option<T>)
    ensures
        views(final(cmd)@) == views(old(cmd)@) + opt_group_tokens(flag@, *o),
{
    match o {
        Option::Some(item) => {
            push_group(cmd, flag, item);
        },
        Option::None => {
            proof {
                assert(views(final(cmd)@) =~= views(old(cmd)@) + opt_group_tokens(flag@, *o));
            }
        },
    }
}

/// Appends a multi-valued group's tokens, one flag/payload pair per
/// non-empty instance, in insertion order.
pub fn push_opt_list<T: ArgSource>(cmd: &mut Vec<String>, flag: &str, o: &Option<Vec<T>>)
    ensures
        views(final(cmd)@) == views(old(cmd)@) + opt_list_tokens(flag@, *o),
{
    match o {
        Option::Some(items) => {
            let mut i: usize = 0;
            while i < items.len()
                invariant
                    i <= items.len(),
                    views(cmd@) == views(old(cmd)@) + list_tokens(flag@, items@.take(i as int)),
                decreases items.len() - i,
            {
                push_group(cmd, flag, &items[i]);
                proof {
                    assert(items@.take(i + 1) =~= items@.take(i as int).push(items@[i as int]));
                    lemma_list_tokens_push(flag@, items@.take(i as int), items@[i as int]);
                    assert(views(old(cmd)@) + list_tokens(flag@, items@.take(i as int))
                        + group_tokens(flag@, items@[i as int].parts_view()) =~= views(old(cmd)@)
                        + list_tokens(flag@, items@.take(i + 1)));
                }
                i += 1;
            }
            proof {
                assert(items@.take(items@.len() as int) =~= items@);
            }
        },
        Option::None => {
            proof {
                assert(views(final(cmd)@) =~= views(old(cmd)@) + opt_list_tokens(flag@, *o));
            }
        },
    }
}

/// Appends a tagged-variant group's tokens: flag and single payload token
/// whenever present.
pub fn push_opt_tag<T: TagArg>(cmd: &mut Vec<String>, flag: &str, o: &Option<T>)
    ensures
        views(final(cmd)@) == views(old(cmd)@) + opt_tag_tokens(flag@, *o),
{
    match o {
        Option::Some(t) => {
            cmd.push(flag.to_owned());
            cmd.push(t.arg());
            proof {
                assert(views(final(cmd)@) =~= views(old(cmd)@) + opt_tag_tokens(flag@, *o));
            }
        },
        Option::None => {
            proof {
                assert(views(final(cmd)@) =~= views(old(cmd)@) + opt_tag_tokens(flag@, *o));
            }
        },
    }
}

/// Appends a scalar-valued option's tokens: flag and bare text when present.
pub fn push_opt_plain(cmd: &mut Vec<String>, flag: &str, o: &Option<String>)
    ensures
        views(final(cmd)@) == views(old(cmd)@) + opt_plain_tokens(flag@, *o),
{
    match o {
        Option::Some(s) => {
            cmd.push(flag.to_owned());
            cmd.push(s.clone());
            proof {
                assert(views(final(cmd)@) =~= views(old(cmd)@) + opt_plain_tokens(flag@, *o));
            }
        },
        Option::None => {
            proof {
                assert(views(final(cmd)@) =~= views(old(cmd)@) + opt_plain_tokens(flag@, *o));
            }
        },
    }
}

/// Appends a presence flag's token when and only when the value is
/// `Some(true)`.
pub fn push_presence(cmd: &mut Vec<String>, flag: &str, o: &Option<bool>)
    ensures
        views(final(cmd)@) == views(old(cmd)@) + presence_tokens(flag@, *o),
{
    match o {
        Option::Some(b) => {
            if *b {
                cmd.push(flag.to_owned());
            }
            proof {
                assert(views(final(cmd)@) =~= views(old(cmd)@) + presence_tokens(flag@, *o));
            }
        },
        Option::None => {
            proof {
                assert(views(final(cmd)@) =~= views(old(cmd)@) + presence_tokens(flag@, *o));
            }
        },
    }
}

/// Appends the verbosity flag, repeated counter-many times.
pub fn push_verbosity(cmd: &mut Vec<String>, o: &Option<u8>)
    ensures
        views(final(cmd)@) == views(old(cmd)@) + verbosity_tokens(*o),
{
    match o {
        Option::Some(n) => {
            let count = *n;
            let mut i: u8 = 0;
            while i < count
                invariant
                    i <= count,
                    views(cmd@) == views(old(cmd)@) + Seq::new(i as nat, |j: int| "-v"@),
                decreases count - i,
            {
                cmd.push("-v".to_owned());
                proof {
                    assert(Seq::new((i + 1) as nat, |j: int| "-v"@) =~= Seq::new(
                        i as nat,
                        |j: int| "-v"@,
                    ).push("-v"@));
                    assert(views(old(cmd)@) + Seq::new(i as nat, |j: int| "-v"@).push("-v"@)
                        =~= (views(old(cmd)@) + Seq::new(i as nat, |j: int| "-v"@)).push("-v"@));
                }
                i += 1;
            }
        },
        Option::None => {
            proof {
                assert(views(final(cmd)@) =~= views(old(cmd)@) + verbosity_tokens(*o));
            }
        },
    }
}

} // verus!

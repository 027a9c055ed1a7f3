//! How one field becomes a payload part: a present field contributes one
//! `key=value` substring, an absent field contributes nothing.

use vstd::prelude::*;
use crate::text::{views, dec_of, join_sep, join_with, prefixed, prefixed_u64, lemma_views_push};
use crate::values::{ByteSize, OnOff};

verus! {

broadcast use lemma_views_push;

/// The decimal renderings of a sequence of integers, in order.
pub open spec fn dec_views(v: Seq<usize>) -> Seq<Seq<char>> {
    Seq::new(v.len(), |i: int| dec_of(v[i] as nat))
}

/// Renders each integer of a list as its decimal digits.
pub fn dec_strings(v: &Vec<usize>) -> (r: Vec<String>)
    ensures
        views(r@) == dec_views(v@),
{
    let mut r: Vec<String> = Vec::new();
    let mut i: usize = 0;
    while i < v.len()
        invariant
            i <= v.len(),
            views(r@) == dec_views(v@).take(i as int),
        decreases v.len() - i,
    {
        r.push(crate::text::u64_to_string(v[i] as u64));
        proof {
            assert(dec_views(v@).take(i + 1) =~= dec_views(v@).take(i as int).push(
                dec_of(v@[i as int] as nat),
            ));
        }
        i += 1;
    }
    proof {
        assert(dec_views(v@).take(v@.len() as int) =~= dec_views(v@));
    }
    r
}

/// An empty list of payload parts.
pub fn new_parts() -> (r: Vec<String>)
    ensures
        views(r@) == Seq::<Seq<char>>::empty(),
{
    let r: Vec<String> = Vec::new();
    proof {
        assert(views(r@) =~= Seq::<Seq<char>>::empty());
    }
    r
}

/// The part a small-integer field contributes.
pub open spec fn u8_part(key: Seq<char>, o: Option<u8>) -> Seq<Seq<char>> {
    match o {
        Option::None => Seq::<Seq<char>>::empty(),
        Option::Some(n) => seq![key + dec_of(n as nat)],
    }
}

pub fn push_u8_part(parts: &mut Vec<String>, key: &str, o: &Option<u8>)
    ensures
        views(final(parts)@) == views(old(parts)@) + u8_part(key@, *o),
{
    match o {
        Option::Some(n) => {
            parts.push(prefixed_u64(key, *n as u64));
        },
        Option::None => {},
    }
    proof {
        assert(views(final(parts)@) =~= views(old(parts)@) + u8_part(key@, *o));
    }
}

/// The part an integer field contributes.
pub open spec fn usize_part(key: Seq<char>, o: Option<usize>) -> Seq<Seq<char>> {
    match o {
        Option::None => Seq::<Seq<char>>::empty(),
        Option::Some(n) => seq![key + dec_of(n as nat)],
    }
}

pub fn push_usize_part(parts: &mut Vec<String>, key: &str, o: &Option<usize>)
    ensures
        views(final(parts)@) == views(old(parts)@) + usize_part(key@, *o),
{
    match o {
        Option::Some(n) => {
            parts.push(prefixed_u64(key, *n as u64));
        },
        Option::None => {},
    }
    proof {
        assert(views(final(parts)@) =~= views(old(parts)@) + usize_part(key@, *o));
    }
}

/// The part a byte-size field contributes: the raw decimal byte count.
pub open spec fn size_part(key: Seq<char>, o: Option<ByteSize>) -> Seq<Seq<char>> {
    match o {
        Option::None => Seq::<Seq<char>>::empty(),
        Option::Some(s) => seq![key + s.text_view()],
    }
}

pub fn push_size_part(parts: &mut Vec<String>, key: &str, o: &Option<ByteSize>)
    ensures
        views(final(parts)@) == views(old(parts)@) + size_part(key@, *o),
{
    match o {
        Option::Some(s) => {
            parts.push(prefixed_u64(key, s.0));
        },
        Option::None => {},
    }
    proof {
        assert(views(final(parts)@) =~= views(old(parts)@) + size_part(key@, *o));
    }
}

/// The part an on/off toggle contributes.
pub open spec fn onoff_part(key: Seq<char>, o: Option<OnOff>) -> Seq<Seq<char>> {
    match o {
        Option::None => Seq::<Seq<char>>::empty(),
        Option::Some(state) => seq![key + state.text_view()],
    }
}

pub fn push_onoff_part(parts: &mut Vec<String>, key: &str, o: &Option<OnOff>)
    ensures
        views(final(parts)@) == views(old(parts)@) + onoff_part(key@, *o),
{
    match o {
        Option::Some(state) => {
            parts.push(prefixed(key, state.as_text()));
        },
        Option::None => {},
    }
    proof {
        assert(views(final(parts)@) =~= views(old(parts)@) + onoff_part(key@, *o));
    }
}

/// The part a text field (name, id, path) contributes.
pub open spec fn string_part(key: Seq<char>, o: Option<String>) -> Seq<Seq<char>> {
    match o {
        Option::None => Seq::<Seq<char>>::empty(),
        Option::Some(s) => seq![key + s@],
    }
}

pub fn push_string_part(parts: &mut Vec<String>, key: &str, o: &Option<String>)
    ensures
        views(final(parts)@) == views(old(parts)@) + string_part(key@, *o),
{
    match o {
        Option::Some(s) => {
            parts.push(prefixed(key, s.as_str()));
        },
        Option::None => {},
    }
    proof {
        assert(views(final(parts)@) =~= views(old(parts)@) + string_part(key@, *o));
    }
}

/// The part a list of integers contributes: comma-joined decimal values,
/// emitted (possibly with an empty value) whenever the field is present.
pub open spec fn usize_list_part(key: Seq<char>, o: Option<Vec<usize>>) -> Seq<Seq<char>> {
    match o {
        Option::None => Seq::<Seq<char>>::empty(),
        Option::Some(v) => seq![key + join_sep(dec_views(v@), seq![','])],
    }
}

pub fn push_usize_list_part(parts: &mut Vec<String>, key: &str, o: &Option<Vec<usize>>)
    ensures
        views(final(parts)@) == views(old(parts)@) + usize_list_part(key@, *o),
{
    match o {
        Option::Some(v) => {
            let decs = dec_strings(v);
            let joined = join_with(&decs, ",");
            parts.push(prefixed(key, joined.as_str()));
            proof {
                reveal_strlit(",");
                assert(","@ =~= seq![',']);
            }
        },
        Option::None => {},
    }
    proof {
        assert(views(final(parts)@) =~= views(old(parts)@) + usize_list_part(key@, *o));
    }
}

/// The part a list of names contributes: comma-joined, emitted (possibly
/// with an empty value) whenever the field is present.
pub open spec fn string_list_part(key: Seq<char>, o: Option<Vec<String>>) -> Seq<Seq<char>> {
    match o {
        Option::None => Seq::<Seq<char>>::empty(),
        Option::Some(v) => seq![key + join_sep(views(v@), seq![','])],
    }
}

pub fn push_string_list_part(parts: &mut Vec<String>, key: &str, o: &Option<Vec<String>>)
    ensures
        views(final(parts)@) == views(old(parts)@) + string_list_part(key@, *o),
{
    match o {
        Option::Some(v) => {
            let joined = join_with(v, ",");
            parts.push(prefixed(key, joined.as_str()));
            proof {
                reveal_strlit(",");
                assert(","@ =~= seq![',']);
            }
        },
        Option::None => {},
    }
    proof {
        assert(views(final(parts)@) =~= views(old(parts)@) + string_list_part(key@, *o));
    }
}

/// Appends one already-rendered part.
pub fn push_part(parts: &mut Vec<String>, part: String)
    ensures
        views(final(parts)@) == views(old(parts)@) + seq![part@],
{
    let ghost p = part@;
    parts.push(part);
    proof {
        assert(views(final(parts)@) =~= views(old(parts)@) + seq![p]);
    }
}

} // verus!

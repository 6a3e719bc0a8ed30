//! Layout operations: the content vocabulary of a page.
//!
//! A page's content is an ordered, bounded sequence of `Op` values: literal
//! text, an explicit page break, a font change, a cursor offset or an
//! alignment change. The sequence is held in a fixed-capacity
//! `heapless::Vec`, so building a page never allocates; the capacity is
//! `OPS_CAPACITY` and exceeding it is a construction-time contract violation.

use vstd::prelude::*;

use crate::geometry::Offset;

verus! {

/// Capacity of one page's operation sequence.
pub const OPS_CAPACITY: usize = 32;

/// Upper bound on the flattened content length (characters, font changes and
/// breaks together) of one page. Keeps pagination arithmetic clear of
/// overflow; real device content is far smaller.
pub const CONTENT_CAPACITY: usize = 100000;

/// A font that text can be laid out in. The layout model is monospace per
/// font: every character of a font has that font's width.
#[derive(Clone, Copy, PartialEq, Eq, Structural, Debug)]
pub enum Font {
    Normal,
    Bold,
    Mono,
}

/// Horizontal alignment of a line. Alignment moves text sideways and never
/// changes how much of it fits, so the pagination model ignores it.
#[derive(Clone, Copy, PartialEq, Eq, Structural, Debug)]
pub enum Alignment {
    Start,
    Center,
    End,
}

/// Where lines may be broken. A style attribute of rendering; the fitting
/// model wraps at character granularity either way.
#[derive(Clone, Copy, PartialEq, Eq, Structural, Debug)]
pub enum LineBreaking {
    BreakAtWhitespace,
    BreakWordsAndInsertHyphen,
}

/// One layout instruction. `Text` may contain `'\n'` (full newline) and
/// `'\r'` (half newline); `NextPage` forces a sub-page break.
#[derive(Clone, PartialEq, Eq, Debug)]
pub enum Op {
    Text(String),
    NextPage,
    Font(Font),
    CursorOffset(Offset),
    Alignment(Alignment),
}

#[verifier::external_type_specification]
#[verifier::external_body]
#[verifier::reject_recursive_types(T)]
pub struct ExHeaplessVec<T, const N: usize>(heapless::Vec<T, N>);

/// The operations a bounded sequence holds, in order.
pub uninterp spec fn op_seq(v: heapless::Vec<Op, OPS_CAPACITY>) -> Seq<Op>;

/// Relies on heapless::Vec::new: the new vector is empty.
#[verifier::external_body]
pub fn op_seq_new() -> (v: heapless::Vec<Op, OPS_CAPACITY>)
    ensures
        op_seq(v) == Seq::<Op>::empty(),
{
    heapless::Vec::new()
}

/// Relies on heapless::Vec::push: appends while there is room; hands the
/// item back unchanged when the vector is full.
#[verifier::external_body]
pub fn op_seq_push(v: &mut heapless::Vec<Op, OPS_CAPACITY>, item: Op) -> (r: Result<(), Op>)
    ensures
        op_seq(*old(v)).len() < OPS_CAPACITY ==> r is Ok && op_seq(*final(v)) == op_seq(
            *old(v),
        ).push(item),
        op_seq(*old(v)).len() >= OPS_CAPACITY ==> (r matches Err(back) && back == item && op_seq(
            *final(v),
        ) == op_seq(*old(v))),
{
    v.push(item)
}

/// Relies on heapless::Vec::as_slice: a borrowed view of the stored
/// operations in order.
#[verifier::external_body]
pub fn op_seq_slice(v: &heapless::Vec<Op, OPS_CAPACITY>) -> (r: &[Op])
    ensures
        r@ == op_seq(*v),
{
    v.as_slice()
}

} // verus!

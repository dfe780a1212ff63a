//! The stack's behaviour as functions on its contents, and the laws that
//! follow for runs of several operations.
//!
//! A stack's contents are a sequence read from the bottom (index 0) to the
//! top (the last index); the contracts of `Stack`'s methods are stated with
//! the functions below.
use vstd::prelude::*;

verus! {

/// The element on top of a stack whose contents are `s`, or `None` when `s`
/// is empty.
pub open spec fn top<T>(s: Seq<T>) -> Option<T> {
    if s.len() == 0 {
        None
    } else {
        Some(s.last())
    }
}

/// The contents left by a pop on a stack holding `s`: the top removed, or
/// nothing changed when `s` is empty.
pub open spec fn after_pop<T>(s: Seq<T>) -> Seq<T> {
    if s.len() == 0 {
        s
    } else {
        s.drop_last()
    }
}

/// The contents left by writing `v` through the reference to the top
/// element: the top replaced, or nothing changed when `s` is empty.
pub open spec fn after_write_top<T>(s: Seq<T>, v: T) -> Seq<T> {
    if s.len() == 0 {
        s
    } else {
        s.update(s.len() - 1, v)
    }
}

/// An operation that changes a stack.
///
/// The reading operations (`peek`, `size`) take the stack by shared
/// reference and leave it as it is, so they need no entry here.
pub enum Op<T> {
    /// `push(v)`.
    Push(T),
    /// `pop()`.
    Pop,
    /// `*peek_mut().unwrap() = v`, or a `peek_mut()` that found nothing.
    WriteTop(T),
}

/// The contents after applying `op` to a stack holding `s`.
pub open spec fn step<T>(s: Seq<T>, op: Op<T>) -> Seq<T> {
    match op {
        Op::Push(v) => s.push(v),
        Op::Pop => after_pop(s),
        Op::WriteTop(v) => after_write_top(s, v),
    }
}

/// The contents after applying `ops`, first to last, to a stack holding `s`.
pub open spec fn run<T>(s: Seq<T>, ops: Seq<Op<T>>) -> Seq<T>
    decreases ops.len(),
{
    if ops.len() == 0 {
        s
    } else {
        run(step(s, ops[0]), ops.drop_first())
    }
}

/// How many of `ops` are pushes.
pub open spec fn pushes<T>(ops: Seq<Op<T>>) -> nat
    decreases ops.len(),
{
    if ops.len() == 0 {
        0
    } else {
        (if ops[0] is Push { 1nat } else { 0nat }) + pushes(ops.drop_first())
    }
}

/// How many of `ops`, applied first to last to a stack holding `s`, are pops
/// that found an element.
pub open spec fn successful_pops<T>(s: Seq<T>, ops: Seq<Op<T>>) -> nat
    decreases ops.len(),
{
    if ops.len() == 0 {
        0
    } else {
        (if ops[0] is Pop && s.len() > 0 { 1nat } else { 0nat })
            + successful_pops(step(s, ops[0]), ops.drop_first())
    }
}

/// The contents after pushing `vs`, first to last, onto a stack holding `s`.
pub open spec fn push_all<T>(s: Seq<T>, vs: Seq<T>) -> Seq<T>
    decreases vs.len(),
{
    if vs.len() == 0 {
        s
    } else {
        push_all(s.push(vs[0]), vs.drop_first())
    }
}

/// What `n` pops in a row on a stack holding `s` return, in the order they
/// return it.
pub open spec fn pops<T>(s: Seq<T>, n: nat) -> Seq<Option<T>>
    decreases n,
{
    if n == 0 {
        Seq::empty()
    } else {
        seq![top(s)] + pops(after_pop(s), (n - 1) as nat)
    }
}

/// The contents left by `n` pops in a row on a stack holding `s`.
pub open spec fn pop_n<T>(s: Seq<T>, n: nat) -> Seq<T>
    decreases n,
{
    if n == 0 {
        s
    } else {
        pop_n(after_pop(s), (n - 1) as nat)
    }
}

/// Pushing `vs` one by one puts them on top of what was there.
pub proof fn lemma_push_all<T>(s: Seq<T>, vs: Seq<T>)
    ensures
        push_all(s, vs) == s + vs,
    decreases vs.len(),
{
    if vs.len() > 0 {
        lemma_push_all(s.push(vs[0]), vs.drop_first());
        assert(s.push(vs[0]) + vs.drop_first() =~= s + vs);
    } else {
        assert(s + vs =~= s);
    }
}

/// Popping as many times as there are elements in `vs` from `s + vs` returns
/// the elements of `vs` from last to first and leaves `s`.
proof fn lemma_pops_of_concat<T>(s: Seq<T>, vs: Seq<T>)
    ensures
        pops(s + vs, vs.len()).len() == vs.len(),
        forall|i: int|
            0 <= i < vs.len() ==> #[trigger] pops(s + vs, vs.len())[i] == Some(
                vs[vs.len() - 1 - i],
            ),
        pop_n(s + vs, vs.len()) == s,
    decreases vs.len(),
{
    let n = vs.len();
    if n == 0 {
        assert(s + vs =~= s);
    } else {
        let rest = vs.drop_last();
        lemma_pops_of_concat(s, rest);
        assert(after_pop(s + vs) =~= s + rest);
        assert(top(s + vs) == Some(vs[n - 1]));
        let tail = pops(s + rest, rest.len());
        assert(pops(s + vs, n) == seq![Some(vs[n - 1])] + tail);
        assert forall|i: int| 0 <= i < n implies #[trigger] pops(s + vs, n)[i] == Some(
            vs[n - 1 - i],
        ) by {
            if i > 0 {
                assert(tail[i - 1] == Some(rest[rest.len() - 1 - (i - 1)]));
            }
        }
    }
}

/// Last in, first out: after pushing `v1, ..., vn` onto any stack, `n` pops
/// return `vn, ..., v1`, each of them present, and leave the stack as it was
/// before the pushes.
pub proof fn lemma_lifo_order<T>(s: Seq<T>, vs: Seq<T>)
    ensures
        pops(push_all(s, vs), vs.len()).len() == vs.len(),
        forall|i: int|
            0 <= i < vs.len() ==> #[trigger] pops(push_all(s, vs), vs.len())[i] == Some(
                vs[vs.len() - 1 - i],
            ),
        pop_n(push_all(s, vs), vs.len()) == s,
{
    lemma_push_all(s, vs);
    lemma_pops_of_concat(s, vs);
}

/// After any run of operations, the number of elements is the number held
/// at the start, plus the pushes, minus the pops that found an element; as
/// a count it is never negative.
pub proof fn lemma_size_counts_pushes_and_pops<T>(s: Seq<T>, ops: Seq<Op<T>>)
    ensures
        run(s, ops).len() + successful_pops(s, ops) == s.len() + pushes(ops),
    decreases ops.len(),
{
    if ops.len() > 0 {
        lemma_size_counts_pushes_and_pops(step(s, ops[0]), ops.drop_first());
    }
}

/// After `push(x)` the top is `x` and there is exactly one more element.
pub proof fn lemma_push_then_top<T>(s: Seq<T>, x: T)
    ensures
        top(s.push(x)) == Some(x),
        s.push(x).len() == s.len() + 1,
{
}

/// A value written through the reference to the top element is what the
/// next pop returns, and that pop leaves what a pop before the write would
/// have left.
pub proof fn lemma_write_top_then_pop<T>(s: Seq<T>, x: T)
    requires
        s.len() > 0,
    ensures
        top(after_write_top(s, x)) == Some(x),
        after_pop(after_write_top(s, x)) == after_pop(s),
{
    assert(after_pop(after_write_top(s, x)) =~= after_pop(s));
}

} // verus!

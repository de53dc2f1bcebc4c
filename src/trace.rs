//! A model of one send as a sequence of visits, and the laws it obeys.
//!
//! The model follows the two cases of `Next::runs`: at a cursor with a
//! middleware left, that middleware is entered, forwards the request some number
//! of times through the cursor just past it (whose position is one higher, as
//! `Next::step` gives it), and is left; at a cursor with none left, the
//! transport is called. When the middleware at position `k` forwards `calls[k]`
//! times, the visits of a send are `visits(calls, pos)`. The laws below are
//! stated of this model, for every choice of forward counts.
use vstd::prelude::*;
use crate::middleware::Next;

verus! {

/// One event of a send.
pub enum Visit {
    /// The middleware at this position starts handling the request.
    Enter(nat),
    /// The transport is called.
    Endpoint,
    /// The middleware at this position returns.
    Leave(nat),
}

/// `s`, `n` times over.
pub open spec fn repeat(s: Seq<Visit>, n: nat) -> Seq<Visit>
    decreases n,
{
    if n == 0 {
        Seq::empty()
    } else {
        repeat(s, (n - 1) as nat) + s
    }
}

/// The visits from position `pos` on, when the middleware at position `k`
/// forwards the request `calls[k]` times.
pub open spec fn visits(calls: Seq<nat>, pos: nat) -> Seq<Visit>
    decreases calls.len() - pos,
{
    if pos < calls.len() {
        seq![Visit::Enter(pos)] + repeat(visits(calls, pos + 1), calls[pos as int]) + seq![
            Visit::Leave(pos),
        ]
    } else {
        seq![Visit::Endpoint]
    }
}

/// The modelled visits of a send that runs cursor `next`.
pub open spec fn send_visits<'a, M>(calls: Seq<nat>, next: Next<'a, M>) -> Seq<Visit> {
    visits(calls, next.pos_spec())
}

/// How often the transport is called in `s`.
pub open spec fn endpoint_count(s: Seq<Visit>) -> nat
    decreases s.len(),
{
    if s.len() == 0 {
        0
    } else {
        endpoint_count(s.drop_last()) + if s.last() is Endpoint {
            1nat
        } else {
            0nat
        }
    }
}

/// The product of the forward counts from position `pos` on.
pub open spec fn forward_product(calls: Seq<nat>, pos: nat) -> nat
    decreases calls.len() - pos,
{
    if pos < calls.len() {
        calls[pos as int] * forward_product(calls, pos + 1)
    } else {
        1
    }
}

/// Every middleware forwards exactly once.
pub open spec fn each_once(n: nat) -> Seq<nat> {
    Seq::new(n, |i: int| 1nat)
}

proof fn lemma_count_add(a: Seq<Visit>, b: Seq<Visit>)
    ensures
        endpoint_count(a + b) == endpoint_count(a) + endpoint_count(b),
    decreases b.len(),
{
    if b.len() == 0 {
        assert(a + b =~= a);
    } else {
        assert((a + b).drop_last() =~= a + b.drop_last());
        lemma_count_add(a, b.drop_last());
    }
}

proof fn lemma_count_repeat(s: Seq<Visit>, n: nat)
    ensures
        endpoint_count(repeat(s, n)) == n * endpoint_count(s),
    decreases n,
{
    if n > 0 {
        lemma_count_repeat(s, (n - 1) as nat);
        lemma_count_add(repeat(s, (n - 1) as nat), s);
        let c = endpoint_count(s);
        let m = (n - 1) as nat;
        assert(m * c + c == n * c) by (nonlinear_arith)
            requires
                m + 1 == n,
        ;
    } else {
        assert(endpoint_count(Seq::<Visit>::empty()) == 0);
    }
}

proof fn lemma_count_single(v: Visit)
    ensures
        endpoint_count(seq![v]) == if v is Endpoint {
            1nat
        } else {
            0nat
        },
{
    assert(seq![v].drop_last() =~= Seq::<Visit>::empty());
    assert(seq![v].last() == v);
    assert(endpoint_count(Seq::<Visit>::empty()) == 0);
}

proof fn lemma_product_zero(calls: Seq<nat>, pos: nat, s: nat)
    requires
        pos <= s < calls.len(),
        calls[s as int] == 0,
    ensures
        forward_product(calls, pos) == 0,
    decreases s - pos,
{
    if pos < s {
        lemma_product_zero(calls, pos + 1, s);
    }
}

proof fn lemma_product_ones(calls: Seq<nat>, pos: nat)
    requires
        forall|k: int| pos <= k < calls.len() ==> calls[k] == 1,
    ensures
        forward_product(calls, pos) == 1,
    decreases calls.len() - pos,
{
    if pos < calls.len() {
        lemma_product_ones(calls, pos + 1);
    }
}

proof fn lemma_product_one_two(calls: Seq<nat>, pos: nat, d: nat)
    requires
        pos <= d < calls.len(),
        calls[d as int] == 2,
        forall|k: int| pos <= k < calls.len() && k != d ==> calls[k] == 1,
    ensures
        forward_product(calls, pos) == 2,
    decreases d - pos,
{
    if pos < d {
        lemma_product_one_two(calls, pos + 1, d);
    } else {
        lemma_product_ones(calls, pos + 1);
    }
}

/// In the model, the transport is called as often as the product of the
/// forward counts of the middleware still ahead.
pub proof fn lemma_endpoint_count(calls: Seq<nat>, pos: nat)
    ensures
        endpoint_count(visits(calls, pos)) == forward_product(calls, pos),
    decreases calls.len() - pos,
{
    if pos < calls.len() {
        lemma_endpoint_count(calls, pos + 1);
        let inner = repeat(visits(calls, pos + 1), calls[pos as int]);
        lemma_count_repeat(visits(calls, pos + 1), calls[pos as int]);
        lemma_count_add(seq![Visit::Enter(pos)], inner);
        lemma_count_add(seq![Visit::Enter(pos)] + inner, seq![Visit::Leave(pos)]);
        lemma_count_single(Visit::Enter(pos));
        lemma_count_single(Visit::Leave(pos));
    } else {
        lemma_count_single(Visit::Endpoint);
    }
}

proof fn lemma_nested_from(n: nat, pos: nat)
    requires
        pos <= n,
    ensures
        visits(each_once(n), pos) =~= Seq::new((n - pos) as nat, |i: int| Visit::Enter((pos + i) as nat))
            + seq![Visit::Endpoint] + Seq::new((n - pos) as nat, |i: int| Visit::Leave((n - 1 - i) as nat)),
    decreases n - pos,
{
    if pos < n {
        lemma_nested_from(n, pos + 1);
        let inner = visits(each_once(n), pos + 1);
        assert(repeat(inner, 1) =~= inner) by {
            assert(repeat(inner, 0) =~= Seq::<Visit>::empty());
        }
    }
}

/// In the model, with every middleware forwarding once, a send enters the
/// middleware in the order they were attached, calls the transport once, and
/// leaves them in the reverse order.
pub proof fn lemma_nested_order<'a, M>(next: Next<'a, M>)
    requires
        next.pos_spec() == 0,
    ensures
        ({
            let n = next.middleware_spec().len();
            send_visits(each_once(n), next) == Seq::new(n, |i: int| Visit::Enter(i as nat)) + seq![
                Visit::Endpoint,
            ] + Seq::new(n, |i: int| Visit::Leave((n - 1 - i) as nat))
        }),
{
    let n = next.middleware_spec().len();
    lemma_nested_from(n, 0);
    assert(Seq::new(n, |i: int| Visit::Enter((0 + i) as nat)) =~= Seq::new(n, |i: int| Visit::Enter(i as nat)));
}

/// In the model, a middleware that answers without forwarding keeps the
/// transport from being called at all.
pub proof fn lemma_short_circuit<'a, M>(next: Next<'a, M>, calls: Seq<nat>, s: nat)
    requires
        calls.len() == next.middleware_spec().len(),
        next.pos_spec() <= s < calls.len(),
        calls[s as int] == 0,
    ensures
        endpoint_count(send_visits(calls, next)) == 0,
{
    lemma_endpoint_count(calls, next.pos_spec());
    lemma_product_zero(calls, next.pos_spec(), s);
}

/// In the model, a middleware that forwards twice, with every other one
/// forwarding once, has the transport called twice.
pub proof fn lemma_forward_twice<'a, M>(next: Next<'a, M>, calls: Seq<nat>, d: nat)
    requires
        calls.len() == next.middleware_spec().len(),
        next.pos_spec() <= d < calls.len(),
        calls[d as int] == 2,
        forall|k: int| next.pos_spec() <= k < calls.len() && k != d ==> calls[k] == 1,
    ensures
        endpoint_count(send_visits(calls, next)) == 2,
{
    lemma_endpoint_count(calls, next.pos_spec());
    lemma_product_one_two(calls, next.pos_spec(), d);
}

/// In the model, a chain with no middleware calls the transport exactly once and does nothing else.
pub proof fn lemma_empty_chain<'a, M>(next: Next<'a, M>, calls: Seq<nat>)
    requires
        next.middleware_spec().len() == 0,
        calls.len() == 0,
    ensures
        send_visits(calls, next) == seq![Visit::Endpoint],
        endpoint_count(send_visits(calls, next)) == 1,
{
    lemma_endpoint_count(calls, next.pos_spec());
}

} // verus!

//! The guarantees of the scope mechanism, stated over the scope's
//! observation and transition predicates and proved once for every callback,
//! adapter and handle type.

use vstd::prelude::*;

use crate::scope::Scope;

verus! {

/// Disposing a live registration deregisters it now, exactly once: for a
/// registration whose finalizer is still unforced — as every registration is
/// right after [`Scope::register`] — disposal runs the deregister adapter on
/// precisely the pending handle, the one the caller's register adapter
/// produced, and leaves the registration forced with its guard slot empty.
pub proof fn lemma_dispose_runs_deregistration<F, H, D: Fn(H)>(
    s1: Scope<F, H, D>,
    s2: Scope<F, H, D>,
    i: int,
    ran: bool,
    h: H,
)
    requires
        !s1.forced(i),
        s1.pending_at(i) == Some(h),
        Scope::disposed_at(s1, s2, i, ran),
    ensures
        ran,
        call_ensures(s1.dereg_at(i), (h,), ()),
        s2.forced(i),
        !s2.populated(i),
{
}

/// Forcing a registration twice — for instance once through its token's
/// disposal and once through the scope's teardown — runs its deregister
/// adapter at most once: the second forcing finds the finalizer already
/// forced and does nothing.
pub proof fn lemma_second_disposal_is_noop<F, H, D: Fn(H)>(
    s1: Scope<F, H, D>,
    s2: Scope<F, H, D>,
    s3: Scope<F, H, D>,
    i: int,
    first: bool,
    second: bool,
)
    requires
        Scope::disposed_at(s1, s2, i, first),
        Scope::disposed_at(s2, s3, i, second),
    ensures
        first == !s1.forced(i),
        !second,
{
}

/// An abandoned registration is still deregistered at the scope's end,
/// exactly once: teardown finds its finalizer unforced, runs the deregister
/// adapter on precisely the pending handle, and leaves the registration
/// forced — so a later disposal of a leftover token does nothing.
pub proof fn lemma_teardown_deregisters_abandoned<F, H, D: Fn(H)>(
    s1: Scope<F, H, D>,
    s2: Scope<F, H, D>,
    i: int,
)
    requires
        0 <= i < s1.n(),
        !s1.forced(i),
        Scope::torn_down(s1, s2),
    ensures
        s1.pending_at(i) matches Some(h) && call_ensures(s1.dereg_at(i), (h,), ()),
        s2.forced(i),
        !s2.populated(i),
{
    assert(!s2.populated(i));
}

/// A leftover token disposed after the scope's teardown does nothing: the
/// teardown already forced the registration's finalizer, so for every
/// abandoned registration exactly one deregistration occurs — no more, no
/// less.
pub proof fn lemma_disposal_after_teardown_is_noop<F, H, D: Fn(H)>(
    s1: Scope<F, H, D>,
    s2: Scope<F, H, D>,
    s3: Scope<F, H, D>,
    i: int,
    ran: bool,
)
    requires
        0 <= i < s1.n(),
        Scope::torn_down(s1, s2),
        Scope::disposed_at(s2, s3, i, ran),
    ensures
        !ran,
{
    assert(!s2.populated(i));
}

/// After a registration is disposed its guard slot is empty, so by the
/// contract of [`Scope::invoke`] every later invocation of its trampoline
/// returns the misuse failure — never a silent no-op and never a result of
/// the stale callback.
pub proof fn lemma_invocation_after_disposal_is_misuse<F, H, D: Fn(H)>(
    s1: Scope<F, H, D>,
    s2: Scope<F, H, D>,
    i: int,
    ran: bool,
)
    requires
        Scope::disposed_at(s1, s2, i, ran),
    ensures
        !s2.populated(i),
{
}

/// After the scope's teardown every guard slot is empty, so by the contract
/// of [`Scope::invoke`] every later invocation of any of the scope's
/// trampolines returns the misuse failure — whether or not the
/// registration's token was ever disposed.
pub proof fn lemma_invocation_after_teardown_is_misuse<F, H, D: Fn(H)>(
    s1: Scope<F, H, D>,
    s2: Scope<F, H, D>,
    i: int,
)
    requires
        0 <= i < s1.n(),
        Scope::torn_down(s1, s2),
    ensures
        !s2.populated(i),
        s2.forced(i),
{
    assert(!s2.populated(i));
}

} // verus!

//! The scope: the registry of pending deregistrations, the registration
//! token, and the bridged trampoline.

use vstd::prelude::*;

use crate::finalizer::Finalizer;
use crate::slot::GuardSlot;
use crate::slot::MisuseError;

verus! {

/// The bridged callable: the value handed to the caller's register adapter
/// in place of the bounded-lifetime callback. It carries no callback of its
/// own; every invocation goes back through the scope's guard slot, so a
/// trampoline held after its registration was torn down can only fail
/// loudly, never reach a stale callback.
pub struct Trampoline {
    index: usize,
}

impl Trampoline {
    /// Which registration of its scope this trampoline invokes.
    pub closed spec fn id(self) -> int {
        self.index as int
    }
}

/// The token for one active registration, returned by [`Scope::register`].
/// Disposing it through [`Scope::dispose`] deregisters early; a token that
/// is dropped or forgotten instead leaves the deregistration to the scope's
/// teardown.
pub struct Registered {
    index: usize,
}

impl Registered {
    /// Which registration of its scope this token disposes.
    pub closed spec fn id(self) -> int {
        self.index as int
    }
}

/// One registration: the guard slot holding the live callback, the one-shot
/// finalizer holding the pending deregistration handle, and the caller's
/// deregister adapter.
struct Entry<F, H, D> {
    slot: GuardSlot<F>,
    fin: Finalizer<H>,
    dereg: D,
}

/// A scope: the ordered registry of every registration made in it.
///
/// The scope guarantees that each registration's finalizer is forced no
/// later than [`Scope::teardown`], even when the corresponding
/// [`Registered`] token was discarded without being disposed. Callbacks are
/// of one type `F`, deregister adapters of one type `D`, and the opaque
/// handles that the caller's register adapter produces of one type `H`.
pub struct Scope<F, H, D> {
    entries: Vec<Entry<F, H, D>>,
}

impl<F, H, D> Scope<F, H, D> {
    /// How many registrations were ever made in this scope.
    pub closed spec fn n(self) -> int {
        self.entries@.len() as int
    }

    /// Whether registration `i`'s guard slot still holds its callback.
    pub closed spec fn populated(self, i: int) -> bool {
        self.entries@[i].slot.is_populated()
    }

    /// The callback registration `i` was made with.
    pub closed spec fn callback_at(self, i: int) -> F {
        self.entries@[i].slot.stored()
    }

    /// Whether registration `i`'s finalizer has been forced.
    pub closed spec fn forced(self, i: int) -> bool {
        self.entries@[i].fin.is_forced()
    }

    /// The deregistration handle registration `i` still owes, if any.
    pub closed spec fn pending_at(self, i: int) -> Option<H> {
        self.entries@[i].fin.pending()
    }

    /// The deregister adapter registration `i` was made with.
    pub closed spec fn dereg_at(self, i: int) -> D {
        self.entries@[i].dereg
    }

    /// What well-formedness means for one registration: its guard slot is
    /// populated exactly as long as its finalizer is unforced, and the
    /// pending handle is one its deregister adapter accepts.
    pub open spec fn entry_wf(self, i: int) -> bool where D: Fn(H) {
        &&& self.populated(i) <==> !self.forced(i)
        &&& (self.pending_at(i) matches Some(h) ==> call_requires(self.dereg_at(i), (h,)))
    }

    /// Every registration of the scope is well-formed.
    pub open spec fn wf(self) -> bool where D: Fn(H) {
        forall|i: int| 0 <= i < self.n() ==> #[trigger] self.entry_wf(i)
    }

    /// Registration `i` looks the same in `post` as in `pre`.
    pub open spec fn entry_unchanged(pre: Self, post: Self, i: int) -> bool {
        &&& post.populated(i) == pre.populated(i)
        &&& post.callback_at(i) == pre.callback_at(i)
        &&& post.forced(i) == pre.forced(i)
        &&& post.pending_at(i) == pre.pending_at(i)
        &&& post.dereg_at(i) == pre.dereg_at(i)
    }

    /// How forcing registration `i` changes a scope, whether through
    /// [`Scope::dispose`] or through teardown: the registration ends up
    /// forced with its slot cleared and nothing pending, every other
    /// registration is untouched, and the deregister adapter has run — on
    /// exactly the pending handle — precisely when the finalizer had not
    /// been forced before.
    pub open spec fn disposed_at(pre: Self, post: Self, i: int, ran: bool) -> bool where D: Fn(
        H,
    ) {
        &&& post.n() == pre.n()
        &&& forall|j: int|
            0 <= j < pre.n() && j != i ==> #[trigger] Self::entry_unchanged(pre, post, j)
        &&& post.forced(i)
        &&& !post.populated(i)
        &&& post.pending_at(i) is None
        &&& (ran <==> !pre.forced(i))
        &&& (ran ==> (pre.pending_at(i) matches Some(h) && call_ensures(
            pre.dereg_at(i),
            (h,),
            (),
        )))
    }

    /// Every deregistration the scope still owed in state `pre` has run:
    /// each unforced registration's deregister adapter was handed exactly
    /// its pending handle.
    pub open spec fn deregs_ran(pre: Self) -> bool where D: Fn(H) {
        forall|i: int|
            0 <= i < pre.n() && !(#[trigger] pre.forced(i)) ==> (pre.pending_at(
                i,
            ) matches Some(h) && call_ensures(pre.dereg_at(i), (h,), ()))
    }

    /// How teardown changes a scope: every registration ends up forced with
    /// its slot cleared, and every deregistration still owed has run.
    pub open spec fn torn_down(pre: Self, post: Self) -> bool where D: Fn(H) {
        &&& post.n() == pre.n()
        &&& forall|i: int|
            0 <= i < pre.n() ==> !(#[trigger] post.populated(i)) && post.forced(i)
                && post.pending_at(i) is None
        &&& Self::deregs_ran(pre)
    }

    /// A fresh scope with no registrations.
    pub fn new() -> (s: Scope<F, H, D>) where D: Fn(H)
        ensures
            s.n() == 0,
            s.wf(),
    {
        Scope { entries: Vec::new() }
    }

    /// Registers the callback `c` with the caller's `reg` and `dereg`
    /// adapters, which expect a callable of unbounded lifetime: `reg` is
    /// called once, synchronously, with this registration's trampoline, and
    /// the opaque handle it returns is owed to `dereg` from then on. The
    /// returned token disposes the registration early; abandoning the token
    /// leaves the deregistration to the scope's teardown.
    pub fn register<G>(&mut self, c: F, reg: G, dereg: D) -> (r: Registered) where
        G: FnOnce(Trampoline) -> H,
        D: Fn(H),

        requires
            old(self).wf(),
            forall|t: Trampoline| t.id() == old(self).n() ==> call_requires(reg, (t,)),
            forall|t: Trampoline, h: H| #[trigger]
                call_ensures(reg, (t,), h) ==> call_requires(dereg, (h,)),
        ensures
            final(self).wf(),
            final(self).n() == old(self).n() + 1,
            r.id() == old(self).n(),
            forall|j: int|
                0 <= j < old(self).n() ==> #[trigger] Self::entry_unchanged(
                    *old(self),
                    *final(self),
                    j,
                ),
            final(self).populated(r.id()),
            !final(self).forced(r.id()),
            final(self).callback_at(r.id()) == c,
            final(self).dereg_at(r.id()) == dereg,
            final(self).pending_at(r.id()) is Some,
            exists|t: Trampoline, h: H|
                t.id() == r.id() && final(self).pending_at(r.id()) == Some(h) && #[trigger]
                call_ensures(reg, (t,), h),
    {
        let index = self.entries.len();
        let trampoline = Trampoline { index };
        proof {
            assert(trampoline.id() == old(self).n());
        }
        let handle = reg(trampoline);
        let entry = Entry { slot: GuardSlot::new(c), fin: Finalizer::new(handle), dereg };
        self.entries.push(entry);
        proof {
            assert forall|j: int| 0 <= j < old(self).n() implies #[trigger] Self::entry_unchanged(
                *old(self),
                *self,
                j,
            ) by {
                assert(self.entries@[j] == old(self).entries@[j]);
            }
            assert forall|j: int| 0 <= j < self.n() implies #[trigger] self.entry_wf(j) by {
                if j < old(self).n() {
                    assert(old(self).entry_wf(j));
                    assert(self.entries@[j] == old(self).entries@[j]);
                }
            }
        }
        Registered { index }
    }

    /// Invokes the trampoline's registered callback with `arg`, exactly as
    /// the callable handed to the register adapter does: while the guard slot
    /// is populated the call delegates to the callback and returns its
    /// result; once the slot has been cleared — by disposal or by teardown —
    /// the call reports the misuse loudly instead.
    pub fn invoke<A, R>(&self, trampoline: &Trampoline, arg: A) -> (r: Result<
        R,
        MisuseError,
    >) where F: Fn(A) -> R
        requires
            0 <= trampoline.id() < self.n(),
            self.populated(trampoline.id()) ==> call_requires(
                self.callback_at(trampoline.id()),
                (arg,),
            ),
        ensures
            r is Ok <==> self.populated(trampoline.id()),
            r matches Ok(v) ==> call_ensures(self.callback_at(trampoline.id()), (arg,), v),
    {
        self.entries[trampoline.index].slot.invoke(arg)
    }

    /// Forces registration `index`: clears the guard slot, then — if the
    /// finalizer had not been forced yet — runs the deregister adapter on
    /// the pending handle.
    fn force_entry(&mut self, index: usize) -> (ran: bool) where D: Fn(H)
        requires
            old(self).wf(),
            index < old(self).n(),
        ensures
            final(self).wf(),
            Self::disposed_at(*old(self), *final(self), index as int, ran),
    {
        proof {
            assert(old(self).entry_wf(index as int));
        }
        let entry = &mut self.entries[index];
        entry.slot.clear();
        let action = entry.fin.force();
        let ran: bool;
        match action {
            Some(h) => {
                (entry.dereg)(h);
                ran = true;
            },
            None => {
                ran = false;
            },
        }
        proof {
            assert forall|j: int| 0 <= j < old(self).n() && j != index as int implies
                #[trigger] Self::entry_unchanged(*old(self), *self, j) by {
                assert(self.entries@[j] == old(self).entries@[j]);
            }
            assert forall|j: int| 0 <= j < self.n() implies #[trigger] self.entry_wf(j) by {
                if j != index as int {
                    assert(old(self).entry_wf(j));
                    assert(self.entries@[j] == old(self).entries@[j]);
                }
            }
        }
        ran
    }

    /// Disposes the registration the token stands for: its finalizer is
    /// forced now, so its deregister adapter runs now — unless the scope's
    /// teardown forced it already, in which case nothing happens. The token
    /// must belong to this scope.
    pub fn dispose(&mut self, registered: Registered) -> (ran: bool) where D: Fn(H)
        requires
            old(self).wf(),
            0 <= registered.id() < old(self).n(),
        ensures
            final(self).wf(),
            Self::disposed_at(*old(self), *final(self), registered.id(), ran),
    {
        self.force_entry(registered.index)
    }

    /// Tears the scope down: every finalizer not already forced is forced
    /// now, in reverse registration order, so that no registration outlives
    /// the scope even when its token was abandoned. After teardown every
    /// guard slot is empty and every invocation attempt fails loudly.
    pub fn teardown(&mut self) where D: Fn(H)
        requires
            old(self).wf(),
        ensures
            final(self).wf(),
            Self::torn_down(*old(self), *final(self)),
    {
        let ghost pre = *self;
        let n = self.entries.len();
        let mut i: usize = n;
        while i > 0
            invariant
                i <= n,
                self.n() == n as int,
                pre.n() == n as int,
                pre.wf(),
                self.wf(),
                forall|j: int|
                    0 <= j < i ==> #[trigger] Self::entry_unchanged(pre, *self, j),
                forall|j: int|
                    i <= j < n ==> !(#[trigger] self.populated(j)) && self.forced(j)
                        && self.pending_at(j) is None,
                forall|j: int|
                    i <= j < n && !(#[trigger] pre.forced(j)) ==> (pre.pending_at(
                        j,
                    ) matches Some(h) && call_ensures(pre.dereg_at(j), (h,), ())),
            decreases i,
        {
            i = i - 1;
            let ghost mid = *self;
            let _ = self.force_entry(i);
            proof {
                assert(Self::entry_unchanged(pre, mid, i as int));
                assert forall|j: int| 0 <= j < i implies #[trigger] Self::entry_unchanged(
                    pre,
                    *self,
                    j,
                ) by {
                    assert(Self::entry_unchanged(pre, mid, j));
                    assert(Self::entry_unchanged(mid, *self, j));
                }
                assert forall|j: int| i <= j < n implies !(#[trigger] self.populated(j))
                    && self.forced(j) && self.pending_at(j) is None by {
                    if j != i as int {
                        assert(Self::entry_unchanged(mid, *self, j));
                    }
                }
            }
        }
    }
}

/// Runs `body` with a fresh scope and tears the scope down when `body`
/// returns, whatever registrations `body` made and whether or not it
/// disposed their tokens: afterwards every deregistration the returned
/// scope still owed has run, and `body`'s result is handed back unchanged.
pub fn scope<F, H, D, Body, T>(body: Body) -> (r: T) where
    D: Fn(H),
    Body: FnOnce(Scope<F, H, D>) -> (Scope<F, H, D>, T),

    requires
        forall|s: Scope<F, H, D>| s.n() == 0 && s.wf() ==> call_requires(body, (s,)),
        forall|s: Scope<F, H, D>, ret: (Scope<F, H, D>, T)| #[trigger]
            call_ensures(body, (s,), ret) ==> ret.0.wf(),
    ensures
        exists|s0: Scope<F, H, D>, s1: Scope<F, H, D>|
            s0.n() == 0 && s0.wf() && #[trigger] call_ensures(body, (s0,), (s1, r))
                && Scope::deregs_ran(s1),
{
    let fresh: Scope<F, H, D> = Scope::new();
    let ghost s0 = fresh;
    let (mut ending, result) = body(fresh);
    let ghost s1 = ending;
    ending.teardown();
    proof {
        assert(call_ensures(body, (s0,), (s1, result)));
    }
    result
}

} // verus!

//! The subscription registry: the ordered set of (channel type, entity id)
//! pairs currently subscribed, kept so they can be replayed after a
//! reconnect.
//!
//! Adding an existing pair is a no-op, removing an absent pair is a no-op,
//! and the snapshot lists the still-active pairs in insertion order with no
//! duplicates.

use vstd::prelude::*;

use crate::progress::ChannelType;

verus! {

/// One subscription: a channel type together with the entity id it tracks.
#[derive(Debug, Clone, Copy, PartialEq, Eq, Hash, Structural)]
pub struct Subscription {
    pub channel_type: ChannelType,
    pub id: u128,
}

/// A registry mutation, as seen at the specification level.
#[derive(Debug, Clone, Copy, PartialEq, Eq, Structural)]
pub enum RegOp {
    Add(Subscription),
    Remove(Subscription),
}

/// No pair occurs twice.
pub open spec fn no_dups(s: Seq<Subscription>) -> bool {
    forall|i: int, j: int| 0 <= i < j < s.len() ==> s[i] != s[j]
}

/// The sequence `s` with every occurrence of `sub` removed, keeping the
/// order of the rest.
pub open spec fn spec_remove(s: Seq<Subscription>, sub: Subscription) -> Seq<Subscription>
    decreases s.len(),
{
    if s.len() == 0 {
        Seq::empty()
    } else if s.last() == sub {
        spec_remove(s.drop_last(), sub)
    } else {
        spec_remove(s.drop_last(), sub).push(s.last())
    }
}

/// What one mutation does to the registry contents: an add appends the pair
/// unless it is already present, a remove drops it wherever it occurs.
pub open spec fn apply_op(s: Seq<Subscription>, op: RegOp) -> Seq<Subscription> {
    match op {
        RegOp::Add(sub) => if s.contains(sub) {
            s
        } else {
            s.push(sub)
        },
        RegOp::Remove(sub) => spec_remove(s, sub),
    }
}

/// The registry contents after a whole sequence of mutations, starting from
/// `init`.
pub open spec fn apply_ops(init: Seq<Subscription>, ops: Seq<RegOp>) -> Seq<Subscription>
    decreases ops.len(),
{
    if ops.len() == 0 {
        init
    } else {
        apply_op(apply_ops(init, ops.drop_last()), ops.last())
    }
}

/// Whether `sub` is still active after `ops`, starting from nothing: the
/// last mutation that mentions it decides.
pub open spec fn active_after(ops: Seq<RegOp>, sub: Subscription) -> bool
    decreases ops.len(),
{
    if ops.len() == 0 {
        false
    } else {
        match ops.last() {
            RegOp::Add(t) => if t == sub {
                true
            } else {
                active_after(ops.drop_last(), sub)
            },
            RegOp::Remove(t) => if t == sub {
                false
            } else {
                active_after(ops.drop_last(), sub)
            },
        }
    }
}

/// Removal drops exactly the occurrences of the removed pair.
pub proof fn lemma_spec_remove_membership(s: Seq<Subscription>, sub: Subscription)
    ensures
        forall|x: Subscription|
            #[trigger] spec_remove(s, sub).contains(x) <==> s.contains(x) && x != sub,
    decreases s.len(),
{
    if s.len() > 0 {
        let d = s.drop_last();
        let r = spec_remove(s, sub);
        let rd = spec_remove(d, sub);
        lemma_spec_remove_membership(d, sub);
        assert forall|x: Subscription| s.contains(x) && x != sub implies #[trigger] r.contains(
            x,
        ) by {
            let i = choose|i: int| 0 <= i < s.len() && s[i] == x;
            if i == s.len() - 1 {
                assert(s.last() == x);
                assert(r[r.len() - 1] == x);
            } else {
                assert(d[i] == x);
                assert(d.contains(x));
                assert(rd.contains(x));
                if s.last() == sub {
                    assert(r == rd);
                } else {
                    let j = choose|j: int| 0 <= j < rd.len() && rd[j] == x;
                    assert(r[j] == x);
                }
            }
        }
        assert forall|x: Subscription| #[trigger] r.contains(x) implies s.contains(x) && x
            != sub by {
            if s.last() == sub {
                assert(rd.contains(x));
                assert(d.contains(x));
                let i = choose|i: int| 0 <= i < d.len() && d[i] == x;
                assert(s[i] == x);
            } else {
                let i = choose|i: int| 0 <= i < r.len() && r[i] == x;
                if i == r.len() - 1 {
                    assert(x == s.last());
                    assert(s[s.len() - 1] == x);
                } else {
                    assert(rd[i] == x);
                    assert(rd.contains(x));
                    assert(d.contains(x));
                    let j = choose|j: int| 0 <= j < d.len() && d[j] == x;
                    assert(s[j] == x);
                }
            }
        }
    }
}

/// Removal keeps the remaining pairs distinct.
pub proof fn lemma_spec_remove_no_dups(s: Seq<Subscription>, sub: Subscription)
    requires
        no_dups(s),
    ensures
        no_dups(spec_remove(s, sub)),
    decreases s.len(),
{
    if s.len() > 0 {
        assert(no_dups(s.drop_last()));
        lemma_spec_remove_no_dups(s.drop_last(), sub);
        if s.last() != sub {
            lemma_spec_remove_membership(s.drop_last(), sub);
            let r = spec_remove(s.drop_last(), sub);
            if r.contains(s.last()) {
                let i = choose|i: int| 0 <= i < s.drop_last().len() && s.drop_last()[i] == s.last();
                assert(s[i] == s.last());
            }
            assert(!r.contains(s.last()));
            assert forall|i: int, j: int|
                0 <= i < j < r.push(s.last()).len() implies r.push(s.last())[i] != r.push(
                s.last(),
            )[j] by {
                if j == r.len() {
                    assert(r.contains(r[i]));
                }
            }
        }
    }
}

/// Removing a pair that is not present changes nothing.
pub proof fn lemma_spec_remove_absent(s: Seq<Subscription>, sub: Subscription)
    requires
        !s.contains(sub),
    ensures
        spec_remove(s, sub) == s,
    decreases s.len(),
{
    if s.len() > 0 {
        assert forall|x: Subscription| s.drop_last().contains(x) implies s.contains(x) by {
            let i = choose|i: int| 0 <= i < s.drop_last().len() && s.drop_last()[i] == x;
            assert(s[i] == x);
        }
        lemma_spec_remove_absent(s.drop_last(), sub);
        assert(s.last() != sub);
        assert(spec_remove(s, sub) =~= s);
    }
}

/// The law of the registry: after any sequence of add and remove calls,
/// starting from an empty registry, the contents hold no duplicates, and a
/// pair is present exactly when the last mutation that mentioned it was an
/// add.
pub proof fn lemma_snapshot_is_active_set(ops: Seq<RegOp>)
    ensures
        no_dups(apply_ops(Seq::empty(), ops)),
        forall|sub: Subscription|
            #[trigger] apply_ops(Seq::empty(), ops).contains(sub) <==> active_after(ops, sub),
    decreases ops.len(),
{
    if ops.len() == 0 {
        assert(forall|sub: Subscription| !#[trigger] apply_ops(Seq::empty(), ops).contains(sub));
    } else {
        lemma_snapshot_is_active_set(ops.drop_last());
        let prev = apply_ops(Seq::empty(), ops.drop_last());
        let cur = apply_ops(Seq::empty(), ops);
        match ops.last() {
            RegOp::Add(t) => {
                if prev.contains(t) {
                    assert(cur == prev);
                    assert forall|sub: Subscription| #[trigger] cur.contains(sub) implies
                        active_after(ops, sub) by {
                        if sub != t {
                            assert(active_after(ops.drop_last(), sub));
                        }
                    }
                    assert forall|sub: Subscription| active_after(ops, sub) implies
                        #[trigger] cur.contains(sub) by {
                        if sub != t {
                            assert(active_after(ops.drop_last(), sub));
                            assert(prev.contains(sub));
                        }
                    }
                } else {
                    assert(cur == prev.push(t));
                    assert forall|sub: Subscription| #[trigger] cur.contains(sub) implies
                        active_after(ops, sub) by {
                        let i = choose|i: int| 0 <= i < cur.len() && cur[i] == sub;
                        if i < prev.len() {
                            assert(prev[i] == sub);
                            assert(prev.contains(sub));
                            if sub != t {
                                assert(active_after(ops.drop_last(), sub));
                            }
                        } else {
                            assert(sub == t);
                        }
                    }
                    assert forall|sub: Subscription| active_after(ops, sub) implies
                        #[trigger] cur.contains(sub) by {
                        if sub == t {
                            assert(cur[prev.len() as int] == sub);
                        } else {
                            assert(active_after(ops.drop_last(), sub));
                            assert(prev.contains(sub));
                            let i = choose|i: int| 0 <= i < prev.len() && prev[i] == sub;
                            assert(cur[i] == sub);
                        }
                    }
                    assert forall|i: int, j: int| 0 <= i < j < cur.len() implies cur[i]
                        != cur[j] by {
                        if j == prev.len() {
                            assert(prev.contains(prev[i]));
                        }
                    }
                }
            },
            RegOp::Remove(t) => {
                lemma_spec_remove_membership(prev, t);
                lemma_spec_remove_no_dups(prev, t);
                assert(cur == spec_remove(prev, t));
                assert forall|sub: Subscription| #[trigger] cur.contains(sub) implies
                    active_after(ops, sub) by {
                    assert(prev.contains(sub) && sub != t);
                    assert(active_after(ops.drop_last(), sub));
                }
                assert forall|sub: Subscription| active_after(ops, sub) implies
                    #[trigger] cur.contains(sub) by {
                    assert(sub != t);
                    assert(active_after(ops.drop_last(), sub));
                    assert(prev.contains(sub));
                }
            },
        }
    }
}

/// The ordered set of current subscriptions.
#[derive(Debug)]
pub struct SubscriptionRegistry {
    entries: Vec<Subscription>,
}

impl View for SubscriptionRegistry {
    type V = Seq<Subscription>;

    closed spec fn view(&self) -> Seq<Subscription> {
        self.entries@
    }
}

impl SubscriptionRegistry {
    /// The registry's pairs are pairwise distinct.
    pub open spec fn wf(&self) -> bool {
        no_dups(self@)
    }

    /// Creates an empty registry.
    pub fn new() -> (r: Self)
        ensures
            r@ == Seq::<Subscription>::empty(),
            r.wf(),
    {
        SubscriptionRegistry { entries: Vec::new() }
    }

    /// Returns whether the pair is currently subscribed.
    pub fn contains(&self, channel_type: ChannelType, id: u128) -> (r: bool)
        ensures
            r == self@.contains(Subscription { channel_type, id }),
    {
        let sub = Subscription { channel_type, id };
        let mut i: usize = 0;
        while i < self.entries.len()
            invariant
                i <= self.entries@.len(),
                self.entries@ == self@,
                sub == (Subscription { channel_type, id }),
                forall|j: int| 0 <= j < i ==> self@[j] != sub,
            decreases self.entries@.len() - i,
        {
            if self.entries[i] == sub {
                assert(self@[i as int] == sub);
                return true;
            }
            i = i + 1;
        }
        false
    }

    /// Adds the pair; adding a pair already present is a no-op, so the
    /// registry stays duplicate-free.
    pub fn add(&mut self, channel_type: ChannelType, id: u128)
        requires
            old(self).wf(),
        ensures
            final(self)@ == apply_op(
                old(self)@,
                RegOp::Add(Subscription { channel_type, id }),
            ),
            final(self).wf(),
    {
        let sub = Subscription { channel_type, id };
        if !self.contains(channel_type, id) {
            let ghost prev = self@;
            self.entries.push(sub);
            proof {
                assert forall|i: int, j: int| 0 <= i < j < self@.len() implies self@[i]
                    != self@[j] by {
                    if j == prev.len() {
                        assert(prev.contains(prev[i]));
                    }
                }
            }
        }
    }

    /// Removes the pair wherever it occurs; removing an absent pair is a
    /// no-op. The order of the remaining pairs is kept.
    pub fn remove(&mut self, channel_type: ChannelType, id: u128)
        requires
            old(self).wf(),
        ensures
            final(self)@ == apply_op(
                old(self)@,
                RegOp::Remove(Subscription { channel_type, id }),
            ),
            final(self).wf(),
    {
        let sub = Subscription { channel_type, id };
        let mut kept: Vec<Subscription> = Vec::new();
        let mut i: usize = 0;
        while i < self.entries.len()
            invariant
                i <= self.entries@.len(),
                self.entries@ == old(self)@,
                sub == (Subscription { channel_type, id }),
                kept@ == spec_remove(self.entries@.take(i as int), sub),
            decreases self.entries@.len() - i,
        {
            let ghost s = self.entries@;
            proof {
                assert(s.take(i + 1).drop_last() =~= s.take(i as int));
                assert(s.take(i + 1).last() == s[i as int]);
            }
            if self.entries[i] != sub {
                kept.push(self.entries[i]);
            }
            i = i + 1;
        }
        proof {
            assert(self.entries@.take(self.entries@.len() as int) =~= self.entries@);
            lemma_spec_remove_no_dups(old(self)@, sub);
        }
        self.entries = kept;
    }

    /// Returns the still-active pairs, in insertion order.
    pub fn snapshot(&self) -> (r: Vec<Subscription>)
        ensures
            r@ == self@,
    {
        let mut out: Vec<Subscription> = Vec::new();
        let mut i: usize = 0;
        while i < self.entries.len()
            invariant
                i <= self.entries@.len(),
                self.entries@ == self@,
                out@ == self@.take(i as int),
            decreases self.entries@.len() - i,
        {
            proof {
                assert(self@.take(i + 1) =~= self@.take(i as int).push(self@[i as int]));
            }
            out.push(self.entries[i]);
            i = i + 1;
        }
        proof {
            assert(self@.take(self@.len() as int) =~= self@);
        }
        out
    }

    /// The number of active subscriptions.
    pub fn len(&self) -> (n: usize)
        ensures
            n == self@.len(),
    {
        self.entries.len()
    }
}

} // verus!

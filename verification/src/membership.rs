use vstd::prelude::*;

use crate::address::IpAddr;

verus! {

/// A multicast group membership: any-source (ASM) or source-specific (SSM).
#[derive(Debug, Clone, Copy, PartialEq, Eq, Hash, Structural)]
pub enum Membership {
    AnySource { group: IpAddr },
    SourceSpecific { group: IpAddr, source: IpAddr },
}

impl Membership {
    pub open spec fn spec_group(self) -> IpAddr {
        match self {
            Membership::AnySource { group } => group,
            Membership::SourceSpecific { group, .. } => group,
        }
    }

    pub fn any_source(group: IpAddr) -> (r: Membership)
        ensures
            r == (Membership::AnySource { group }),
    {
        Membership::AnySource { group }
    }

    pub fn source_specific(group: IpAddr, source: IpAddr) -> (r: Membership)
        ensures
            r == (Membership::SourceSpecific { group, source }),
    {
        Membership::SourceSpecific { group, source }
    }

    /// The group address of the membership, whatever its kind.
    pub fn group(&self) -> (r: IpAddr)
        ensures
            r == self.spec_group(),
    {
        match self {
            Membership::AnySource { group } => *group,
            Membership::SourceSpecific { group, .. } => *group,
        }
    }
}

/// A set of memberships, kept in the order they were first added, without
/// duplicates.
#[derive(Debug)]
pub struct MembershipSet {
    items: Vec<Membership>,
}

impl View for MembershipSet {
    type V = Set<Membership>;

    closed spec fn view(&self) -> Set<Membership> {
        self.items@.to_set()
    }
}

impl MembershipSet {
    #[verifier::type_invariant]
    closed spec fn no_duplicates(self) -> bool {
        self.items@.no_duplicates()
    }

    /// The memberships in the order in which they were first added.
    pub closed spec fn order(self) -> Seq<Membership> {
        self.items@
    }

    /// The empty set.
    pub fn new() -> (r: MembershipSet)
        ensures
            r@ == Set::<Membership>::empty(),
            r.order() == Seq::<Membership>::empty(),
    {
        let r = MembershipSet { items: Vec::new() };
        assert(r@ =~= Set::<Membership>::empty());
        r
    }

    /// Whether `m` is in the set.
    pub fn contains(&self, m: &Membership) -> (r: bool)
        ensures
            r == self@.contains(*m),
    {
        let mut i: usize = 0;
        while i < self.items.len()
            invariant
                0 <= i <= self.items@.len(),
                forall|j: int| 0 <= j < i ==> self.items@[j] != *m,
            decreases self.items@.len() - i,
        {
            if self.items[i] == *m {
                assert(self.items@.contains(*m));
                return true;
            }
            i = i + 1;
        }
        false
    }

    /// Adds `m`; returns whether it was absent. The order gains `m` at its end
    /// when it was absent and is unchanged otherwise.
    pub fn insert(&mut self, m: Membership) -> (r: bool)
        ensures
            r == !old(self)@.contains(m),
            final(self)@ == old(self)@.insert(m),
            final(self).order() == (if r { old(self).order().push(m) } else { old(self).order() }),
    {
        proof { use_type_invariant(&*self); }
        if self.contains(&m) {
            assert(self@.insert(m) =~= self@);
            false
        } else {
            let ghost before = self.items@;
            let mut items: Vec<Membership> = Vec::new();
            std::mem::swap(&mut items, &mut self.items);
            items.push(m);
            assert(items@.to_set() =~= before.to_set().insert(m)) by {
                lemma_push_to_set(before, m);
            }
            assert(items@.no_duplicates()) by {
                assert forall|a: int, b: int| 0 <= a < b < items@.len() implies items@[a] != items@[b] by {
                    if b == before.len() {
                        assert(before.contains(items@[a]));
                    }
                }
            }
            self.items = items;
            true
        }
    }

    /// Removes `m`; returns whether it was present. The order keeps the other
    /// memberships in the same relative order.
    pub fn remove(&mut self, m: &Membership) -> (r: bool)
        ensures
            r == old(self)@.contains(*m),
            final(self)@ == old(self)@.remove(*m),
            final(self).order() == old(self).order().filter(|x: Membership| x != *m),
    {
        proof { use_type_invariant(&*self); }
        let ghost before = self.items@;
        let mut i: usize = 0;
        while i < self.items.len()
            invariant
                self.items@ == before,
                before == old(self).items@,
                before.no_duplicates(),
                0 <= i <= before.len(),
                forall|j: int| 0 <= j < i ==> before[j] != *m,
            decreases before.len() - i,
        {
            if self.items[i] == *m {
                assert(before.contains(*m)) by {
                    assert(before[i as int] == *m);
                }
                let mut items: Vec<Membership> = Vec::new();
                std::mem::swap(&mut items, &mut self.items);
                items.remove(i);
                proof { lemma_removed_at(before, items@, i as int, *m); }
                self.items = items;
                return true;
            }
            i = i + 1;
        }
        assert(!before.contains(*m));
        assert(self@.remove(*m) =~= self@);
        assert(before.filter(|x: Membership| x != *m) =~= before) by {
            lemma_filter_keeps_all(before, *m);
        }
        false
    }

    /// The number of memberships.
    pub fn len(&self) -> (r: usize)
        ensures
            r == self@.len(),
    {
        proof {
            use_type_invariant(self);
            lemma_unique_len(self.items@);
        }
        self.items.len()
    }

    pub fn is_empty(&self) -> (r: bool)
        ensures
            r == (self@.len() == 0),
    {
        proof {
            use_type_invariant(self);
            lemma_unique_len(self.items@);
        }
        self.items.len() == 0
    }

    /// The memberships, in the order in which they were first added.
    pub fn to_vec(&self) -> (r: Vec<Membership>)
        ensures
            r@ == self.order(),
            r@.no_duplicates(),
            r@.to_set() == self@,
    {
        proof { use_type_invariant(self); }
        let mut out: Vec<Membership> = Vec::new();
        let mut i: usize = 0;
        while i < self.items.len()
            invariant
                0 <= i <= self.items@.len(),
                out@ == self.items@.take(i as int),
            decreases self.items@.len() - i,
        {
            out.push(self.items[i]);
            i = i + 1;
            assert(out@ =~= self.items@.take(i as int));
        }
        assert(self.items@.take(i as int) =~= self.items@);
        out
    }

    /// The set of the memberships in `ms`.
    pub fn from_slice(ms: &[Membership]) -> (r: MembershipSet)
        ensures
            r@ == ms@.to_set(),
    {
        let mut set = MembershipSet::new();
        let mut i: usize = 0;
        while i < ms.len()
            invariant
                0 <= i <= ms@.len(),
                set@ == ms@.take(i as int).to_set(),
            decreases ms@.len() - i,
        {
            set.insert(ms[i]);
            assert(ms@.take(i + 1) =~= ms@.take(i as int).push(ms@[i as int]));
            proof { lemma_push_to_set(ms@.take(i as int), ms@[i as int]); }
            i = i + 1;
        }
        assert(ms@.take(i as int) =~= ms@);
        set
    }
}

proof fn lemma_removed_at(before: Seq<Membership>, after: Seq<Membership>, i: int, m: Membership)
    requires
        before.no_duplicates(),
        0 <= i < before.len(),
        before[i] == m,
        after == before.remove(i),
    ensures
        after.no_duplicates(),
        after.to_set() == before.to_set().remove(m),
        after == before.filter(|x: Membership| x != m),
{

    assert(after.to_set() =~= before.to_set().remove(m)) by {
        assert forall|x: Membership| after.contains(x) <==> before.contains(x) && x != m by {
            if after.contains(x) {
                let j = choose|j: int| 0 <= j < after.len() && after[j] == x;
                if j < i {
                    assert(before[j] == x);
                } else {
                    assert(before[j + 1] == x);
                }
            }
            if before.contains(x) && x != m {
                let j = choose|j: int| 0 <= j < before.len() && before[j] == x;
                if j < i {
                    assert(after[j] == x);
                } else {
                    assert(j != i);
                    assert(after[j - 1] == x);
                }
            }
        }
    }
    assert(after.no_duplicates()) by {
        assert forall|a: int, b: int| 0 <= a < b < after.len() implies after[a] != after[b] by {
            let a2 = if a < i { a } else { a + 1 };
            let b2 = if b < i { b } else { b + 1 };
            assert(after[a] == before[a2]);
            assert(after[b] == before[b2]);
        }
    }
    lemma_filter_removes_unique(before, i, m);
}

proof fn lemma_unique_len(s: Seq<Membership>)
    requires
        s.no_duplicates(),
    ensures
        s.to_set().len() == s.len(),
        s.to_set().finite(),
{
    s.unique_seq_to_set();
    vstd::seq_lib::seq_to_set_is_finite(s);
}

proof fn lemma_push_to_set(s: Seq<Membership>, x: Membership)
    ensures
        s.push(x).to_set() == s.to_set().insert(x),
{
    assert(s.push(x).to_set() =~= s.to_set().insert(x)) by {
        assert forall|y: Membership| s.push(x).contains(y) <==> s.contains(y) || y == x by {
            if s.push(x).contains(y) {
                let j = choose|j: int| 0 <= j < s.push(x).len() && s.push(x)[j] == y;
                if j < s.len() {
                    assert(s[j] == y);
                }
            }
            if s.contains(y) {
                let j = choose|j: int| 0 <= j < s.len() && s[j] == y;
                assert(s.push(x)[j] == y);
            }
            if y == x {
                assert(s.push(x)[s.len() as int] == x);
            }
        }
    }
}

proof fn lemma_filter_keeps_all(s: Seq<Membership>, m: Membership)
    requires
        !s.contains(m),
    ensures
        s.filter(|x: Membership| x != m) == s,
    decreases s.len(),
{
    reveal_with_fuel(Seq::filter, 1);
    if s.len() > 0 {
        assert(!s.drop_last().contains(m)) by {
            if s.drop_last().contains(m) {
                let j = choose|j: int| 0 <= j < s.drop_last().len() && s.drop_last()[j] == m;
                assert(s[j] == m);
            }
        }
        lemma_filter_keeps_all(s.drop_last(), m);
        assert(s.last() != m) by {
            assert(s[s.len() - 1] == s.last());
        }
        assert(s.drop_last().push(s.last()) =~= s);
    }
}

proof fn lemma_filter_removes_unique(s: Seq<Membership>, i: int, m: Membership)
    requires
        s.no_duplicates(),
        0 <= i < s.len(),
        s[i] == m,
    ensures
        s.filter(|x: Membership| x != m) == s.remove(i),
    decreases s.len(),
{
    reveal_with_fuel(Seq::filter, 1);
    let last = s.len() - 1;
    if i == last {
        assert(!s.drop_last().contains(m)) by {
            if s.drop_last().contains(m) {
                let j = choose|j: int| 0 <= j < s.drop_last().len() && s.drop_last()[j] == m;
                assert(s[j] == s[i]);
            }
        }
        lemma_filter_keeps_all(s.drop_last(), m);
        assert(s.remove(i) =~= s.drop_last());
    } else {
        assert(s.drop_last().no_duplicates()) by {
            assert forall|a: int, b: int| 0 <= a < b < s.drop_last().len() implies s.drop_last()[a] != s.drop_last()[b] by {
                assert(s.drop_last()[a] == s[a]);
                assert(s.drop_last()[b] == s[b]);
            }
        }
        assert(s.drop_last()[i] == m);
        lemma_filter_removes_unique(s.drop_last(), i, m);
        assert(s.last() != m) by {
            assert(s[last] == s.last());
        }
        assert(s.remove(i) =~= s.drop_last().remove(i).push(s.last()));
    }
}

} // verus!

//! Short type names.

use vstd::prelude::*;
use vstd::string::*;

verus! {

/// The part of a type path before its first `<`, i.e. without generic arguments.
pub open spec fn before_generics(s: Seq<char>) -> Seq<char>
    decreases s.len(),
{
    if s.len() == 0 {
        s
    } else if s[0] == '<' {
        Seq::empty()
    } else {
        seq![s[0]] + before_generics(s.drop_first())
    }
}

/// Whether `s` has a `::` separator ending at position `k`.
pub open spec fn separator_ends_at(s: Seq<char>, k: int) -> bool {
    2 <= k <= s.len() && s[k - 2] == ':' && s[k - 1] == ':'
}

/// The part of a path after its last `::` separator (the whole path when it has none).
pub open spec fn last_segment(s: Seq<char>) -> Seq<char>
    decreases s.len(),
{
    if s.len() == 0 {
        s
    } else if separator_ends_at(s, s.len() as int) {
        Seq::empty()
    } else {
        last_segment(s.drop_last()).push(s.last())
    }
}

/// The short name of a type path: its last path segment, without generic arguments.
pub open spec fn short_type_name(s: Seq<char>) -> Seq<char> {
    last_segment(before_generics(s))
}

proof fn lemma_before_generics(s: Seq<char>, p: int)
    requires
        0 <= p <= s.len(),
        forall|k: int| 0 <= k < p ==> s[k] != '<',
        p < s.len() ==> s[p] == '<',
    ensures
        before_generics(s) == s.take(p),
    decreases s.len(),
{
    if s.len() == 0 {
    } else if s[0] == '<' {
        assert(s.take(p) =~= Seq::<char>::empty());
    } else {
        let t = s.drop_first();
        assert forall|k: int| 0 <= k < p - 1 implies t[k] != '<' by {
            assert(t[k] == s[k + 1]);
        }
        lemma_before_generics(t, p - 1);
        assert(s.take(p) =~= seq![s[0]] + t.take(p - 1));
    }
}

proof fn lemma_last_segment(t: Seq<char>, j: int, m: int)
    requires
        0 <= j <= m <= t.len(),
        j == 0 || separator_ends_at(t, j),
        forall|k: int| j < k <= m ==> !separator_ends_at(t, k),
    ensures
        last_segment(t.take(m)) == t.subrange(j, m),
    decreases m - j,
{
    let tm = t.take(m);
    if m == j {
        if j == 0 {
            assert(tm =~= Seq::<char>::empty());
            assert(t.subrange(0, 0) =~= Seq::<char>::empty());
        } else {
            assert(separator_ends_at(tm, m));
            assert(t.subrange(j, m) =~= Seq::<char>::empty());
        }
    } else {
        assert(!separator_ends_at(t, m));
        assert(!separator_ends_at(tm, m));
        lemma_last_segment(t, j, m - 1);
        assert(tm.drop_last() =~= t.take(m - 1));
        assert(t.subrange(j, m) =~= t.subrange(j, m - 1).push(t[m - 1]));
    }
}

proof fn lemma_before_generics_props(s: Seq<char>)
    ensures
        before_generics(s).len() <= s.len(),
        before_generics(s) == s.take(before_generics(s).len() as int),
        forall|k: int| 0 <= k < before_generics(s).len() ==> before_generics(s)[k] != '<',
    decreases s.len(),
{
    if s.len() == 0 {
        assert(s.take(0) =~= s);
    } else if s[0] == '<' {
        assert(s.take(0) =~= Seq::<char>::empty());
    } else {
        let t = s.drop_first();
        lemma_before_generics_props(t);
        let b = before_generics(s);
        assert(b =~= seq![s[0]] + before_generics(t));
        assert(b =~= s.take(b.len() as int));
        assert forall|k: int| 0 <= k < b.len() implies b[k] != '<' by {
            if k > 0 {
                assert(b[k] == before_generics(t)[k - 1]);
            }
        }
    }
}

proof fn lemma_last_segment_props(t: Seq<char>)
    ensures
        last_segment(t).len() <= t.len(),
        last_segment(t) == t.subrange(t.len() - last_segment(t).len(), t.len() as int),
        forall|k: int| !separator_ends_at(last_segment(t), k),
    decreases t.len(),
{
    let l = last_segment(t);
    if t.len() == 0 {
        assert(t.subrange(0, 0) =~= t);
    } else if separator_ends_at(t, t.len() as int) {
        assert(t.subrange(t.len() as int, t.len() as int) =~= Seq::<char>::empty());
    } else {
        let d = t.drop_last();
        lemma_last_segment_props(d);
        let l1 = last_segment(d);
        assert(l == l1.push(t.last()));
        assert(l =~= t.subrange(t.len() - l.len(), t.len() as int));
        assert forall|k: int| !separator_ends_at(l, k) by {
            if separator_ends_at(l, k) {
                if k < l.len() {
                    assert(l[k - 2] == l1[k - 2] && l[k - 1] == l1[k - 1]);
                    assert(separator_ends_at(l1, k));
                } else {
                    assert(l1.len() >= 1);
                    assert(l1[l1.len() - 1] == d[d.len() - 1]);
                    assert(separator_ends_at(t, t.len() as int));
                }
            }
        }
    }
}

/// A short type name is bare: it holds no `<` and no `::`, and it is the tail of the type's
/// path once the generic arguments are cut off.
pub proof fn lemma_short_type_name_is_bare(s: Seq<char>)
    ensures
        forall|k: int| 0 <= k < short_type_name(s).len() ==> short_type_name(s)[k] != '<',
        forall|k: int| !separator_ends_at(short_type_name(s), k),
        short_type_name(s).is_suffix_of(before_generics(s)),
{
    let b = before_generics(s);
    lemma_before_generics_props(s);
    lemma_last_segment_props(b);
    let r = short_type_name(s);
    assert forall|k: int| 0 <= k < r.len() implies r[k] != '<' by {
        assert(r[k] == b[b.len() - r.len() + k]);
    }
    assert(b.subrange(b.len() - r.len(), b.len() as int) =~= r);
}

/// Returns the short name of a type path: its last path segment, without generic arguments.
pub fn short_name(full: &str) -> (r: &str)
    ensures
        r@ == short_type_name(full@),
{
    let n = full.unicode_len();
    let mut p: usize = 0;
    while p < n && full.get_char(p) != '<'
        invariant
            p <= n,
            n == full@.len(),
            forall|k: int| 0 <= k < p ==> full@[k] != '<',
        decreases n - p,
    {
        p = p + 1;
    }
    proof {
        lemma_before_generics(full@, p as int);
    }
    let ghost head = full@.take(p as int);
    let mut j: usize = p;
    while j > 0 && !(j >= 2 && full.get_char(j - 2) == ':' && full.get_char(j - 1) == ':')
        invariant
            j <= p <= n,
            n == full@.len(),
            head == full@.take(p as int),
            forall|k: int| j < k <= p ==> !separator_ends_at(head, k),
        decreases j,
    {
        proof {
            assert(!separator_ends_at(head, j as int));
        }
        j = j - 1;
    }
    proof {
        if j > 0 {
            assert(separator_ends_at(head, j as int));
        }
        lemma_last_segment(head, j as int, p as int);
        assert(head.take(p as int) =~= head);
        assert(head.subrange(j as int, p as int) =~= full@.subrange(j as int, p as int));
    }
    full.substring_char(j, p)
}

/// A hasher which passes a pre-hashed integer (such as a `TypeId`'s) through without hashing
/// it again: the hash is the last integer written, truncated to 64 bits.
#[derive(Debug)]
pub struct NoOpHasher {
    hash: u64,
}

impl NoOpHasher {
    /// The hash held.
    pub closed spec fn value(&self) -> u64 {
        self.hash
    }

    /// Constructs a hasher holding the hash 0.
    pub fn new() -> (r: Self)
        ensures
            r.value() == 0,
    {
        NoOpHasher { hash: 0 }
    }

    /// Writes a byte: it becomes the hash.
    pub fn write_u8(&mut self, n: u8)
        ensures
            final(self).value() == n,
    {
        self.hash = n as u64;
    }

    /// Writes a 16-bit integer: it becomes the hash.
    pub fn write_u16(&mut self, n: u16)
        ensures
            final(self).value() == n,
    {
        self.hash = n as u64;
    }

    /// Writes a 32-bit integer: it becomes the hash.
    pub fn write_u32(&mut self, n: u32)
        ensures
            final(self).value() == n,
    {
        self.hash = n as u64;
    }

    /// Writes a 64-bit integer: it becomes the hash.
    pub fn write_u64(&mut self, n: u64)
        ensures
            final(self).value() == n,
    {
        self.hash = n;
    }

    /// Writes a 128-bit integer: its low 64 bits become the hash.
    pub fn write_u128(&mut self, n: u128)
        ensures
            final(self).value() == n % 0x1_0000_0000_0000_0000,
    {
        let low: u128 = n % 0x1_0000_0000_0000_0000;
        self.hash = low as u64;
    }

    /// Writes a `usize`: it becomes the hash.
    pub fn write_usize(&mut self, n: usize)
        ensures
            final(self).value() == n,
    {
        self.hash = n as u64;
    }

    /// Returns the hash.
    pub fn finish(&self) -> (r: u64)
        ensures
            r == self.value(),
    {
        self.hash
    }
}

impl Default for NoOpHasher {
    fn default() -> (r: Self)
        ensures
            r.value() == 0,
    {
        NoOpHasher::new()
    }
}

} // verus!

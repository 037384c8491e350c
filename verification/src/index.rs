//! Actor identifiers and their allocation.

use vstd::prelude::*;
use vstd::string::*;

verus! {

/// Maximum value an allocated actor index may take: the most significant bit of the 64-bit
/// index is reserved.
pub const MAX_ACTOR_ID: u64 = 0x7fff_ffff_ffff_ffffu64;

/// Actor index type.
///
/// A local actor has epoch zero; an actor reached through a remote session carries the non-zero
/// index of that session as its epoch.
#[derive(Clone, Copy, PartialEq, Eq, PartialOrd, Ord, Hash, Structural)]
pub struct ActorId {
    index: u64,
    epoch: u64,
}

impl ActorId {
    /// The index part of this id.
    pub closed spec fn index_part(self) -> u64 {
        self.index
    }

    /// The epoch part of this id: zero for a local actor, the remote session otherwise.
    pub closed spec fn epoch_part(self) -> u64 {
        self.epoch
    }

    /// Two ids are equal exactly when their index and epoch parts are.
    pub proof fn lemma_parts_determine_id(a: ActorId, b: ActorId)
        ensures
            a == b <==> (a.index_part() == b.index_part() && a.epoch_part() == b.epoch_part()),
    {
    }

    /// Constructs a new local `ActorId` from a u64.
    pub fn new(index: u64) -> (r: Self)
        ensures
            r.index_part() == index,
            r.epoch_part() == 0,
    {
        ActorId { index, epoch: 0 }
    }

    /// Returns the index part of this `ActorId` as a u64.
    pub fn as_u64(&self) -> (r: u64)
        ensures
            r == self.index_part(),
    {
        self.index
    }

    /// Returns the index an actor has in its own process: the index part of this `ActorId`.
    pub fn as_local(&self) -> (r: u64)
        ensures
            r == self.index_part(),
    {
        self.index
    }

    /// Constructs a new `ActorId` from a u64 and a non-zero remote id.
    pub fn new_remote(index: u64, remote_index: u64) -> (r: Self)
        requires
            remote_index != 0,
        ensures
            r.index_part() == index,
            r.epoch_part() == remote_index,
    {
        ActorId { index, epoch: remote_index }
    }

    /// Returns true if this `ActorId` is a remote id.
    pub fn is_remote(&self) -> (r: bool)
        ensures
            r == (self.epoch_part() != 0),
    {
        self.epoch != 0
    }

    /// The text of this id: the index in decimal, followed by `@` and the epoch in decimal when
    /// the id is remote.
    pub fn to_string(&self) -> (r: String)
        ensures
            r@ == id_text(*self),
    {
        let mut out = String::new();
        push_decimal(&mut out, self.index);
        if self.epoch != 0 {
            let at = "@";
            proof {
                reveal_strlit("@");
            }
            out.append(at);
            push_decimal(&mut out, self.epoch);
        }
        out
    }
}

/// The decimal digit character of `d`, for `d < 10`.
pub open spec fn digit_char(d: nat) -> char {
    if d == 0 {
        '0'
    } else if d == 1 {
        '1'
    } else if d == 2 {
        '2'
    } else if d == 3 {
        '3'
    } else if d == 4 {
        '4'
    } else if d == 5 {
        '5'
    } else if d == 6 {
        '6'
    } else if d == 7 {
        '7'
    } else if d == 8 {
        '8'
    } else {
        '9'
    }
}

/// The decimal text of `n`, without leading zeros.
pub open spec fn decimal(n: nat) -> Seq<char>
    decreases n,
{
    if n < 10 {
        seq![digit_char(n)]
    } else {
        decimal(n / 10).push(digit_char(n % 10))
    }
}

/// The text of an actor id, as `ActorId::to_string` renders it.
pub open spec fn id_text(id: ActorId) -> Seq<char> {
    if id.epoch_part() == 0 {
        decimal(id.index_part() as nat)
    } else {
        decimal(id.index_part() as nat) + seq!['@'] + decimal(id.epoch_part() as nat)
    }
}

/// Every character of a decimal text is a digit, never `'@'`; the text is one character long
/// exactly for the numbers below ten.
pub proof fn lemma_decimal_shape(n: nat)
    ensures
        decimal(n).len() >= 1,
        decimal(n).len() == 1 <==> n < 10,
        forall|i: int| 0 <= i < decimal(n).len() ==> '0' <= #[trigger] decimal(n)[i] <= '9',
    decreases n,
{
    if n >= 10 {
        lemma_decimal_shape(n / 10);
        let d = n % 10;
        assert('0' <= digit_char(d) <= '9');
    } else {
        assert('0' <= digit_char(n) <= '9');
    }
}

/// Two numbers below ten with the same digit are equal.
proof fn lemma_digit_char_injective(a: nat, b: nat)
    requires
        a < 10,
        b < 10,
        digit_char(a) == digit_char(b),
    ensures
        a == b,
{
}

/// Different numbers have different decimal texts.
pub proof fn lemma_decimal_injective(a: nat, b: nat)
    requires
        decimal(a) == decimal(b),
    ensures
        a == b,
    decreases a,
{
    lemma_decimal_shape(a);
    lemma_decimal_shape(b);
    if a < 10 && b < 10 {
        assert(decimal(a)[0] == digit_char(a));
        assert(decimal(b)[0] == digit_char(b));
        lemma_digit_char_injective(a, b);
    } else if a >= 10 && b >= 10 {
        let da = decimal(a);
        assert(da.last() == digit_char(a % 10));
        assert(decimal(b).last() == digit_char(b % 10));
        lemma_digit_char_injective(a % 10, b % 10);
        assert(da.drop_last() =~= decimal(a / 10));
        assert(decimal(b).drop_last() =~= decimal(b / 10));
        lemma_decimal_injective(a / 10, b / 10);
    }
}

/// The text of a remote id holds `'@'`, right after the decimal index; that of a local id
/// holds none.
proof fn lemma_id_text_at(id: ActorId)
    ensures
        id.epoch_part() == 0 ==> !id_text(id).contains('@'),
        id.epoch_part() != 0 ==> id_text(id)[decimal(id.index_part() as nat).len() as int] == '@',
        id.epoch_part() != 0 ==> id_text(id).contains('@'),
{
    let d = decimal(id.index_part() as nat);
    lemma_decimal_shape(id.index_part() as nat);
    lemma_decimal_shape(id.epoch_part() as nat);
    if id.epoch_part() == 0 {
        assert forall|i: int| 0 <= i < id_text(id).len() implies id_text(id)[i] != '@' by {
            assert('0' <= d[i] <= '9');
        }
    } else {
        assert(id_text(id)[d.len() as int] == '@');
    }
}

/// Law: the text of an actor id names it, so that two ids with the same text are the same id;
/// in particular a remote id never prints like a local one, nor like a remote id of another
/// session.
pub proof fn law_id_text_injective(a: ActorId, b: ActorId, ta: String, tb: String)
    requires
        call_ensures(ActorId::to_string, (&a,), ta),
        call_ensures(ActorId::to_string, (&b,), tb),
        ta@ == tb@,
    ensures
        a == b,
{
    let t = ta@;
    lemma_id_text_at(a);
    lemma_id_text_at(b);
    ActorId::lemma_parts_determine_id(a, b);
    let da = decimal(a.index_part() as nat);
    let db = decimal(b.index_part() as nat);
    lemma_decimal_shape(a.index_part() as nat);
    lemma_decimal_shape(b.index_part() as nat);
    if a.epoch_part() == 0 && b.epoch_part() == 0 {
        lemma_decimal_injective(a.index_part() as nat, b.index_part() as nat);
    } else if a.epoch_part() != 0 && b.epoch_part() != 0 {
        let ea = decimal(a.epoch_part() as nat);
        let eb = decimal(b.epoch_part() as nat);
        if da.len() < db.len() {
            assert(t[da.len() as int] == '@');
            assert(t[da.len() as int] == db[da.len() as int]);
            assert('0' <= db[da.len() as int] <= '9');
        } else if db.len() < da.len() {
            assert(t[db.len() as int] == '@');
            assert(t[db.len() as int] == da[db.len() as int]);
            assert('0' <= da[db.len() as int] <= '9');
        }
        assert(da.len() == db.len());
        assert(da =~= t.subrange(0, da.len() as int));
        assert(db =~= t.subrange(0, db.len() as int));
        lemma_decimal_injective(a.index_part() as nat, b.index_part() as nat);
        assert(ea =~= t.subrange(da.len() + 1int, t.len() as int));
        assert(eb =~= t.subrange(db.len() + 1int, t.len() as int));
        lemma_decimal_injective(a.epoch_part() as nat, b.epoch_part() as nat);
    }
}

/// Law: the text of an actor id holds `'@'` exactly when the id is remote.
pub proof fn law_id_text_marks_remote(id: ActorId, text: String)
    requires
        call_ensures(ActorId::to_string, (&id,), text),
    ensures
        text@.contains('@') <==> id.epoch_part() != 0,
{
    lemma_id_text_at(id);
}

/// Law: the text of a local id is its index in decimal; that of a remote id is its index in
/// decimal, `'@'`, and its epoch in decimal.
pub proof fn law_id_text_form(id: ActorId, text: String)
    requires
        call_ensures(ActorId::to_string, (&id,), text),
    ensures
        decimal(id.index_part() as nat).is_prefix_of(text@),
        id.epoch_part() == 0 ==> text@ == decimal(id.index_part() as nat),
        id.epoch_part() != 0 ==> text@ == decimal(id.index_part() as nat) + seq!['@'] + decimal(
            id.epoch_part() as nat,
        ),
{
    assert(decimal(id.index_part() as nat) =~= text@.subrange(
        0,
        decimal(id.index_part() as nat).len() as int,
    ));
}

/// The number a text of decimal digits stands for, the last digit the least significant.
pub open spec fn digits_value(s: Seq<char>) -> int
    decreases s.len(),
{
    if s.len() == 0 {
        0
    } else {
        digits_value(s.drop_last()) * 10 + (s.last() as int - '0' as int)
    }
}

/// Law: the decimal text of a number is made of digits and reads back as that number.
pub proof fn law_decimal_reads_back(n: nat)
    ensures
        digits_value(decimal(n)) == n,
        forall|i: int| 0 <= i < decimal(n).len() ==> '0' <= #[trigger] decimal(n)[i] <= '9',
        n > 0 ==> decimal(n)[0] != '0',
    decreases n,
{
    lemma_decimal_shape(n);
    if n < 10 {
        assert(decimal(n).drop_last() =~= Seq::<char>::empty());
        assert(digit_char(n) as int - '0' as int == n);
        assert(digits_value(decimal(n)) == digits_value(decimal(n).drop_last()) * 10 + (
        decimal(n).last() as int - '0' as int));
    } else {
        law_decimal_reads_back(n / 10);
        assert(decimal(n).drop_last() =~= decimal(n / 10));
        assert(digit_char(n % 10) as int - '0' as int == n % 10);
        assert(decimal(n)[0] == decimal(n / 10)[0]);
        assert(digits_value(decimal(n)) == digits_value(decimal(n).drop_last()) * 10 + (
        decimal(n).last() as int - '0' as int));
        assert((n / 10) * 10 + n % 10 == n) by (nonlinear_arith);
    }
}

fn digit_str(d: u64) -> (r: &'static str)
    requires
        d < 10,
    ensures
        r@ == seq![digit_char(d as nat)],
{
    if d == 0 {
        proof { reveal_strlit("0"); }
        "0"
    } else if d == 1 {
        proof { reveal_strlit("1"); }
        "1"
    } else if d == 2 {
        proof { reveal_strlit("2"); }
        "2"
    } else if d == 3 {
        proof { reveal_strlit("3"); }
        "3"
    } else if d == 4 {
        proof { reveal_strlit("4"); }
        "4"
    } else if d == 5 {
        proof { reveal_strlit("5"); }
        "5"
    } else if d == 6 {
        proof { reveal_strlit("6"); }
        "6"
    } else if d == 7 {
        proof { reveal_strlit("7"); }
        "7"
    } else if d == 8 {
        proof { reveal_strlit("8"); }
        "8"
    } else {
        proof { reveal_strlit("9"); }
        "9"
    }
}

/// Appends the decimal text of `n` to `out`.
pub fn push_decimal(out: &mut String, n: u64)
    ensures
        final(out)@ == old(out)@ + decimal(n as nat),
    decreases n,
{
    if n >= 10 {
        push_decimal(out, n / 10);
    }
    let d = digit_str(n % 10);
    out.append(d);
    proof {
        if n >= 10 {
            assert(decimal(n as nat) == decimal((n / 10) as nat).push(digit_char((n % 10) as nat)));
        }
    }
}

/// Describes how to retrieve the index of a sender.
pub trait SenderId {
    /// Returns the index of the sender.
    fn index(&self) -> ActorId;

    /// Returns `true` if this sender refers to an actor in another process: the id that
    /// `index` gives for it is a remote id.
    fn is_remote(&self) -> (r: bool)
        ensures
            exists|id: ActorId| call_ensures(Self::index, (self,), id) && r == (id.epoch_part() != 0),
    {
        let id = self.index();
        id.is_remote()
    }
}

impl SenderId for ActorId {
    fn index(&self) -> (r: ActorId)
        ensures
            r == *self,
    {
        *self
    }
}

/// Hands out the indices of local actors, in increasing order.
pub struct ActorIdAllocator {
    next: u64,
}

impl ActorIdAllocator {
    /// The index the next allocation hands out.
    pub closed spec fn next_index(&self) -> nat {
        self.next as nat
    }

    /// The local ids handed out so far: every index below the next one.
    pub open spec fn issued(&self) -> Set<ActorId> {
        Set::new(|id: ActorId| id.epoch_part() == 0 && id.index_part() < self.next_index())
    }

    /// Constructs an allocator which has handed out nothing yet.
    pub fn new() -> (r: Self)
        ensures
            r.next_index() == 0,
            r.issued() == Set::<ActorId>::empty(),
    {
        let r = ActorIdAllocator { next: 0 };
        assert(r.issued() =~= Set::<ActorId>::empty());
        r
    }

    /// Returns true when every index up to `MAX_ACTOR_ID` has been handed out.
    pub fn is_exhausted(&self) -> (r: bool)
        ensures
            r == (self.next_index() > MAX_ACTOR_ID),
    {
        self.next > MAX_ACTOR_ID
    }

    /// Allocates a fresh local actor id.
    pub fn create_actor_id(&mut self) -> (id: ActorId)
        requires
            old(self).next_index() <= MAX_ACTOR_ID,
        ensures
            id.index_part() == old(self).next_index(),
            id.epoch_part() == 0,
            !old(self).issued().contains(id),
            final(self).next_index() == old(self).next_index() + 1,
            final(self).issued() == old(self).issued().insert(id),
    {
        let id = ActorId::new(self.next);
        self.next = self.next + 1;
        assert(final(self).issued() =~= old(self).issued().insert(id));
        id
    }
}

} // verus!

//! Total orders on the keys and values that the stores hold.

use vstd::prelude::*;
use crate::hash::HoloHash;

verus! {

/// How one value stands to another in a total order.
#[derive(Debug, Clone, Copy, PartialEq, Eq, Structural)]
pub enum Relation {
    Less,
    Equal,
    Greater,
}

/// A type whose values are totally ordered by their views, and can be
/// compared and copied at run time.
pub trait Ordered: View + Sized {
    /// The order: `a` stands before `b`, or is `b`.
    spec fn le(a: Self::V, b: Self::V) -> bool;

    proof fn le_reflexive(a: Self::V)
        ensures
            Self::le(a, a),
    ;

    proof fn le_antisymmetric(a: Self::V, b: Self::V)
        requires
            Self::le(a, b),
            Self::le(b, a),
        ensures
            a == b,
    ;

    proof fn le_transitive(a: Self::V, b: Self::V, c: Self::V)
        requires
            Self::le(a, b),
            Self::le(b, c),
        ensures
            Self::le(a, c),
    ;

    proof fn le_total(a: Self::V, b: Self::V)
        ensures
            Self::le(a, b) || Self::le(b, a),
    ;

    /// Compares two values by their views.
    fn compare(&self, other: &Self) -> (relation: Relation)
        ensures
            match relation {
                Relation::Less => Self::le(self@, other@) && self@ != other@,
                Relation::Equal => self@ == other@,
                Relation::Greater => Self::le(other@, self@) && self@ != other@,
            },
    ;

    /// A copy with the same view.
    fn duplicate(&self) -> (copy: Self)
        ensures
            copy@ == self@,
    ;
}

/// The views of the elements of a sequence.
pub open spec fn views<K: View>(s: Seq<K>) -> Seq<K::V> {
    Seq::new(s.len(), |i: int| s[i]@)
}

/// The first `i + 1` elements hold what the first `i` hold, and the element at `i`.
pub proof fn lemma_prefix_contains<A>(s: Seq<A>, i: int, x: A)
    requires
        0 <= i < s.len(),
    ensures
        s.subrange(0, i + 1).contains(x) <==> (s.subrange(0, i).contains(x) || s[i] == x),
{
    let shorter = s.subrange(0, i);
    let longer = s.subrange(0, i + 1);
    if longer.contains(x) {
        let a = choose|a: int| 0 <= a < longer.len() && longer[a] == x;
        if a < i {
            assert(shorter[a] == x);
        }
    }
    if shorter.contains(x) {
        let a = choose|a: int| 0 <= a < shorter.len() && shorter[a] == x;
        assert(longer[a] == x);
    }
    if s[i] == x {
        assert(longer[i] == x);
    }
}

/// In an ascending sequence no element stands among those before it.
pub proof fn lemma_ascending_prefix<K: Ordered>(s: Seq<K::V>, i: int)
    requires
        ascending::<K>(s),
        0 <= i < s.len(),
    ensures
        !s.subrange(0, i).contains(s[i]),
{
    let shorter = s.subrange(0, i);
    if shorter.contains(s[i]) {
        let a = choose|a: int| 0 <= a < shorter.len() && shorter[a] == s[i];
        assert(lt::<K>(s[a], s[i]));
    }
}

/// The strict order: `a` stands before `b`.
pub open spec fn lt<K: Ordered>(a: K::V, b: K::V) -> bool {
    K::le(a, b) && a != b
}

/// Whether each element stands before the next.
pub open spec fn ascending<K: Ordered>(s: Seq<K::V>) -> bool {
    forall|i: int, j: int| 0 <= i < j < s.len() ==> lt::<K>(s[i], s[j])
}

/// What stands before something that stands before a third, stands before the third.
pub proof fn lemma_lt_transitive<K: Ordered>(a: K::V, b: K::V, c: K::V)
    requires
        lt::<K>(a, b),
        lt::<K>(b, c),
    ensures
        lt::<K>(a, c),
{
    K::le_transitive(a, b, c);
    if a == c {
        K::le_antisymmetric(a, b);
    }
}

/// Two ascending sequences with the same elements are the same sequence.
pub proof fn lemma_ascending_unique<K: Ordered>(s: Seq<K::V>, t: Seq<K::V>)
    requires
        ascending::<K>(s),
        ascending::<K>(t),
        forall|x: K::V| s.contains(x) <==> t.contains(x),
    ensures
        s == t,
    decreases s.len(),
{
    if s.len() == 0 {
        if t.len() > 0 {
            assert(t.contains(t[0]));
        }
        assert(s =~= t);
    } else {
        assert(s.contains(s.last()));
        assert(t.contains(s.last()));
        let i = choose|i: int| 0 <= i < t.len() && t[i] == s.last();
        assert(t.contains(t.last()));
        assert(s.contains(t.last()));
        let j = choose|j: int| 0 <= j < s.len() && s[j] == t.last();
        if i < t.len() - 1 && j < s.len() - 1 {
            assert(lt::<K>(t[i], t[t.len() - 1]));
            assert(lt::<K>(s[j], s[s.len() - 1]));
            K::le_antisymmetric(s.last(), t.last());
        }
        assert(s.last() == t.last());
        let s0 = s.drop_last();
        let t0 = t.drop_last();
        assert forall|x: K::V| s0.contains(x) <==> t0.contains(x) by {
            if s0.contains(x) {
                let a = choose|a: int| 0 <= a < s0.len() && s0[a] == x;
                assert(s[a] == x);
                assert(lt::<K>(s[a], s[s.len() - 1]));
                assert(s.contains(x));
                assert(t.contains(x));
                let b = choose|b: int| 0 <= b < t.len() && t[b] == x;
                assert(b < t.len() - 1);
                assert(t0[b] == x);
            }
            if t0.contains(x) {
                let b = choose|b: int| 0 <= b < t0.len() && t0[b] == x;
                assert(t[b] == x);
                assert(lt::<K>(t[b], t[t.len() - 1]));
                assert(t.contains(x));
                assert(s.contains(x));
                let a = choose|a: int| 0 <= a < s.len() && s[a] == x;
                assert(a < s.len() - 1);
                assert(s0[a] == x);
            }
        }
        lemma_ascending_unique::<K>(s0, t0);
        assert(s =~= s0.push(s.last()));
        assert(t =~= t0.push(t.last()));
    }
}

impl Ordered for u32 {
    open spec fn le(a: u32, b: u32) -> bool {
        a <= b
    }

    proof fn le_reflexive(a: u32) {
    }

    proof fn le_antisymmetric(a: u32, b: u32) {
    }

    proof fn le_transitive(a: u32, b: u32, c: u32) {
    }

    proof fn le_total(a: u32, b: u32) {
    }

    fn compare(&self, other: &u32) -> (relation: Relation) {
        if *self < *other {
            Relation::Less
        } else if *self == *other {
            Relation::Equal
        } else {
            Relation::Greater
        }
    }

    fn duplicate(&self) -> (copy: u32) {
        *self
    }
}

impl Ordered for u64 {
    open spec fn le(a: u64, b: u64) -> bool {
        a <= b
    }

    proof fn le_reflexive(a: u64) {
    }

    proof fn le_antisymmetric(a: u64, b: u64) {
    }

    proof fn le_transitive(a: u64, b: u64, c: u64) {
    }

    proof fn le_total(a: u64, b: u64) {
    }

    fn compare(&self, other: &u64) -> (relation: Relation) {
        if *self < *other {
            Relation::Less
        } else if *self == *other {
            Relation::Equal
        } else {
            Relation::Greater
        }
    }

    fn duplicate(&self) -> (copy: u64) {
        *self
    }
}

/// The order of a dictionary on byte strings: the first byte that differs
/// decides, and a string stands before every longer string that starts with it.
pub open spec fn bytes_le(a: Seq<u8>, b: Seq<u8>) -> bool
    decreases a.len(),
{
    if a.len() == 0 {
        true
    } else if b.len() == 0 {
        false
    } else if a[0] != b[0] {
        a[0] < b[0]
    } else {
        bytes_le(a.drop_first(), b.drop_first())
    }
}

pub proof fn lemma_bytes_le_reflexive(a: Seq<u8>)
    ensures
        bytes_le(a, a),
    decreases a.len(),
{
    if a.len() > 0 {
        lemma_bytes_le_reflexive(a.drop_first());
    }
}

pub proof fn lemma_bytes_le_antisymmetric(a: Seq<u8>, b: Seq<u8>)
    requires
        bytes_le(a, b),
        bytes_le(b, a),
    ensures
        a == b,
    decreases a.len(),
{
    if a.len() == 0 || b.len() == 0 {
        assert(a =~= b);
    } else {
        lemma_bytes_le_antisymmetric(a.drop_first(), b.drop_first());
        assert(a =~= seq![a[0]] + a.drop_first());
        assert(b =~= seq![b[0]] + b.drop_first());
    }
}

pub proof fn lemma_bytes_le_transitive(a: Seq<u8>, b: Seq<u8>, c: Seq<u8>)
    requires
        bytes_le(a, b),
        bytes_le(b, c),
    ensures
        bytes_le(a, c),
    decreases a.len(),
{
    if a.len() > 0 && b.len() > 0 && c.len() > 0 {
        if a[0] == b[0] && b[0] == c[0] {
            lemma_bytes_le_transitive(a.drop_first(), b.drop_first(), c.drop_first());
        }
    }
}

pub proof fn lemma_bytes_le_total(a: Seq<u8>, b: Seq<u8>)
    ensures
        bytes_le(a, b) || bytes_le(b, a),
    decreases a.len(),
{
    if a.len() > 0 && b.len() > 0 && a[0] == b[0] {
        lemma_bytes_le_total(a.drop_first(), b.drop_first());
    }
}

/// Two strings that agree on their first `n` bytes stand to each other as
/// what follows those bytes.
pub proof fn lemma_bytes_le_skip(a: Seq<u8>, b: Seq<u8>, n: int)
    requires
        0 <= n <= a.len(),
        n <= b.len(),
        a.subrange(0, n) == b.subrange(0, n),
    ensures
        bytes_le(a, b) == bytes_le(a.subrange(n, a.len() as int), b.subrange(n, b.len() as int)),
    decreases n,
{
    if n == 0 {
        assert(a.subrange(0, a.len() as int) =~= a);
        assert(b.subrange(0, b.len() as int) =~= b);
    } else {
        assert(a[0] == a.subrange(0, n)[0]);
        assert(b[0] == b.subrange(0, n)[0]);
        assert(a.drop_first().subrange(0, n - 1) =~= a.subrange(0, n).drop_first());
        assert(b.drop_first().subrange(0, n - 1) =~= b.subrange(0, n).drop_first());
        lemma_bytes_le_skip(a.drop_first(), b.drop_first(), n - 1);
        assert(a.drop_first().subrange(n - 1, a.len() - 1) =~= a.subrange(n, a.len() as int));
        assert(b.drop_first().subrange(n - 1, b.len() - 1) =~= b.subrange(n, b.len() as int));
    }
}

/// Compares two byte strings in the order of a dictionary.
pub fn compare_bytes(a: &Vec<u8>, b: &Vec<u8>) -> (relation: Relation)
    ensures
        match relation {
            Relation::Less => bytes_le(a@, b@) && a@ != b@,
            Relation::Equal => a@ == b@,
            Relation::Greater => bytes_le(b@, a@) && a@ != b@,
        },
{
    let mut i: usize = 0;
    while i < a.len() && i < b.len()
        invariant
            i <= a.len(),
            i <= b.len(),
            a@.subrange(0, i as int) == b@.subrange(0, i as int),
        decreases a.len() - i,
    {
        if a[i] != b[i] {
            proof {
                lemma_bytes_le_skip(a@, b@, i as int);
                lemma_bytes_le_skip(b@, a@, i as int);
                assert(a@.subrange(i as int, a.len() as int)[0] == a@[i as int]);
                assert(b@.subrange(i as int, b.len() as int)[0] == b@[i as int]);
            }
            if a[i] < b[i] {
                return Relation::Less;
            } else {
                return Relation::Greater;
            }
        }
        assert(a@.subrange(0, i + 1) == a@.subrange(0, i as int).push(a@[i as int]));
        assert(b@.subrange(0, i + 1) == b@.subrange(0, i as int).push(b@[i as int]));
        i += 1;
    }
    proof {
        lemma_bytes_le_skip(a@, b@, i as int);
        lemma_bytes_le_skip(b@, a@, i as int);
    }
    if a.len() == b.len() {
        assert(a@ =~= a@.subrange(0, i as int));
        assert(b@ =~= b@.subrange(0, i as int));
        Relation::Equal
    } else if a.len() < b.len() {
        assert(a@.subrange(i as int, a.len() as int).len() == 0);
        Relation::Less
    } else {
        assert(b@.subrange(i as int, b.len() as int).len() == 0);
        Relation::Greater
    }
}

impl Ordered for Vec<u8> {
    open spec fn le(a: Seq<u8>, b: Seq<u8>) -> bool {
        bytes_le(a, b)
    }

    proof fn le_reflexive(a: Seq<u8>) {
        lemma_bytes_le_reflexive(a);
    }

    proof fn le_antisymmetric(a: Seq<u8>, b: Seq<u8>) {
        lemma_bytes_le_antisymmetric(a, b);
    }

    proof fn le_transitive(a: Seq<u8>, b: Seq<u8>, c: Seq<u8>) {
        lemma_bytes_le_transitive(a, b, c);
    }

    proof fn le_total(a: Seq<u8>, b: Seq<u8>) {
        lemma_bytes_le_total(a, b);
    }

    fn compare(&self, other: &Vec<u8>) -> (relation: Relation) {
        compare_bytes(self, other)
    }

    fn duplicate(&self) -> (copy: Vec<u8>) {
        self.clone()
    }
}

impl Ordered for HoloHash {
    open spec fn le(a: Seq<u8>, b: Seq<u8>) -> bool {
        bytes_le(a, b)
    }

    proof fn le_reflexive(a: Seq<u8>) {
        lemma_bytes_le_reflexive(a);
    }

    proof fn le_antisymmetric(a: Seq<u8>, b: Seq<u8>) {
        lemma_bytes_le_antisymmetric(a, b);
    }

    proof fn le_transitive(a: Seq<u8>, b: Seq<u8>, c: Seq<u8>) {
        lemma_bytes_le_transitive(a, b, c);
    }

    proof fn le_total(a: Seq<u8>, b: Seq<u8>) {
        lemma_bytes_le_total(a, b);
    }

    fn compare(&self, other: &HoloHash) -> (relation: Relation) {
        compare_bytes(&self.bytes, &other.bytes)
    }

    fn duplicate(&self) -> (copy: HoloHash) {
        self.clone()
    }
}

} // verus!

//! A running median over a sliding window.
//!
//! The window is a ring buffer of the `ringbuf` crate; beside it a sorted
//! vector holds the same values, so that the median is read by index.
//! Values are order keys: unsigned integers whose order is the order of the
//! measured quantities (see `order_key`).
use vstd::prelude::*;
use vstd::relations::{sorted_by, total_ordering};
use vstd::seq_lib::lemma_sorted_unique;
use ringbuf::traits::{Consumer, Observer, Producer};
use ringbuf::HeapRb;

verus! {

/// A ring buffer of keys of the `ringbuf` crate (`HeapRb<u64>`). Verus sees
/// nothing inside it: what it holds and how many keys it was made for are
/// known only through `ring_items` and `ring_capacity`, as the trusted
/// wrappers below state them.
#[verifier::external_body]
pub struct KeyRing {
    rb: HeapRb<u64>,
}

/// The keys a ring buffer holds, eldest first.
pub uninterp spec fn ring_items(ring: KeyRing) -> Seq<u64>;

/// The number of keys a ring buffer was made to hold.
pub uninterp spec fn ring_capacity(ring: KeyRing) -> nat;

/// `HeapRb::new`: an empty ring buffer made to hold `capacity` keys.
/// The crate panics on a capacity of zero, and the allocation panics beyond
/// `isize::MAX` bytes.
#[verifier::external_body]
fn ring_new(capacity: usize) -> (rb: KeyRing)
    requires
        0 < capacity,
        capacity * 8 <= isize::MAX,
    ensures
        ring_items(rb) == Seq::<u64>::empty(),
        ring_capacity(rb) == capacity,
{
    KeyRing { rb: HeapRb::new(capacity) }
}

/// `Observer::is_full`: no place is vacant, that is the buffer holds as many
/// keys as it was made for.
#[verifier::external_body]
fn ring_is_full(rb: &KeyRing) -> (full: bool)
    ensures
        full == (ring_items(*rb).len() == ring_capacity(*rb)),
{
    rb.rb.is_full()
}

/// `Consumer::try_pop`: takes the eldest key out, or gives `None` on an empty
/// buffer, which then stays as it was.
#[verifier::external_body]
fn ring_try_pop(rb: &mut KeyRing) -> (r: Option<u64>)
    ensures
        ring_capacity(*final(rb)) == ring_capacity(*old(rb)),
        ring_items(*old(rb)).len() == 0 ==> r is None && ring_items(*final(rb)) == ring_items(
            *old(rb),
        ),
        ring_items(*old(rb)).len() > 0 ==> r == Some(ring_items(*old(rb))[0]) && ring_items(
            *final(rb),
        ) == ring_items(*old(rb)).drop_first(),
{
    rb.rb.try_pop()
}

/// `Producer::try_push`: appends a key after the newest, or hands it back
/// (here `Some`, where the crate gives `Err`) when the buffer is full, which
/// then stays as it was.
#[verifier::external_body]
fn ring_try_push(rb: &mut KeyRing, key: u64) -> (refused: Option<u64>)
    ensures
        ring_capacity(*final(rb)) == ring_capacity(*old(rb)),
        ring_items(*old(rb)).len() < ring_capacity(*old(rb)) ==> refused is None && ring_items(*final(rb)) == ring_items(*old(rb)).push(key),
        ring_items(*old(rb)).len() >= ring_capacity(*old(rb)) ==> refused == Some(key) && ring_items(*final(rb)) == ring_items(*old(rb)),
{
    rb.rb.try_push(key).err()
}

/// The sign bit of a 64-bit float's bits.
pub open spec fn sign_bit(bits: u64) -> bool {
    bits >> 63u64 == 1u64
}

/// The order key of a 64-bit float, given by its bits: a negative float's
/// bits are inverted, a positive float's get the top bit set. Floats that are
/// not NaN then order as their keys do (see `lemma_order_key_order`).
pub open spec fn spec_order_key(bits: u64) -> u64 {
    if sign_bit(bits) {
        !bits
    } else {
        bits | 0x8000_0000_0000_0000u64
    }
}

/// The bits of the float whose order key is `key`.
pub open spec fn spec_bits_of_key(key: u64) -> u64 {
    if key >> 63u64 == 1u64 {
        key & 0x7fff_ffff_ffff_ffffu64
    } else {
        !key
    }
}

/// The order key of the float with bits `bits`.
pub fn order_key(bits: u64) -> (key: u64)
    ensures
        key == spec_order_key(bits),
{
    if bits >> 63u64 == 1u64 {
        !bits
    } else {
        bits | 0x8000_0000_0000_0000u64
    }
}

/// The bits of the float whose order key is `key`.
pub fn bits_of_key(key: u64) -> (bits: u64)
    ensures
        bits == spec_bits_of_key(key),
{
    if key >> 63u64 == 1u64 {
        key & 0x7fff_ffff_ffff_ffffu64
    } else {
        !key
    }
}

/// A float's bits come back from its order key, and each key stands for one
/// float.
pub proof fn lemma_order_key_roundtrip(bits: u64, key: u64)
    ensures
        spec_bits_of_key(spec_order_key(bits)) == bits,
        spec_order_key(spec_bits_of_key(key)) == key,
{
    assert(spec_bits_of_key(spec_order_key(bits)) == bits) by (bit_vector);
    assert(spec_order_key(spec_bits_of_key(key)) == key) by (bit_vector);
}

/// Keys order floats as IEEE 754 does apart from NaN: among non-negative
/// floats (sign bit clear) a larger magnitude is larger, among negative ones
/// it is smaller, and every negative float lies below every non-negative one.
pub proof fn lemma_order_key_order(a: u64, b: u64)
    ensures
        !sign_bit(a) && !sign_bit(b) ==> (a < b <==> spec_order_key(a) < spec_order_key(b)),
        sign_bit(a) && sign_bit(b) ==> (a < b <==> spec_order_key(b) < spec_order_key(a)),
        sign_bit(a) && !sign_bit(b) ==> spec_order_key(a) < spec_order_key(b),
{
    assert(!sign_bit(a) && !sign_bit(b) ==> (a < b <==> spec_order_key(a) < spec_order_key(b)))
        by (bit_vector);
    assert(sign_bit(a) && sign_bit(b) ==> (a < b <==> spec_order_key(b) < spec_order_key(a)))
        by (bit_vector);
    assert(sign_bit(a) && !sign_bit(b) ==> spec_order_key(a) < spec_order_key(b)) by (bit_vector);
}

/// The order in which keys are sorted.
pub open spec fn key_leq() -> spec_fn(u64, u64) -> bool {
    |a: u64, b: u64| a <= b
}

/// Whether `s` is in ascending order.
pub open spec fn ascending(s: Seq<u64>) -> bool {
    forall|i: int, j: int| 0 <= i < j < s.len() ==> s[i] <= s[j]
}

/// The middle of a window of keys.
#[derive(Clone, Copy, Debug, PartialEq, Eq, Structural)]
pub enum Median {
    /// The window is empty.
    Empty,
    /// An odd number of keys: the middle one.
    Odd(u64),
    /// An even number of keys: the two in the middle, lower first.
    Even(u64, u64),
}

/// The middle of the ascending sequence `sorted`.
pub open spec fn spec_median(sorted: Seq<u64>) -> Median {
    if sorted.len() == 0 {
        Median::Empty
    } else if sorted.len() % 2 == 1 {
        Median::Odd(sorted[(sorted.len() / 2) as int])
    } else {
        Median::Even(sorted[sorted.len() / 2 - 1], sorted[(sorted.len() / 2) as int])
    }
}

/// The window after `key` came in: when it held `capacity` keys, the eldest
/// left first.
pub open spec fn spec_slide(window: Seq<u64>, capacity: nat, key: u64) -> Seq<u64> {
    if window.len() >= capacity {
        window.drop_first().push(key)
    } else {
        window.push(key)
    }
}

/// The window of a filter that was made empty and then took `keys` in order.
pub open spec fn spec_fill(keys: Seq<u64>, capacity: nat) -> Seq<u64>
    decreases keys.len(),
{
    if keys.len() == 0 {
        Seq::empty()
    } else {
        spec_slide(spec_fill(keys.drop_last(), capacity), capacity, keys.last())
    }
}

/// The last `capacity` of `keys`, or all of them when there are fewer.
pub open spec fn last_keys(keys: Seq<u64>, capacity: nat) -> Seq<u64> {
    if keys.len() > capacity {
        keys.subrange(keys.len() - capacity, keys.len() as int)
    } else {
        keys
    }
}

/// A filter's window holds the last `capacity` keys it took, eldest first
/// (all of them while it has taken fewer).
pub proof fn lemma_window_holds_last_keys(keys: Seq<u64>, capacity: nat)
    requires
        0 < capacity,
    ensures
        spec_fill(keys, capacity) == last_keys(keys, capacity),
    decreases keys.len(),
{
    if keys.len() > 0 {
        let init = keys.drop_last();
        lemma_window_holds_last_keys(init, capacity);
        if init.len() >= capacity {
            assert(last_keys(init, capacity).drop_first().push(keys.last()) =~= last_keys(
                keys,
                capacity,
            ));
        } else {
            assert(init.push(keys.last()) =~= keys);
        }
    }
}

/// A median filter: a window of the last keys taken, at most `capacity` of
/// them, and the same keys in ascending order.
pub struct MedianFilter {
    window: KeyRing,
    sorted: Vec<u64>,
}

proof fn lemma_key_leq_total()
    ensures
        total_ordering(key_leq()),
{
}

/// An ascending sequence is the sorted form of any sequence with the same keys.
proof fn lemma_sorted_form(sorted: Seq<u64>, s: Seq<u64>)
    requires
        ascending(sorted),
        sorted.to_multiset() == s.to_multiset(),
    ensures
        sorted == s.sort_by(key_leq()),
{
    s.lemma_sort_by_ensures(key_leq());
    lemma_key_leq_total();
    assert(sorted_by(sorted, key_leq()));
    lemma_sorted_unique(sorted, s.sort_by(key_leq()), key_leq());
}

/// The first position in the ascending `v` whose key is not below `key`.
fn lower_bound(v: &Vec<u64>, key: u64) -> (pos: usize)
    requires
        ascending(v@),
    ensures
        pos <= v.len(),
        forall|i: int| 0 <= i < pos ==> v@[i] < key,
        forall|i: int| pos <= i < v.len() ==> key <= v@[i],
{
    let mut lo: usize = 0;
    let mut hi: usize = v.len();
    while lo < hi
        invariant
            lo <= hi <= v.len(),
            ascending(v@),
            forall|i: int| 0 <= i < lo ==> v@[i] < key,
            forall|i: int| hi <= i < v.len() ==> key <= v@[i],
        decreases hi - lo,
    {
        let mid: usize = lo + (hi - lo) / 2;
        if v[mid] < key {
            lo = mid + 1;
        } else {
            hi = mid;
        }
    }
    lo
}

impl MedianFilter {
    /// The keys in the window, eldest first.
    pub closed spec fn window(&self) -> Seq<u64> {
        ring_items(self.window)
    }

    /// The number of keys the window holds at most.
    pub closed spec fn capacity(&self) -> nat {
        ring_capacity(self.window)
    }

    /// The filter's parts agree: the window is within its capacity and the
    /// sorted vector holds its keys in ascending order.
    pub closed spec fn wf(&self) -> bool {
        &&& 0 < ring_capacity(self.window)
        &&& ring_items(self.window).len() <= ring_capacity(self.window)
        &&& ascending(self.sorted@)
        &&& self.sorted@.to_multiset() == ring_items(self.window).to_multiset()
    }

    /// An empty filter whose window holds up to `capacity` keys.
    pub fn new(capacity: usize) -> (f: Self)
        requires
            0 < capacity,
            capacity * 8 <= isize::MAX,
        ensures
            f.wf(),
            f.window() == Seq::<u64>::empty(),
            f.capacity() == capacity,
    {
        let f = MedianFilter { window: ring_new(capacity), sorted: Vec::with_capacity(capacity) };
        assert(f.sorted@ =~= Seq::<u64>::empty());
        f
    }

    /// Takes `key` into the window, the eldest key leaving a full window, and
    /// gives the median of the window's keys.
    pub fn consume(&mut self, key: u64) -> (m: Median)
        requires
            old(self).wf(),
        ensures
            final(self).wf(),
            final(self).capacity() == old(self).capacity(),
            final(self).window() == spec_slide(old(self).window(), old(self).capacity(), key),
            m == spec_median(final(self).window().sort_by(key_leq())),
    {
        broadcast use vstd::seq_lib::group_to_multiset_ensures;

        let ghost w0 = ring_items(self.window);
        if ring_is_full(&self.window) {
            let eldest = ring_try_pop(&mut self.window);
            if let Some(e) = eldest {
                let ghost s0 = self.sorted@;
                proof {
                    assert(w0.drop_first() =~= w0.remove(0));
                    assert(w0.to_multiset().count(e) > 0);
                    assert(s0.contains(e));
                }
                let pos = lower_bound(&self.sorted, e);
                proof {
                    let idx = choose|i: int| 0 <= i < s0.len() && s0[i] == e;
                    assert(pos <= idx);
                    assert(s0[pos as int] == e);
                }
                self.sorted.remove(pos);
                proof {
                    assert(self.sorted@ =~= s0.remove(pos as int));
                    assert(ascending(self.sorted@));
                }
            }
        }
        let ghost w1 = ring_items(self.window);
        let ghost s1 = self.sorted@;
        let pushed = ring_try_push(&mut self.window, key);
        let pos = lower_bound(&self.sorted, key);
        self.sorted.insert(pos, key);
        proof {
            assert(self.sorted@ =~= s1.insert(pos as int, key));
            assert(ascending(self.sorted@));
            assert(self.sorted@.to_multiset() == ring_items(self.window).to_multiset());
        }
        self.median()
    }

    /// The median of the window's keys.
    pub fn median(&self) -> (m: Median)
        requires
            self.wf(),
        ensures
            m == spec_median(self.window().sort_by(key_leq())),
    {
        proof {
            lemma_sorted_form(self.sorted@, self.window());
        }
        let n = self.sorted.len();
        if n == 0 {
            Median::Empty
        } else if n % 2 == 1 {
            Median::Odd(self.sorted[n / 2])
        } else {
            Median::Even(self.sorted[n / 2 - 1], self.sorted[n / 2])
        }
    }
}

} // verus!

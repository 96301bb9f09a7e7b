//! Shared key-space sizing state: an optimistic count of occupied
//! identifiers and the current key length, grown as the space fills.

use vstd::prelude::*;

verus! {

/// `62 ^ n`: the number of identifiers of length `n` over the 62-symbol
/// alphabet.
pub open spec fn pow62(n: nat) -> nat
    decreases n,
{
    if n == 0 {
        1
    } else {
        62 * pow62((n - 1) as nat)
    }
}

pub proof fn lemma_pow62_pos(n: nat)
    ensures
        pow62(n) >= 1,
    decreases n,
{
    if n > 0 {
        lemma_pow62_pos((n - 1) as nat);
    }
}

pub proof fn lemma_pow62_mono(a: nat, b: nat)
    requires
        a <= b,
    ensures
        pow62(a) <= pow62(b),
    decreases b,
{
    if a < b {
        lemma_pow62_mono(a, (b - 1) as nat);
        lemma_pow62_pos((b - 1) as nat);
    }
}

proof fn lemma_pow62_10_fits()
    ensures
        pow62(10) == 839299365868340224,
{
    reveal_with_fuel(pow62, 11);
}

/// `62 ^ length`, the capacity of the key space at the given key length.
///
/// Lengths above 10 would overflow a 64-bit count; growth never takes the
/// length past 11, and a length of 11 gives a key space too large for the
/// occupancy check ever to trigger again.
pub fn max_entries(length: u8) -> (r: u64)
    requires
        length <= 10,
    ensures
        r == pow62(length as nat),
{
    let mut acc: u64 = 1;
    let mut i: u8 = 0;
    while i < length
        invariant
            i <= length,
            length <= 10,
            acc == pow62(i as nat),
        decreases length - i,
    {
        proof {
            lemma_pow62_mono((i + 1) as nat, 10);
            lemma_pow62_10_fits();
        }
        acc = acc * 62;
        i = i + 1;
    }
    acc
}

/// The load-factor check: occupancy of at least three quarters of the key
/// space, in integer arithmetic (`total / 3 >= capacity / 4`).
pub open spec fn occupancy_high(total: u64, length: u8) -> bool {
    total / 3 >= pow62(length as nat) / 4
}

/// True when the store is full enough that the key length must grow before
/// the next identifier is drawn.
pub fn needs_growth(total: u64, length: u8) -> (r: bool)
    requires
        length <= 10,
    ensures
        r == occupancy_high(total, length),
{
    let max = max_entries(length);
    total / 3 >= max / 4
}

/// Process-wide key-space state: the cached number of occupied identifiers
/// and the current key length.
///
/// `occupied` is an optimistic cache of the store's row count: it may
/// under-count rows written by other processes and is used only for sizing,
/// never for uniqueness. `length` never shrinks for the life of the process.
pub struct KeySpaceState {
    pub occupied: u64,
    pub length: u8,
}

impl KeySpaceState {
    /// Fresh state: no cached count, and the configured minimum key length.
    pub fn new() -> (s: Self)
        ensures
            s.occupied == 0,
            s.length == 4,
    {
        KeySpaceState { occupied: 0, length: 4 }
    }

    /// True when the cached count has not been primed yet, so the
    /// authoritative row count must be fetched from the store.
    pub fn needs_priming(&self) -> (r: bool)
        ensures
            r == (self.occupied == 0),
    {
        self.occupied == 0
    }

    /// Caches the authoritative row count fetched from the store.
    pub fn prime(&mut self, count: u64)
        ensures
            final(self).occupied == count,
            final(self).length == old(self).length,
    {
        self.occupied = count;
    }

    /// Applies the load-factor check for one allocation: grows the key
    /// length by one when occupancy reaches three quarters of the key
    /// space, and returns the length this allocation must use.
    ///
    /// The length never decreases.
    pub fn choose_key_length(&mut self, total: u64) -> (length: u8)
        requires
            old(self).length <= 10,
        ensures
            final(self).occupied == old(self).occupied,
            final(self).length == (if occupancy_high(total, old(self).length) {
                old(self).length + 1
            } else {
                old(self).length as int
            }),
            length == final(self).length,
            old(self).length <= final(self).length,
    {
        if needs_growth(total, self.length) {
            self.length = self.length + 1;
        }
        self.length
    }

    /// Monotone key length: every operation on the shared state
    /// (`prime`, `choose_key_length`, `record_insert`) leaves the key
    /// length no smaller, so along any chain of observed states the key
    /// length never decreases — a later call never sees a shorter key
    /// length than an earlier one did.
    pub proof fn lemma_key_length_monotone(states: Seq<KeySpaceState>, i: int, j: int)
        requires
            forall|k: int|
                0 <= k < states.len() - 1 ==> #[trigger] states[k].length <= states[k
                    + 1].length,
            0 <= i <= j < states.len(),
        ensures
            states[i].length <= states[j].length,
        decreases j - i,
    {
        if i < j {
            Self::lemma_key_length_monotone(states, i + 1, j);
        }
    }

    /// Notes one more occupied identifier after a successful insert.
    ///
    /// Neither the cached count nor the key length ever decreases.
    pub fn record_insert(&mut self)
        requires
            old(self).occupied < u64::MAX,
        ensures
            final(self).occupied == old(self).occupied + 1,
            final(self).length == old(self).length,
    {
        self.occupied = self.occupied + 1;
    }
}

} // verus!

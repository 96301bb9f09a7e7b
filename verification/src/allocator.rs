//! The key allocator: draws random identifiers of the current key length
//! and inserts them with insert-if-absent semantics, retrying on a
//! collision, growing the key length as the store fills.

use vstd::prelude::*;
use vstd::string::*;

use crate::is_key;
use crate::is_key_char;
use crate::keyspace::KeySpaceState;
use crate::keyspace::occupancy_high;
use crate::store::MemStore;
use crate::strutil::push_char;

use rand::RngExt;

verus! {

/// Relies on rand's `Alphanumeric` distribution: every sample is one of
/// the 62 ASCII symbols `a`-`z`, `A`-`Z`, `0`-`9`, drawn uniformly.
#[verifier::external_body]
fn draw_symbol() -> (c: char)
    ensures
        is_key_char(c),
{
    let b: u8 = rand::rng().sample(rand::distr::Alphanumeric);
    b as char
}

/// Draws a fresh candidate identifier: `length` symbols, each drawn
/// uniformly from the 62-symbol alphabet.
pub fn random_key(length: u8) -> (r: String)
    ensures
        r@.len() == length as nat,
        is_key(r@),
{
    let mut out = String::new();
    let mut i: u8 = 0;
    while i < length
        invariant
            i <= length,
            out@.len() == i as nat,
            is_key(out@),
        decreases length - i,
    {
        let c = draw_symbol();
        push_char(&mut out, c);
        i = i + 1;
    }
    out
}

/// The cached count, primed from the store's authoritative row count on
/// the first allocation of the process.
pub open spec fn primed_total(
    state: KeySpaceState,
    records: Map<Seq<char>, Seq<char>>,
) -> u64 {
    if state.occupied == 0 {
        records.dom().len() as u64
    } else {
        state.occupied
    }
}

/// True when no stored identifier has the given length: a fresh candidate
/// of that length can never collide, so an insert is owed to succeed.
pub open spec fn no_key_of_length(records: Map<Seq<char>, Seq<char>>, len: nat) -> bool {
    forall|k: Seq<char>| records.dom().contains(k) ==> k.len() != len
}

/// The cap on candidate draws in one allocation. At the occupancies the
/// load-factor rule allows, the expected number of collisions per
/// allocation stays far below this; hitting the cap is treated as a
/// distinct fatal condition rather than looping without bound.
pub const MAX_DRAW_ATTEMPTS: u32 = 4096;

/// Allocates an identifier for new content: primes the cached count if
/// needed, grows the key length when occupancy reaches three quarters of
/// the key space, then draws candidates until one inserts without a
/// collision. Every returned identifier is made of alphabet symbols, has
/// the key length in force at the moment of insertion, and names a key
/// that the store did not hold before. `None` is returned only when
/// `MAX_DRAW_ATTEMPTS` successive candidates all collided; the store is
/// then unchanged, and this can happen only if the store already held a
/// key of the chosen length — on a store without one (in particular an
/// empty store) success is owed.
pub fn allocate(store: &mut MemStore, state: &mut KeySpaceState, data: &String) -> (r: Option<
    String,
>)
    requires
        old(store).inv(),
        old(state).length <= 10,
        old(state).occupied < u64::MAX,
        old(store)@.dom().len() < u64::MAX,
    ensures
        final(store).inv(),
        old(state).length <= final(state).length,
        final(state).length == (if occupancy_high(
            primed_total(*old(state), old(store)@),
            old(state).length,
        ) {
            old(state).length + 1
        } else {
            old(state).length as int
        }),
        no_key_of_length(old(store)@, final(state).length as nat) ==> r is Some,
        match r {
            Some(id) => {
                &&& is_key(id@)
                &&& id@.len() == final(state).length as nat
                &&& !old(store)@.dom().contains(id@)
                &&& final(store)@ == old(store)@.insert(id@, data@)
                &&& final(state).occupied == primed_total(*old(state), old(store)@) + 1
            },
            None => {
                &&& final(store)@ == old(store)@
                &&& final(state).occupied == primed_total(*old(state), old(store)@)
            },
        },
{
    let total: u64 = if state.needs_priming() {
        let c = store.count();
        let c64 = c as u64;
        state.prime(c64);
        c64
    } else {
        state.occupied
    };
    let length = state.choose_key_length(total);
    let ghost loop_state = *state;
    let mut attempts: u32 = 0;
    while attempts < MAX_DRAW_ATTEMPTS
        invariant
            store.inv(),
            store@ == old(store)@,
            *state == loop_state,
            length == loop_state.length,
            loop_state.occupied == primed_total(*old(state), old(store)@),
            loop_state.occupied < u64::MAX,
            loop_state.length == (if occupancy_high(
                primed_total(*old(state), old(store)@),
                old(state).length,
            ) {
                old(state).length + 1
            } else {
                old(state).length as int
            }),
            attempts > 0 ==> !no_key_of_length(old(store)@, loop_state.length as nat),
        decreases MAX_DRAW_ATTEMPTS - attempts,
    {
        let id = random_key(length);
        let ok = store.insert_if_absent(id.clone(), data.clone());
        if ok {
            state.record_insert();
            return Some(id);
        }
        proof {
            assert(old(store)@.dom().contains(id@) && id@.len() == loop_state.length as nat);
        }
        attempts = attempts + 1;
    }
    None
}

/// Uniqueness law: two successful allocations against the same store
/// return different identifiers. A successful insert-if-absent proves the
/// identifier absent before it, and the first identifier is present from
/// then on, so the second can never equal it.
pub proof fn lemma_allocations_unique(
    s0: Map<Seq<char>, Seq<char>>,
    s1: Map<Seq<char>, Seq<char>>,
    s2: Map<Seq<char>, Seq<char>>,
    id1: Seq<char>,
    d1: Seq<char>,
    id2: Seq<char>,
    d2: Seq<char>,
)
    requires
        !s0.dom().contains(id1),
        s1 == s0.insert(id1, d1),
        !s1.dom().contains(id2),
        s2 == s1.insert(id2, d2),
    ensures
        id1 != id2,
{
    assert(s1.dom().contains(id1));
}

/// The public URL of a paste: the service root, a slash, and the
/// identifier.
pub fn paste_url(root: &str, id: &str) -> (r: String)
    ensures
        r@ == root@ + "/"@ + id@,
{
    let mut out = String::from_str(root);
    out.append("/");
    out.append(id);
    out
}

} // verus!

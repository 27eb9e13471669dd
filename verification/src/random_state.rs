//! The source of pseudo-unique derivations: 32 random bytes and a counter.
use crate::derivation::key_block;
use crate::derivation::Derivation;
use vstd::prelude::*;

verus! {

/// `getrandom::Error`, the error with which the random source fails.  It
/// is carried from the call to `fault_code` and not looked into.
#[verifier::external_type_specification]
#[verifier::external_body]
pub struct ExEntropyFault(getrandom::Error);

/// Calls `getrandom::getrandom`, which asks the operating system to fill
/// `dest` with random bytes.  Nothing is claimed of the outcome: the
/// bytes are random, and after a failure the crate leaves them
/// unspecified.
#[verifier::external_body]
fn fill_random(dest: &mut [u8; 32]) -> (outcome: Result<(), getrandom::Error>) {
    getrandom::getrandom(dest)
}

/// Calls `getrandom::Error::code`, which returns the bare code of the
/// error.  The crate holds the code as a `NonZeroU32`, so it is never 0.
#[verifier::external_body]
fn fault_code(fault: &getrandom::Error) -> (code: u32)
    ensures
        code != 0,
{
    fault.code().get()
}

/// The operating system's random source could not be read.
#[derive(Clone, Copy, Debug, PartialEq, Eq, Structural)]
pub struct EntropyError {
    /// The code that the random source reported; never 0.
    pub code: u32,
}

/// The counter that a state holds after `calls` derivations were taken
/// from one that held `start`: it goes up by one with each call and
/// passes from 2^64 - 1 to 0.
pub open spec fn counter_after(start: u64, calls: nat) -> u64 {
    ((start + calls) % 0x1_0000_0000_0000_0000) as u64
}

/// The state from which one thread draws pseudo-unique derivations: 32
/// bytes of random key material, fixed for the life of the state, and a
/// counter that each derivation advances.
pub struct RandomState {
    key: [u8; 32],
    counter: u64,
}

impl RandomState {
    /// The key material, which every derivation of this state carries.
    pub closed spec fn spec_key(&self) -> Seq<u8> {
        self.key@
    }

    /// The tag of the next derivation.
    pub closed spec fn spec_counter(&self) -> u64 {
        self.counter
    }

    /// The derivation that this state hands out after `n` others.
    pub open spec fn upcoming(&self, n: nat) -> (u64, Seq<u8>) {
        (counter_after(self.spec_counter(), n), self.spec_key())
    }

    /// Returns a state with the given key material, whose next derivation
    /// has the tag `counter`.
    pub fn with_counter(key: [u8; 32], counter: u64) -> (state: RandomState)
        ensures
            state.spec_key() == key@,
            state.spec_counter() == counter,
    {
        RandomState { key, counter }
    }

    /// Returns a fresh state with the given key material: its first
    /// derivation has the tag 0.
    pub fn seeded(key: [u8; 32]) -> (state: RandomState)
        ensures
            state.spec_key() == key@,
            state.spec_counter() == 0,
    {
        RandomState::with_counter(key, 0)
    }

    /// Returns a fresh state whose key material comes from the operating
    /// system's random source, or the error of that source.
    pub fn from_entropy() -> (r: Result<RandomState, EntropyError>)
        ensures
            r matches Ok(state) ==> state.spec_counter() == 0,
            r matches Err(e) ==> e.code != 0,
    {
        let mut key = [0u8; 32];
        let read = match fill_random(&mut key) {
            Ok(()) => Ok(key),
            Err(fault) => Err(EntropyError { code: fault_code(&fault) }),
        };
        RandomState::from_read(read)
    }

    /// Returns what one read of the random source makes of a fresh state.
    /// Where the read gave 32 bytes, they are the key material of the
    /// state, and its first derivation has the tag 0; where it failed,
    /// its error comes back as it is.
    pub fn from_read(read: Result<[u8; 32], EntropyError>) -> (r: Result<
        RandomState,
        EntropyError,
    >)
        ensures
            match read {
                Ok(key) => {
                    &&& r matches Ok(state)
                    &&& state.spec_key() == key@
                    &&& state.spec_counter() == 0
                },
                Err(e) => r matches Err(got) && got == e,
            },
    {
        match read {
            Ok(key) => Ok(RandomState::seeded(key)),
            Err(e) => Err(e),
        }
    }

    /// Returns the tag of the next derivation.
    pub fn counter(&self) -> (c: u64)
        ensures
            c == self.spec_counter(),
    {
        self.counter
    }

    /// Returns the next derivation: the key material of this state under
    /// the current counter.  The counter then goes up by one, and wraps
    /// to 0 after 2^64 - 1.
    pub fn next_derivation(&mut self) -> (d: Derivation)
        ensures
            d@ == old(self).upcoming(0),
            final(self).spec_key() == old(self).spec_key(),
            final(self).spec_counter() == counter_after(old(self).spec_counter(), 1),
    {
        let counter = self.counter;
        self.counter = counter.wrapping_add(1);
        assert(key_block(self.key@) =~= self.key@);
        Derivation::new(counter, &self.key)
    }
}

/// A [`RandomState`] that is made on first use: a thread holds one from
/// its start, and the random source is read only when the thread first
/// asks for a derivation.
pub struct LazyRandomState {
    state: Option<RandomState>,
}

impl LazyRandomState {
    /// The state that was made on first use, if there was one.
    pub closed spec fn spec_state(&self) -> Option<RandomState> {
        self.state
    }

    /// Returns a source that has not read the random source yet.
    pub fn new() -> (lazy: LazyRandomState)
        ensures
            lazy.spec_state() is None,
    {
        LazyRandomState { state: None }
    }

    /// Tells whether the random source was read already.
    pub fn is_ready(&self) -> (ready: bool)
        ensures
            ready == self.spec_state() is Some,
    {
        self.state.is_some()
    }

    /// Returns the next derivation.  The first call reads the random
    /// source for the key material and hands out the tag 0; where that
    /// read fails, its error comes back and the next call reads again.
    /// Every later call succeeds, and continues where the one before it
    /// stopped.
    pub fn next_derivation(&mut self) -> (r: Result<Derivation, EntropyError>)
        ensures
            match (old(self).spec_state(), r) {
                (Some(before), Ok(d)) => {
                    &&& d@ == before.upcoming(0)
                    &&& final(self).spec_state() matches Some(after)
                    &&& after.spec_key() == before.spec_key()
                    &&& after.spec_counter() == counter_after(before.spec_counter(), 1)
                },
                (Some(_), Err(_)) => false,
                (None, Ok(d)) => {
                    &&& d.bits == 0
                    &&& final(self).spec_state() matches Some(after)
                    &&& after.spec_key() == d.key@
                    &&& after.spec_counter() == 1
                },
                (None, Err(e)) => e.code != 0 && final(self).spec_state() is None,
            },
    {
        let mut state = match self.state.take() {
            Some(state) => state,
            None => match RandomState::from_entropy() {
                Ok(state) => state,
                Err(e) => {
                    return Err(e);
                },
            },
        };
        let d = state.next_derivation();
        self.state = Some(state);
        Ok(d)
    }
}

/// The counter goes up by one with each call, and `calls` calls make as
/// many steps: a state reached from `before` by `m` calls hands out,
/// after `n` more, what `before` hands out after `m + n`.
pub proof fn lemma_upcoming_after_calls(before: RandomState, after: RandomState, m: nat, n: nat)
    requires
        after.spec_key() == before.spec_key(),
        after.spec_counter() == counter_after(before.spec_counter(), m),
    ensures
        after.upcoming(n) == before.upcoming(m + n),
        before.upcoming(0) == (before.spec_counter(), before.spec_key()),
{
}

/// Until the counter has gone round, no derivation comes twice: of the
/// derivations that one state hands out, any two that are fewer than
/// 2^64 calls apart carry the same key material and different tags.
pub proof fn lemma_derivations_distinct(state: RandomState, i: nat, j: nat)
    requires
        i < j,
        j - i < 0x1_0000_0000_0000_0000,
    ensures
        state.upcoming(i).1 == state.upcoming(j).1,
        state.upcoming(i).0 != state.upcoming(j).0,
        state.upcoming(i) != state.upcoming(j),
{
}

/// After exactly 2^64 calls the counter is back where it was, and the
/// derivations repeat.
pub proof fn lemma_derivations_repeat(state: RandomState, i: nat)
    ensures
        state.upcoming(i + 0x1_0000_0000_0000_0000) == state.upcoming(i),
{
}

} // verus!

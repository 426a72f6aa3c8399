use vstd::prelude::*;

verus! {

/// A store of one value of type `T` that can be read and advanced.
pub trait Database<T> {
    /// The value the store holds.
    spec fn stored(&self) -> T;

    /// The value that advancing the store turns `value` into.
    spec fn advanced(value: T) -> T;

    /// Reads the stored value.
    fn read(&self) -> (value: T)
        ensures
            value == self.stored(),
    ;

    /// Advances the stored value by one step.
    fn increase(&mut self)
        ensures
            final(self).stored() == Self::advanced(old(self).stored()),
    ;
}

/// How many requests have been served.
#[derive(Clone, Copy, Debug, PartialEq, Eq, Structural)]
pub struct RequestCounter {
    pub counter: u64,
}

/// The counter after one more request: one more, wrapping around after `u64::MAX`.
pub open spec fn next_count(value: RequestCounter) -> RequestCounter {
    RequestCounter {
        counter: if value.counter < u64::MAX {
            (value.counter + 1) as u64
        } else {
            0
        },
    }
}

/// The counter after `n` more requests.
pub open spec fn count_after(value: RequestCounter, n: nat) -> RequestCounter
    decreases n,
{
    if n == 0 {
        value
    } else {
        next_count(count_after(value, (n - 1) as nat))
    }
}

/// A request counter kept in memory.
pub struct DatabaseImpl {
    value: RequestCounter,
}

impl DatabaseImpl {
    /// A counter that has served no request.
    pub fn new() -> (db: Self)
        ensures
            db.stored() == (RequestCounter { counter: 0 }),
    {
        DatabaseImpl { value: RequestCounter { counter: 0 } }
    }
}

impl Database<RequestCounter> for DatabaseImpl {
    closed spec fn stored(&self) -> RequestCounter {
        self.value
    }

    open spec fn advanced(value: RequestCounter) -> RequestCounter {
        next_count(value)
    }

    fn read(&self) -> (value: RequestCounter) {
        self.value
    }

    fn increase(&mut self)
        ensures
            final(self).stored().counter == if old(self).stored().counter < u64::MAX {
                old(self).stored().counter + 1
            } else {
                0
            },
    {
        self.value = RequestCounter { counter: self.value.counter.wrapping_add(1) };
    }
}

/// Advancing the in-memory store is one count step: one more request below
/// `u64::MAX`, and back to zero after it.
pub proof fn lemma_store_advances_by_one(value: RequestCounter)
    ensures
        <DatabaseImpl as Database<RequestCounter>>::advanced(value) == next_count(value),
        value.counter < u64::MAX ==> <DatabaseImpl as Database<RequestCounter>>::advanced(
            value,
        ).counter == value.counter + 1,
        value.counter == u64::MAX ==> <DatabaseImpl as Database<RequestCounter>>::advanced(
            value,
        ).counter == 0,
{
}

/// Counting from zero, the counter after `n` requests is `n`, for every `n` that a
/// `u64` holds.
pub proof fn lemma_counter_counts_requests(n: nat)
    requires
        n <= u64::MAX,
    ensures
        count_after(RequestCounter { counter: 0 }, n).counter == n,
    decreases n,
{
    if n > 0 {
        lemma_counter_counts_requests((n - 1) as nat);
    }
}

} // verus!

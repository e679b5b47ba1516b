//! A table of handles: what the caller holds in place of an address.
//!
//! A value that is put in gets a token. The token names a slot and the
//! generation of that slot; taking the value out moves the slot on to its
//! next generation, so that the token, and every copy of it, is retired for
//! good. A call with a retired token finds nothing, instead of finding what
//! happens to be there now.

use vstd::prelude::*;

verus! {

/// The number of tokens that one generation spans: two to the thirty-second.
pub const SPAN: u64 = 0x1_0000_0000;

/// The number of slots that a table can have.
pub const MAX_SLOTS: usize = 0xFFFF_FFFF;

/// The slot that a token names, or -1 for a token that names none.
pub open spec fn token_index(token: u64) -> int {
    (token % SPAN) as int - 1
}

/// The generation that a token names.
pub open spec fn token_generation(token: u64) -> int {
    (token / SPAN) as int
}

struct Slot<T> {
    generation: u32,
    value: Option<T>,
}

/// The table. The token 0 is never given out: it stands for the null address.
pub struct HandleTable<T> {
    slots: Vec<Slot<T>>,
}

impl<T> HandleTable<T> {
    /// The invariant of a table: it has no more slots than tokens can name,
    /// and a slot that holds a value has a generation to move on to.
    pub closed spec fn wf(self) -> bool {
        &&& self.slots@.len() <= MAX_SLOTS
        &&& forall|i: int|
            0 <= i < self.slots@.len() && (#[trigger] self.slots@[i]).value is Some
                ==> self.slots@[i].generation < u32::MAX
    }

    /// Whether the token names a value that is in the table.
    pub closed spec fn is_live(self, token: u64) -> bool {
        let i = token_index(token);
        &&& 0 <= i < self.slots@.len()
        &&& self.slots@[i].generation == token_generation(token)
        &&& self.slots@[i].value is Some
    }

    /// Whether the token named a value that was taken out. The slot has moved
    /// on, and the token will never name anything again.
    pub closed spec fn is_retired(self, token: u64) -> bool {
        let i = token_index(token);
        &&& 0 <= i < self.slots@.len()
        &&& self.slots@[i].generation > token_generation(token)
    }

    /// Whether the table has no slot left for another value: it has as many
    /// slots as tokens can name, and each of them holds a value or has used
    /// up its generations.
    pub closed spec fn is_full(self) -> bool {
        &&& self.slots@.len() >= MAX_SLOTS
        &&& forall|i: int|
            0 <= i < self.slots@.len() ==> (#[trigger] self.slots@[i]).value is Some
                || self.slots@[i].generation >= u32::MAX
    }

    /// The value that a live token names.
    pub closed spec fn value_of(self, token: u64) -> T {
        self.slots@[token_index(token)].value->Some_0
    }

    /// A table without values.
    pub fn new() -> (table: Self)
        ensures
            table.wf(),
            !table.is_full(),
            forall|token: u64| !table.is_live(token) && !table.is_retired(token),
    {
        HandleTable { slots: Vec::new() }
    }

    /// Puts a value in and gives out its token, or gives the value back where
    /// the table has no slot left. The token is new: it is not 0, it names
    /// nothing before the call, and it was not retired. Every other token
    /// stands as it stood.
    pub fn insert(&mut self, value: T) -> (issued: Result<u64, T>)
        requires
            old(self).wf(),
        ensures
            final(self).wf(),
            issued is Err <==> old(self).is_full(),
            match issued {
                Ok(token) => {
                    &&& token != 0
                    &&& !old(self).is_live(token)
                    &&& !old(self).is_retired(token)
                    &&& final(self).is_live(token)
                    &&& final(self).value_of(token) == value
                    &&& forall|other: u64|
                        other != token ==> {
                            &&& final(self).is_live(other) == old(self).is_live(other)
                            &&& old(self).is_live(other) ==> final(self).value_of(other) == old(self).value_of(other)
                        }
                    &&& forall|other: u64|
                        final(self).is_retired(other) == old(self).is_retired(other)
                },
                Err(back) => back == value && *final(self) == *old(self),
            },
    {
        let mut i: usize = 0;
        while i < self.slots.len()
            invariant
                i <= self.slots@.len(),
                self.wf(),
                *self == *old(self),
                forall|j: int|
                    0 <= j < i ==> (#[trigger] self.slots@[j]).value is Some
                        || self.slots@[j].generation >= u32::MAX,
            decreases self.slots@.len() - i,
        {
            if self.slots[i].value.is_none() && self.slots[i].generation < u32::MAX {
                let generation: u32 = self.slots[i].generation;
                self.slots.set(i, Slot { generation, value: Some(value) });
                let token: u64 = (generation as u64) * SPAN + (i as u64) + 1;
                assert(token_index(token) == i && token_generation(token) == generation);
                return Ok(token);
            }
            i += 1;
        }
        if self.slots.len() < MAX_SLOTS {
            let index: usize = self.slots.len();
            self.slots.push(Slot { generation: 0, value: Some(value) });
            let token: u64 = (index as u64) + 1;
            assert(token_index(token) == index && token_generation(token) == 0);
            return Ok(token);
        }
        Err(value)
    }

    /// Looks at the value that a token names, if it names one.
    pub fn get(&self, token: u64) -> (found: Option<&T>)
        requires
            self.wf(),
        ensures
            self.is_live(token) ==> found == Some(&self.value_of(token)),
            !self.is_live(token) ==> found is None,
    {
        let low: u64 = token % SPAN;
        if low == 0 {
            return None;
        }
        let index: u64 = low - 1;
        if index >= self.slots.len() as u64 {
            return None;
        }
        let slot = &self.slots[index as usize];
        if slot.generation as u64 != token / SPAN {
            return None;
        }
        slot.value.as_ref()
    }

    /// Takes out the value that a token names, if it names one, and retires
    /// the token. Every other token stands as it stood, and a token that was
    /// retired stays retired.
    pub fn take(&mut self, token: u64) -> (taken: Option<T>)
        requires
            old(self).wf(),
        ensures
            final(self).wf(),
            old(self).is_live(token) ==> taken == Some(old(self).value_of(token)) && final(self).is_retired(token),
            !old(self).is_live(token) ==> taken is None && *final(self) == *old(self),
            !final(self).is_live(token),
            forall|other: u64|
                other != token ==> {
                    &&& final(self).is_live(other) == old(self).is_live(other)
                    &&& old(self).is_live(other) ==> final(self).value_of(other) == old(self).value_of(other)
                },
            forall|other: u64| old(self).is_retired(other) ==> final(self).is_retired(other),
    {
        let low: u64 = token % SPAN;
        if low == 0 {
            return None;
        }
        let index: u64 = low - 1;
        if index >= self.slots.len() as u64 {
            return None;
        }
        let at: usize = index as usize;
        if self.slots[at].generation as u64 != token / SPAN || self.slots[at].value.is_none() {
            return None;
        }
        let generation: u32 = self.slots[at].generation;
        let slot = &mut self.slots[at];
        let taken = slot.value.take();
        slot.generation = generation + 1;
        taken
    }
}

/// A retired token names nothing, and the null token never names anything.
pub proof fn lemma_retired_is_not_live<T>(table: HandleTable<T>, token: u64)
    ensures
        table.is_retired(token) ==> !table.is_live(token),
        !table.is_live(0),
        !table.is_retired(0),
{
}

} // verus!

//! A table of engines behind handles, for callers that want a handle that is
//! used after it was freed, or freed twice, to be told apart from a live one.
//!
//! A handle names a slot and the generation of the slot's tenant. A slot is
//! let again only under the next generation, so a handle that was freed is
//! never live again.

use crate::app::App;
use crate::engine::compiled_pattern;
use crate::engine::kept_prefix;
use crate::engine::same_letters;
use crate::engine::Engine;
use crate::engine::MatchSettings;
use crate::search::exec_code;
use crate::search::exec_slot;
use crate::search::search_compile;
use crate::search::search_exec;
use crate::search::Regmatch;
use crate::text::lossy_text;
use vstd::prelude::*;
use vstd::utf8::decode_utf8;
use vstd::utf8::valid_utf8;

verus! {

/// The largest generation under which a slot is let.
pub const LAST_GENERATION: u64 = 0xffff_ffff;

/// The name of an engine in a [`HandleTable`].
#[derive(Clone, Copy, Debug, PartialEq, Eq, Structural)]
pub struct Handle {
    pub slot: usize,
    /// The slot's tenants are counted from one.
    pub generation: u64,
}

impl Handle {
    /// Whether the handle can be written as one 64-bit word: the generation
    /// in the upper half, the slot in the lower.
    pub open spec fn fits_word(self) -> bool {
        self.slot <= 0xffff_ffff && self.generation <= LAST_GENERATION
    }

    /// The handle as one word.
    pub open spec fn word(self) -> int {
        self.generation * 0x1_0000_0000 + self.slot
    }

    /// The handle that a word stands for.
    pub open spec fn of_word(word: u64) -> Handle {
        Handle { slot: (word % 0x1_0000_0000) as usize, generation: word / 0x1_0000_0000 }
    }

    /// Writes the handle as one word, for a caller that can hold nothing
    /// else. The word of a handle that a table issued is never zero.
    pub fn to_word(self) -> (word: Option<u64>)
        ensures
            word is Some <==> self.fits_word(),
            word matches Some(word) ==> word == self.word() && (self.generation >= 1 ==> word
                != 0),
    {
        if self.slot <= 0xffff_ffff && self.generation <= LAST_GENERATION {
            Some(self.generation * 0x1_0000_0000 + self.slot as u64)
        } else {
            None
        }
    }

    /// Reads a handle from a word. Every word stands for a handle.
    pub fn from_word(word: u64) -> (handle: Handle)
        ensures
            handle == Self::of_word(word),
            handle.fits_word(),
            handle.word() == word,
    {
        Handle { slot: (word % 0x1_0000_0000) as usize, generation: word / 0x1_0000_0000 }
    }

    /// A handle that is written as a word is read back as itself.
    pub proof fn lemma_word_round_trip(self)
        requires
            self.fits_word(),
        ensures
            Self::of_word(self.word() as u64) == self,
    {
    }
}

/// Why a handle was turned down.
#[derive(Clone, Copy, Debug, PartialEq, Eq, Structural)]
pub enum HandleError {
    /// The handle was issued and has been freed since.
    Freed,
    /// The table never issued the handle.
    Unknown,
}

struct Slot<'a> {
    /// The generation of the tenant, or of the last one where there is none.
    generation: u64,
    engine: Option<Engine<'a>>,
}

/// Engines by handle.
pub struct HandleTable<'a> {
    slots: Vec<Slot<'a>>,
}

impl<'a> HandleTable<'a> {
    /// The handles issued so far, live or freed.
    pub closed spec fn issued(&self) -> Set<Handle> {
        Set::new(
            |handle: Handle|
                handle.slot < self.slots.len() && 1 <= handle.generation
                    <= self.slots[handle.slot as int].generation,
        )
    }

    /// The live handles with their engines.
    pub closed spec fn live(&self) -> Map<Handle, Engine<'a>> {
        Map::new(
            |handle: Handle|
                handle.slot < self.slots.len() && 1 <= handle.generation
                    == self.slots[handle.slot as int].generation
                    && self.slots[handle.slot as int].engine is Some,
            |handle: Handle| self.slots[handle.slot as int].engine->0,
        )
    }

    /// Why a handle that is not live is turned down.
    pub open spec fn refusal(&self, handle: Handle) -> HandleError {
        if self.issued().contains(handle) {
            HandleError::Freed
        } else {
            HandleError::Unknown
        }
    }

    /// Every live handle was issued.
    pub proof fn lemma_live_was_issued(&self, handle: Handle)
        requires
            self.live().dom().contains(handle),
        ensures
            self.issued().contains(handle),
    {
    }

    /// A table without handles.
    pub fn new() -> (table: Self)
        ensures
            table.live() == Map::<Handle, Engine<'a>>::empty(),
            table.issued() == Set::<Handle>::empty(),
    {
        let table = HandleTable { slots: Vec::new() };
        assert(table.live() =~= Map::<Handle, Engine<'a>>::empty());
        assert(table.issued() =~= Set::<Handle>::empty());
        table
    }

    /// The first slot that can be let again, or the number of slots.
    fn vacant_slot(&self) -> (slot: usize)
        ensures
            slot <= self.slots.len(),
            slot < self.slots.len() ==> self.slots[slot as int].engine is None
                && self.slots[slot as int].generation < LAST_GENERATION,
    {
        let mut slot: usize = 0;
        while slot < self.slots.len()
            invariant
                slot <= self.slots.len(),
            decreases self.slots.len() - slot,
        {
            if self.slots[slot].engine.is_none() && self.slots[slot].generation < LAST_GENERATION {
                return slot;
            }
            slot = slot + 1;
        }
        slot
    }

    /// Takes an engine in and issues its handle, which no engine had before.
    /// A slot whose generations are used up is not let again.
    pub fn insert(&mut self, engine: Engine<'a>) -> (handle: Handle)
        ensures
            1 <= handle.generation <= LAST_GENERATION,
            !old(self).issued().contains(handle),
            final(self).issued() == old(self).issued().insert(handle),
            final(self).live() == old(self).live().insert(handle, engine),
    {
        let slot = self.vacant_slot();
        let handle = if slot < self.slots.len() {
            let generation: u64 = self.slots[slot].generation + 1;
            self.slots.set(slot, Slot { generation, engine: Some(engine) });
            Handle { slot, generation }
        } else {
            self.slots.push(Slot { generation: 1, engine: Some(engine) });
            Handle { slot, generation: 1 }
        };
        assert(self.issued() =~= old(self).issued().insert(handle));
        assert(self.live() =~= old(self).live().insert(handle, engine));
        handle
    }

    /// The engine of a live handle; for any other, why it is turned down.
    pub fn get(&self, handle: Handle) -> (engine: Result<&Engine<'a>, HandleError>)
        ensures
            engine is Ok <==> self.live().dom().contains(handle),
            engine matches Ok(found) ==> *found == self.live()[handle],
            engine matches Err(error) ==> error == self.refusal(handle),
    {
        if handle.generation == 0 || handle.slot >= self.slots.len() || handle.generation
            > self.slots[handle.slot].generation {
            return Err(HandleError::Unknown);
        }
        if handle.generation < self.slots[handle.slot].generation {
            return Err(HandleError::Freed);
        }
        match self.slots[handle.slot].engine.as_ref() {
            Some(engine) => Ok(engine),
            None => Err(HandleError::Freed),
        }
    }

    /// Compiles `pattern` as [`search_compile`] does and keeps the engine.
    pub fn compile<O>(
        &mut self,
        app: &'a App<O>,
        pattern: &[u8],
        cflags: u32,
        modifiers: u32,
    ) -> (handle: Handle)
        ensures
            1 <= handle.generation <= LAST_GENERATION,
            !old(self).issued().contains(handle),
            final(self).issued() == old(self).issued().insert(handle),
            final(self).live().dom() == old(self).live().dom().insert(handle),
            forall|other: Handle|
                old(self).live().dom().contains(other) ==> #[trigger] final(self).live()[other]
                    == old(self).live()[other],
            final(self).live()[handle].settings() == MatchSettings::of_config(app.settings()),
            final(self).live()[handle].pattern() == compiled_pattern(lossy_text(pattern@)),
            same_letters(final(self).live()[handle].pattern(), kept_prefix(lossy_text(pattern@))),
            valid_utf8(pattern@) ==> lossy_text(pattern@) == decode_utf8(pattern@),
    {
        let engine = search_compile(app, pattern, cflags, modifiers);
        self.insert(engine)
    }

    /// Searches with the engine of a live handle as [`search_exec`] does. Any
    /// other handle is turned down, and `pmatch` is left as it was.
    pub fn exec(
        &self,
        handle: Handle,
        haystack: &[u8],
        nmatch: usize,
        pmatch: &mut Regmatch,
        eflags: u32,
    ) -> (code: Result<i32, HandleError>)
        ensures
            code is Ok <==> self.live().dom().contains(handle),
            code matches Ok(code) ==> {
                let found = self.live()[handle].search(lossy_text(haystack@));
                &&& code == exec_code(found, nmatch)
                &&& *final(pmatch) == exec_slot(found, nmatch, *old(pmatch))
                &&& valid_utf8(haystack@) ==> lossy_text(haystack@) == decode_utf8(haystack@)
            },
            code matches Err(error) ==> error == self.refusal(handle) && *final(pmatch) == *old(
                pmatch,
            ),
    {
        match self.get(handle) {
            Ok(engine) => Ok(search_exec(engine, haystack, nmatch, pmatch, eflags)),
            Err(error) => Err(error),
        }
    }

    /// Frees a live handle, once: its engine is dropped. Any other handle,
    /// such as one that was freed before, is turned down and changes nothing.
    pub fn free(&mut self, handle: Handle) -> (freed: Result<(), HandleError>)
        ensures
            freed is Ok <==> old(self).live().dom().contains(handle),
            freed is Ok ==> final(self).live() == old(self).live().remove(handle),
            freed matches Err(error) ==> error == old(self).refusal(handle) && final(self).live()
                == old(self).live(),
            final(self).issued() == old(self).issued(),
    {
        match self.get(handle) {
            Ok(_) => {
                self.slots.set(handle.slot, Slot { generation: handle.generation, engine: None });
                assert(self.live() =~= old(self).live().remove(handle));
                assert(self.issued() =~= old(self).issued());
                Ok(())
            },
            Err(error) => Err(error),
        }
    }
}

/// An engine that is compiled and then freed leaves nothing behind: the
/// table holds the engines it held before, and no other.
pub proof fn lemma_compile_then_free_leaves_nothing(
    before: HandleTable<'_>,
    compiled: HandleTable<'_>,
    freed: HandleTable<'_>,
    handle: Handle,
)
    requires
        !before.issued().contains(handle),
        compiled.live().dom() == before.live().dom().insert(handle),
        forall|other: Handle|
            before.live().dom().contains(other) ==> #[trigger] compiled.live()[other]
                == before.live()[other],
        freed.live() == compiled.live().remove(handle),
    ensures
        freed.live() == before.live(),
{
    if before.live().dom().contains(handle) {
        before.lemma_live_was_issued(handle);
    }
    assert(freed.live() =~= before.live());
}

/// A handle that was freed is not brought back by a later compile: the new
/// handle is one that was never issued.
pub proof fn lemma_freed_stays_stale(
    before: HandleTable<'_>,
    after: HandleTable<'_>,
    issued: Handle,
    stale: Handle,
)
    requires
        !before.issued().contains(issued),
        after.live().dom() == before.live().dom().insert(issued),
        before.issued().contains(stale),
        !before.live().dom().contains(stale),
    ensures
        !after.live().dom().contains(stale),
{
}

} // verus!

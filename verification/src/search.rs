//! The matching bridge: compile, exec and free, in the shape of a POSIX
//! matching interface, over engines that are never changed once built.
//!
//! A pattern is compiled into an [`Engine`], the engine is searched any
//! number of times, from any number of threads, and is then given up. The
//! flags are taken and, for now, not read.

use crate::app::App;
use crate::engine::compiled_pattern;
use crate::engine::kept_prefix;
use crate::engine::same_letters;
use crate::engine::Engine;
use crate::engine::MatchSettings;
use crate::text::lossy_text;
use std::borrow::Cow;
use vstd::prelude::*;
use vstd::utf8::decode_utf8;
use vstd::utf8::valid_utf8;

verus! {

/// The result of a search that found a match and wrote its offsets.
pub const MATCH_WRITTEN: i32 = 1;

/// The result of a search that found a match and had no slot to write to.
pub const MATCH_FOUND: i32 = 0;

/// The result of a search that found nothing.
pub const NO_MATCH: i32 = -1;

/// Where a match starts and ends in the haystack, in bytes.
#[derive(Clone, Copy, Debug, PartialEq, Eq, Structural)]
pub struct Regmatch {
    pub rm_so: i32,
    pub rm_eo: i32,
}

/// The result code of a search that found `found`, asked for `nmatch` slots.
pub open spec fn exec_code(found: Option<(usize, usize)>, nmatch: usize) -> i32 {
    match found {
        Some(_) => if nmatch > 0 {
            MATCH_WRITTEN
        } else {
            MATCH_FOUND
        },
        None => NO_MATCH,
    }
}

/// The first slot after a search that found `found`, asked for `nmatch`
/// slots: the offsets of the match as signed 32-bit numbers where there is a
/// match and a slot was asked for, else what it held before.
pub open spec fn exec_slot(found: Option<(usize, usize)>, nmatch: usize, before: Regmatch)
    -> Regmatch {
    match found {
        Some((start, end)) => if nmatch > 0 {
            Regmatch { rm_so: start as i32, rm_eo: end as i32 }
        } else {
            before
        },
        None => before,
    }
}

/// Reports what a search found: writes the first slot and gives the result
/// code.
pub fn report_match(found: Option<(usize, usize)>, nmatch: usize, pmatch: &mut Regmatch) -> (code:
    i32)
    ensures
        code == exec_code(found, nmatch),
        *final(pmatch) == exec_slot(found, nmatch, *old(pmatch)),
{
    match found {
        Some((start, end)) => {
            if nmatch > 0 {
                pmatch.rm_so = start as i32;
                pmatch.rm_eo = end as i32;
                MATCH_WRITTEN
            } else {
                MATCH_FOUND
            }
        },
        None => NO_MATCH,
    }
}

/// Compiles `pattern` into an engine of the controller's factory.
///
/// This never fails. Bytes that are not UTF-8 are read as a repaired text,
/// a pattern that means nothing as pinyin or romaji is matched letter by
/// letter, a pattern for which no engine can be built as it is written is
/// compiled in its settled spelling, which spells the same letters, and a
/// pattern of more than [`crate::engine::MAX_PATTERN`] characters is compiled
/// up to there. The engine lives until it is handed to [`search_free`].
pub fn search_compile<'a, O>(
    app: &'a App<O>,
    pattern: &[u8],
    cflags: u32,
    modifiers: u32,
) -> (engine: Engine<'a>)
    ensures
        engine.settings() == MatchSettings::of_config(app.settings()),
        engine.pattern() == compiled_pattern(lossy_text(pattern@)),
        same_letters(engine.pattern(), kept_prefix(lossy_text(pattern@))),
        valid_utf8(pattern@) ==> lossy_text(pattern@) == decode_utf8(pattern@),
{
    let factory = app.factory();
    match String::from_utf8_lossy(pattern) {
        Cow::Borrowed(text) => factory.compile(text),
        Cow::Owned(text) => factory.compile(text.as_str()),
    }
}

/// Searches a haystack that is known to be text.
///
/// The result is 1 where a match was found and written to `pmatch`, 0 where
/// one was found and no slot was asked for, and -1 where there was none; in
/// the last two cases `pmatch` is left as it was.
pub fn search_exec_text(
    engine: &Engine<'_>,
    haystack: &str,
    nmatch: usize,
    pmatch: &mut Regmatch,
    eflags: u32,
) -> (code: i32)
    ensures
        code == exec_code(engine.search(haystack@), nmatch),
        *final(pmatch) == exec_slot(engine.search(haystack@), nmatch, *old(pmatch)),
{
    report_match(engine.find(haystack), nmatch, pmatch)
}

/// Searches a haystack given as bytes, which may hold zero bytes.
///
/// The bytes are checked: where they are not UTF-8, the search runs on a
/// repaired copy, and the offsets are those in the copy. See
/// [`search_exec_text`] for the result.
pub fn search_exec(
    engine: &Engine<'_>,
    haystack: &[u8],
    nmatch: usize,
    pmatch: &mut Regmatch,
    eflags: u32,
) -> (code: i32)
    ensures
        code == exec_code(engine.search(lossy_text(haystack@)), nmatch),
        *final(pmatch) == exec_slot(engine.search(lossy_text(haystack@)), nmatch, *old(pmatch)),
        valid_utf8(haystack@) ==> lossy_text(haystack@) == decode_utf8(haystack@),
{
    match String::from_utf8_lossy(haystack) {
        Cow::Borrowed(text) => search_exec_text(engine, text, nmatch, pmatch, eflags),
        Cow::Owned(text) => search_exec_text(engine, text.as_str(), nmatch, pmatch, eflags),
    }
}

/// Gives up an engine: it is dropped here, and with it what it holds.
/// Nothing can use it afterwards, and nothing can free it again.
pub fn search_free(engine: Engine<'_>) {
}

/// A search changes nothing and reads nothing but the engine and the
/// haystack: engines built alike give the same result on the same haystack,
/// however often and from wherever they are asked.
pub proof fn lemma_search_is_repeatable(
    a: Engine<'_>,
    b: Engine<'_>,
    haystack: Seq<char>,
    nmatch: usize,
    before: Regmatch,
)
    requires
        a.settings() == b.settings(),
        a.pattern() == b.pattern(),
    ensures
        a.search(haystack) == b.search(haystack),
        exec_code(a.search(haystack), nmatch) == exec_code(b.search(haystack), nmatch),
        exec_slot(a.search(haystack), nmatch, before) == exec_slot(
            b.search(haystack),
            nmatch,
            before,
        ),
{
}

/// The result code is one of three, and tells what became of the slot: it
/// was written if and only if the code is [`MATCH_WRITTEN`].
pub proof fn lemma_code_tells_slot(found: Option<(usize, usize)>, nmatch: usize, before: Regmatch)
    ensures
        exec_code(found, nmatch) == MATCH_WRITTEN || exec_code(found, nmatch) == MATCH_FOUND
            || exec_code(found, nmatch) == NO_MATCH,
        exec_code(found, nmatch) == NO_MATCH <==> found is None,
        exec_code(found, nmatch) != MATCH_WRITTEN ==> exec_slot(found, nmatch, before) == before,
        exec_code(found, nmatch) == MATCH_WRITTEN ==> (found matches Some((start, end))
            && exec_slot(found, nmatch, before) == (Regmatch {
            rm_so: start as i32,
            rm_eo: end as i32,
        })),
{
}

} // verus!

//! Reading the truck's electrics and the game's pause state out of the
//! game telemetry.
//!
//! The electrics, not the engine, drive play/pause on purpose: like in a
//! real truck, the first key position powers the radio before the engine is
//! started. The telemetry record is read as its `Debug` text, looking for
//! `<field>: true` (with or without quotes around the field name), so that
//! the exact nesting of the fields in the telemetry crate does not matter.

use vstd::prelude::*;
use crate::text::{chars_of, contains, contains_exec, lemma_contains_at, matches_at};

verus! {

/// What the telemetry says about the truck and the game.
#[derive(Debug, Clone, Copy, PartialEq, Eq, Structural)]
pub struct GameState {
    /// The truck's electrics are on (first key position); the engine need
    /// not be running.
    pub electrics_on: bool,
    pub paused: bool,
}

/// `<field>: true` occurs in `haystack`, with or without quotes around the
/// field name.
pub open spec fn field_true(haystack: Seq<char>, field: Seq<char>) -> bool {
    contains(haystack, field + ": true"@) || contains(haystack, "\""@ + field + "\": true"@)
}

/// What a telemetry record's `Debug` text says: the electrics count as on
/// when any of the electric or engine flags reads `true` (a running engine
/// implies powered electrics); the game is paused when `paused` reads `true`.
pub open spec fn game_state_of(debug: Seq<char>) -> GameState {
    GameState {
        electrics_on: field_true(debug, "electric_enabled"@) || field_true(debug, "electricEnabled"@)
            || field_true(debug, "electric"@) || field_true(debug, "engine_enabled"@)
            || field_true(debug, "engineEnabled"@),
        paused: field_true(debug, "paused"@),
    }
}

/// Looks for `"<field>: true"` (the standard `Debug` layout, with or without
/// quotes around the field name) in `haystack`.
pub fn field_is_true(haystack: &str, field: &str) -> (r: bool)
    ensures
        r == field_true(haystack@, field@),
{
    let h = chars_of(haystack);
    let mut plain = chars_of(field);
    let mut plain_tail = chars_of(": true");
    plain.append(&mut plain_tail);
    let mut quoted = chars_of("\"");
    let mut quoted_field = chars_of(field);
    let mut quoted_tail = chars_of("\": true");
    quoted.append(&mut quoted_field);
    quoted.append(&mut quoted_tail);
    proof {
        assert(plain@ =~= field@ + ": true"@);
        assert(quoted@ =~= "\""@ + field@ + "\": true"@);
    }
    contains_exec(&h, &plain) || contains_exec(&h, &quoted)
}

/// The game state described by the `Debug` text of a telemetry record.
pub fn game_state_from_debug(debug: &str) -> (gs: GameState)
    ensures
        gs == game_state_of(debug@),
{
    let electrics_on = field_is_true(debug, "electric_enabled") || field_is_true(
        debug,
        "electricEnabled",
    ) || field_is_true(debug, "electric") || field_is_true(debug, "engine_enabled")
        || field_is_true(debug, "engineEnabled");
    GameState { electrics_on, paused: field_is_true(debug, "paused") }
}

/// A flag that reads `true` anywhere in the record's text is seen, whatever
/// surrounds it and with or without quotes around its name: any of the
/// electric or engine flags turns the electrics on, and `paused` pauses the
/// game.
pub proof fn lemma_true_flag_is_seen(before: Seq<char>, after: Seq<char>)
    ensures
        game_state_of(before + "electric_enabled"@ + ": true"@ + after).electrics_on,
        game_state_of(before + "\""@ + "electric_enabled"@ + "\": true"@ + after).electrics_on,
        game_state_of(before + "electricEnabled"@ + ": true"@ + after).electrics_on,
        game_state_of(before + "\""@ + "electricEnabled"@ + "\": true"@ + after).electrics_on,
        game_state_of(before + "electric"@ + ": true"@ + after).electrics_on,
        game_state_of(before + "\""@ + "electric"@ + "\": true"@ + after).electrics_on,
        game_state_of(before + "engine_enabled"@ + ": true"@ + after).electrics_on,
        game_state_of(before + "\""@ + "engine_enabled"@ + "\": true"@ + after).electrics_on,
        game_state_of(before + "engineEnabled"@ + ": true"@ + after).electrics_on,
        game_state_of(before + "\""@ + "engineEnabled"@ + "\": true"@ + after).electrics_on,
        game_state_of(before + "paused"@ + ": true"@ + after).paused,
        game_state_of(before + "\""@ + "paused"@ + "\": true"@ + after).paused,
{
    lemma_seen_at(before, "electric_enabled"@, after);
    lemma_seen_at(before, "electricEnabled"@, after);
    lemma_seen_at(before, "electric"@, after);
    lemma_seen_at(before, "engine_enabled"@, after);
    lemma_seen_at(before, "engineEnabled"@, after);
    lemma_seen_at(before, "paused"@, after);
}

proof fn lemma_seen_at(before: Seq<char>, field: Seq<char>, after: Seq<char>)
    ensures
        field_true(before + field + ": true"@ + after, field),
        field_true(before + "\""@ + field + "\": true"@ + after, field),
{
    let plain = field + ": true"@;
    let s1 = before + field + ": true"@ + after;
    assert(s1 =~= before + plain + after);
    assert(s1.subrange(before.len() as int, (before.len() + plain.len()) as int) =~= plain);
    lemma_contains_at(s1, plain, before.len() as int);
    let quoted = "\""@ + field + "\": true"@;
    let s2 = before + "\""@ + field + "\": true"@ + after;
    assert(s2 =~= before + quoted + after);
    assert(s2.subrange(before.len() as int, (before.len() + quoted.len()) as int) =~= quoted);
    lemma_contains_at(s2, quoted, before.len() as int);
}


} // verus!

//! The start, reset and split rules, evaluated on one snapshot.

use vstd::prelude::*;
use std::collections::HashSet;
use crate::watchers::State;

verus! {

broadcast use vstd::std_specs::hash::group_hash_axioms;

/// Rooms come four to a chapter: a room number divisible by this ends one.
pub const ROOMS_PER_CHAPTER: u8 = 4;

/// The two options of the splitter, read afresh every tick.
#[derive(Clone, Copy, Debug, PartialEq, Eq, Structural)]
pub struct Settings {
    /// Split after each level.
    pub split_level: bool,
    /// Split after each chapter.
    pub split_chapter: bool,
}

impl Default for Settings {
    /// Splitting by chapter is on and splitting by level is off.
    fn default() -> (s: Self)
        ensures
            !s.split_level,
            s.split_chapter,
    {
        Settings { split_level: false, split_chapter: true }
    }
}

/// The menu was left on this tick.
pub open spec fn start_edge(state: State) -> bool {
    state.is_main_menu.spec_changed_to(0)
}

/// The menu was entered on this tick.
pub open spec fn reset_edge(state: State) -> bool {
    state.is_main_menu.spec_changed_to(1)
}

/// The game was finished on this tick.
pub open spec fn finish_edge(state: State) -> bool {
    state.is_finished.spec_changed_to(1)
}

/// The room number rose on this tick in a way that the settings split on:
/// any rise with `split_level`, a rise onto a chapter boundary with
/// `split_chapter`.
pub open spec fn room_edge(state: State, settings: Settings) -> bool {
    &&& state.room_number.spec_increased()
    &&& (settings.split_level || (settings.split_chapter && state.room_number.current as int % 4
        == 0))
}

/// A split fires on the finish edge whatever else holds; otherwise on a room
/// edge whose old room number has authorised no split before.
pub open spec fn split_fires(state: State, settings: Settings, splits_done: Set<u8>) -> bool {
    finish_edge(state) || (room_edge(state, settings) && !splits_done.contains(
        state.room_number.old,
    ))
}

/// The old room number is recorded whenever a room edge is evaluated, that
/// is, when no finish edge took precedence.
pub open spec fn splits_done_after(state: State, settings: Settings, splits_done: Set<u8>) -> Set<
    u8,
> {
    if !finish_edge(state) && room_edge(state, settings) {
        splits_done.insert(state.room_number.old)
    } else {
        splits_done
    }
}

/// Whether the timer is to start: asked while it is not running.
pub fn should_start(state: &State) -> (r: bool)
    ensures
        r == start_edge(*state),
{
    state.is_main_menu.changed_to(&0)
}

/// Whether the timer is to reset: asked while it is running.
pub fn should_reset(state: &State) -> (r: bool)
    ensures
        r == reset_edge(*state),
{
    state.is_main_menu.changed_to(&1)
}

/// Whether the timer is to split: asked while it is running. A room edge
/// records its old room number in `splits_done` and splits only if that
/// number was not there yet.
pub fn should_split(state: &State, settings: &Settings, splits_done: &mut HashSet<u8>) -> (r: bool)
    ensures
        r == split_fires(*state, *settings, old(splits_done)@),
        final(splits_done)@ == splits_done_after(*state, *settings, old(splits_done)@),
{
    if state.is_finished.changed_to(&1) {
        return true;
    }
    if state.room_number.increased() {
        let is_chapter_end: bool = state.room_number.current % ROOMS_PER_CHAPTER == 0;
        if settings.split_level || (settings.split_chapter && is_chapter_end) {
            return splits_done.insert(state.room_number.old);
        }
    }
    false
}

/// The final split ignores both options and the record of earlier splits.
pub proof fn lemma_finish_always_splits(state: State, settings: Settings, splits_done: Set<u8>)
    requires
        finish_edge(state),
    ensures
        split_fires(state, settings, splits_done),
        splits_done_after(state, settings, splits_done) == splits_done,
{
}

/// With both options off only the finish edge splits.
pub proof fn lemma_no_option_no_room_split(state: State, splits_done: Set<u8>)
    ensures
        split_fires(state, Settings { split_level: false, split_chapter: false }, splits_done)
            == finish_edge(state),
{
}

/// The record of splits only grows, and by at most the old room number.
pub proof fn lemma_splits_done_grows(state: State, settings: Settings, splits_done: Set<u8>)
    ensures
        splits_done.subset_of(splits_done_after(state, settings, splits_done)),
        splits_done_after(state, settings, splits_done).subset_of(
            splits_done.insert(state.room_number.old),
        ),
{
}

/// First use wins: once a room edge has been evaluated for an old room
/// number, a later room edge with the same old room number fires no split,
/// whatever the settings then are and whatever room it leads to.
pub proof fn lemma_room_split_fires_once(
    first: State,
    first_settings: Settings,
    later: State,
    later_settings: Settings,
    splits_done: Set<u8>,
)
    requires
        !finish_edge(first),
        room_edge(first, first_settings),
        later.room_number.old == first.room_number.old,
        !finish_edge(later),
    ensures
        !split_fires(
            later,
            later_settings,
            splits_done_after(first, first_settings, splits_done),
        ),
{
}

/// A room edge fires in a session that has recorded nothing yet.
pub proof fn lemma_fresh_session_splits(state: State, settings: Settings)
    requires
        room_edge(state, settings),
    ensures
        split_fires(state, settings, Set::<u8>::empty()),
{
}

/// The start and reset edges never fall on the same tick.
pub proof fn lemma_start_excludes_reset(state: State)
    ensures
        !(start_edge(state) && reset_edge(state)),
{
}

} // verus!

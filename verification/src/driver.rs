//! What one tick does to the timer, decided from the snapshot and the
//! timer's run state.

use vstd::prelude::*;
use std::collections::HashSet;
use crate::duration::ElapsedDuration;
use crate::engine::{
    reset_edge, should_reset, should_split, should_start, split_fires, splits_done_after,
    start_edge, Settings,
};
use crate::watchers::{is_tick_reads, published, AttachError, Diagnostic, Sampling, State, Watchers};

verus! {

/// The timer's run state, as far as the rules tell it apart.
#[derive(Clone, Copy, Debug, PartialEq, Eq, Structural)]
pub enum TimerState {
    NotRunning,
    Running,
    /// Paused, ended, or anything else: no command is issued.
    Other,
}

/// The commands of one tick, to be issued in the order of the fields.
#[derive(Clone, Copy, Debug, PartialEq, Eq)]
pub struct TickActions {
    /// The elapsed game time to hand to the timer, if the tick has a snapshot.
    pub game_time: Option<ElapsedDuration>,
    /// Keep the timer's own game-time accounting paused.
    pub pause_game_time: bool,
    pub start: bool,
    pub reset: bool,
    pub split: bool,
}

/// The actions of a tick without a snapshot: none.
pub open spec fn no_actions() -> TickActions {
    TickActions { game_time: None, pause_game_time: false, start: false, reset: false, split: false }
}

/// The actions of a tick.
pub open spec fn tick_actions(
    snapshot: Option<State>,
    timer_state: TimerState,
    settings: Settings,
    splits_done: Set<u8>,
) -> TickActions {
    match snapshot {
        None => no_actions(),
        Some(state) => TickActions {
            game_time: Some(state.timer.current),
            pause_game_time: true,
            start: timer_state == TimerState::NotRunning && start_edge(state),
            reset: timer_state == TimerState::Running && reset_edge(state),
            split: timer_state == TimerState::Running && split_fires(state, settings, splits_done),
        },
    }
}

/// The record of splits after a tick: touched only while the timer runs and
/// the tick has a snapshot.
pub open spec fn tick_splits_done(
    snapshot: Option<State>,
    timer_state: TimerState,
    settings: Settings,
    splits_done: Set<u8>,
) -> Set<u8> {
    match snapshot {
        Some(state) if timer_state == TimerState::Running => splits_done_after(
            state,
            settings,
            splits_done,
        ),
        _ => splits_done,
    }
}

/// Decides what one tick does: nothing without a snapshot; with one, the
/// game time is pushed and then the rule for the timer's run state applies.
pub fn tick(
    snapshot: Option<State>,
    timer_state: TimerState,
    settings: &Settings,
    splits_done: &mut HashSet<u8>,
) -> (actions: TickActions)
    ensures
        actions == tick_actions(snapshot, timer_state, *settings, old(splits_done)@),
        final(splits_done)@ == tick_splits_done(
            snapshot,
            timer_state,
            *settings,
            old(splits_done)@,
        ),
{
    match snapshot {
        None => TickActions {
            game_time: None,
            pause_game_time: false,
            start: false,
            reset: false,
            split: false,
        },
        Some(state) => {
            let mut actions = TickActions {
                game_time: Some(state.timer.current),
                pause_game_time: true,
                start: false,
                reset: false,
                split: false,
            };
            match timer_state {
                TimerState::NotRunning => {
                    actions.start = should_start(&state);
                },
                TimerState::Running => {
                    actions.reset = should_reset(&state);
                    actions.split = should_split(&state, settings, splits_done);
                },
                TimerState::Other => {},
            }
            actions
        },
    }
}

/// The state of one session: it lives from a successful attach until the
/// process or its module is lost, and is then dropped whole.
#[derive(Debug)]
pub struct Session {
    pub watchers: Watchers,
    /// The old room numbers that have authorised a split in this session.
    pub splits_done: HashSet<u8>,
}

/// What one tick of a session hands back: the values to publish, then the
/// commands to issue.
#[derive(Debug)]
pub struct TickOutcome {
    pub variables: Vec<Diagnostic>,
    pub actions: TickActions,
}

impl Session {
    /// Starts a session on the resolved base address of the game's main
    /// module: watchers that have seen nothing and an empty record of splits.
    /// There is no session where the module was not resolved.
    pub fn attach(module_base: Option<u64>) -> (r: Result<Session, AttachError>)
        ensures
            match Watchers::spec_new(module_base) {
                Ok(watchers) => r is Ok && r->Ok_0.watchers == watchers
                    && r->Ok_0.splits_done@ == Set::<u8>::empty(),
                Err(e) => r is Err && r->Err_0 == e,
            },
    {
        match Watchers::new(module_base) {
            Ok(watchers) => Ok(Session { watchers, splits_done: HashSet::new() }),
            Err(e) => Err(e),
        }
    }

    /// Runs one tick: samples the seven fields through `read`, and decides on
    /// the snapshot, if there is one, what the timer is told.
    pub fn tick<F: Fn(u64) -> Option<u8>>(
        &mut self,
        read: F,
        timer_state: TimerState,
        settings: &Settings,
    ) -> (out: TickOutcome)
        requires
            forall|a: u64| read.requires((a,)),
        ensures
            exists|reads: Seq<Option<u8>>|
                {
                    &&& #[trigger] is_tick_reads(reads)
                    &&& old(self).watchers.read_by(read, reads)
                    &&& final(self).watchers == old(self).watchers.after_reads(reads)
                    &&& out.variables@ == published(reads)
                    &&& out.actions == tick_actions(
                        old(self).watchers.sampling_state(reads),
                        timer_state,
                        *settings,
                        old(self).splits_done@,
                    )
                    &&& final(self).splits_done@ == tick_splits_done(
                        old(self).watchers.sampling_state(reads),
                        timer_state,
                        *settings,
                        old(self).splits_done@,
                    )
                },
    {
        let sampling: Sampling = self.watchers.update(read);
        let actions: TickActions = tick(
            sampling.state,
            timer_state,
            settings,
            &mut self.splits_done,
        );
        TickOutcome { variables: sampling.variables, actions }
    }
}

/// A tick in which a read failed decides nothing: whichever read it was,
/// whatever the other reads gave and whatever state the timer is in, no
/// command is issued, no game time is pushed and the record of splits stays
/// as it was.
pub proof fn lemma_failed_read_skips_tick(
    watchers: Watchers,
    reads: Seq<Option<u8>>,
    failed: int,
    timer_state: TimerState,
    settings: Settings,
    splits_done: Set<u8>,
)
    requires
        is_tick_reads(reads),
        0 <= failed < reads.len(),
        reads[failed] is None,
    ensures
        watchers.sampling_state(reads) is None,
        tick_actions(watchers.sampling_state(reads), timer_state, settings, splits_done)
            == no_actions(),
        tick_splits_done(watchers.sampling_state(reads), timer_state, settings, splits_done)
            == splits_done,
{
}

/// Start is issued only while the timer is not running, reset and split only
/// while it runs, and each exactly on its edge.
pub proof fn lemma_commands_follow_run_state(
    state: State,
    timer_state: TimerState,
    settings: Settings,
    splits_done: Set<u8>,
)
    ensures
        ({
            let a = tick_actions(Some(state), timer_state, settings, splits_done);
            &&& a.start <==> timer_state == TimerState::NotRunning && start_edge(state)
            &&& a.reset <==> timer_state == TimerState::Running && reset_edge(state)
            &&& a.split <==> timer_state == TimerState::Running && split_fires(
                state,
                settings,
                splits_done,
            )
            &&& !(a.start && (a.reset || a.split))
        }),
{
}

} // verus!

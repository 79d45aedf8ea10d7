//! The seven watchers of one session and the per-tick snapshot they yield.

use vstd::prelude::*;
use crate::duration::{time_components_to_duration, spec_sixtieths, ElapsedDuration};
use crate::pair::Pair;
use crate::watcher::{pair_after, Watcher};

verus! {

/// Offset of the first tracked byte from the base of the game's main module.
pub const FIRST_OFFSET: u64 = 0x43C924;

/// Offset of the last tracked byte from the base of the game's main module.
pub const LAST_OFFSET: u64 = 0x43C92A;

/// The tracked values, in the order in which they are read each tick.
#[derive(Clone, Copy, Debug, PartialEq, Eq, Structural)]
pub enum Field {
    IsMainMenu,
    IsFinished,
    RoomNumber,
    Hours,
    Minutes,
    Seconds,
    SubSecondFrame,
}

impl Field {
    /// Position of the field in the reading order, from 0 to 6.
    pub open spec fn spec_index(self) -> int {
        match self {
            Field::IsMainMenu => 0,
            Field::IsFinished => 1,
            Field::RoomNumber => 2,
            Field::Hours => 3,
            Field::Minutes => 4,
            Field::Seconds => 5,
            Field::SubSecondFrame => 6,
        }
    }

    /// The field read at position `index`; positions past the end give the
    /// last field.
    pub open spec fn spec_at(index: int) -> Field {
        if index <= 0 {
            Field::IsMainMenu
        } else if index == 1 {
            Field::IsFinished
        } else if index == 2 {
            Field::RoomNumber
        } else if index == 3 {
            Field::Hours
        } else if index == 4 {
            Field::Minutes
        } else if index == 5 {
            Field::Seconds
        } else {
            Field::SubSecondFrame
        }
    }

    /// The fields lie one byte apart, in reading order.
    pub open spec fn spec_offset(self) -> int {
        FIRST_OFFSET as int + self.spec_index()
    }

    /// The field read first each tick.
    pub fn first() -> (f: Field)
        ensures
            f.spec_index() == 0,
    {
        Field::IsMainMenu
    }

    /// The field read after this one, if any.
    pub fn next(self) -> (n: Option<Field>)
        ensures
            n is None <==> self.spec_index() == 6,
            n is Some ==> n->0.spec_index() == self.spec_index() + 1,
    {
        match self {
            Field::IsMainMenu => Some(Field::IsFinished),
            Field::IsFinished => Some(Field::RoomNumber),
            Field::RoomNumber => Some(Field::Hours),
            Field::Hours => Some(Field::Minutes),
            Field::Minutes => Some(Field::Seconds),
            Field::Seconds => Some(Field::SubSecondFrame),
            Field::SubSecondFrame => None,
        }
    }

    /// Distance in bytes from the module base to the field.
    pub fn offset(self) -> (o: u64)
        ensures
            o as int == self.spec_offset(),
            FIRST_OFFSET <= o <= LAST_OFFSET,
    {
        match self {
            Field::IsMainMenu => 0x43C924,
            Field::IsFinished => 0x43C925,
            Field::RoomNumber => 0x43C926,
            Field::Hours => 0x43C927,
            Field::Minutes => 0x43C928,
            Field::Seconds => 0x43C929,
            Field::SubSecondFrame => 0x43C92A,
        }
    }

    /// The name under which the field's value is published for diagnostics.
    pub open spec fn spec_variable_name(self) -> Seq<char> {
        match self {
            Field::IsMainMenu => "is_main_menu"@,
            Field::IsFinished => "is_finished"@,
            Field::RoomNumber => "room_number"@,
            Field::Hours => "hours"@,
            Field::Minutes => "minutes"@,
            Field::Seconds => "seconds"@,
            Field::SubSecondFrame => "sub_second_frames"@,
        }
    }

    /// The name under which the field's value is published.
    pub fn variable_name(self) -> (name: &'static str)
        ensures
            name@ == self.spec_variable_name(),
    {
        match self {
            Field::IsMainMenu => "is_main_menu",
            Field::IsFinished => "is_finished",
            Field::RoomNumber => "room_number",
            Field::Hours => "hours",
            Field::Minutes => "minutes",
            Field::Seconds => "seconds",
            Field::SubSecondFrame => "sub_second_frames",
        }
    }
}

/// Why no session state could be set up.
#[derive(Clone, Copy, Debug, PartialEq, Eq, Structural)]
pub enum AttachError {
    /// The game's main module was not found in the process.
    ModuleNotFound,
    /// The module base lies so high that a tracked byte would have no address.
    AddressOutOfRange,
}

/// A value that was read this tick, to be published under the field's name.
#[derive(Clone, Copy, Debug, PartialEq, Eq, Structural)]
pub struct Diagnostic {
    pub field: Field,
    pub value: u8,
}

/// What one successful tick saw: never built from fewer than seven reads.
#[derive(Clone, Copy, Debug, PartialEq, Eq)]
pub struct State {
    pub is_main_menu: Pair<u8>,
    pub is_finished: Pair<u8>,
    pub room_number: Pair<u8>,
    pub timer: Pair<ElapsedDuration>,
}

/// One watcher per tracked field.
#[derive(Clone, Copy, Debug, PartialEq, Eq)]
pub struct Watchers {
    pub is_main_menu: Watcher<u8>,
    pub is_finished: Watcher<u8>,
    pub room_number: Watcher<u8>,
    pub hours: Watcher<u8>,
    pub minutes: Watcher<u8>,
    pub seconds: Watcher<u8>,
    pub sub_second_frame: Watcher<u8>,
}

/// The outcome of handing one read to the watchers.
#[derive(Clone, Copy, Debug, PartialEq, Eq)]
pub enum Sampled {
    /// The read failed: sampling stops for this tick, with no snapshot.
    Failed,
    /// The read succeeded and `next` is to be read now.
    More { variable: Diagnostic, next: Field },
    /// The last read succeeded: the tick's snapshot.
    Complete { variable: Diagnostic, state: State },
}

/// What one tick's sampling hands back.
#[derive(Debug)]
pub struct Sampling {
    /// The snapshot, there exactly when all seven reads succeeded.
    pub state: Option<State>,
    /// The values read this tick, in reading order, for publication.
    pub variables: Vec<Diagnostic>,
}

/// `reads` can be the reads of one tick, in order: one to seven of them, and
/// none follows a failed one.
pub open spec fn is_tick_reads(reads: Seq<Option<u8>>) -> bool {
    &&& 1 <= reads.len() <= 7
    &&& forall|i: int| 0 <= i < reads.len() - 1 ==> (#[trigger] reads[i]) is Some
    &&& reads.len() < 7 ==> reads.last() is None
}

/// Every one of the seven reads was made and succeeded.
pub open spec fn all_succeeded(reads: Seq<Option<u8>>) -> bool {
    reads.len() == 7 && forall|i: int| 0 <= i < 7 ==> (#[trigger] reads[i]) is Some
}

/// The diagnostics of the successful reads among `reads`, in reading order.
pub open spec fn published(reads: Seq<Option<u8>>) -> Seq<Diagnostic>
    decreases reads.len(),
{
    if reads.len() == 0 {
        Seq::empty()
    } else if reads.last() is None {
        published(reads.drop_last())
    } else {
        published(reads.drop_last()).push(
            Diagnostic { field: Field::spec_at(reads.len() - 1), value: reads.last()->0 },
        )
    }
}

/// The elapsed time that four component pairs stand for, old and current
/// halves converted independently.
pub open spec fn spec_timer(
    hours: Pair<u8>,
    minutes: Pair<u8>,
    seconds: Pair<u8>,
    frames: Pair<u8>,
) -> Pair<ElapsedDuration> {
    Pair {
        old: ElapsedDuration {
            sixtieths: spec_sixtieths(hours.old, minutes.old, seconds.old, frames.old) as u32,
        },
        current: ElapsedDuration {
            sixtieths: spec_sixtieths(
                hours.current,
                minutes.current,
                seconds.current,
                frames.current,
            ) as u32,
        },
    }
}

impl Watchers {
    /// The watcher of `field`.
    pub open spec fn watcher(self, field: Field) -> Watcher<u8> {
        match field {
            Field::IsMainMenu => self.is_main_menu,
            Field::IsFinished => self.is_finished,
            Field::RoomNumber => self.room_number,
            Field::Hours => self.hours,
            Field::Minutes => self.minutes,
            Field::Seconds => self.seconds,
            Field::SubSecondFrame => self.sub_second_frame,
        }
    }

    /// Every watcher sits at its field's offset from `base`.
    pub open spec fn bound_to(self, base: u64) -> bool {
        forall|f: Field| #[trigger] self.watcher(f).address as int == base as int + f.spec_offset()
    }

    /// No watcher has observed a value.
    pub open spec fn is_fresh(self) -> bool {
        forall|f: Field| #[trigger] self.watcher(f).pair is None
    }

    /// The watchers once `field`'s watcher has been handed `read`; the others
    /// are untouched.
    pub open spec fn with_sample(self, field: Field, read: Option<u8>) -> Watchers {
        let w = self.watcher(field);
        let updated = Watcher { pair: pair_after(w.pair, read), address: w.address };
        match field {
            Field::IsMainMenu => Watchers { is_main_menu: updated, ..self },
            Field::IsFinished => Watchers { is_finished: updated, ..self },
            Field::RoomNumber => Watchers { room_number: updated, ..self },
            Field::Hours => Watchers { hours: updated, ..self },
            Field::Minutes => Watchers { minutes: updated, ..self },
            Field::Seconds => Watchers { seconds: updated, ..self },
            Field::SubSecondFrame => Watchers { sub_second_frame: updated, ..self },
        }
    }

    /// All seven watchers hold a pair.
    pub open spec fn all_observed(self) -> bool {
        &&& self.is_main_menu.pair is Some
        &&& self.is_finished.pair is Some
        &&& self.room_number.pair is Some
        &&& self.hours.pair is Some
        &&& self.minutes.pair is Some
        &&& self.seconds.pair is Some
        &&& self.sub_second_frame.pair is Some
    }

    /// The snapshot that the seven held pairs make up.
    pub open spec fn snapshot(self) -> State
        recommends
            self.all_observed(),
    {
        State {
            is_main_menu: self.is_main_menu.pair->0,
            is_finished: self.is_finished.pair->0,
            room_number: self.room_number.pair->0,
            timer: spec_timer(
                self.hours.pair->0,
                self.minutes.pair->0,
                self.seconds.pair->0,
                self.sub_second_frame.pair->0,
            ),
        }
    }

    /// What handing `read` to `field`'s watcher yields: a failed read stops
    /// the tick, a value for any field but the last asks for the next field,
    /// and a value for the last field completes the snapshot.
    pub open spec fn sampled(self, field: Field, read: Option<u8>) -> Sampled {
        let after = self.with_sample(field, read);
        if read is None {
            Sampled::Failed
        } else if field.spec_index() < 6 {
            Sampled::More {
                variable: Diagnostic { field, value: read->0 },
                next: Field::spec_at(field.spec_index() + 1),
            }
        } else if after.all_observed() {
            Sampled::Complete {
                variable: Diagnostic { field, value: read->0 },
                state: after.snapshot(),
            }
        } else {
            Sampled::Failed
        }
    }

    /// Watchers that have observed nothing, each at its field's offset from
    /// `base`.
    pub open spec fn fresh_at(base: u64) -> Watchers {
        Watchers {
            is_main_menu: Self::fresh_watcher(base, Field::IsMainMenu),
            is_finished: Self::fresh_watcher(base, Field::IsFinished),
            room_number: Self::fresh_watcher(base, Field::RoomNumber),
            hours: Self::fresh_watcher(base, Field::Hours),
            minutes: Self::fresh_watcher(base, Field::Minutes),
            seconds: Self::fresh_watcher(base, Field::Seconds),
            sub_second_frame: Self::fresh_watcher(base, Field::SubSecondFrame),
        }
    }

    /// A watcher for `field` below `base` that has observed nothing.
    pub open spec fn fresh_watcher(base: u64, field: Field) -> Watcher<u8> {
        Watcher { pair: None, address: (base as int + field.spec_offset()) as u64 }
    }

    /// There are watchers exactly when the module was resolved and its base
    /// leaves room below the top of the address space for every tracked byte.
    pub open spec fn spec_new(module_base: Option<u64>) -> Result<Watchers, AttachError> {
        match module_base {
            None => Err(AttachError::ModuleNotFound),
            Some(base) => if base as int + LAST_OFFSET as int > u64::MAX as int {
                Err(AttachError::AddressOutOfRange)
            } else {
                Ok(Self::fresh_at(base))
            },
        }
    }

    /// Sets up the watchers of a session from the resolved base address of the
    /// game's main module, `None` where it could not be resolved.
    pub fn new(module_base: Option<u64>) -> (r: Result<Watchers, AttachError>)
        ensures
            r == Watchers::spec_new(module_base),
            r is Ok ==> r->Ok_0.bound_to(module_base->0) && r->Ok_0.is_fresh(),
    {
        match module_base {
            None => Err(AttachError::ModuleNotFound),
            Some(base) => {
                if base > u64::MAX - LAST_OFFSET {
                    Err(AttachError::AddressOutOfRange)
                } else {
                    Ok(
                        Watchers {
                            is_main_menu: Watcher::new(base + Field::IsMainMenu.offset()),
                            is_finished: Watcher::new(base + Field::IsFinished.offset()),
                            room_number: Watcher::new(base + Field::RoomNumber.offset()),
                            hours: Watcher::new(base + Field::Hours.offset()),
                            minutes: Watcher::new(base + Field::Minutes.offset()),
                            seconds: Watcher::new(base + Field::Seconds.offset()),
                            sub_second_frame: Watcher::new(base + Field::SubSecondFrame.offset()),
                        },
                    )
                }
            },
        }
    }

    /// The absolute address at which `field` is read.
    pub fn address(&self, field: Field) -> (a: u64)
        ensures
            a == self.watcher(field).address,
    {
        match field {
            Field::IsMainMenu => self.is_main_menu.address,
            Field::IsFinished => self.is_finished.address,
            Field::RoomNumber => self.room_number.address,
            Field::Hours => self.hours.address,
            Field::Minutes => self.minutes.address,
            Field::Seconds => self.seconds.address,
            Field::SubSecondFrame => self.sub_second_frame.address,
        }
    }

    /// The watchers after the reads `reads`, handed over in reading order.
    pub open spec fn after_reads(self, reads: Seq<Option<u8>>) -> Watchers
        decreases reads.len(),
    {
        if reads.len() == 0 {
            self
        } else {
            self.after_reads(reads.drop_last()).with_sample(
                Field::spec_at(reads.len() - 1),
                reads.last(),
            )
        }
    }

    /// `reads` are outcomes that `read` can give at the watchers' addresses,
    /// taken in reading order.
    pub open spec fn read_by<F: Fn(u64) -> Option<u8>>(
        self,
        read: F,
        reads: Seq<Option<u8>>,
    ) -> bool {
        forall|i: int|
            0 <= i < reads.len() ==> read.ensures(
                (self.watcher(Field::spec_at(i)).address,),
                #[trigger] reads[i],
            )
    }

    /// The result of a tick whose reads came back as `reads`: a snapshot only
    /// if all seven succeeded.
    pub open spec fn sampling_state(self, reads: Seq<Option<u8>>) -> Option<State> {
        if all_succeeded(reads) {
            Some(self.after_reads(reads).snapshot())
        } else {
            None
        }
    }

    /// Handing a read to one field's watcher changes that watcher's pair and
    /// nothing else: no address moves and no other watcher's pair changes.
    pub proof fn lemma_with_sample_frame(self, field: Field, read: Option<u8>)
        ensures
            forall|f: Field|
                (#[trigger] self.with_sample(field, read).watcher(f)).address == self.watcher(
                    f,
                ).address,
            forall|f: Field|
                f != field ==> #[trigger] self.with_sample(field, read).watcher(f)
                    == self.watcher(f),
            self.with_sample(field, read).watcher(field).pair == pair_after(
                self.watcher(field).pair,
                read,
            ),
    {
    }

    /// Field by field, what a tick's reads do: a field that was polled holds
    /// the pair that its own read gives, a field that was not polled keeps
    /// its history, and no address moves.
    pub proof fn lemma_after_reads_by_field(self, reads: Seq<Option<u8>>, f: Field)
        requires
            reads.len() <= 7,
        ensures
            self.after_reads(reads).watcher(f).address == self.watcher(f).address,
            f.spec_index() < reads.len() ==> self.after_reads(reads).watcher(f).pair
                == pair_after(self.watcher(f).pair, reads[f.spec_index()]),
            f.spec_index() >= reads.len() ==> self.after_reads(reads).watcher(f) == self.watcher(
                f,
            ),
        decreases reads.len(),
    {
        if reads.len() > 0 {
            let rest = reads.drop_last();
            let last = Field::spec_at(reads.len() - 1);
            self.lemma_after_reads_by_field(rest, f);
            self.after_reads(rest).lemma_with_sample_frame(last, reads.last());
            if f.spec_index() < rest.len() {
                assert(rest[f.spec_index()] == reads[f.spec_index()]);
            }
        }
    }

    /// A tick yields a snapshot exactly when none of its reads failed, and a
    /// failed read is always the last one made.
    pub proof fn lemma_snapshot_iff_no_read_failed(self, reads: Seq<Option<u8>>)
        requires
            is_tick_reads(reads),
        ensures
            self.sampling_state(reads) is Some <==> forall|i: int|
                0 <= i < reads.len() ==> (#[trigger] reads[i]) is Some,
            self.sampling_state(reads) is Some ==> self.after_reads(reads).all_observed(),
            self.sampling_state(reads) is None ==> reads.last() is None,
    {
        if all_succeeded(reads) {
            assert forall|f: Field| (#[trigger] self.after_reads(reads).watcher(f)).pair is Some by {
                self.lemma_after_reads_by_field(reads, f);
                assert(reads[f.spec_index()] is Some);
            }
            let after = self.after_reads(reads);
            assert(after.watcher(Field::IsMainMenu).pair is Some);
            assert(after.watcher(Field::IsFinished).pair is Some);
            assert(after.watcher(Field::RoomNumber).pair is Some);
            assert(after.watcher(Field::Hours).pair is Some);
            assert(after.watcher(Field::Minutes).pair is Some);
            assert(after.watcher(Field::Seconds).pair is Some);
            assert(after.watcher(Field::SubSecondFrame).pair is Some);
        } else if reads.len() == 7 {
            let i = choose|i: int| 0 <= i < 7 && !(#[trigger] reads[i] is Some);
            assert(i == 6);
        }
    }

    /// Samples one tick: reads the fields in their fixed order through `read`,
    /// which is handed each field's absolute address, and stops at the first
    /// read that fails, polling no later field.
    pub fn update<F: Fn(u64) -> Option<u8>>(&mut self, read: F) -> (out: Sampling)
        requires
            forall|a: u64| read.requires((a,)),
        ensures
            exists|reads: Seq<Option<u8>>|
                {
                    &&& #[trigger] is_tick_reads(reads)
                    &&& old(self).read_by(read, reads)
                    &&& *final(self) == old(self).after_reads(reads)
                    &&& out.state == old(self).sampling_state(reads)
                    &&& out.variables@ == published(reads)
                },
    {
        let mut field: Field = Field::first();
        let mut variables: Vec<Diagnostic> = Vec::new();
        let ghost mut reads: Seq<Option<u8>> = Seq::empty();
        loop
            invariant
                forall|a: u64| read.requires((a,)),
                reads.len() == field.spec_index(),
                forall|i: int| 0 <= i < reads.len() ==> (#[trigger] reads[i]) is Some,
                old(self).read_by(read, reads),
                *self == old(self).after_reads(reads),
                variables@ == published(reads),
                forall|f: Field| (#[trigger] self.watcher(f)).address == old(self).watcher(f).address,
                forall|f: Field|
                    f.spec_index() < reads.len() ==> (#[trigger] self.watcher(f)).pair is Some,
            decreases 7 - field.spec_index(),
        {
            let address: u64 = self.address(field);
            let value: Option<u8> = read(address);
            let ghost before = reads;
            proof {
                reads = before.push(value);
                assert(reads.drop_last() =~= before);
                assert(reads.last() == value);
                assert(field == Field::spec_at(before.len() as int));
            }
            let ghost previous = *self;
            let step: Sampled = self.sample(field, value);
            proof {
                previous.lemma_with_sample_frame(field, value);
                assert(old(self).after_reads(reads) == *self);
                assert forall|i: int| 0 <= i < reads.len() implies read.ensures(
                    (old(self).watcher(Field::spec_at(i)).address,),
                    #[trigger] reads[i],
                ) by {
                    if i < before.len() {
                        assert(reads[i] == before[i]);
                    }
                }
                assert forall|f: Field| f.spec_index() < reads.len() && value is Some implies (
                #[trigger] self.watcher(f)).pair is Some by {
                    if f != field {
                        assert(previous.watcher(f).pair is Some);
                    }
                }
                if value is Some && field.spec_index() == 6 {
                    assert(self.watcher(Field::IsMainMenu).pair is Some);
                    assert(self.watcher(Field::IsFinished).pair is Some);
                    assert(self.watcher(Field::RoomNumber).pair is Some);
                    assert(self.watcher(Field::Hours).pair is Some);
                    assert(self.watcher(Field::Minutes).pair is Some);
                    assert(self.watcher(Field::Seconds).pair is Some);
                    assert(self.watcher(Field::SubSecondFrame).pair is Some);
                    assert(self.all_observed());
                }
            }
            match step {
                Sampled::Failed => {
                    proof {
                        assert(value is None);
                        assert(reads[reads.len() - 1] is None);
                        assert(!all_succeeded(reads));
                        assert(published(reads) == published(before));
                        assert(is_tick_reads(reads));
                    }
                    return Sampling { state: None, variables };
                },
                Sampled::More { variable, next } => {
                    variables.push(variable);
                    field = next;
                    proof {
                        assert(published(reads) == published(before).push(variable));
                    }
                },
                Sampled::Complete { variable, state } => {
                    variables.push(variable);
                    proof {
                        assert(published(reads) == published(before).push(variable));
                        assert(is_tick_reads(reads));
                        assert(all_succeeded(reads));
                    }
                    return Sampling { state: Some(state), variables };
                },
            }
        }
    }

    /// Hands the outcome of reading `field` to its watcher and says how the
    /// tick goes on. A snapshot comes only with the last field, and only when
    /// all seven watchers hold a pair.
    pub fn sample(&mut self, field: Field, read: Option<u8>) -> (r: Sampled)
        ensures
            *final(self) == old(self).with_sample(field, read),
            r == old(self).sampled(field, read),
    {
        let pair: Option<Pair<u8>> = match field {
            Field::IsMainMenu => self.is_main_menu.update(read),
            Field::IsFinished => self.is_finished.update(read),
            Field::RoomNumber => self.room_number.update(read),
            Field::Hours => self.hours.update(read),
            Field::Minutes => self.minutes.update(read),
            Field::Seconds => self.seconds.update(read),
            Field::SubSecondFrame => self.sub_second_frame.update(read),
        };
        match pair {
            None => Sampled::Failed,
            Some(p) => {
                let variable = Diagnostic { field, value: p.current };
                match field.next() {
                    Some(next) => Sampled::More { variable, next },
                    None => match self.assemble() {
                        Some(state) => Sampled::Complete { variable, state },
                        None => Sampled::Failed,
                    },
                }
            },
        }
    }

    /// Builds the snapshot from the pairs that the watchers hold, if none is
    /// missing.
    pub fn assemble(&self) -> (s: Option<State>)
        ensures
            s is Some <==> self.all_observed(),
            s is Some ==> s->0 == self.snapshot(),
    {
        match (
            self.is_main_menu.pair,
            self.is_finished.pair,
            self.room_number.pair,
            self.hours.pair,
            self.minutes.pair,
            self.seconds.pair,
            self.sub_second_frame.pair,
        ) {
            (
                Some(is_main_menu),
                Some(is_finished),
                Some(room_number),
                Some(hours),
                Some(minutes),
                Some(seconds),
                Some(frames),
            ) => Some(
                State {
                    is_main_menu,
                    is_finished,
                    room_number,
                    timer: Pair {
                        old: time_components_to_duration(
                            hours.old,
                            minutes.old,
                            seconds.old,
                            frames.old,
                        ),
                        current: time_components_to_duration(
                            hours.current,
                            minutes.current,
                            seconds.current,
                            frames.current,
                        ),
                    },
                },
            ),
            _ => None,
        }
    }
}

} // verus!

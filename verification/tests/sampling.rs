use std::cell::Cell;

use null_autosplit::duration::{time_components_to_duration, ElapsedDuration};
use null_autosplit::pair::Pair;
use null_autosplit::watcher::Watcher;
use null_autosplit::watchers::{AttachError, Diagnostic, Field, Sampled, Watchers};

const BASE: u64 = 0x0040_0000;

fn seconds(d: ElapsedDuration) -> f64 {
    f64::from(d.sixtieths) / 60.0
}

#[test]
fn duration_of_one_minute_two_seconds_and_half() {
    let d = time_components_to_duration(0, 1, 2, 30);
    assert_eq!(d.sixtieths, 3750);
    assert_eq!(seconds(d), 62.5);
    assert_eq!(d.whole_seconds(), 62);
    assert_eq!(d.subsec_frames(), 30);
}

#[test]
fn duration_of_one_hour() {
    let d = time_components_to_duration(1, 0, 0, 0);
    assert_eq!(d.sixtieths, 216_000);
    assert_eq!(seconds(d), 3600.0);
}

#[test]
fn duration_of_fifty_nine_frames() {
    let d = time_components_to_duration(0, 0, 0, 59);
    assert_eq!(d.sixtieths, 59);
    assert!((seconds(d) - 0.9833).abs() < 0.0001);
    assert_eq!(d.whole_seconds(), 0);
    assert_eq!(d.subsec_frames(), 59);
}

#[test]
fn duration_of_largest_components() {
    let d = time_components_to_duration(255, 255, 255, 255);
    assert_eq!(d.sixtieths, 255 * 216_000 + 255 * 3600 + 255 * 60 + 255);
    assert_eq!(d.whole_seconds(), 255 * 3600 + 255 * 60 + 255 + 4);
    assert_eq!(d.subsec_frames(), 15);
}

#[test]
fn pair_changed_to_needs_a_different_old_value() {
    assert!(Pair { old: 1u8, current: 0u8 }.changed_to(&0));
    assert!(Pair { old: 7u8, current: 0u8 }.changed_to(&0));
    assert!(!Pair { old: 0u8, current: 0u8 }.changed_to(&0));
    assert!(!Pair { old: 1u8, current: 2u8 }.changed_to(&0));
    assert!(!Pair { old: 0u8, current: 1u8 }.changed_to(&0));
}

#[test]
fn pair_increased_is_strict_and_unsigned() {
    assert!(Pair { old: 3u8, current: 4u8 }.increased());
    assert!(Pair { old: 0u8, current: 255u8 }.increased());
    assert!(!Pair { old: 4u8, current: 4u8 }.increased());
    assert!(!Pair { old: 255u8, current: 0u8 }.increased());
}

#[test]
fn watcher_starts_without_a_value() {
    let w: Watcher<u8> = Watcher::new(0x1234);
    assert_eq!(w.address, 0x1234);
    assert_eq!(w.pair, None);
}

#[test]
fn watcher_shifts_current_into_old() {
    let mut w: Watcher<u8> = Watcher::new(0x1234);
    assert_eq!(w.update(Some(5)), Some(Pair { old: 5, current: 5 }));
    assert_eq!(w.update(Some(7)), Some(Pair { old: 5, current: 7 }));
    assert_eq!(w.update(Some(7)), Some(Pair { old: 7, current: 7 }));
    assert_eq!(w.pair, Some(Pair { old: 7, current: 7 }));
    assert_eq!(w.address, 0x1234);
}

#[test]
fn watcher_records_no_change_after_failed_read() {
    let mut w: Watcher<u8> = Watcher::new(0x1234);
    assert_eq!(w.update(Some(1)), Some(Pair { old: 1, current: 1 }));
    assert_eq!(w.update(None), None);
    assert_eq!(w.pair, None);
    let p = w.update(Some(0)).unwrap();
    assert_eq!(p, Pair { old: 0, current: 0 });
    assert!(!p.changed_to(&0));
    assert!(!p.increased());
}

#[test]
fn fields_lie_one_byte_apart_in_reading_order() {
    let mut field = Field::first();
    let mut seen = vec![field];
    while let Some(next) = field.next() {
        seen.push(next);
        field = next;
    }
    assert_eq!(
        seen,
        vec![
            Field::IsMainMenu,
            Field::IsFinished,
            Field::RoomNumber,
            Field::Hours,
            Field::Minutes,
            Field::Seconds,
            Field::SubSecondFrame,
        ]
    );
    let offsets: Vec<u64> = seen.iter().map(|f| f.offset()).collect();
    assert_eq!(
        offsets,
        vec![0x43C924, 0x43C925, 0x43C926, 0x43C927, 0x43C928, 0x43C929, 0x43C92A]
    );
}

#[test]
fn fields_have_their_variable_names() {
    assert_eq!(Field::IsMainMenu.variable_name(), "is_main_menu");
    assert_eq!(Field::IsFinished.variable_name(), "is_finished");
    assert_eq!(Field::RoomNumber.variable_name(), "room_number");
    assert_eq!(Field::Hours.variable_name(), "hours");
    assert_eq!(Field::Minutes.variable_name(), "minutes");
    assert_eq!(Field::Seconds.variable_name(), "seconds");
    assert_eq!(Field::SubSecondFrame.variable_name(), "sub_second_frames");
}

#[test]
fn watchers_need_a_resolved_module() {
    assert_eq!(Watchers::new(None), Err(AttachError::ModuleNotFound));
}

#[test]
fn watchers_need_room_for_every_address() {
    assert_eq!(Watchers::new(Some(u64::MAX)), Err(AttachError::AddressOutOfRange));
    assert_eq!(
        Watchers::new(Some(u64::MAX - 0x43C92A + 1)),
        Err(AttachError::AddressOutOfRange)
    );
    let top = Watchers::new(Some(u64::MAX - 0x43C92A)).unwrap();
    assert_eq!(top.address(Field::SubSecondFrame), u64::MAX);
}

#[test]
fn watchers_are_bound_to_the_fixed_offsets() {
    let w = Watchers::new(Some(BASE)).unwrap();
    assert_eq!(w.address(Field::IsMainMenu), BASE + 0x43C924);
    assert_eq!(w.address(Field::IsFinished), BASE + 0x43C925);
    assert_eq!(w.address(Field::RoomNumber), BASE + 0x43C926);
    assert_eq!(w.address(Field::Hours), BASE + 0x43C927);
    assert_eq!(w.address(Field::Minutes), BASE + 0x43C928);
    assert_eq!(w.address(Field::Seconds), BASE + 0x43C929);
    assert_eq!(w.address(Field::SubSecondFrame), BASE + 0x43C92A);
    assert_eq!(w.is_main_menu.pair, None);
    assert_eq!(w.sub_second_frame.pair, None);
    assert_eq!(w.assemble(), None);
}

fn memory(bytes: [u8; 7]) -> impl Fn(u64) -> Option<u8> {
    move |address: u64| {
        let first = BASE + 0x43C924;
        if address >= first && address < first + 7 {
            Some(bytes[(address - first) as usize])
        } else {
            None
        }
    }
}

#[test]
fn update_yields_snapshot_when_all_reads_succeed() {
    let mut w = Watchers::new(Some(BASE)).unwrap();
    let first = w.update(memory([1, 0, 3, 0, 1, 2, 0]));
    let state = first.state.unwrap();
    assert_eq!(state.is_main_menu, Pair { old: 1, current: 1 });
    assert_eq!(state.room_number, Pair { old: 3, current: 3 });
    assert_eq!(state.timer.old, ElapsedDuration { sixtieths: 3720 });
    assert_eq!(state.timer.current, ElapsedDuration { sixtieths: 3720 });

    let second = w.update(memory([0, 1, 4, 1, 0, 0, 30]));
    let state = second.state.unwrap();
    assert_eq!(state.is_main_menu, Pair { old: 1, current: 0 });
    assert_eq!(state.is_finished, Pair { old: 0, current: 1 });
    assert_eq!(state.room_number, Pair { old: 3, current: 4 });
    assert_eq!(state.timer.old, ElapsedDuration { sixtieths: 3720 });
    assert_eq!(state.timer.current, ElapsedDuration { sixtieths: 216_030 });
    assert_eq!(
        second.variables,
        vec![
            Diagnostic { field: Field::IsMainMenu, value: 0 },
            Diagnostic { field: Field::IsFinished, value: 1 },
            Diagnostic { field: Field::RoomNumber, value: 4 },
            Diagnostic { field: Field::Hours, value: 1 },
            Diagnostic { field: Field::Minutes, value: 0 },
            Diagnostic { field: Field::Seconds, value: 0 },
            Diagnostic { field: Field::SubSecondFrame, value: 30 },
        ]
    );
}

#[test]
fn update_stops_at_the_first_failed_read() {
    let mut w = Watchers::new(Some(BASE)).unwrap();
    assert!(w.update(memory([1, 0, 3, 0, 0, 0, 0])).state.is_some());

    let polled = Cell::new(0u32);
    let hours = BASE + 0x43C927;
    let out = w.update(|address: u64| {
        polled.set(polled.get() + 1);
        if address == hours {
            None
        } else {
            memory([0, 0, 4, 0, 0, 9, 9])(address)
        }
    });
    assert_eq!(out.state, None);
    assert_eq!(polled.get(), 4);
    assert_eq!(
        out.variables,
        vec![
            Diagnostic { field: Field::IsMainMenu, value: 0 },
            Diagnostic { field: Field::IsFinished, value: 0 },
            Diagnostic { field: Field::RoomNumber, value: 4 },
        ]
    );
    // the watchers read before the failure moved on, the failed one forgot
    // its pair, and those after it were not touched
    assert_eq!(w.is_main_menu.pair, Some(Pair { old: 1, current: 0 }));
    assert_eq!(w.room_number.pair, Some(Pair { old: 3, current: 4 }));
    assert_eq!(w.hours.pair, None);
    assert_eq!(w.seconds.pair, Some(Pair { old: 0, current: 0 }));
    assert_eq!(w.sub_second_frame.pair, Some(Pair { old: 0, current: 0 }));
}

#[test]
fn update_fails_at_every_position() {
    for failing in 0..7u64 {
        let mut w = Watchers::new(Some(BASE)).unwrap();
        let polled = Cell::new(0u64);
        let out = w.update(|address: u64| {
            polled.set(polled.get() + 1);
            if address == BASE + 0x43C924 + failing {
                None
            } else {
                Some(2)
            }
        });
        assert_eq!(out.state, None);
        assert_eq!(polled.get(), failing + 1);
        assert_eq!(out.variables.len() as u64, failing);
    }
}

#[test]
fn sample_walks_the_fields_and_completes_on_the_last() {
    let mut w = Watchers::new(Some(BASE)).unwrap();
    let values: [u8; 7] = [1, 0, 2, 0, 1, 2, 30];
    let mut field = Field::first();
    for (i, v) in values.iter().enumerate() {
        match w.sample(field, Some(*v)) {
            Sampled::More { variable, next } => {
                assert!(i < 6);
                assert_eq!(variable, Diagnostic { field, value: *v });
                assert_eq!(Some(next), field.next());
                field = next;
            }
            Sampled::Complete { variable, state } => {
                assert_eq!(i, 6);
                assert_eq!(variable, Diagnostic { field: Field::SubSecondFrame, value: 30 });
                assert_eq!(state.timer.current, ElapsedDuration { sixtieths: 3750 });
                assert_eq!(Some(state), w.assemble());
            }
            Sampled::Failed => panic!("a successful read in order cannot fail"),
        }
    }
}

#[test]
fn sample_fails_on_a_failed_read_and_without_all_pairs() {
    let mut w = Watchers::new(Some(BASE)).unwrap();
    assert_eq!(w.sample(Field::IsMainMenu, None), Sampled::Failed);
    assert_eq!(w.is_main_menu.pair, None);
    // the last field read alone cannot complete a snapshot
    assert_eq!(w.sample(Field::SubSecondFrame, Some(3)), Sampled::Failed);
    assert_eq!(w.sub_second_frame.pair, Some(Pair { old: 3, current: 3 }));
}

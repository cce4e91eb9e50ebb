use tildagon::hexpansion_slots::{
    HexpansionSlot, HexpansionSlotControl, HexpansionSlotEvent, HexpansionState,
};
use tildagon::pins::aw9523b::{Register, RegisterUpdate};
use tildagon::pins::{InputRegisters, PinControl};
use tildagon::time::Instant;

const SLOTS: [HexpansionSlot; 6] = [
    HexpansionSlot::A,
    HexpansionSlot::B,
    HexpansionSlot::C,
    HexpansionSlot::D,
    HexpansionSlot::E,
    HexpansionSlot::F,
];

fn control() -> HexpansionSlotControl {
    let pins = PinControl::new().pins();
    HexpansionSlotControl::try_new::<()>(pins.hexpansion_detect, Ok(())).unwrap()
}

/// A snapshot in which exactly the slots in `occupied` pull their detect
/// lines low.
fn snapshot(occupied: &[HexpansionSlot]) -> InputRegisters {
    let mut replies = [[0xFF_u8, 0xFF_u8]; 3];
    for slot in occupied {
        match slot {
            HexpansionSlot::A => replies[2][1] &= !(1 << 4),
            HexpansionSlot::B => replies[2][1] &= !(1 << 5),
            HexpansionSlot::C => replies[1][1] &= !(1 << 0),
            HexpansionSlot::D => replies[1][1] &= !(1 << 1),
            HexpansionSlot::E => replies[1][1] &= !(1 << 2),
            HexpansionSlot::F => replies[1][1] &= !(1 << 3),
        }
    }
    InputRegisters::read(replies)
}

fn at(ticks: u64) -> Instant {
    Instant::from_ticks(ticks)
}

fn enable(control: &mut HexpansionSlotControl, slot: HexpansionSlot, enabled: bool) {
    control.set_enabled::<()>(slot, enabled, Ok(())).unwrap();
}

#[test]
fn new_control_reports_every_slot_disabled_once() {
    let mut control = control();
    let events = control.update_at(&snapshot(&[HexpansionSlot::B]), at(4));
    assert_eq!(events.len(), 6);
    for (event, slot) in events.iter().zip(SLOTS) {
        assert_eq!(
            *event,
            HexpansionSlotEvent { slot, time: at(4), state: HexpansionState::Disabled }
        );
    }
    assert_eq!(control.update_at(&snapshot(&[HexpansionSlot::B]), at(5)).len(), 0);
    assert_eq!(control.update_at(&snapshot(&[]), at(6)).len(), 0);
}

#[test]
fn disabling_c_is_reported_once() {
    let mut control = control();
    control.update_at(&snapshot(&[]), at(1));
    enable(&mut control, HexpansionSlot::C, true);
    let seen = control.update_at(&snapshot(&[]), at(2));
    assert_eq!(seen.len(), 1);
    assert_eq!(*seen[0].state(), HexpansionState::Empty);

    enable(&mut control, HexpansionSlot::C, false);
    let next = control.update_at(&snapshot(&[]), at(3));
    assert_eq!(next.len(), 1);
    assert_eq!(*next[0].slot(), HexpansionSlot::C);
    assert_eq!(*next[0].state(), HexpansionState::Disabled);
    assert_eq!(*next[0].time(), at(3));

    for tick in 4..12 {
        assert_eq!(control.update_at(&snapshot(&[]), at(tick)).len(), 0);
    }
}

#[test]
fn disabling_twice_is_reported_twice() {
    let mut control = control();
    control.update_at(&snapshot(&[]), at(1));
    enable(&mut control, HexpansionSlot::E, false);
    let again = control.update_at(&snapshot(&[]), at(2));
    assert_eq!(again.len(), 1);
    assert_eq!(
        again[0],
        HexpansionSlotEvent { slot: HexpansionSlot::E, time: at(2), state: HexpansionState::Disabled }
    );
}

#[test]
fn enabled_slot_reports_the_live_level() {
    let mut control = control();
    control.update_at(&snapshot(&[]), at(1));

    enable(&mut control, HexpansionSlot::A, true);
    enable(&mut control, HexpansionSlot::D, true);
    let events = control.update_at(&snapshot(&[HexpansionSlot::D]), at(2));
    assert_eq!(events.len(), 2);
    assert_eq!(
        events[0],
        HexpansionSlotEvent { slot: HexpansionSlot::A, time: at(2), state: HexpansionState::Empty }
    );
    assert_eq!(
        events[1],
        HexpansionSlotEvent { slot: HexpansionSlot::D, time: at(2), state: HexpansionState::Occupied }
    );

    assert_eq!(control.update_at(&snapshot(&[HexpansionSlot::D]), at(3)).len(), 0);

    let swapped = control.update_at(&snapshot(&[HexpansionSlot::A]), at(4));
    assert_eq!(swapped.len(), 2);
    assert_eq!(*swapped[0].state(), HexpansionState::Occupied);
    assert_eq!(*swapped[1].state(), HexpansionState::Empty);
}

#[test]
fn enabling_again_reports_the_level_even_if_it_is_the_same() {
    let mut control = control();
    control.update_at(&snapshot(&[]), at(1));
    enable(&mut control, HexpansionSlot::F, true);
    assert_eq!(control.update_at(&snapshot(&[HexpansionSlot::F]), at(2)).len(), 1);
    enable(&mut control, HexpansionSlot::F, true);
    let events = control.update_at(&snapshot(&[HexpansionSlot::F]), at(3));
    assert_eq!(events.len(), 1);
    assert_eq!(
        events[0],
        HexpansionSlotEvent { slot: HexpansionSlot::F, time: at(3), state: HexpansionState::Occupied }
    );
}

#[test]
fn set_enabled_makes_no_event_by_itself_and_keeps_other_slots() {
    let mut control = control();
    control.update_at(&snapshot(&[]), at(1));
    enable(&mut control, HexpansionSlot::B, true);
    let events = control.update_at(&snapshot(&[HexpansionSlot::A, HexpansionSlot::C]), at(2));
    assert_eq!(events.len(), 1);
    assert_eq!(*events[0].slot(), HexpansionSlot::B);
    assert_eq!(*events[0].state(), HexpansionState::Empty);
}

#[test]
fn failed_enable_changes_nothing() {
    let mut control = control();
    control.update_at(&snapshot(&[]), at(1));
    let failed = control.set_enabled(HexpansionSlot::A, true, Err(7_u32));
    assert_eq!(failed, Err(7));
    assert_eq!(control.update_at(&snapshot(&[]), at(2)).len(), 0);

    enable(&mut control, HexpansionSlot::A, true);
    control.update_at(&snapshot(&[]), at(3));
    let failed = control.set_enabled(HexpansionSlot::A, false, Err(9_u32));
    assert_eq!(failed, Err(9));
    assert_eq!(control.update_at(&snapshot(&[]), at(4)).len(), 0);
}

#[test]
fn failed_setup_makes_no_control() {
    let pins = PinControl::new().pins();
    let failed = HexpansionSlotControl::try_new(pins.hexpansion_detect, Err("bus fault"));
    assert_eq!(failed.unwrap_err(), "bus fault");
}

#[test]
fn setup_disconnects_every_detect_line() {
    let pins = PinControl::new().pins();
    let updates = HexpansionSlotControl::setup(&pins.hexpansion_detect);
    let lines: [(u8, u8); 6] = [(0x5A, 4), (0x5A, 5), (0x59, 0), (0x59, 1), (0x59, 2), (0x59, 3)];
    assert_eq!(updates.len(), 18);
    for (i, (address, pin)) in lines.iter().enumerate() {
        assert_eq!(
            updates[3 * i],
            RegisterUpdate { address: *address, register: Register::LEDMS_P1, bit: 1 << pin, set: true }
        );
        assert_eq!(
            updates[3 * i + 1],
            RegisterUpdate { address: *address, register: Register::CONFIG_P1, bit: 1 << pin, set: false }
        );
        assert_eq!(
            updates[3 * i + 2],
            RegisterUpdate { address: *address, register: Register::OUTPUT_P1, bit: 1 << pin, set: true }
        );
    }
}

#[test]
fn enabling_makes_the_detect_line_an_input() {
    let control = control();
    assert_eq!(
        control.enable_updates(HexpansionSlot::C, true),
        vec![RegisterUpdate { address: 0x59, register: Register::CONFIG_P1, bit: 0b0000_0001, set: true }]
    );
    assert_eq!(
        control.enable_updates(HexpansionSlot::B, true),
        vec![RegisterUpdate { address: 0x5A, register: Register::CONFIG_P1, bit: 0b0010_0000, set: true }]
    );
}

#[test]
fn disabling_drives_the_detect_line_high() {
    let control = control();
    assert_eq!(
        control.enable_updates(HexpansionSlot::F, false),
        vec![
            RegisterUpdate { address: 0x59, register: Register::CONFIG_P1, bit: 0b0000_1000, set: false },
            RegisterUpdate { address: 0x59, register: Register::OUTPUT_P1, bit: 0b0000_1000, set: true },
        ]
    );
}

#[test]
fn update_stamps_events_with_the_clock_of_the_slots() {
    let mut control = control();
    let first = control.update(&snapshot(&[]));
    assert_eq!(first.len(), 6);
    enable(&mut control, HexpansionSlot::A, true);
    let second = control.update(&snapshot(&[]));
    assert_eq!(second.len(), 1);
    assert_eq!(*second[0].state(), HexpansionState::Empty);
    assert!(*second[0].time() >= *first[0].time());
}

#[test]
fn slot_index_round_trips() {
    for (index, slot) in SLOTS.iter().enumerate() {
        assert_eq!(HexpansionSlot::from_index(index), *slot);
        assert_eq!(slot.index(), index);
    }
}

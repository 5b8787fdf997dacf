use alarm_clock::clock::{reset_commands, ClockCommand, RegisterUpdate};
use alarm_clock::device::{
    AlarmFrequency, Device, DeviceState, DisplayRequest, MenuState, PiezoAction, TickOutput,
    UpdateTimeState,
    TICK_PERIOD,
};
use alarm_clock::display::DisplayChar;

const MAIN: u8 = 0;
const UP: u8 = 1;
const DOWN: u8 = 2;

/// Scans without touches until the given button is the next to be sensed.
fn scan_to(d: &mut Device, button: u8) {
    while !(d.scan_is_charging() && d.button_scanner().cap_button() == button) {
        d.button_scan(|_| false);
    }
}

/// Touches a button for one scan, so that its counter marks a new press.
fn touch(d: &mut Device, button: u8) {
    scan_to(d, button);
    d.button_scan(|b| b == button);
}

/// Scans without touches until every counter has decayed to zero.
fn release_all(d: &mut Device) {
    loop {
        let s = d.button_scanner();
        if s.get_main() == 0 && s.get_up() == 0 && s.get_down() == 0 {
            break;
        }
        d.button_scan(|_| false);
    }
}

/// Runs one step of the state machine as the board does when every clock
/// command succeeds.
fn step(d: &mut Device, alarm_pin_low: bool) -> TickOutput {
    let out = d.tick(alarm_pin_low);
    if out.confirm {
        d.commands_done();
    }
    out
}

/// Touches a button, runs one step of the state machine, and releases.
fn press(d: &mut Device, button: u8) -> Vec<ClockCommand> {
    touch(d, button);
    let out = step(d, false);
    release_all(d);
    out.commands
}

fn new_device() -> Device {
    Device::init().0
}

#[test]
fn init_starts_running_and_resets_clock() {
    let (d, commands) = Device::init();
    assert_eq!(d.state(), DeviceState::Running);
    assert_eq!(d.time(), (0, 0));
    assert_eq!(d.alarm_time(), (0, 0));
    assert_eq!(d.frequency(), AlarmFrequency::Off);
    assert_eq!(d.tick_counter(), 0);
    assert_eq!(commands, reset_commands());
}

#[test]
fn menu_opens_and_cycles() {
    let mut d = new_device();
    assert!(press(&mut d, MAIN).is_empty());
    assert_eq!(d.state(), DeviceState::Menu(MenuState::UpdateAlarmTime));
    press(&mut d, UP);
    assert_eq!(d.state(), DeviceState::Menu(MenuState::ExitMenu));
    press(&mut d, UP);
    assert_eq!(d.state(), DeviceState::Menu(MenuState::UpdateTime));
    press(&mut d, UP);
    assert_eq!(d.state(), DeviceState::Menu(MenuState::UpdateAlarmFrequency));
    press(&mut d, UP);
    assert_eq!(d.state(), DeviceState::Menu(MenuState::UpdateAlarmTime));
    press(&mut d, DOWN);
    assert_eq!(d.state(), DeviceState::Menu(MenuState::UpdateAlarmFrequency));
    press(&mut d, UP);
    assert_eq!(d.state(), DeviceState::Menu(MenuState::UpdateAlarmTime));
    press(&mut d, DOWN);
    press(&mut d, DOWN);
    press(&mut d, DOWN);
    assert_eq!(d.state(), DeviceState::Menu(MenuState::ExitMenu));
    press(&mut d, MAIN);
    assert_eq!(d.state(), DeviceState::Running);
}

#[test]
fn no_press_keeps_menu_entry() {
    let mut d = new_device();
    press(&mut d, MAIN);
    let out = d.tick(false);
    assert!(out.commands.is_empty());
    assert_eq!(out.piezo, PiezoAction::Keep);
    assert_eq!(d.state(), DeviceState::Menu(MenuState::UpdateAlarmTime));
}

#[test]
fn editing_the_time_writes_it_to_the_clock() {
    let mut d = new_device();
    press(&mut d, MAIN);
    press(&mut d, DOWN);
    press(&mut d, DOWN);
    assert_eq!(d.state(), DeviceState::Menu(MenuState::UpdateTime));
    // Selecting with the main button: the edit waits for the release.
    touch(&mut d, MAIN);
    d.tick(false);
    assert_eq!(d.state(), DeviceState::UpdateTime(UpdateTimeState::Begin));
    d.tick(false);
    assert_eq!(d.state(), DeviceState::UpdateTime(UpdateTimeState::Begin));
    release_all(&mut d);
    d.tick(false);
    assert_eq!(d.state(), DeviceState::UpdateTime(UpdateTimeState::UpdatingHour));
    press(&mut d, UP);
    press(&mut d, UP);
    press(&mut d, UP);
    press(&mut d, DOWN);
    assert_eq!(d.time(), (2, 0));
    press(&mut d, MAIN);
    assert_eq!(d.state(), DeviceState::UpdateTime(UpdateTimeState::UpdatingMinute));
    press(&mut d, DOWN);
    assert_eq!(d.time(), (2, 59));
    press(&mut d, MAIN);
    assert_eq!(d.state(), DeviceState::UpdateTime(UpdateTimeState::Complete));
    let out = d.tick(false);
    assert_eq!(
        out.commands,
        vec![ClockCommand::SetTime { hours: 2, minutes: 59, seconds: 0, day: 0, date: 1, month: 1, year: 26 }]
    );
    assert!(out.confirm);
    // Until the write is reported done the edit stays complete.
    assert_eq!(d.state(), DeviceState::UpdateTime(UpdateTimeState::Complete));
    assert_eq!(d.time(), (2, 59));
    d.commands_done();
    assert_eq!(d.state(), DeviceState::Running);
}

#[test]
fn hour_edit_wraps_both_ways() {
    let mut d = new_device();
    press(&mut d, MAIN);
    press(&mut d, DOWN);
    press(&mut d, DOWN);
    press(&mut d, MAIN);
    d.tick(false);
    assert_eq!(d.state(), DeviceState::UpdateTime(UpdateTimeState::UpdatingHour));
    press(&mut d, DOWN);
    assert_eq!(d.time(), (23, 0));
    press(&mut d, UP);
    assert_eq!(d.time(), (0, 0));
}

fn start_alarm_edit(d: &mut Device) {
    press(d, MAIN);
    assert_eq!(d.state(), DeviceState::Menu(MenuState::UpdateAlarmTime));
    press(d, MAIN);
    assert_eq!(d.state(), DeviceState::UpdateAlarm(UpdateTimeState::Begin));
    d.tick(false);
    assert_eq!(d.state(), DeviceState::UpdateAlarm(UpdateTimeState::UpdatingHour));
}

#[test]
fn editing_the_alarm_turns_it_on_and_programs_it() {
    let mut d = new_device();
    start_alarm_edit(&mut d);
    assert_eq!(d.frequency(), AlarmFrequency::On);
    press(&mut d, UP);
    press(&mut d, UP);
    press(&mut d, MAIN);
    press(&mut d, DOWN);
    press(&mut d, MAIN);
    assert_eq!(d.alarm_time(), (2, 59));
    assert_eq!(d.state(), DeviceState::UpdateAlarm(UpdateTimeState::Complete));
    let out = d.tick(false);
    assert_eq!(
        out.commands,
        vec![
            ClockCommand::Update(RegisterUpdate::EnableAlarm),
            ClockCommand::DelayMs(1),
            ClockCommand::SetAlarm { hours: 2, minutes: 59 },
            ClockCommand::DelayMs(1),
            ClockCommand::Update(RegisterUpdate::ClearAlarmFlag),
        ]
    );
    assert!(out.confirm);
    assert_eq!(d.state(), DeviceState::UpdateAlarm(UpdateTimeState::Complete));
    d.commands_done();
    assert_eq!(d.state(), DeviceState::Running);
    assert_eq!(d.alarm_time(), (2, 59));
}

#[test]
fn failed_store_keeps_the_edit_complete() {
    let mut d = new_device();
    start_alarm_edit(&mut d);
    press(&mut d, MAIN);
    press(&mut d, MAIN);
    assert_eq!(d.state(), DeviceState::UpdateAlarm(UpdateTimeState::Complete));
    // The board does not confirm: the next step asks for the same commands.
    let first = d.tick(false);
    let second = d.tick(false);
    assert_eq!(first.commands, second.commands);
    assert!(second.confirm);
    assert_eq!(d.state(), DeviceState::UpdateAlarm(UpdateTimeState::Complete));
}

#[test]
fn commands_done_leaves_other_states_alone() {
    let mut d = new_device();
    d.commands_done();
    assert_eq!(d.state(), DeviceState::Running);
    press(&mut d, MAIN);
    d.commands_done();
    assert_eq!(d.state(), DeviceState::Menu(MenuState::UpdateAlarmTime));
    assert!(!d.tick(false).confirm);
}

#[test]
fn frequency_cycles_and_off_alarm_is_disabled() {
    let mut d = new_device();
    start_alarm_edit(&mut d);
    press(&mut d, MAIN);
    press(&mut d, MAIN);
    // Back in the menu, move to the frequency entry.
    press(&mut d, MAIN);
    assert_eq!(d.state(), DeviceState::Running);
    press(&mut d, MAIN);
    press(&mut d, DOWN);
    assert_eq!(d.state(), DeviceState::Menu(MenuState::UpdateAlarmFrequency));
    press(&mut d, MAIN);
    assert_eq!(d.state(), DeviceState::UpdateAlarmFrequency);
    assert_eq!(d.frequency(), AlarmFrequency::On);
    press(&mut d, UP);
    assert_eq!(d.frequency(), AlarmFrequency::Off);
    press(&mut d, DOWN);
    assert_eq!(d.frequency(), AlarmFrequency::Once);
    press(&mut d, UP);
    assert_eq!(d.frequency(), AlarmFrequency::On);
    press(&mut d, UP);
    assert_eq!(d.frequency(), AlarmFrequency::Off);
    press(&mut d, MAIN);
    assert_eq!(d.state(), DeviceState::Running);
}

#[test]
fn alarm_edit_always_programs_an_enabled_alarm() {
    let mut d = new_device();
    start_alarm_edit(&mut d);
    press(&mut d, MAIN);
    touch(&mut d, MAIN);
    d.tick(false);
    assert_eq!(d.state(), DeviceState::UpdateAlarm(UpdateTimeState::Complete));
    let out = step(&mut d, false);
    // The frequency was set to on when the edit started.
    assert_eq!(out.commands[0], ClockCommand::Update(RegisterUpdate::EnableAlarm));
    assert_eq!(d.state(), DeviceState::Running);
}

#[test]
fn alarm_line_sounds_alarm_and_main_dismisses() {
    let mut d = new_device();
    touch(&mut d, MAIN);
    let out = d.tick(true);
    assert_eq!(d.state(), DeviceState::Alarm);
    assert!(out.commands.is_empty());
    release_all(&mut d);
    touch(&mut d, UP);
    let out = d.tick(false);
    assert_eq!(d.state(), DeviceState::Alarm);
    assert!(out.commands.is_empty());
    release_all(&mut d);
    touch(&mut d, MAIN);
    let out = d.tick(false);
    assert_eq!(d.state(), DeviceState::Running);
    assert_eq!(out.piezo, PiezoAction::SetLow);
    assert_eq!(out.commands, vec![ClockCommand::Update(RegisterUpdate::ClearAlarmFlag)]);
}

#[test]
fn once_alarm_is_disabled_when_dismissed() {
    let mut d = new_device();
    start_alarm_edit(&mut d);
    press(&mut d, MAIN);
    press(&mut d, MAIN);
    step(&mut d, false);
    press(&mut d, MAIN);
    press(&mut d, DOWN);
    press(&mut d, MAIN);
    press(&mut d, UP);
    press(&mut d, UP);
    assert_eq!(d.frequency(), AlarmFrequency::Once);
    press(&mut d, MAIN);
    d.tick(true);
    assert_eq!(d.state(), DeviceState::Alarm);
    touch(&mut d, MAIN);
    let out = d.tick(false);
    assert_eq!(
        out.commands,
        vec![
            ClockCommand::Update(RegisterUpdate::DisableAlarm),
            ClockCommand::Update(RegisterUpdate::ClearAlarmFlag),
        ]
    );
}

#[test]
fn sounding_alarm_toggles_buzzer_in_second_half_period() {
    let mut d = new_device();
    d.tick(true);
    for _ in 0..4128 {
        d.bump_tick_counter();
    }
    assert_eq!(d.tick(false).piezo, PiezoAction::Toggle);
    d.bump_tick_counter();
    assert_eq!(d.tick(false).piezo, PiezoAction::Keep);
    let mut d = new_device();
    d.tick(true);
    for _ in 0..4096 {
        d.bump_tick_counter();
    }
    assert_eq!(d.tick(false).piezo, PiezoAction::Keep);
}

#[test]
fn display_shows_time_and_blinks_elsewhere() {
    let mut d = new_device();
    d.apply_time_registers(&[0x00, 0x47, 0x13, 0x01, 0x01, 0x01, 0x26]);
    assert_eq!(d.display_tick(), DisplayRequest::Number(1, 3, 4, 7));
    press(&mut d, MAIN);
    press(&mut d, UP);
    assert_eq!(d.state(), DeviceState::Menu(MenuState::ExitMenu));
    assert_eq!(
        d.display_tick(),
        DisplayRequest::Chars(DisplayChar::Dash, DisplayChar::Dash, DisplayChar::Dash, DisplayChar::Dash)
    );
    for _ in 0..2048 {
        d.bump_tick_counter();
    }
    assert_eq!(d.display_tick(), DisplayRequest::Nothing);
}

#[test]
fn frequency_screen_shows_dashes() {
    let mut d = new_device();
    press(&mut d, MAIN);
    press(&mut d, DOWN);
    assert_eq!(d.state(), DeviceState::Menu(MenuState::UpdateAlarmFrequency));
    assert_eq!(
        d.display_tick(),
        DisplayRequest::Chars(DisplayChar::Dash, DisplayChar::Dash, DisplayChar::Blank, DisplayChar::Blank)
    );
}

#[test]
fn clock_is_read_every_4096_ticks_except_while_editing_time() {
    let mut d = new_device();
    assert!(d.read_time_due());
    d.bump_tick_counter();
    assert!(!d.read_time_due());
    for _ in 1..4096 {
        d.bump_tick_counter();
    }
    assert!(d.read_time_due());
    press(&mut d, MAIN);
    press(&mut d, DOWN);
    press(&mut d, DOWN);
    press(&mut d, MAIN);
    assert!(matches!(d.state(), DeviceState::UpdateTime(_)));
    while d.tick_counter() % 4096 != 0 {
        d.bump_tick_counter();
    }
    assert!(!d.read_time_due());
}

#[test]
fn reading_takes_hours_and_minutes() {
    let mut d = new_device();
    d.apply_time_registers(&[0x59, 0x30, 0x21, 0x02, 0x15, 0x08, 0x26]);
    assert_eq!(d.time(), (21, 30));
    assert_eq!(d.alarm_time(), (0, 0));
}

#[test]
fn tick_counter_wraps() {
    let mut d = new_device();
    for _ in 0..TICK_PERIOD {
        d.bump_tick_counter();
    }
    assert_eq!(d.tick_counter(), 0);
    assert_eq!(TICK_PERIOD, 1 << 20);
}

#[test]
fn touch_feedback_toggles() {
    let mut d = new_device();
    assert_eq!(d.play_button_press_noises(), 0);
    touch(&mut d, MAIN);
    while d.tick_counter() % 32 != 0 || d.tick_counter() == 0 {
        d.bump_tick_counter();
    }
    assert_eq!(d.play_button_press_noises(), 1);
    d.bump_tick_counter();
    assert_eq!(d.play_button_press_noises(), 0);
    for _ in 0..2047 {
        d.bump_tick_counter();
    }
    assert!(d.tick_counter() % 4096 >= 2048);
    assert_eq!(d.play_button_press_noises(), 0);
}

#[test]
fn send_pin_low_after_charge_and_first_drain() {
    let mut d = new_device();
    assert!(d.scan_is_charging());
    assert!(d.button_scan(|_| false));
    assert!(d.button_scan(|_| false));
    assert!(!d.button_scan(|_| false));
}

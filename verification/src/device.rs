//! The alarm clock's state machine: which screen is shown, how the buttons
//! move between menu entries and edit the time and the alarm, what the clock
//! chip is told, and when the buzzer sounds.
//!
//! The board layer runs one loop iteration as: `bump_tick_counter`; show
//! `display_tick`; scan the buttons (when `scan_is_charging`, drive the send
//! pin high, feed pin reads to `charge_sample` while it asks for more, drive
//! the send pin low and call `finish_charge`; otherwise `drain_scan`, driving
//! the send pin low when it says so); `tick` (perform its clock commands, call
//! `commands_done` if they all succeeded and the step asked to confirm, then
//! perform its buzzer action); read the clock registers when `read_time_due`
//! and hand them to `apply_time_registers`; and toggle the buzzer
//! `play_button_press_noises` times.
use vstd::prelude::*;
use crate::button_scanner::{
    sample_next,
    ButtonScanner,
    ScannerView,
    CapPhase,
    BUTTON_MAX_VAL,
    CAP_THRESHOLD,
    scanner_wf,
    drain_step,
    charge_step,
    initial_scanner,
};
use crate::clock::{
    ClockCommand,
    RegisterUpdate,
    command_encodable,
    decode_time,
    decoded_time,
    reset_commands,
    reset_sequence,
    set_time_frame_spec,
    lemma_time_write_read_round_trip,
};
use crate::display::DisplayChar;

verus! {

/// Period of the tick counter.
pub const TICK_PERIOD: u32 = 0x10_0000;

/// Progress through editing a time (the clock time or the alarm time).
#[derive(Clone, Copy, Debug, PartialEq, Eq)]
pub enum UpdateTimeState {
    /// Waiting for every button to be released.
    Begin,
    UpdatingHour,
    UpdatingMinute,
    /// The edited time is to be written to the clock chip.
    Complete,
}

/// The entries of the settings menu.
#[derive(Clone, Copy, Debug, PartialEq, Eq)]
pub enum MenuState {
    ExitMenu,
    UpdateTime,
    UpdateAlarmTime,
    UpdateAlarmFrequency,
}

/// The screen the device is in.
#[derive(Clone, Copy, Debug, PartialEq, Eq)]
pub enum DeviceState {
    Running,
    UpdateTime(UpdateTimeState),
    UpdateAlarm(UpdateTimeState),
    UpdateAlarmFrequency,
    Alarm,
    Menu(MenuState),
}

/// Whether the alarm sounds every day, never, or once.
#[derive(Clone, Copy, Debug, PartialEq, Eq)]
pub enum AlarmFrequency {
    On,
    Off,
    Once,
}

/// What the buzzer pin is to do.
#[derive(Clone, Copy, Debug, PartialEq, Eq)]
pub enum PiezoAction {
    Keep,
    Toggle,
    SetLow,
}

/// What the seven-segment display is to show in one loop iteration.
#[derive(Clone, Copy, Debug, PartialEq, Eq)]
pub enum DisplayRequest {
    /// Nothing is shown (the blinking screens are dark half of the time).
    Nothing,
    /// Four digits, left to right.
    Number(u8, u8, u8, u8),
    /// Four symbols, left to right.
    Chars(DisplayChar, DisplayChar, DisplayChar, DisplayChar),
}

/// What one step of the state machine asks of the hardware: clock commands,
/// to be performed in order, then a buzzer action. When `confirm` is set the
/// commands store a finished edit, and `Device::commands_done` is to be
/// called once all of them have succeeded; until then the edit stays complete
/// but unstored.
pub struct TickOutput {
    pub commands: Vec<ClockCommand>,
    pub piezo: PiezoAction,
    pub confirm: bool,
}

/// The state of the device, as contracts speak of it.
#[derive(Clone, Copy, Debug, PartialEq, Eq)]
pub struct DeviceView {
    pub state: DeviceState,
    pub tick_counter: u32,
    pub hours: u8,
    pub minutes: u8,
    pub alarm_hours: u8,
    pub alarm_minutes: u8,
    pub frequency: AlarmFrequency,
    pub buttons: ScannerView,
}

/// The device logic without the hardware.
pub struct Device {
    state: DeviceState,
    tick_counter: u32,
    minutes: u8,
    hours: u8,
    alarm_minutes: u8,
    alarm_hours: u8,
    frequency: AlarmFrequency,
    button_scanner: ButtonScanner,
}

impl View for Device {
    type V = DeviceView;

    closed spec fn view(&self) -> DeviceView {
        DeviceView {
            state: self.state,
            tick_counter: self.tick_counter,
            hours: self.hours,
            minutes: self.minutes,
            alarm_hours: self.alarm_hours,
            alarm_minutes: self.alarm_minutes,
            frequency: self.frequency,
            buttons: self.button_scanner@,
        }
    }
}

/// The invariant of the device. The clock time may hold what the chip's
/// masked registers decode to (below 100); an edited time is always valid.
pub open spec fn device_wf(v: DeviceView) -> bool {
    &&& scanner_wf(v.buttons)
    &&& v.tick_counter < TICK_PERIOD
    &&& v.hours < 100
    &&& v.minutes < 100
    &&& v.alarm_hours < 24
    &&& v.alarm_minutes < 60
}

/// A button counter that marks a press that has just begun.
pub open spec fn pressed(counter: u32) -> bool {
    counter == BUTTON_MAX_VAL
}

/// No button is touched any more.
pub open spec fn all_released(b: ScannerView) -> bool {
    b.main == 0 && b.up == 0 && b.down == 0
}

pub open spec fn hour_up(h: u8) -> u8 {
    ((h + 1) % 24) as u8
}

pub open spec fn hour_down(h: u8) -> u8 {
    if h == 0 {
        23
    } else {
        (h - 1) as u8
    }
}

pub open spec fn minute_up(m: u8) -> u8 {
    ((m + 1) % 60) as u8
}

pub open spec fn minute_down(m: u8) -> u8 {
    if m == 0 {
        59
    } else {
        (m - 1) as u8
    }
}

/// The hour after one edit step: up adds one, down takes one away (up wins).
pub open spec fn edited_hour(h: u8, b: ScannerView) -> u8 {
    if pressed(b.up) {
        hour_up(h)
    } else if pressed(b.down) {
        hour_down(h)
    } else {
        h
    }
}

/// The minute after one edit step.
pub open spec fn edited_minute(m: u8, b: ScannerView) -> u8 {
    if pressed(b.up) {
        minute_up(m)
    } else if pressed(b.down) {
        minute_down(m)
    } else {
        m
    }
}

/// Progress through editing: wait for release, then the main button moves
/// from hours to minutes and from minutes to completion.
pub open spec fn edit_progress(s: UpdateTimeState, b: ScannerView) -> UpdateTimeState {
    match s {
        UpdateTimeState::Begin => if all_released(b) {
            UpdateTimeState::UpdatingHour
        } else {
            UpdateTimeState::Begin
        },
        UpdateTimeState::UpdatingHour => if pressed(b.main) {
            UpdateTimeState::UpdatingMinute
        } else {
            UpdateTimeState::UpdatingHour
        },
        UpdateTimeState::UpdatingMinute => if pressed(b.main) {
            UpdateTimeState::Complete
        } else {
            UpdateTimeState::UpdatingMinute
        },
        UpdateTimeState::Complete => UpdateTimeState::Complete,
    }
}

/// The menu entry below (reached with the up button).
pub open spec fn menu_up(m: MenuState) -> MenuState {
    match m {
        MenuState::ExitMenu => MenuState::UpdateTime,
        MenuState::UpdateTime => MenuState::UpdateAlarmFrequency,
        MenuState::UpdateAlarmFrequency => MenuState::UpdateAlarmTime,
        MenuState::UpdateAlarmTime => MenuState::ExitMenu,
    }
}

/// The menu entry above (reached with the down button).
pub open spec fn menu_down(m: MenuState) -> MenuState {
    match m {
        MenuState::ExitMenu => MenuState::UpdateAlarmTime,
        MenuState::UpdateAlarmTime => MenuState::UpdateAlarmFrequency,
        MenuState::UpdateAlarmFrequency => MenuState::UpdateTime,
        MenuState::UpdateTime => MenuState::ExitMenu,
    }
}

/// The screen that selecting a menu entry opens.
pub open spec fn menu_select(m: MenuState) -> DeviceState {
    match m {
        MenuState::ExitMenu => DeviceState::Running,
        MenuState::UpdateTime => DeviceState::UpdateTime(UpdateTimeState::Begin),
        MenuState::UpdateAlarmTime => DeviceState::UpdateAlarm(UpdateTimeState::Begin),
        MenuState::UpdateAlarmFrequency => DeviceState::UpdateAlarmFrequency,
    }
}

/// The screen after one step in the menu: main selects, up and down move.
pub open spec fn menu_next(m: MenuState, b: ScannerView) -> DeviceState {
    if pressed(b.main) {
        menu_select(m)
    } else if pressed(b.up) {
        DeviceState::Menu(menu_up(m))
    } else if pressed(b.down) {
        DeviceState::Menu(menu_down(m))
    } else {
        DeviceState::Menu(m)
    }
}

/// The alarm frequency after one press: on, off, once, and round again.
pub open spec fn frequency_next(f: AlarmFrequency) -> AlarmFrequency {
    match f {
        AlarmFrequency::On => AlarmFrequency::Off,
        AlarmFrequency::Off => AlarmFrequency::Once,
        AlarmFrequency::Once => AlarmFrequency::On,
    }
}

/// Running: the alarm line going low sounds the alarm; else the main button
/// opens the menu.
pub open spec fn running_next(v: DeviceView, alarm_pin_low: bool) -> DeviceView {
    if alarm_pin_low {
        DeviceView { state: DeviceState::Alarm, ..v }
    } else if pressed(v.buttons.main) {
        DeviceView { state: DeviceState::Menu(MenuState::UpdateAlarmTime), ..v }
    } else {
        v
    }
}

/// Sounding the alarm: the main button stops it.
pub open spec fn alarm_next(v: DeviceView) -> DeviceView {
    if pressed(v.buttons.main) {
        DeviceView { state: DeviceState::Running, ..v }
    } else {
        v
    }
}

/// Editing the clock time.
pub open spec fn update_time_next(v: DeviceView, s: UpdateTimeState) -> DeviceView {
    let b = v.buttons;
    match s {
        UpdateTimeState::Begin => DeviceView {
            state: DeviceState::UpdateTime(edit_progress(s, b)),
            ..v
        },
        UpdateTimeState::UpdatingHour => DeviceView {
            hours: edited_hour(v.hours, b),
            state: DeviceState::UpdateTime(edit_progress(s, b)),
            ..v
        },
        UpdateTimeState::UpdatingMinute => DeviceView {
            minutes: edited_minute(v.minutes, b),
            state: DeviceState::UpdateTime(edit_progress(s, b)),
            ..v
        },
        UpdateTimeState::Complete => v,
    }
}

/// Editing the alarm time; starting an edit turns the alarm on.
pub open spec fn update_alarm_next(v: DeviceView, s: UpdateTimeState) -> DeviceView {
    let b = v.buttons;
    match s {
        UpdateTimeState::Begin => if all_released(b) {
            DeviceView {
                state: DeviceState::UpdateAlarm(UpdateTimeState::UpdatingHour),
                frequency: AlarmFrequency::On,
                ..v
            }
        } else {
            v
        },
        UpdateTimeState::UpdatingHour => DeviceView {
            alarm_hours: edited_hour(v.alarm_hours, b),
            state: DeviceState::UpdateAlarm(edit_progress(s, b)),
            ..v
        },
        UpdateTimeState::UpdatingMinute => DeviceView {
            alarm_minutes: edited_minute(v.alarm_minutes, b),
            state: DeviceState::UpdateAlarm(edit_progress(s, b)),
            ..v
        },
        UpdateTimeState::Complete => v,
    }
}

/// Choosing the alarm frequency: up or down moves to the next one, main leaves.
pub open spec fn frequency_edit_next(v: DeviceView) -> DeviceView {
    if pressed(v.buttons.up) || pressed(v.buttons.down) {
        DeviceView { frequency: frequency_next(v.frequency), ..v }
    } else if pressed(v.buttons.main) {
        DeviceView { state: DeviceState::Running, ..v }
    } else {
        v
    }
}

/// The device after one step of the state machine.
pub open spec fn tick_next(v: DeviceView, alarm_pin_low: bool) -> DeviceView {
    match v.state {
        DeviceState::Running => running_next(v, alarm_pin_low),
        DeviceState::Alarm => alarm_next(v),
        DeviceState::UpdateTime(s) => update_time_next(v, s),
        DeviceState::UpdateAlarm(s) => update_alarm_next(v, s),
        DeviceState::Menu(m) => DeviceView { state: menu_next(m, v.buttons), ..v },
        DeviceState::UpdateAlarmFrequency => frequency_edit_next(v),
    }
}

/// The commands that store an edited alarm: disable it when off; else enable
/// it, write its time and clear a pending flag, pausing between the steps.
pub open spec fn alarm_program_commands(f: AlarmFrequency, hours: u8, minutes: u8) -> Seq<
    ClockCommand,
> {
    match f {
        AlarmFrequency::Off => seq![ClockCommand::Update(RegisterUpdate::DisableAlarm)],
        _ => seq![
            ClockCommand::Update(RegisterUpdate::EnableAlarm),
            ClockCommand::DelayMs(1),
            ClockCommand::SetAlarm { hours, minutes },
            ClockCommand::DelayMs(1),
            ClockCommand::Update(RegisterUpdate::ClearAlarmFlag),
        ],
    }
}

/// The commands that stop a sounding alarm: a one-time alarm is disabled,
/// and the alarm flag is cleared.
pub open spec fn alarm_dismiss_commands(f: AlarmFrequency) -> Seq<ClockCommand> {
    match f {
        AlarmFrequency::Once => seq![
            ClockCommand::Update(RegisterUpdate::DisableAlarm),
            ClockCommand::Update(RegisterUpdate::ClearAlarmFlag),
        ],
        _ => seq![ClockCommand::Update(RegisterUpdate::ClearAlarmFlag)],
    }
}

/// The command that writes an edited clock time: seconds zero, day 0,
/// 1 January '26.
pub open spec fn store_time_command(hours: u8, minutes: u8) -> ClockCommand {
    ClockCommand::SetTime { hours, minutes, seconds: 0, day: 0, date: 1, month: 1, year: 26 }
}

/// The device is at the end of an edit whose result is still to be written
/// to the clock chip.
pub open spec fn completing_edit(v: DeviceView) -> bool {
    v.state == DeviceState::UpdateTime(UpdateTimeState::Complete) || v.state
        == DeviceState::UpdateAlarm(UpdateTimeState::Complete)
}

/// The device once the commands of a step have all succeeded: a finished
/// edit returns to running; anything else is unchanged.
pub open spec fn after_commands(v: DeviceView) -> DeviceView {
    if completing_edit(v) {
        DeviceView { state: DeviceState::Running, ..v }
    } else {
        v
    }
}

/// The clock commands of one step of the state machine.
pub open spec fn tick_commands(v: DeviceView, alarm_pin_low: bool) -> Seq<ClockCommand> {
    match v.state {
        DeviceState::UpdateTime(UpdateTimeState::Complete) => seq![
            store_time_command(v.hours, v.minutes),
        ],
        DeviceState::UpdateAlarm(UpdateTimeState::Complete) => alarm_program_commands(
            v.frequency,
            v.alarm_hours,
            v.alarm_minutes,
        ),
        DeviceState::Alarm => if pressed(v.buttons.main) {
            alarm_dismiss_commands(v.frequency)
        } else {
            Seq::empty()
        },
        _ => Seq::empty(),
    }
}

/// The buzzer action of one step: a dismissed alarm silences it; a sounding
/// alarm toggles it every 32 ticks in the second half of each 8192-tick period.
pub open spec fn tick_piezo(v: DeviceView, alarm_pin_low: bool) -> PiezoAction {
    match v.state {
        DeviceState::Alarm => if pressed(v.buttons.main) {
            PiezoAction::SetLow
        } else if v.tick_counter % 8192 > 4096 && v.tick_counter % 32 == 0 {
            PiezoAction::Toggle
        } else {
            PiezoAction::Keep
        },
        _ => PiezoAction::Keep,
    }
}

/// The blinking screens show in the first half of each 4096-tick period.
pub open spec fn blink_visible(v: DeviceView) -> bool {
    v.tick_counter % 4096 < 2048
}

pub open spec fn time_digits(hours: u8, minutes: u8) -> DisplayRequest {
    DisplayRequest::Number(
        (hours / 10) as u8,
        (hours % 10) as u8,
        (minutes / 10) as u8,
        (minutes % 10) as u8,
    )
}

/// The symbols that stand for an alarm frequency: one, two or three dashes.
pub open spec fn frequency_chars(f: AlarmFrequency) -> DisplayRequest {
    match f {
        AlarmFrequency::On => DisplayRequest::Chars(
            DisplayChar::Dash,
            DisplayChar::Blank,
            DisplayChar::Blank,
            DisplayChar::Blank,
        ),
        AlarmFrequency::Off => DisplayRequest::Chars(
            DisplayChar::Dash,
            DisplayChar::Dash,
            DisplayChar::Blank,
            DisplayChar::Blank,
        ),
        AlarmFrequency::Once => DisplayRequest::Chars(
            DisplayChar::Dash,
            DisplayChar::Dash,
            DisplayChar::Dash,
            DisplayChar::Blank,
        ),
    }
}

/// What the display shows: the time while running; otherwise the screen's
/// content blinks.
pub open spec fn display_request(v: DeviceView) -> DisplayRequest {
    let shown = match v.state {
        DeviceState::Running => time_digits(v.hours, v.minutes),
        DeviceState::Menu(MenuState::ExitMenu) => DisplayRequest::Chars(
            DisplayChar::Dash,
            DisplayChar::Dash,
            DisplayChar::Dash,
            DisplayChar::Dash,
        ),
        DeviceState::Alarm | DeviceState::UpdateTime(_) | DeviceState::Menu(
            MenuState::UpdateTime,
        ) => time_digits(v.hours, v.minutes),
        DeviceState::UpdateAlarm(_) | DeviceState::Menu(MenuState::UpdateAlarmTime) => time_digits(
            v.alarm_hours,
            v.alarm_minutes,
        ),
        DeviceState::UpdateAlarmFrequency | DeviceState::Menu(
            MenuState::UpdateAlarmFrequency,
        ) => frequency_chars(v.frequency),
    };
    if v.state == DeviceState::Running || blink_visible(v) {
        shown
    } else {
        DisplayRequest::Nothing
    }
}

/// The clock is read every 4096 ticks, except while its time is being edited.
pub open spec fn read_due(v: DeviceView) -> bool {
    !(v.state is UpdateTime) && v.tick_counter % 4096 == 0
}

pub open spec fn toggle_if(c: bool) -> int {
    if c {
        1
    } else {
        0
    }
}

/// The buzzer toggles that give touch feedback: in the first half of each
/// 4096-tick period, every 2 ticks while main is touched, every 8 while
/// down is, every 32 while up is.
pub open spec fn press_noise_toggles(v: DeviceView) -> int {
    let half = v.tick_counter % 4096 < 2048;
    toggle_if(v.buttons.main > 0 && half && v.tick_counter % 2 == 0) + toggle_if(
        v.buttons.down > 0 && half && v.tick_counter % 8 == 0,
    ) + toggle_if(v.buttons.up > 0 && half && v.tick_counter % 32 == 0)
}

/// The device as it starts: running, tick zero, times 00:00, alarm off.
pub open spec fn initial_device() -> DeviceView {
    DeviceView {
        state: DeviceState::Running,
        tick_counter: 0,
        hours: 0,
        minutes: 0,
        alarm_hours: 0,
        alarm_minutes: 0,
        frequency: AlarmFrequency::Off,
        buttons: initial_scanner(),
    }
}

impl Device {
    /// The invariant of the device.
    pub open spec fn wf(&self) -> bool {
        device_wf(self@)
    }

    /// A device in its starting state, with the commands that bring the
    /// clock chip to the matching state.
    pub fn init() -> (r: (Device, Vec<ClockCommand>))
        ensures
            r.0@ == initial_device(),
            r.0.wf(),
            r.1@ == reset_sequence(),
            forall|i: int| 0 <= i < r.1@.len() ==> command_encodable(#[trigger] r.1@[i]),
    {
        let device = Device {
            state: DeviceState::Running,
            tick_counter: 0,
            hours: 0,
            minutes: 0,
            alarm_hours: 0,
            alarm_minutes: 0,
            frequency: AlarmFrequency::Off,
            button_scanner: ButtonScanner::new(),
        };
        (device, reset_commands())
    }

    /// The clock time shown: (hours, minutes).
    pub fn time(&self) -> (r: (u8, u8))
        ensures
            r == (self@.hours, self@.minutes),
    {
        (self.hours, self.minutes)
    }

    /// The alarm time: (hours, minutes).
    pub fn alarm_time(&self) -> (r: (u8, u8))
        ensures
            r == (self@.alarm_hours, self@.alarm_minutes),
    {
        (self.alarm_hours, self.alarm_minutes)
    }

    /// The screen the device is in.
    pub fn state(&self) -> (r: DeviceState)
        ensures
            r == self@.state,
    {
        self.state
    }

    /// The alarm frequency.
    pub fn frequency(&self) -> (r: AlarmFrequency)
        ensures
            r == self@.frequency,
    {
        self.frequency
    }

    /// The tick counter.
    pub fn tick_counter(&self) -> (r: u32)
        ensures
            r == self@.tick_counter,
    {
        self.tick_counter
    }

    /// The button scanner.
    pub fn button_scanner(&self) -> (r: &ButtonScanner)
        ensures
            r@ == self@.buttons,
    {
        &self.button_scanner
    }

    /// Advances the tick counter, wrapping at `TICK_PERIOD`.
    pub fn bump_tick_counter(&mut self)
        requires
            old(self).wf(),
        ensures
            final(self).wf(),
            final(self)@ == (DeviceView {
                tick_counter: ((old(self)@.tick_counter + 1) % (TICK_PERIOD as int)) as u32,
                ..old(self)@
            }),
    {
        self.tick_counter = (self.tick_counter + 1) % TICK_PERIOD;
    }

    /// Whether the next button scan charges the sense line, so that the send
    /// pin is driven high first.
    pub fn scan_is_charging(&self) -> (r: bool)
        ensures
            r == (self@.buttons.phase == CapPhase::Charge),
    {
        self.button_scanner.is_charging()
    }

    /// Scans the buttons; see `ButtonScanner::button_scan`.
    pub fn button_scan<F: Fn(u8) -> bool>(&mut self, is_cap_button_low: F) -> (send_low: bool)
        requires
            old(self).wf(),
            forall|b: u8| is_cap_button_low.requires((b,)),
        ensures
            final(self).wf(),
            final(self)@ == (DeviceView { buttons: final(self)@.buttons, ..old(self)@ }),
            send_low == (old(self)@.buttons.phase == CapPhase::Charge || old(
                self,
            )@.buttons.cap_count == 0),
            old(self)@.buttons.phase == CapPhase::Drain ==> final(self)@.buttons == drain_step(
                old(self)@.buttons,
            ),
            old(self)@.buttons.phase == CapPhase::Charge ==> exists|n: u32|
                {
                    &&& n <= CAP_THRESHOLD + 1
                    &&& final(self)@.buttons == #[trigger] charge_step(old(self)@.buttons, n)
                    &&& n > old(self)@.buttons.cap_count ==> is_cap_button_low.ensures(
                        (old(self)@.buttons.cap_button,),
                        true,
                    )
                    &&& n <= CAP_THRESHOLD ==> is_cap_button_low.ensures(
                        (old(self)@.buttons.cap_button,),
                        false,
                    )
                },
    {
        self.button_scanner.button_scan(is_cap_button_low)
    }

    /// One drain scan of the buttons; see `ButtonScanner::drain_scan`.
    pub fn drain_scan(&mut self) -> (send_low: bool)
        requires
            old(self).wf(),
            old(self)@.buttons.phase == CapPhase::Drain,
        ensures
            final(self).wf(),
            final(self)@ == (DeviceView { buttons: drain_step(old(self)@.buttons), ..old(self)@ }),
            send_low == (old(self)@.buttons.cap_count == 0),
    {
        self.button_scanner.drain_scan()
    }

    /// One read of the sensed button during a charge scan; see
    /// `ButtonScanner::charge_sample`.
    pub fn charge_sample(&mut self, low: bool) -> (more: bool)
        requires
            old(self).wf(),
            old(self)@.buttons.phase == CapPhase::Charge,
            old(self)@.buttons.cap_count <= CAP_THRESHOLD,
        ensures
            final(self).wf(),
            final(self)@ == (DeviceView {
                buttons: ScannerView {
                    cap_count: sample_next(old(self)@.buttons.cap_count, low).0,
                    ..old(self)@.buttons
                },
                ..old(self)@
            }),
            more == sample_next(old(self)@.buttons.cap_count, low).1,
    {
        self.button_scanner.charge_sample(low)
    }

    /// Ends a charge scan; see `ButtonScanner::finish_charge`.
    pub fn finish_charge(&mut self)
        requires
            old(self).wf(),
            old(self)@.buttons.phase == CapPhase::Charge,
        ensures
            final(self).wf(),
            final(self)@ == (DeviceView {
                buttons: charge_step(old(self)@.buttons, old(self)@.buttons.cap_count),
                ..old(self)@
            }),
    {
        self.button_scanner.finish_charge()
    }

    /// One step of the state machine. `alarm_pin_low` is the level of the
    /// clock chip's interrupt line (low while the alarm fires).
    pub fn tick(&mut self, alarm_pin_low: bool) -> (out: TickOutput)
        requires
            old(self).wf(),
        ensures
            final(self).wf(),
            final(self)@ == tick_next(old(self)@, alarm_pin_low),
            out.commands@ == tick_commands(old(self)@, alarm_pin_low),
            out.piezo == tick_piezo(old(self)@, alarm_pin_low),
            out.confirm == completing_edit(old(self)@),
            forall|i: int|
                0 <= i < out.commands@.len() ==> command_encodable(#[trigger] out.commands@[i]),
    {
        match self.state {
            DeviceState::Running => self.running_state_tick(alarm_pin_low),
            DeviceState::Alarm => self.alarm_state_tick(),
            DeviceState::UpdateTime(_) => self.update_time_tick(),
            DeviceState::UpdateAlarm(_) => self.update_alarm_tick(),
            DeviceState::Menu(menu_state) => self.menu_tick(menu_state),
            DeviceState::UpdateAlarmFrequency => self.update_alarm_frequency_tick(),
        }
    }

    /// Records that the clock commands of the last step all succeeded: a
    /// finished edit, now stored, returns to running.
    pub fn commands_done(&mut self)
        requires
            old(self).wf(),
        ensures
            final(self).wf(),
            final(self)@ == after_commands(old(self)@),
    {
        match self.state {
            DeviceState::UpdateTime(UpdateTimeState::Complete) | DeviceState::UpdateAlarm(
                UpdateTimeState::Complete,
            ) => {
                self.state = DeviceState::Running;
            },
            _ => {},
        }
    }

    /// One step of the state machine in the menu (see `tick`).
    pub fn menu_tick(&mut self, menu_state: MenuState) -> (out: TickOutput)
        requires
            old(self).wf(),
            old(self)@.state == DeviceState::Menu(menu_state),
        ensures
            final(self).wf(),
            final(self)@ == (DeviceView {
                state: menu_next(menu_state, old(self)@.buttons),
                ..old(self)@
            }),
            out.commands@ == Seq::<ClockCommand>::empty(),
            out.piezo == PiezoAction::Keep,
            out.confirm == completing_edit(old(self)@),
    {
        let main = self.button_scanner.get_main() == BUTTON_MAX_VAL;
        let up = self.button_scanner.get_up() == BUTTON_MAX_VAL;
        let down = self.button_scanner.get_down() == BUTTON_MAX_VAL;
        match menu_state {
            MenuState::UpdateAlarmTime => {
                if main {
                    self.state = DeviceState::UpdateAlarm(UpdateTimeState::Begin);
                } else if up {
                    self.state = DeviceState::Menu(MenuState::ExitMenu);
                } else if down {
                    self.state = DeviceState::Menu(MenuState::UpdateAlarmFrequency);
                }
            },
            MenuState::UpdateAlarmFrequency => {
                if main {
                    self.state = DeviceState::UpdateAlarmFrequency;
                } else if up {
                    self.state = DeviceState::Menu(MenuState::UpdateAlarmTime);
                } else if down {
                    self.state = DeviceState::Menu(MenuState::UpdateTime);
                }
            },
            MenuState::UpdateTime => {
                if main {
                    self.state = DeviceState::UpdateTime(UpdateTimeState::Begin);
                } else if up {
                    self.state = DeviceState::Menu(MenuState::UpdateAlarmFrequency);
                } else if down {
                    self.state = DeviceState::Menu(MenuState::ExitMenu);
                }
            },
            MenuState::ExitMenu => {
                if main {
                    self.state = DeviceState::Running;
                } else if up {
                    self.state = DeviceState::Menu(MenuState::UpdateTime);
                } else if down {
                    self.state = DeviceState::Menu(MenuState::UpdateAlarmTime);
                }
            },
        }
        TickOutput { commands: Vec::new(), piezo: PiezoAction::Keep, confirm: false }
    }

    fn running_state_tick(&mut self, alarm_pin_low: bool) -> (out: TickOutput)
        requires
            old(self)@.state == DeviceState::Running,
        ensures
            final(self)@ == running_next(old(self)@, alarm_pin_low),
            out.commands@ == Seq::<ClockCommand>::empty(),
            out.piezo == PiezoAction::Keep,
            out.confirm == completing_edit(old(self)@),
    {
        if alarm_pin_low {
            self.state = DeviceState::Alarm;
        } else if self.button_scanner.get_main() == BUTTON_MAX_VAL {
            self.state = DeviceState::Menu(MenuState::UpdateAlarmTime);
        }
        TickOutput { commands: Vec::new(), piezo: PiezoAction::Keep, confirm: false }
    }

    fn update_time_tick(&mut self) -> (out: TickOutput)
        requires
            old(self).wf(),
            old(self)@.state is UpdateTime,
        ensures
            final(self).wf(),
            final(self)@ == update_time_next(old(self)@, old(self)@.state->UpdateTime_0),
            out.commands@ == tick_commands(old(self)@, false),
            out.piezo == PiezoAction::Keep,
            out.confirm == completing_edit(old(self)@),
    {
        let mut commands: Vec<ClockCommand> = Vec::new();
        let confirm = match self.state {
            DeviceState::UpdateTime(UpdateTimeState::Complete) => true,
            _ => false,
        };
        match self.state {
            DeviceState::UpdateTime(UpdateTimeState::Begin) => {
                if self.button_scanner.get_main() == 0 && self.button_scanner.get_up() == 0
                    && self.button_scanner.get_down() == 0 {
                    self.state = DeviceState::UpdateTime(UpdateTimeState::UpdatingHour);
                }
            },
            DeviceState::UpdateTime(UpdateTimeState::UpdatingHour) => {
                if self.button_scanner.get_up() == BUTTON_MAX_VAL {
                    self.hours = (self.hours + 1) % 24;
                } else if self.button_scanner.get_down() == BUTTON_MAX_VAL {
                    if self.hours == 0 {
                        self.hours = 23;
                    } else {
                        self.hours -= 1;
                    }
                }
                if self.button_scanner.get_main() == BUTTON_MAX_VAL {
                    self.state = DeviceState::UpdateTime(UpdateTimeState::UpdatingMinute);
                }
            },
            DeviceState::UpdateTime(UpdateTimeState::UpdatingMinute) => {
                if self.button_scanner.get_up() == BUTTON_MAX_VAL {
                    self.minutes = (self.minutes + 1) % 60;
                } else if self.button_scanner.get_down() == BUTTON_MAX_VAL {
                    if self.minutes == 0 {
                        self.minutes = 59;
                    } else {
                        self.minutes -= 1;
                    }
                }
                if self.button_scanner.get_main() == BUTTON_MAX_VAL {
                    self.state = DeviceState::UpdateTime(UpdateTimeState::Complete);
                }
            },
            DeviceState::UpdateTime(UpdateTimeState::Complete) => {
                commands.push(
                    ClockCommand::SetTime {
                        hours: self.hours,
                        minutes: self.minutes,
                        seconds: 0,
                        day: 0,
                        date: 1,
                        month: 1,
                        year: 26,
                    },
                );
            },
            _ => {},
        }
        proof {
            assert(commands@ =~= tick_commands(old(self)@, false));
        }
        TickOutput { commands, piezo: PiezoAction::Keep, confirm }
    }

    fn update_alarm_frequency_tick(&mut self) -> (out: TickOutput)
        requires
            old(self)@.state == DeviceState::UpdateAlarmFrequency,
        ensures
            final(self)@ == frequency_edit_next(old(self)@),
            out.commands@ == Seq::<ClockCommand>::empty(),
            out.piezo == PiezoAction::Keep,
            out.confirm == completing_edit(old(self)@),
    {
        if self.button_scanner.get_up() == BUTTON_MAX_VAL || self.button_scanner.get_down()
            == BUTTON_MAX_VAL {
            match self.frequency {
                AlarmFrequency::On => self.frequency = AlarmFrequency::Off,
                AlarmFrequency::Off => self.frequency = AlarmFrequency::Once,
                AlarmFrequency::Once => self.frequency = AlarmFrequency::On,
            }
        } else if self.button_scanner.get_main() == BUTTON_MAX_VAL {
            self.state = DeviceState::Running;
        }
        TickOutput { commands: Vec::new(), piezo: PiezoAction::Keep, confirm: false }
    }

    fn update_alarm_tick(&mut self) -> (out: TickOutput)
        requires
            old(self).wf(),
            old(self)@.state is UpdateAlarm,
        ensures
            final(self).wf(),
            final(self)@ == update_alarm_next(old(self)@, old(self)@.state->UpdateAlarm_0),
            out.commands@ == tick_commands(old(self)@, false),
            out.piezo == PiezoAction::Keep,
            out.confirm == completing_edit(old(self)@),
    {
        let mut commands: Vec<ClockCommand> = Vec::new();
        let confirm = match self.state {
            DeviceState::UpdateAlarm(UpdateTimeState::Complete) => true,
            _ => false,
        };
        match self.state {
            DeviceState::UpdateAlarm(UpdateTimeState::Begin) => {
                if self.button_scanner.get_main() == 0 && self.button_scanner.get_up() == 0
                    && self.button_scanner.get_down() == 0 {
                    self.state = DeviceState::UpdateAlarm(UpdateTimeState::UpdatingHour);
                    self.frequency = AlarmFrequency::On;
                }
            },
            DeviceState::UpdateAlarm(UpdateTimeState::UpdatingHour) => {
                if self.button_scanner.get_up() == BUTTON_MAX_VAL {
                    self.alarm_hours = (self.alarm_hours + 1) % 24;
                } else if self.button_scanner.get_down() == BUTTON_MAX_VAL {
                    if self.alarm_hours == 0 {
                        self.alarm_hours = 23;
                    } else {
                        self.alarm_hours -= 1;
                    }
                }
                if self.button_scanner.get_main() == BUTTON_MAX_VAL {
                    self.state = DeviceState::UpdateAlarm(UpdateTimeState::UpdatingMinute);
                }
            },
            DeviceState::UpdateAlarm(UpdateTimeState::UpdatingMinute) => {
                if self.button_scanner.get_up() == BUTTON_MAX_VAL {
                    self.alarm_minutes = (self.alarm_minutes + 1) % 60;
                } else if self.button_scanner.get_down() == BUTTON_MAX_VAL {
                    if self.alarm_minutes == 0 {
                        self.alarm_minutes = 59;
                    } else {
                        self.alarm_minutes -= 1;
                    }
                }
                if self.button_scanner.get_main() == BUTTON_MAX_VAL {
                    self.state = DeviceState::UpdateAlarm(UpdateTimeState::Complete);
                }
            },
            DeviceState::UpdateAlarm(UpdateTimeState::Complete) => {
                match self.frequency {
                    AlarmFrequency::Off => {
                        commands.push(ClockCommand::Update(RegisterUpdate::DisableAlarm));
                    },
                    AlarmFrequency::On | AlarmFrequency::Once => {
                        commands.push(ClockCommand::Update(RegisterUpdate::EnableAlarm));
                        commands.push(ClockCommand::DelayMs(1));
                        commands.push(
                            ClockCommand::SetAlarm {
                                hours: self.alarm_hours,
                                minutes: self.alarm_minutes,
                            },
                        );
                        commands.push(ClockCommand::DelayMs(1));
                        commands.push(ClockCommand::Update(RegisterUpdate::ClearAlarmFlag));
                    },
                }
            },
            _ => {},
        }
        proof {
            assert(commands@ =~= tick_commands(old(self)@, false));
        }
        TickOutput { commands, piezo: PiezoAction::Keep, confirm }
    }

    fn alarm_state_tick(&mut self) -> (out: TickOutput)
        requires
            old(self)@.state == DeviceState::Alarm,
        ensures
            final(self)@ == alarm_next(old(self)@),
            out.commands@ == tick_commands(old(self)@, false),
            out.piezo == tick_piezo(old(self)@, false),
            out.confirm == completing_edit(old(self)@),
    {
        let mut commands: Vec<ClockCommand> = Vec::new();
        if self.button_scanner.get_main() == BUTTON_MAX_VAL {
            self.state = DeviceState::Running;
            if let AlarmFrequency::Once = self.frequency {
                commands.push(ClockCommand::Update(RegisterUpdate::DisableAlarm));
            }
            commands.push(ClockCommand::Update(RegisterUpdate::ClearAlarmFlag));
            proof {
                assert(commands@ =~= tick_commands(old(self)@, false));
            }
            return TickOutput { commands, piezo: PiezoAction::SetLow, confirm: false };
        }
        let mut piezo = PiezoAction::Keep;
        if (self.tick_counter % 8192) > 4096 {
            if self.tick_counter % 32 == 0 {
                piezo = PiezoAction::Toggle;
            }
        }
        proof {
            assert(commands@ =~= tick_commands(old(self)@, false));
        }
        TickOutput { commands, piezo, confirm: false }
    }

    /// What the display is to show in this loop iteration.
    pub fn display_tick(&self) -> (r: DisplayRequest)
        ensures
            r == display_request(self@),
    {
        let visible = self.tick_counter % 4096 < 2048;
        match self.state {
            DeviceState::Running => self.display_time_7seg(),
            DeviceState::Menu(MenuState::ExitMenu) => {
                if visible {
                    DisplayRequest::Chars(
                        DisplayChar::Dash,
                        DisplayChar::Dash,
                        DisplayChar::Dash,
                        DisplayChar::Dash,
                    )
                } else {
                    DisplayRequest::Nothing
                }
            },
            DeviceState::Alarm | DeviceState::UpdateTime(_) | DeviceState::Menu(
                MenuState::UpdateTime,
            ) => {
                if visible {
                    self.display_time_7seg()
                } else {
                    DisplayRequest::Nothing
                }
            },
            DeviceState::UpdateAlarm(_) | DeviceState::Menu(MenuState::UpdateAlarmTime) => {
                if visible {
                    self.display_alarm_time_7seg()
                } else {
                    DisplayRequest::Nothing
                }
            },
            DeviceState::UpdateAlarmFrequency | DeviceState::Menu(
                MenuState::UpdateAlarmFrequency,
            ) => {
                if visible {
                    match self.frequency {
                        AlarmFrequency::On => DisplayRequest::Chars(
                            DisplayChar::Dash,
                            DisplayChar::Blank,
                            DisplayChar::Blank,
                            DisplayChar::Blank,
                        ),
                        AlarmFrequency::Off => DisplayRequest::Chars(
                            DisplayChar::Dash,
                            DisplayChar::Dash,
                            DisplayChar::Blank,
                            DisplayChar::Blank,
                        ),
                        AlarmFrequency::Once => DisplayRequest::Chars(
                            DisplayChar::Dash,
                            DisplayChar::Dash,
                            DisplayChar::Dash,
                            DisplayChar::Blank,
                        ),
                    }
                } else {
                    DisplayRequest::Nothing
                }
            },
        }
    }

    fn display_time_7seg(&self) -> (r: DisplayRequest)
        ensures
            r == time_digits(self@.hours, self@.minutes),
    {
        DisplayRequest::Number(self.hours / 10, self.hours % 10, self.minutes / 10, self.minutes % 10)
    }

    fn display_alarm_time_7seg(&self) -> (r: DisplayRequest)
        ensures
            r == time_digits(self@.alarm_hours, self@.alarm_minutes),
    {
        DisplayRequest::Number(
            self.alarm_hours / 10,
            self.alarm_hours % 10,
            self.alarm_minutes / 10,
            self.alarm_minutes % 10,
        )
    }

    /// Whether the clock chip is to be read in this loop iteration.
    pub fn read_time_due(&self) -> (r: bool)
        ensures
            r == read_due(self@),
    {
        match self.state {
            DeviceState::UpdateTime(_) => false,
            _ => self.tick_counter % 4096 == 0,
        }
    }

    /// Takes the hours and minutes from the seven timekeeping registers read
    /// from the clock chip (starting at the seconds register).
    pub fn apply_time_registers(&mut self, registers: &[u8; 7])
        requires
            old(self).wf(),
        ensures
            final(self).wf(),
            final(self)@ == (DeviceView {
                hours: decoded_time(registers@).0,
                minutes: decoded_time(registers@).1,
                ..old(self)@
            }),
    {
        let (h, m, _, _, _, _, _) = decode_time(registers);
        self.hours = h;
        self.minutes = m;
    }

    /// How many times the buzzer is toggled for touch feedback.
    pub fn play_button_press_noises(&self) -> (r: u8)
        ensures
            r == press_noise_toggles(self@),
    {
        let mut toggles: u8 = 0;
        let half = (self.tick_counter % 4096) < 2048;
        if self.button_scanner.get_main() > 0 {
            if half {
                if self.tick_counter % 2 == 0 {
                    toggles += 1;
                }
            }
        }
        if self.button_scanner.get_down() > 0 {
            if half {
                if self.tick_counter % 8 == 0 {
                    toggles += 1;
                }
            }
        }
        if self.button_scanner.get_up() > 0 {
            if half {
                if self.tick_counter % 32 == 0 {
                    toggles += 1;
                }
            }
        }
        toggles
    }
}

/// Up and down move through the menu in opposite directions.
pub proof fn lemma_menu_up_down_inverse(m: MenuState)
    ensures
        menu_down(menu_up(m)) == m,
        menu_up(menu_down(m)) == m,
{
}

/// Four presses of up visit every menu entry once and come back.
pub proof fn lemma_menu_cycle(m: MenuState)
    ensures
        menu_up(menu_up(menu_up(menu_up(m)))) == m,
        m != menu_up(m),
        m != menu_up(menu_up(m)),
        m != menu_up(menu_up(menu_up(m))),
        menu_up(m) != menu_up(menu_up(m)),
        menu_up(m) != menu_up(menu_up(menu_up(m))),
        menu_up(menu_up(m)) != menu_up(menu_up(menu_up(m))),
{
}

/// In the menu, a step on an up press followed by a step on a down press
/// gives back the device as it was (apart from the button counters).
pub proof fn lemma_menu_up_then_down(v: DeviceView, later: ScannerView, alarm1: bool, alarm2: bool)
    requires
        v.state is Menu,
        !pressed(v.buttons.main),
        pressed(v.buttons.up),
        !pressed(later.main),
        !pressed(later.up),
        pressed(later.down),
    ensures
        tick_next(DeviceView { buttons: later, ..tick_next(v, alarm1) }, alarm2) == (DeviceView {
            buttons: later,
            ..v
        }),
{
}

/// Editing keeps hours and minutes valid, and a step down undoes a step up.
pub proof fn lemma_time_edit_inverse(h: u8, m: u8)
    requires
        h < 24,
        m < 60,
    ensures
        hour_up(h) < 24,
        hour_down(h) < 24,
        minute_up(m) < 60,
        minute_down(m) < 60,
        hour_down(hour_up(h)) == h,
        hour_up(hour_down(h)) == h,
        minute_down(minute_up(m)) == m,
        minute_up(minute_down(m)) == m,
{
}

/// The alarm frequency comes back after three presses, through all three values.
pub proof fn lemma_frequency_cycle(f: AlarmFrequency)
    ensures
        frequency_next(frequency_next(frequency_next(f))) == f,
        f != frequency_next(f),
        f != frequency_next(frequency_next(f)),
        frequency_next(f) != frequency_next(frequency_next(f)),
{
}

/// The display shows the time whenever the device runs; every other screen
/// shows its content exactly in the first half of each 4096-tick period.
pub proof fn lemma_display_blinks(v: DeviceView)
    ensures
        v.state == DeviceState::Running ==> display_request(v) == time_digits(v.hours, v.minutes),
        v.state != DeviceState::Running ==> (display_request(v) != DisplayRequest::Nothing
            <==> blink_visible(v)),
{
}

/// The alarm line takes precedence over the buttons while running, and a
/// sounding alarm only ends by the main button, which silences the buzzer
/// and clears the chip's alarm flag as its last command.
pub proof fn lemma_alarm_handling(v: DeviceView, alarm_pin_low: bool)
    ensures
        v.state == DeviceState::Running && alarm_pin_low ==> tick_next(v, alarm_pin_low).state
            == DeviceState::Alarm,
        v.state == DeviceState::Alarm ==> (tick_next(v, alarm_pin_low).state == DeviceState::Alarm
            <==> !pressed(v.buttons.main)),
        v.state == DeviceState::Alarm && pressed(v.buttons.main) ==> {
            let cmds = tick_commands(v, alarm_pin_low);
            &&& tick_piezo(v, alarm_pin_low) == PiezoAction::SetLow
            &&& cmds.len() > 0
            &&& cmds.last() == ClockCommand::Update(RegisterUpdate::ClearAlarmFlag)
        },
{
}

/// A finished edit is only left once its result is stored: a step at the
/// end of an edit changes nothing but asks for the store commands (again on
/// every step until they succeed), and reporting them done returns to running
/// with the edited values kept.
pub proof fn lemma_edit_stored_before_running(v: DeviceView, alarm_pin_low: bool)
    requires
        completing_edit(v),
    ensures
        tick_next(v, alarm_pin_low) == v,
        tick_commands(v, alarm_pin_low).len() > 0,
        after_commands(tick_next(v, alarm_pin_low)) == (DeviceView {
            state: DeviceState::Running,
            ..v
        }),
{
}

/// A display request that shows the two-digit values `h` and `m`, left
/// pair then right pair.
pub open spec fn shows_time(r: DisplayRequest, h: u8, m: u8) -> bool {
    match r {
        DisplayRequest::Number(a, b, c, d) => a < 10 && b < 10 && c < 10 && d < 10 && a * 10 + b
            == h && c * 10 + d == m,
        _ => false,
    }
}

/// A display request that shows `n` dashes from the left and blanks after them.
pub open spec fn shows_dashes(r: DisplayRequest, n: int) -> bool {
    let at = |i: int| if i < n {
        DisplayChar::Dash
    } else {
        DisplayChar::Blank
    };
    match r {
        DisplayRequest::Chars(c0, c1, c2, c3) => c0 == at(0) && c1 == at(1) && c2 == at(2) && c3
            == at(3),
        _ => false,
    }
}

/// What each screen shows: the clock time while running, sounding the
/// alarm, editing the time or on the time menu entry; the alarm time while
/// editing the alarm or on its menu entry; four dashes on the exit entry;
/// one, two or three dashes for an alarm that is on, off or once on the
/// frequency screens. Every screen but the running one is dark in the
/// second half of each 4096-tick period.
pub proof fn lemma_display_screens(v: DeviceView)
    requires
        device_wf(v),
    ensures
        v.state == DeviceState::Running ==> shows_time(display_request(v), v.hours, v.minutes),
        blink_visible(v) && (v.state == DeviceState::Alarm || v.state is UpdateTime || v.state
            == DeviceState::Menu(MenuState::UpdateTime)) ==> shows_time(
            display_request(v),
            v.hours,
            v.minutes,
        ),
        blink_visible(v) && (v.state is UpdateAlarm || v.state == DeviceState::Menu(
            MenuState::UpdateAlarmTime,
        )) ==> shows_time(display_request(v), v.alarm_hours, v.alarm_minutes),
        blink_visible(v) && v.state == DeviceState::Menu(MenuState::ExitMenu) ==> shows_dashes(
            display_request(v),
            4,
        ),
        blink_visible(v) && (v.state == DeviceState::UpdateAlarmFrequency || v.state
            == DeviceState::Menu(MenuState::UpdateAlarmFrequency)) ==> shows_dashes(
            display_request(v),
            match v.frequency {
                AlarmFrequency::On => 1,
                AlarmFrequency::Off => 2,
                AlarmFrequency::Once => 3,
            },
        ),
        !blink_visible(v) && v.state != DeviceState::Running ==> display_request(v)
            == DisplayRequest::Nothing,
{
}

/// The clock chip is never read while the time is being edited, in any
/// step of the edit, so the edited hours and minutes are kept until they
/// are stored; outside time editing it is read once every 4096 ticks.
pub proof fn lemma_no_clock_read_while_editing_time(v: DeviceView)
    ensures
        v.state is UpdateTime ==> !read_due(v),
        v.state == DeviceState::UpdateTime(UpdateTimeState::Begin) ==> !read_due(v),
        v.state == DeviceState::UpdateTime(UpdateTimeState::UpdatingHour) ==> !read_due(v),
        v.state == DeviceState::UpdateTime(UpdateTimeState::UpdatingMinute) ==> !read_due(v),
        v.state == DeviceState::UpdateTime(UpdateTimeState::Complete) ==> !read_due(v),
        !(v.state is UpdateTime) ==> (read_due(v) <==> v.tick_counter % 4096 == 0),
{
}

/// Opening a menu entry starts the screen it names.
pub proof fn lemma_menu_entries_open_their_screens()
    ensures
        menu_select(MenuState::UpdateTime) == DeviceState::UpdateTime(UpdateTimeState::Begin),
        menu_select(MenuState::UpdateAlarmTime) == DeviceState::UpdateAlarm(UpdateTimeState::Begin),
        menu_select(MenuState::UpdateAlarmFrequency) == DeviceState::UpdateAlarmFrequency,
        menu_select(MenuState::ExitMenu) == DeviceState::Running,
{
}

/// While an hour or minute is edited, an up press adds one to it and a down
/// press takes one away, wrapping around the day (24 hours) or the hour
/// (60 minutes); nothing else about the device changes but the step of the
/// edit. The same holds for the alarm time.
pub proof fn lemma_edit_steps(v: DeviceView, alarm_pin_low: bool)
    requires
        device_wf(v),
        v.hours < 24,
        v.minutes < 60,
    ensures
        ({
            let w = tick_next(v, alarm_pin_low);
            let up = pressed(v.buttons.up);
            let down = pressed(v.buttons.down) && !up;
            &&& v.state == DeviceState::UpdateTime(UpdateTimeState::UpdatingHour) ==> {
                &&& up ==> w.hours == (v.hours + 1) % 24
                &&& down ==> w.hours == (v.hours + 23) % 24
                &&& !up && !down ==> w.hours == v.hours
                &&& w.minutes == v.minutes && w.alarm_hours == v.alarm_hours
            }
            &&& v.state == DeviceState::UpdateTime(UpdateTimeState::UpdatingMinute) ==> {
                &&& up ==> w.minutes == (v.minutes + 1) % 60
                &&& down ==> w.minutes == (v.minutes + 59) % 60
                &&& !up && !down ==> w.minutes == v.minutes
                &&& w.hours == v.hours && w.alarm_minutes == v.alarm_minutes
            }
            &&& v.state == DeviceState::UpdateAlarm(UpdateTimeState::UpdatingHour) ==> {
                &&& up ==> w.alarm_hours == (v.alarm_hours + 1) % 24
                &&& down ==> w.alarm_hours == (v.alarm_hours + 23) % 24
                &&& !up && !down ==> w.alarm_hours == v.alarm_hours
                &&& w.alarm_minutes == v.alarm_minutes && w.hours == v.hours
            }
            &&& v.state == DeviceState::UpdateAlarm(UpdateTimeState::UpdatingMinute) ==> {
                &&& up ==> w.alarm_minutes == (v.alarm_minutes + 1) % 60
                &&& down ==> w.alarm_minutes == (v.alarm_minutes + 59) % 60
                &&& !up && !down ==> w.alarm_minutes == v.alarm_minutes
                &&& w.alarm_hours == v.alarm_hours && w.minutes == v.minutes
            }
        }),
{
}

/// The number of dashes that stands for an alarm frequency.
pub open spec fn frequency_dashes(f: AlarmFrequency) -> int {
    match f {
        AlarmFrequency::On => 1,
        AlarmFrequency::Off => 2,
        AlarmFrequency::Once => 3,
    }
}

/// On the frequency screen each up or down press shows one dash more,
/// from three back to one, and the main button leaves to the running screen.
pub proof fn lemma_frequency_press_adds_a_dash(v: DeviceView, alarm_pin_low: bool)
    requires
        v.state == DeviceState::UpdateAlarmFrequency,
    ensures
        pressed(v.buttons.up) || pressed(v.buttons.down) ==> frequency_dashes(
            tick_next(v, alarm_pin_low).frequency,
        ) == frequency_dashes(v.frequency) % 3 + 1,
        !pressed(v.buttons.up) && !pressed(v.buttons.down) && pressed(v.buttons.main) ==> tick_next(
            v,
            alarm_pin_low,
        ) == (DeviceView { state: DeviceState::Running, ..v }),
{
}

/// Finishing a time edit writes exactly the edited time, at second zero,
/// and reading the chip back gives the edited hours and minutes.
pub proof fn lemma_time_edit_stored(v: DeviceView, alarm_pin_low: bool)
    requires
        v.state == DeviceState::UpdateTime(UpdateTimeState::Complete),
        v.hours < 24,
        v.minutes < 60,
    ensures
        tick_commands(v, alarm_pin_low).len() == 1,
        ({
            let c = tick_commands(v, alarm_pin_low)[0];
            &&& c is SetTime
            &&& decoded_time(
                set_time_frame_spec(
                    c->SetTime_hours,
                    c->SetTime_minutes,
                    c->SetTime_seconds,
                    c->SetTime_day,
                    c->SetTime_date,
                    c->SetTime_month,
                    c->SetTime_year,
                ).subrange(1, 8),
            ).0 == v.hours
            &&& decoded_time(
                set_time_frame_spec(
                    c->SetTime_hours,
                    c->SetTime_minutes,
                    c->SetTime_seconds,
                    c->SetTime_day,
                    c->SetTime_date,
                    c->SetTime_month,
                    c->SetTime_year,
                ).subrange(1, 8),
            ).1 == v.minutes
            &&& c->SetTime_seconds == 0
        }),
{
    lemma_time_write_read_round_trip(v.hours, v.minutes, 0, 0, 1, 1, 26);
}

/// Finishing an alarm edit that leaves the alarm on programs the chip with
/// the edited alarm time, enables the alarm and clears a pending alarm
/// flag; an alarm left off is disabled and its time not written.
pub proof fn lemma_alarm_edit_stored(v: DeviceView, alarm_pin_low: bool)
    requires
        v.state == DeviceState::UpdateAlarm(UpdateTimeState::Complete),
    ensures
        ({
            let cmds = tick_commands(v, alarm_pin_low);
            &&& v.frequency != AlarmFrequency::Off ==> {
                &&& cmds.contains(ClockCommand::SetAlarm { hours: v.alarm_hours, minutes: v.alarm_minutes })
                &&& cmds.contains(ClockCommand::Update(RegisterUpdate::EnableAlarm))
                &&& cmds.last() == ClockCommand::Update(RegisterUpdate::ClearAlarmFlag)
                &&& !cmds.contains(ClockCommand::Update(RegisterUpdate::DisableAlarm))
            }
            &&& v.frequency == AlarmFrequency::Off ==> {
                &&& cmds.contains(ClockCommand::Update(RegisterUpdate::DisableAlarm))
                &&& !cmds.contains(ClockCommand::Update(RegisterUpdate::EnableAlarm))
                &&& forall|i: int| 0 <= i < cmds.len() ==> !(#[trigger] cmds[i] is SetAlarm)
            }
        }),
{
    let cmds = tick_commands(v, alarm_pin_low);
    if v.frequency != AlarmFrequency::Off {
        assert(cmds[2] == ClockCommand::SetAlarm { hours: v.alarm_hours, minutes: v.alarm_minutes });
        assert(cmds[0] == ClockCommand::Update(RegisterUpdate::EnableAlarm));
        assert forall|i: int| 0 <= i < cmds.len() implies cmds[i] != ClockCommand::Update(
            RegisterUpdate::DisableAlarm,
        ) by {}
    } else {
        assert(cmds[0] == ClockCommand::Update(RegisterUpdate::DisableAlarm));
    }
}

} // verus!

use alarm_clock::clock::{
    bcd_to_dec, dec_to_bcd, decode_time, reset_commands, set_alarm_frame, set_time_frame,
    ClockCommand, RegisterUpdate, DS3231_ADDR, REG_ALARM, REG_CONTROL, REG_SECONDS, REG_STATUS,
};

#[test]
fn bcd_to_dec_reads_both_nibbles() {
    assert_eq!(bcd_to_dec(0x00), 0);
    assert_eq!(bcd_to_dec(0x09), 9);
    assert_eq!(bcd_to_dec(0x10), 10);
    assert_eq!(bcd_to_dec(0x59), 59);
    assert_eq!(bcd_to_dec(0x23), 23);
    assert_eq!(bcd_to_dec(0xFF), 165);
}

#[test]
fn dec_to_bcd_packs_tens_and_units() {
    assert_eq!(dec_to_bcd(0), 0x00);
    assert_eq!(dec_to_bcd(7), 0x07);
    assert_eq!(dec_to_bcd(26), 0x26);
    assert_eq!(dec_to_bcd(59), 0x59);
    assert_eq!(dec_to_bcd(99), 0x99);
    assert_eq!(dec_to_bcd(159), 0xF9);
}

#[test]
fn bcd_round_trip_on_every_encodable_value() {
    for v in 0u8..160 {
        assert_eq!(bcd_to_dec(dec_to_bcd(v)), v);
    }
    for tens in 0u8..10 {
        for units in 0u8..10 {
            let b = tens * 16 + units;
            assert_eq!(dec_to_bcd(bcd_to_dec(b)), b);
        }
    }
}

#[test]
fn set_time_frame_orders_registers_from_seconds() {
    assert_eq!(
        set_time_frame(13, 45, 30, 4, 21, 6, 26),
        [REG_SECONDS, 0x30, 0x45, 0x13, 0x04, 0x21, 0x06, 0x26]
    );
}

#[test]
fn set_alarm_frame_masks_the_date() {
    assert_eq!(set_alarm_frame(7, 30), [REG_ALARM, 0x00, 0x30, 0x07, 0x80]);
    assert_eq!(REG_ALARM, 0x07);
    assert_eq!(DS3231_ADDR, 0x68);
}

#[test]
fn decode_time_masks_control_bits() {
    // Oscillator-stop bit in seconds, 12/24 bit off, century bit in month.
    let regs = [0x80 | 0x42, 0x15, 0x23, 0xF3, 0x31, 0x80 | 0x12, 0x99];
    assert_eq!(decode_time(&regs), (23, 15, 42, 3, 31, 12, 99));
}

#[test]
fn written_time_reads_back() {
    let frame = set_time_frame(23, 59, 58, 7, 31, 12, 99);
    let mut regs = [0u8; 7];
    regs.copy_from_slice(&frame[1..8]);
    assert_eq!(decode_time(&regs), (23, 59, 58, 7, 31, 12, 99));
}

#[test]
fn register_updates_touch_bit_zero_only() {
    assert_eq!(RegisterUpdate::EnableAlarm.register(), REG_CONTROL);
    assert_eq!(RegisterUpdate::DisableAlarm.register(), REG_CONTROL);
    assert_eq!(RegisterUpdate::ClearAlarmFlag.register(), REG_STATUS);
    assert_eq!(RegisterUpdate::EnableAlarm.apply(0x1C), 0x1D);
    assert_eq!(RegisterUpdate::DisableAlarm.apply(0x1D), 0x1C);
    assert_eq!(RegisterUpdate::ClearAlarmFlag.apply(0x8B), 0x8A);
    assert_eq!(RegisterUpdate::ClearAlarmFlag.select_frame(), [0x0F]);
    assert_eq!(RegisterUpdate::EnableAlarm.write_frame(0x04), [0x0E, 0x05]);
}

#[test]
fn disable_undoes_enable() {
    for c in 0u8..=255 {
        let e = RegisterUpdate::EnableAlarm.apply(c);
        assert_eq!(RegisterUpdate::DisableAlarm.apply(e), RegisterUpdate::DisableAlarm.apply(c));
    }
}

#[test]
fn reset_sets_new_year_and_disables_alarm() {
    assert_eq!(
        reset_commands(),
        vec![
            ClockCommand::SetTime { hours: 0, minutes: 0, seconds: 0, day: 0, date: 1, month: 1, year: 26 },
            ClockCommand::DelayMs(1),
            ClockCommand::Update(RegisterUpdate::ClearAlarmFlag),
            ClockCommand::DelayMs(1),
            ClockCommand::Update(RegisterUpdate::DisableAlarm),
        ]
    );
}

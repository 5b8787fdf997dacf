//! Register-level logic for the DS3231 real-time clock: binary-coded-decimal
//! conversion, the byte frames written over I2C, and the decoding of the
//! timekeeping registers.
use vstd::prelude::*;

verus! {

/// I2C address of the DS3231.
pub const DS3231_ADDR: u8 = 0x68;

/// Register offsets of the DS3231.
pub const REG_SECONDS: u8 = 0x00;
pub const REG_MINUTES: u8 = 0x01;
pub const REG_HOURS: u8 = 0x02;
pub const REG_DAY: u8 = 0x03;
pub const REG_DATE: u8 = 0x04;
pub const REG_MONTH: u8 = 0x05;
pub const REG_YEAR: u8 = 0x06;
pub const REG_ALARM: u8 = 0x07;
pub const REG_CONTROL: u8 = 0x0E;
pub const REG_STATUS: u8 = 0x0F;

/// Value of a packed BCD byte: the high nibble counts tens, the low nibble units.
pub open spec fn bcd_value(val: u8) -> int {
    (val / 16) as int * 10 + (val % 16) as int
}

/// The byte that packs `val` as BCD: tens in the high nibble, units in the low one.
pub open spec fn bcd_encoding(val: u8) -> u8 {
    ((val / 10) as int * 16 + (val % 10) as int) as u8
}

/// A byte whose two nibbles are both decimal digits.
pub open spec fn is_valid_bcd(b: u8) -> bool {
    b / 16 < 10 && b % 16 < 10
}

/// Converts a packed BCD byte to its value.
pub fn bcd_to_dec(val: u8) -> (r: u8)
    ensures
        r == bcd_value(val),
        r <= 165,
{
    (val / 16 * 10) + (val % 16)
}

/// Packs a value as BCD. Values from 160 on would overflow the byte.
pub fn dec_to_bcd(val: u8) -> (r: u8)
    requires
        val < 160,
    ensures
        r == bcd_encoding(val),
        r == (val / 10) as int * 16 + (val % 10) as int,
{
    (val / 10 * 16) + (val % 10)
}

/// Decoding the encoding of a value gives the value back.
pub proof fn lemma_bcd_round_trip(val: u8)
    requires
        val < 160,
    ensures
        bcd_value(bcd_encoding(val)) == val,
{
    let t = val / 10;
    let u = val % 10;
    let e: int = t as int * 16 + u as int;
    assert(0 <= e < 256);
    assert(e / 16 == t && e % 16 == u) by (nonlinear_arith)
        requires
            e == t as int * 16 + u as int,
            0 <= u < 10,
            0 <= t,
    ;
}

/// Encoding the value of a byte of two decimal digits gives the byte back.
pub proof fn lemma_bcd_encoding_of_value(b: u8)
    requires
        is_valid_bcd(b),
    ensures
        bcd_value(b) < 100,
        bcd_encoding(bcd_value(b) as u8) == b,
{
    let t = b / 16;
    let u = b % 16;
    let v: int = t as int * 10 + u as int;
    assert(v / 10 == t && v % 10 == u) by (nonlinear_arith)
        requires
            v == t as int * 10 + u as int,
            0 <= u < 10,
            0 <= t,
    ;
    assert(b as int == t as int * 16 + u as int) by (nonlinear_arith)
        requires
            t == b / 16,
            u == b % 16,
    ;
}

/// The frame that sets the clock: the seconds register offset followed by the
/// seven timekeeping registers in BCD, seconds first.
pub open spec fn set_time_frame_spec(
    hours: u8,
    minutes: u8,
    seconds: u8,
    day: u8,
    date: u8,
    month: u8,
    year: u8,
) -> Seq<u8> {
    seq![
        REG_SECONDS,
        bcd_encoding(seconds),
        bcd_encoding(minutes),
        bcd_encoding(hours),
        bcd_encoding(day),
        bcd_encoding(date),
        bcd_encoding(month),
        bcd_encoding(year),
    ]
}

/// Builds the frame written to the DS3231 to set the time.
pub fn set_time_frame(
    hours: u8,
    minutes: u8,
    seconds: u8,
    day: u8,
    date: u8,
    month: u8,
    year: u8,
) -> (r: [u8; 8])
    requires
        hours < 160,
        minutes < 160,
        seconds < 160,
        day < 160,
        date < 160,
        month < 160,
        year < 160,
    ensures
        r@ == set_time_frame_spec(hours, minutes, seconds, day, date, month, year),
{
    let r = [
        REG_SECONDS,
        dec_to_bcd(seconds),
        dec_to_bcd(minutes),
        dec_to_bcd(hours),
        dec_to_bcd(day),
        dec_to_bcd(date),
        dec_to_bcd(month),
        dec_to_bcd(year),
    ];
    assert(r@ =~= set_time_frame_spec(hours, minutes, seconds, day, date, month, year));
    r
}

/// The frame that sets alarm 1: the alarm register offset, seconds zero,
/// minutes and hours in BCD, and a day/date byte with its mask bit set so
/// that the alarm fires when hours, minutes and seconds match.
pub open spec fn set_alarm_frame_spec(hours: u8, minutes: u8) -> Seq<u8> {
    seq![REG_ALARM, 0x00u8, bcd_encoding(minutes), bcd_encoding(hours), 0x80u8]
}

/// Builds the frame written to the DS3231 to set the alarm.
pub fn set_alarm_frame(hours: u8, minutes: u8) -> (r: [u8; 5])
    requires
        hours < 160,
        minutes < 160,
    ensures
        r@ == set_alarm_frame_spec(hours, minutes),
{
    let r = [REG_ALARM, 0x00, dec_to_bcd(minutes), dec_to_bcd(hours), 0x80];
    assert(r@ =~= set_alarm_frame_spec(hours, minutes));
    r
}

/// The time read from the seven timekeeping registers, each register masked
/// to its time bits before decoding: (hours, minutes, seconds, day, date,
/// month, year).
pub open spec fn decoded_time(regs: Seq<u8>) -> (u8, u8, u8, u8, u8, u8, u8)
    recommends
        regs.len() == 7,
{
    (
        bcd_value(regs[REG_HOURS as int] & 0x3F) as u8,
        bcd_value(regs[REG_MINUTES as int] & 0x7F) as u8,
        bcd_value(regs[REG_SECONDS as int] & 0x7F) as u8,
        bcd_value(regs[REG_DAY as int] & 0x07) as u8,
        bcd_value(regs[REG_DATE as int] & 0x3F) as u8,
        bcd_value(regs[REG_MONTH as int] & 0x1F) as u8,
        bcd_value(regs[REG_YEAR as int]) as u8,
    )
}

/// Decodes the seven timekeeping registers read from the DS3231, starting at
/// the seconds register.
pub fn decode_time(buffer: &[u8; 7]) -> (r: (u8, u8, u8, u8, u8, u8, u8))
    ensures
        r == decoded_time(buffer@),
        r.0 <= 45,
        r.1 <= 85,
        r.2 <= 85,
{
    let b0 = buffer[0];
    let b1 = buffer[1];
    let b2 = buffer[2];
    let h = b2 & 0x3F;
    let m = b1 & 0x7F;
    let s = b0 & 0x7F;
    assert(h <= 0x3F && m <= 0x7F && s <= 0x7F) by (bit_vector)
        requires
            h == b2 & 0x3F,
            m == b1 & 0x7F,
            s == b0 & 0x7F,
    ;
    let seconds = bcd_to_dec(s);
    let minutes = bcd_to_dec(m);
    let hours = bcd_to_dec(h);
    let day = bcd_to_dec(buffer[3] & 0x07);
    let date = bcd_to_dec(buffer[4] & 0x3F);
    let month = bcd_to_dec(buffer[5] & 0x1F);
    let year = bcd_to_dec(buffer[6]);
    (hours, minutes, seconds, day, date, month, year)
}

/// A time written with the set-time frame reads back unchanged from the
/// timekeeping registers, for every time of the chip's ranges (24-hour mode).
pub proof fn lemma_time_write_read_round_trip(
    hours: u8,
    minutes: u8,
    seconds: u8,
    day: u8,
    date: u8,
    month: u8,
    year: u8,
)
    requires
        hours < 24,
        minutes < 60,
        seconds < 60,
        day < 8,
        date < 32,
        month < 13,
        year < 100,
    ensures
        decoded_time(
            set_time_frame_spec(hours, minutes, seconds, day, date, month, year).subrange(1, 8),
        ) == (hours, minutes, seconds, day, date, month, year),
{
    let regs = set_time_frame_spec(hours, minutes, seconds, day, date, month, year).subrange(1, 8);
    lemma_bcd_round_trip(hours);
    lemma_bcd_round_trip(minutes);
    lemma_bcd_round_trip(seconds);
    lemma_bcd_round_trip(day);
    lemma_bcd_round_trip(date);
    lemma_bcd_round_trip(month);
    lemma_bcd_round_trip(year);
    let eh = bcd_encoding(hours);
    let emi = bcd_encoding(minutes);
    let es = bcd_encoding(seconds);
    let ed = bcd_encoding(day);
    let edt = bcd_encoding(date);
    let emo = bcd_encoding(month);
    assert(eh <= 0x29 && emi <= 0x59 && es <= 0x59 && ed <= 7 && edt <= 0x39 && emo <= 0x19);
    assert(eh & 0x3F == eh && emi & 0x7F == emi && es & 0x7F == es && ed & 0x07 == ed && edt
        & 0x3F == edt && emo & 0x1F == emo) by (bit_vector)
        requires
            eh <= 0x29,
            emi <= 0x59,
            es <= 0x59,
            ed <= 7,
            edt <= 0x39,
            emo <= 0x19,
    ;
    assert(regs[REG_HOURS as int] == eh);
    assert(regs[REG_MINUTES as int] == emi);
    assert(regs[REG_SECONDS as int] == es);
    assert(regs[REG_DAY as int] == ed);
    assert(regs[REG_DATE as int] == edt);
    assert(regs[REG_MONTH as int] == emo);
}

/// A read-modify-write of one bit in a DS3231 register.
#[derive(Clone, Copy, Debug, PartialEq, Eq)]
pub enum RegisterUpdate {
    /// Sets the alarm-1 interrupt enable bit (A1IE) of the control register.
    EnableAlarm,
    /// Clears the alarm-1 interrupt enable bit of the control register.
    DisableAlarm,
    /// Clears the alarm-1 flag (A1F) of the status register.
    ClearAlarmFlag,
}

/// The register that an update reads and writes back.
pub open spec fn update_register(u: RegisterUpdate) -> u8 {
    match u {
        RegisterUpdate::EnableAlarm => REG_CONTROL,
        RegisterUpdate::DisableAlarm => REG_CONTROL,
        RegisterUpdate::ClearAlarmFlag => REG_STATUS,
    }
}

/// The value written back for a register that read `current`.
pub open spec fn updated_value(u: RegisterUpdate, current: u8) -> u8 {
    match u {
        RegisterUpdate::EnableAlarm => current | 0b0000_0001,
        RegisterUpdate::DisableAlarm => current & !0b0000_0001u8,
        RegisterUpdate::ClearAlarmFlag => current & !0b0000_0001u8,
    }
}

impl RegisterUpdate {
    /// The register that this update reads and writes back.
    pub fn register(self) -> (r: u8)
        ensures
            r == update_register(self),
    {
        match self {
            RegisterUpdate::EnableAlarm => REG_CONTROL,
            RegisterUpdate::DisableAlarm => REG_CONTROL,
            RegisterUpdate::ClearAlarmFlag => REG_STATUS,
        }
    }

    /// The value to write back when the register read `current`: bit 0 is
    /// set (enable) or cleared (disable, clear flag); every other bit is kept.
    pub fn apply(self, current: u8) -> (r: u8)
        ensures
            r == updated_value(self, current),
            r & 0xFE == current & 0xFE,
            (r & 1 == 1) == (self == RegisterUpdate::EnableAlarm),
    {
        match self {
            RegisterUpdate::EnableAlarm => {
                let r = current | 0b0000_0001;
                assert(r & 0xFE == current & 0xFE && r & 1 == 1) by (bit_vector)
                    requires
                        r == current | 1,
                ;
                r
            },
            _ => {
                let r = current & !0b0000_0001u8;
                assert(r & 0xFE == current & 0xFE && r & 1 == 0) by (bit_vector)
                    requires
                        r == current & !1u8,
                ;
                r
            },
        }
    }

    /// The frame that selects the register before it is read.
    pub fn select_frame(self) -> (r: [u8; 1])
        ensures
            r@ == seq![update_register(self)],
    {
        let r = [self.register()];
        assert(r@ =~= seq![update_register(self)]);
        r
    }

    /// The frame that writes the updated value back, given the value read.
    pub fn write_frame(self, current: u8) -> (r: [u8; 2])
        ensures
            r@ == seq![update_register(self), updated_value(self, current)],
    {
        let r = [self.register(), self.apply(current)];
        assert(r@ =~= seq![update_register(self), updated_value(self, current)]);
        r
    }
}

/// Disabling the alarm after enabling it leaves the control register as
/// disabling alone would; enabling after disabling as enabling alone would.
pub proof fn lemma_enable_disable_cancel(control: u8)
    ensures
        updated_value(RegisterUpdate::DisableAlarm, updated_value(RegisterUpdate::EnableAlarm, control))
            == updated_value(RegisterUpdate::DisableAlarm, control),
        updated_value(RegisterUpdate::EnableAlarm, updated_value(RegisterUpdate::DisableAlarm, control))
            == updated_value(RegisterUpdate::EnableAlarm, control),
{
    assert((control | 1u8) & !1u8 == control & !1u8 && (control & !1u8) | 1u8 == control | 1u8)
        by (bit_vector);
}

/// One operation on the DS3231, as the device logic asks for it.
#[derive(Clone, Copy, Debug, PartialEq, Eq)]
pub enum ClockCommand {
    /// Write the seven timekeeping registers.
    SetTime { hours: u8, minutes: u8, seconds: u8, day: u8, date: u8, month: u8, year: u8 },
    /// Write the alarm-1 registers.
    SetAlarm { hours: u8, minutes: u8 },
    /// Read a register, change one bit, write it back.
    Update(RegisterUpdate),
    /// Wait for a number of milliseconds.
    DelayMs(u32),
}

/// A command whose values fit the BCD encoder.
pub open spec fn command_encodable(c: ClockCommand) -> bool {
    match c {
        ClockCommand::SetTime { hours, minutes, seconds, day, date, month, year } => hours < 160
            && minutes < 160 && seconds < 160 && day < 160 && date < 160 && month < 160 && year
            < 160,
        ClockCommand::SetAlarm { hours, minutes } => hours < 160 && minutes < 160,
        _ => true,
    }
}

/// The sequence that puts the clock in a known state: time 00:00:00 on
/// day 0, 1 January '26, then the alarm flag cleared and the alarm disabled,
/// with a one-millisecond pause between the steps.
pub open spec fn reset_sequence() -> Seq<ClockCommand> {
    seq![
        ClockCommand::SetTime { hours: 0, minutes: 0, seconds: 0, day: 0, date: 1, month: 1, year: 26 },
        ClockCommand::DelayMs(1),
        ClockCommand::Update(RegisterUpdate::ClearAlarmFlag),
        ClockCommand::DelayMs(1),
        ClockCommand::Update(RegisterUpdate::DisableAlarm),
    ]
}

/// The commands that reset the clock.
pub fn reset_commands() -> (r: Vec<ClockCommand>)
    ensures
        r@ == reset_sequence(),
        forall|i: int| 0 <= i < r@.len() ==> command_encodable(#[trigger] r@[i]),
{
    let mut r: Vec<ClockCommand> = Vec::new();
    r.push(ClockCommand::SetTime { hours: 0, minutes: 0, seconds: 0, day: 0, date: 1, month: 1, year: 26 });
    r.push(ClockCommand::DelayMs(1));
    r.push(ClockCommand::Update(RegisterUpdate::ClearAlarmFlag));
    r.push(ClockCommand::DelayMs(1));
    r.push(ClockCommand::Update(RegisterUpdate::DisableAlarm));
    assert(r@ =~= reset_sequence());
    r
}

} // verus!

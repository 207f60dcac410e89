//! Interface to the Real-time clock (RTC) peripheral.
//!
//! The real-time clock (RTC) is an independent BCD timer/counter. The RTC
//! provides a time-of-day clock/calendar with programmable alarm interrupts.
//!
//! ## Valid Date Range
//!
//! The RTC only supports two-digit years (00-99). The value 00 corresponds to
//! the year 2000 (not 1970!). Additionally, the year 00 cannot be used because
//! this value is the RTC domain reset default value. This means that dates in
//! the range 2001-01-01 to 2099-12-31 can be represented.
use vstd::prelude::*;

use crate::bits::{
    disjoint, field, lemma_low_masks, low_mask, read_field, with_field, write_field, write_field_masked,
};
use crate::time::Hertz;

verus! {

/// Errors that can occur when dealing with the RTC.
#[derive(Debug, Clone, Copy, PartialEq, Eq, Structural)]
pub enum Error {
    /// Invalid input data was used (e.g. a year outside the 2000-2099 range).
    InvalidInputData,
}

/// A calendar date and time of day.
#[derive(Debug, Clone, Copy, PartialEq, Eq, Structural)]
pub struct DateTime {
    pub year: i32,
    pub month: u32,
    pub day: u32,
    pub hour: u32,
    pub minute: u32,
    pub second: u32,
}

/// The date and time fields lie in the ranges the calendar registers hold:
/// years 2001 to 2099, months up to 12, days up to 31, hours up to 23,
/// minutes and seconds up to 59.
pub open spec fn in_range(dt: DateTime) -> bool {
    &&& 2001 <= dt.year <= 2099
    &&& dt.month <= 12
    &&& dt.day <= 31
    &&& dt.hour <= 23
    &&& dt.minute <= 59
    &&& dt.second <= 59
}

/// Binary coded decimal with 2 bytes.
#[derive(Debug, Clone, Copy, PartialEq, Eq, Structural)]
pub struct Bcd2 {
    pub tens: u8,
    pub units: u8,
}

/// The two decimal digits of `word`: the tens and the units.
pub open spec fn bcd2_of(word: u32) -> Bcd2 {
    Bcd2 { tens: (word / 10) as u8, units: (word % 10) as u8 }
}

/// The number that two decimal digits stand for.
pub open spec fn bcd2_value(b: Bcd2) -> int {
    b.tens * 10 + b.units
}

/// Encodes `word` as two decimal digits: the tens (which must fit in a
/// byte) and the units.
pub fn bcd2_encode(word: u32) -> (r: Result<Bcd2, Error>)
    ensures
        r is Ok <==> word / 10 <= u8::MAX,
        r matches Ok(b) ==> b == bcd2_of(word),
        r matches Err(e) ==> e == Error::InvalidInputData,
{
    let tens = word / 10;
    if tens > 255 {
        return Err(Error::InvalidInputData);
    }
    let units = word % 10;
    Ok(Bcd2 { tens: tens as u8, units: units as u8 })
}

/// Decodes two decimal digits; their value must fit in a byte.
pub fn bcd2_decode(first: u8, second: u8) -> (r: u32)
    requires
        first * 10 + second <= u8::MAX,
    ensures
        r == bcd2_value(Bcd2 { tens: first, units: second }),
{
    (first * 10 + second) as u32
}

/// Whether `year` is a leap year of the Gregorian calendar.
pub open spec fn leap_year(year: int) -> bool {
    let a = if year >= 0 { year } else { -year };
    a % 4 == 0 && (a % 100 != 0 || a % 400 == 0)
}

/// The number of days of month `month` (1 to 12) of `year`.
pub open spec fn days_in_month(year: int, month: int) -> int {
    if month == 2 {
        if leap_year(year) { 29 } else { 28 }
    } else if month == 4 || month == 6 || month == 9 || month == 11 {
        30
    } else {
        31
    }
}

/// `dt` is a date of the calendar and a time of day: a month from 1 to 12, a
/// day that the month has, hours below 24, minutes and seconds below 60.
pub open spec fn valid_datetime(dt: DateTime) -> bool {
    &&& 1 <= dt.month <= 12
    &&& 1 <= dt.day <= days_in_month(dt.year as int, dt.month as int)
    &&& dt.hour <= 23
    &&& dt.minute <= 59
    &&& dt.second <= 59
}

/// Whether `dt` is a date of the calendar and a time of day (see
/// [`valid_datetime`]).
pub fn datetime_valid(dt: DateTime) -> (r: bool)
    ensures
        r == valid_datetime(dt),
{
    let a: u64 = if dt.year >= 0 { dt.year as u64 } else { (0i64 - dt.year as i64) as u64 };
    let leap = a % 4 == 0 && (a % 100 != 0 || a % 400 == 0);
    let days: u32 = if dt.month == 2 {
        if leap { 29 } else { 28 }
    } else if dt.month == 4 || dt.month == 6 || dt.month == 9 || dt.month == 11 {
        30
    } else {
        31
    };
    1 <= dt.month && dt.month <= 12 && 1 <= dt.day && dt.day <= days && dt.hour <= 23 && dt.minute <= 59
        && dt.second <= 59
}

/// A valid date and time whose year lies in 2001 to 2099 is one that the
/// calendar registers can hold.
pub proof fn lemma_valid_in_range(dt: DateTime)
    requires
        valid_datetime(dt),
        2001 <= dt.year <= 2099,
    ensures
        in_range(dt),
{
}

/// Decoding undoes encoding: a word that fits in a byte is encoded (no
/// error), its two digits may be decoded (their value fits in a byte), and
/// decoding gives the word back. Encoding undoes decoding too: two digits,
/// the units below 10, whose value fits in a byte, are the digits of that
/// value.
pub proof fn lemma_bcd_round_trip(word: u32, b: Bcd2)
    ensures
        word <= u8::MAX ==> {
            &&& word / 10 <= u8::MAX
            &&& bcd2_value(bcd2_of(word)) <= u8::MAX
            &&& bcd2_value(bcd2_of(word)) == word
        },
        b.units <= 9 && bcd2_value(b) <= u8::MAX ==> bcd2_of(bcd2_value(b) as u32) == b,
{
}

/// The date and time that the time and date registers hold.
fn decode(tr: u32, dr: u32) -> (r: DateTime)
    ensures
        r == decode_datetime(tr, dr),
{
    proof {
        lemma_low_masks();
    }
    let yt = read_field(dr, 20, 4) as u8;
    let yu = read_field(dr, 16, 4) as u8;
    let mt = read_field(dr, 12, 1) as u8;
    let mu = read_field(dr, 8, 4) as u8;
    let dt = read_field(dr, 4, 2) as u8;
    let du = read_field(dr, 0, 4) as u8;
    let ht = read_field(tr, 20, 2) as u8;
    let hu = read_field(tr, 16, 4) as u8;
    let mnt = read_field(tr, 12, 3) as u8;
    let mnu = read_field(tr, 8, 4) as u8;
    let st = read_field(tr, 4, 3) as u8;
    let su = read_field(tr, 0, 4) as u8;
    let year = bcd2_decode(yt, yu) as i32 + 2000;
    let month = bcd2_decode(mt, mu);
    let day = bcd2_decode(dt, du);
    let hour = bcd2_decode(ht, hu);
    let minute = bcd2_decode(mnt, mnu);
    let second = bcd2_decode(st, su);
    DateTime { year, month, day, hour, minute, second }
}

/// A field write as a register writer does it: cut to the field's width.
pub open spec fn put(reg: u32, offset: u32, width: u32, value: u32) -> u32 {
    with_field(reg, offset, width, value & low_mask(width))
}

/// The time register (`RTC_TR`) for `hour`, `minute` and `second`, in
/// 24-hour format: hour tens at bits 20-21, hour units at bits 16-19, minute
/// tens at bits 12-14, minute units at bits 8-11, second tens at bits 4-6,
/// second units at bits 0-3.
pub open spec fn tr_word(hour: u32, minute: u32, second: u32) -> u32 {
    put(
        put(
            put(
                put(put(put(put(0, 22, 1, 0), 20, 2, hour / 10), 16, 4, hour % 10), 12, 3, minute / 10),
                8,
                4,
                minute % 10,
            ),
            4,
            3,
            second / 10,
        ),
        0,
        4,
        second % 10,
    )
}

/// The date register (`RTC_DR`) for a year of the century, `month` and
/// `day`: year tens at bits 20-23, year units at bits 16-19, the month tens
/// bit at 12, month units at bits 8-11, day tens at bits 4-5, day units at
/// bits 0-3.
pub open spec fn dr_word(year: u32, month: u32, day: u32) -> u32 {
    put(
        put(
            put(
                put(put(put(0, 20, 4, year / 10), 16, 4, year % 10), 12, 1, if month / 10 > 0 { 1 } else { 0 }),
                8,
                4,
                month % 10,
            ),
            4,
            2,
            day / 10,
        ),
        0,
        4,
        day % 10,
    )
}

/// The date and time that the time and date registers hold.
pub open spec fn decode_datetime(tr: u32, dr: u32) -> DateTime {
    DateTime {
        year: (2000 + field(dr, 20, 4) * 10 + field(dr, 16, 4)) as i32,
        month: (field(dr, 12, 1) * 10 + field(dr, 8, 4)) as u32,
        day: (field(dr, 4, 2) * 10 + field(dr, 0, 4)) as u32,
        hour: (field(tr, 20, 2) * 10 + field(tr, 16, 4)) as u32,
        minute: (field(tr, 12, 3) * 10 + field(tr, 8, 4)) as u32,
        second: (field(tr, 4, 3) * 10 + field(tr, 0, 4)) as u32,
    }
}

/// `set` accepts the date and time: a year from 2001 to 2099, and every
/// other field with at most 255 tens.
pub open spec fn set_accepts(instant: DateTime) -> bool {
    &&& 2001 <= instant.year <= 2099
    &&& instant.month / 10 <= 255
    &&& instant.day / 10 <= 255
    &&& instant.hour / 10 <= 255
    &&& instant.minute / 10 <= 255
    &&& instant.second / 10 <= 255
}

/// Interrupt enable bits in `RTC_CR`.
pub const CR_TSIE: u32 = 15;

pub const CR_WUTIE: u32 = 14;

pub const CR_ALRBIE: u32 = 13;

pub const CR_ALRAIE: u32 = 12;

/// Wakeup timer enable bit in `RTC_CR`.
pub const CR_WUTE: u32 = 10;

/// The keys that lift the write protection of the RTC registers, written
/// to `RTC_WPR` in this order before each register update.
pub const WPR_KEY1: u32 = 0xCA;

pub const WPR_KEY2: u32 = 0x53;

/// Any other value written to `RTC_WPR` protects the registers again: the
/// one written after each update.
pub const WPR_LOCK: u32 = 0xFF;

/// Bit of `INIT` (initialization mode) in `RTC_ISR`.
pub const ISR_INIT: u32 = 7;

/// Bit of `INITF` (initialization mode entered) in `RTC_ISR`.
pub const ISR_INITF: u32 = 6;

/// Bit of `RSF` (registers synchronized) in `RTC_ISR`.
pub const ISR_RSF: u32 = 5;

/// Bit of `WUTF` (wakeup timer flag) in `RTC_ISR`.
pub const ISR_WUTF: u32 = 10;

/// Bit of `WUTWF` (wakeup timer may be configured) in `RTC_ISR`.
pub const ISR_WUTWF: u32 = 2;

/// First bit of the two-bit `RTCSEL` field (RTC clock source) in `RCC_CSR`.
pub const CSR_RTCSEL: u32 = 16;

/// Bit of `RTCEN` (RTC clock enable) in `RCC_CSR`.
pub const CSR_RTCEN: u32 = 18;

/// The `RCC_CSR` value, from the value `csr` read before, that clocks the
/// RTC from the LSE (`RTCSEL` = `0b01`) and enables that clock.
pub fn rtc_clock_csr(csr: u32) -> (r: u32)
    ensures
        r == with_field(with_field(csr, CSR_RTCSEL, 2, 0b01), CSR_RTCEN, 1, 1),
{
    proof {
        lemma_low_masks();
    }
    write_field(write_field(csr, CSR_RTCSEL, 2, 0b01), CSR_RTCEN, 1, 1)
}

/// One access to the RTC registers, in the order a driver makes them.
#[derive(Debug, Clone, Copy, PartialEq, Eq, Structural)]
pub enum RtcOp {
    /// Write this value to the write protection register `WPR`.
    Wpr(u32),
    /// Set this bit of `ISR`, keeping the others (read-modify-write).
    IsrSet(u32),
    /// Clear this bit of `ISR`, keeping the others (read-modify-write).
    IsrClear(u32),
    /// Write this value to `ISR`.
    IsrWrite(u32),
    /// Wait until this bit of `ISR` reads 1.
    WaitIsrSet(u32),
    /// Wait until this bit of `ISR` reads 0.
    WaitIsrClear(u32),
    /// Write this value to the control register `CR`.
    Cr(u32),
    /// Write this value to the prescaler register `PRER`.
    Prer(u32),
    /// Write this value to the time register `TR`.
    Tr(u32),
    /// Write this value to the date register `DR`.
    Dr(u32),
    /// Write this value to the wakeup timer register `WUTR`.
    Wutr(u32),
}

/// `ops` framed by the write protection: the two keys that lift it first,
/// the value that restores it last.
pub open spec fn protected(ops: Seq<RtcOp>) -> Seq<RtcOp> {
    seq![RtcOp::Wpr(WPR_KEY1), RtcOp::Wpr(WPR_KEY2)] + ops + seq![RtcOp::Wpr(WPR_LOCK)]
}

/// The accesses that put `tr` and `dr` into the calendar: initialization
/// mode entered (and awaited), the control register reset, the prescalers
/// for a 1 Hz calendar, time and date written, initialization mode left;
/// all under lifted write protection.
pub open spec fn calendar_ops(tr: u32, dr: u32) -> Seq<RtcOp> {
    protected(
        seq![
            RtcOp::IsrSet(ISR_INIT),
            RtcOp::WaitIsrSet(ISR_INITF),
            RtcOp::Cr(0),
            RtcOp::Prer(PRER_1HZ),
            RtcOp::Tr(tr),
            RtcOp::Dr(dr),
            RtcOp::IsrClear(ISR_INIT),
        ],
    )
}

/// The accesses that cancel the wakeup timer with the control register
/// value `cr` (`WUTE` cleared): `CR` written, then, once `WUTWF` allows it,
/// the wakeup timer flag cleared; all under lifted write protection.
pub open spec fn cancel_ops(cr: u32) -> Seq<RtcOp> {
    protected(seq![RtcOp::Cr(cr), RtcOp::WaitIsrSet(ISR_WUTWF), RtcOp::IsrClear(ISR_WUTF)])
}

/// Appends `ops` to `v`.
fn extend_ops(v: &mut Vec<RtcOp>, ops: &Vec<RtcOp>)
    ensures
        final(v)@ == old(v)@ + ops@,
{
    let mut i: usize = 0;
    while i < ops.len()
        invariant
            i <= ops@.len(),
            v@ == old(v)@ + ops@.subrange(0, i as int),
        decreases ops@.len() - i,
    {
        v.push(ops[i]);
        i = i + 1;
        assert(ops@.subrange(0, i as int) =~= ops@.subrange(0, (i - 1) as int).push(ops@[i - 1]));
    }
    assert(ops@.subrange(0, ops@.len() as int) =~= ops@);
}

/// `ops` framed by the write protection (see [`protected`]).
fn protect(ops: &Vec<RtcOp>) -> (r: Vec<RtcOp>)
    ensures
        r@ == protected(ops@),
{
    let mut r: Vec<RtcOp> = Vec::new();
    r.push(RtcOp::Wpr(WPR_KEY1));
    r.push(RtcOp::Wpr(WPR_KEY2));
    extend_ops(&mut r, ops);
    r.push(RtcOp::Wpr(WPR_LOCK));
    assert(r@ =~= protected(ops@));
    r
}

/// The accesses of [`calendar_ops`].
fn calendar_writes(tr: u32, dr: u32) -> (r: Vec<RtcOp>)
    ensures
        r@ == calendar_ops(tr, dr),
{
    let mut ops: Vec<RtcOp> = Vec::new();
    ops.push(RtcOp::IsrSet(ISR_INIT));
    ops.push(RtcOp::WaitIsrSet(ISR_INITF));
    ops.push(RtcOp::Cr(0));
    ops.push(RtcOp::Prer(PRER_1HZ));
    ops.push(RtcOp::Tr(tr));
    ops.push(RtcOp::Dr(dr));
    ops.push(RtcOp::IsrClear(ISR_INIT));
    assert(ops@ =~= seq![
        RtcOp::IsrSet(ISR_INIT),
        RtcOp::WaitIsrSet(ISR_INITF),
        RtcOp::Cr(0),
        RtcOp::Prer(PRER_1HZ),
        RtcOp::Tr(tr),
        RtcOp::Dr(dr),
        RtcOp::IsrClear(ISR_INIT),
    ]);
    protect(&ops)
}

/// The accesses of [`cancel_ops`].
fn cancel_writes(cr: u32) -> (r: Vec<RtcOp>)
    ensures
        r@ == cancel_ops(cr),
{
    let mut ops: Vec<RtcOp> = Vec::new();
    ops.push(RtcOp::Cr(cr));
    ops.push(RtcOp::WaitIsrSet(ISR_WUTWF));
    ops.push(RtcOp::IsrClear(ISR_WUTF));
    assert(ops@ =~= seq![RtcOp::Cr(cr), RtcOp::WaitIsrSet(ISR_WUTWF), RtcOp::IsrClear(ISR_WUTF)]);
    protect(&ops)
}

/// One access framed by the write protection.
fn protect_one(op: RtcOp) -> (r: Vec<RtcOp>)
    ensures
        r@ == protected(seq![op]),
{
    let mut ops: Vec<RtcOp> = Vec::new();
    ops.push(op);
    assert(ops@ =~= seq![op]);
    protect(&ops)
}

/// The prescaler register (`RTC_PRER`) for a 1 Hz calendar clock from the
/// 32768 Hz LSE: asynchronous prescaler 0x7F, synchronous prescaler 0xFF.
pub const PRER_1HZ: u32 = 0x007f_00ff;

/// The LSE crystal frequency that clocks the RTC.
pub const RTC_CLK: u32 = 32_768;

/// Flags to enable/disable RTC interrupts.
#[derive(Debug, Clone, Copy, PartialEq, Eq, Structural)]
pub struct Interrupts {
    pub timestamp: bool,
    pub wakeup_timer: bool,
    pub alarm_a: bool,
    pub alarm_b: bool,
}

impl Default for Interrupts {
    fn default() -> (r: Interrupts)
        ensures
            !r.timestamp && !r.wakeup_timer && !r.alarm_a && !r.alarm_b,
    {
        Interrupts { timestamp: false, wakeup_timer: false, alarm_a: false, alarm_b: false }
    }
}

/// The `RTC_CR` interrupt enable bits selected by `interrupts`.
pub open spec fn interrupt_mask(interrupts: Interrupts) -> u32 {
    (if interrupts.timestamp { 1u32 << CR_TSIE } else { 0 }) | (if interrupts.wakeup_timer {
        1u32 << CR_WUTIE
    } else {
        0
    }) | (if interrupts.alarm_b { 1u32 << CR_ALRBIE } else { 0 }) | (if interrupts.alarm_a {
        1u32 << CR_ALRAIE
    } else {
        0
    })
}

/// Entry point to the RTC API: its registers, as plain values.
pub struct Rtc {
    read_twice: bool,
    tr: u32,
    dr: u32,
    cr: u32,
    prer: u32,
    wutr: u32,
}

impl Rtc {
    /// Whether time and date registers must be read twice, until two reads
    /// agree: the APB1 clock is less than seven times the RTC clock.
    pub closed spec fn spec_read_twice(&self) -> bool {
        self.read_twice
    }

    /// The time register.
    pub closed spec fn spec_tr(&self) -> u32 {
        self.tr
    }

    /// The date register.
    pub closed spec fn spec_dr(&self) -> u32 {
        self.dr
    }

    /// The control register.
    pub closed spec fn spec_cr(&self) -> u32 {
        self.cr
    }

    /// The prescaler register.
    pub closed spec fn spec_prer(&self) -> u32 {
        self.prer
    }

    /// The wakeup timer register.
    pub closed spec fn spec_wutr(&self) -> u32 {
        self.wutr
    }

    /// The time register value to write.
    pub fn tr(&self) -> (r: u32)
        ensures
            r == self.spec_tr(),
    {
        self.tr
    }

    /// The date register value to write.
    pub fn dr(&self) -> (r: u32)
        ensures
            r == self.spec_dr(),
    {
        self.dr
    }

    /// The control register value to write.
    pub fn cr(&self) -> (r: u32)
        ensures
            r == self.spec_cr(),
    {
        self.cr
    }

    /// The prescaler register value to write.
    pub fn prer(&self) -> (r: u32)
        ensures
            r == self.spec_prer(),
    {
        self.prer
    }

    /// The wakeup timer register value to write.
    pub fn wutr(&self) -> (r: u32)
        ensures
            r == self.spec_wutr(),
    {
        self.wutr
    }

    /// Initializes the RTC API, clocked by the LSE, with the APB1 clock
    /// `apb1_clk` and the register contents `tr`, `dr`, `cr`; and the register
    /// accesses that do it, in order.
    ///
    /// When the calendar is not yet `initialized`, it is set to `init`, or to
    /// 2001-01-01 00:00:00 when there is none. Then the wakeup timer is
    /// cancelled, and the register synchronization flag is cleared.
    ///
    /// The APB1 clock must not be slower than the RTC clock (32768 Hz).
    pub fn new(apb1_clk: Hertz, initialized: bool, init: Option<DateTime>, tr: u32, dr: u32, cr: u32) -> (r: Result<
        (Self, Vec<RtcOp>),
        Error,
    >)
        requires
            apb1_clk.0 >= RTC_CLK,
            init matches Some(d) ==> valid_datetime(d),
        ensures
            !initialized && !set_accepts(init.unwrap_or(default_init())) <==> r is Err,
            r matches Ok((rtc, ops)) ==> {
                let i = init.unwrap_or(default_init());
                &&& rtc.spec_read_twice() == (apb1_clk.0 < 7 * RTC_CLK)
                &&& rtc.spec_prer() == PRER_1HZ
                &&& rtc.spec_wutr() == 0
                &&& !initialized ==> {
                    &&& rtc.spec_tr() == tr_word(i.hour, i.minute, i.second)
                    &&& rtc.spec_dr() == dr_word((i.year - 2000) as u32, i.month, i.day)
                    &&& rtc.spec_cr() == with_field(0, CR_WUTE, 1, 0)
                    &&& in_range(i) ==> decode_datetime(rtc.spec_tr(), rtc.spec_dr()) == i
                    &&& ops@ == calendar_ops(rtc.spec_tr(), rtc.spec_dr()) + cancel_ops(rtc.spec_cr())
                        + seq![RtcOp::IsrWrite(1u32 << ISR_RSF)]
                }
                &&& initialized ==> {
                    &&& rtc.spec_tr() == tr
                    &&& rtc.spec_dr() == dr
                    &&& rtc.spec_cr() == with_field(cr, CR_WUTE, 1, 0)
                    &&& ops@ == cancel_ops(rtc.spec_cr()) + seq![RtcOp::IsrWrite(1u32 << ISR_RSF)]
                }
            },
    {
        let read_twice = apb1_clk.0 < 7 * RTC_CLK;
        let mut rtc = Self { read_twice, tr, dr, cr, prer: PRER_1HZ, wutr: 0 };
        let mut ops: Vec<RtcOp> = Vec::new();
        if !initialized {
            let instant = match init {
                Some(dt) => dt,
                None => DateTime { year: 2001, month: 1, day: 1, hour: 0, minute: 0, second: 0 },
            };
            match rtc.set(instant) {
                Ok(writes) => {
                    ops = writes;
                },
                Err(_) => {
                    return Err(Error::InvalidInputData);
                },
            }
            proof {
                if in_range(instant) {
                    lemma_set_now_round_trip(instant);
                }
            }
        }
        proof {
            lemma_low_masks();
        }
        let ghost before = ops@;
        // Disable the wakeup timer; it persists over resets.
        rtc.cr = write_field(rtc.cr, CR_WUTE, 1, 0);
        let cancel = cancel_writes(rtc.cr);
        extend_ops(&mut ops, &cancel);
        ops.push(RtcOp::IsrWrite(1u32 << ISR_RSF));
        assert(ops@ =~= before + cancel_ops(rtc.cr) + seq![RtcOp::IsrWrite(1u32 << ISR_RSF)]);
        assert(initialized ==> before =~= Seq::<RtcOp>::empty());
        Ok((rtc, ops))
    }

    /// Sets the date/time; returns the register accesses that write it, in
    /// order (see [`calendar_ops`]).
    ///
    /// Note: Only dates in the range `2001-01-01 00:00:00` to
    /// `2099-12-31 23:59:59` are supported. If a year outside this range is
    /// passed in, [`Error::InvalidInputData`] will be returned.
    ///
    /// The calendar is re-initialized: the control register is reset, the
    /// prescalers yield a 1 Hz calendar clock, and the time and date
    /// registers take the encoded date and time.
    pub fn set(&mut self, instant: DateTime) -> (r: Result<Vec<RtcOp>, Error>)
        requires
            valid_datetime(instant),
        ensures
            r is Ok <==> set_accepts(instant),
            r is Ok ==> {
                &&& final(self).spec_tr() == tr_word(instant.hour, instant.minute, instant.second)
                &&& final(self).spec_dr() == dr_word(
                    (instant.year - 2000) as u32,
                    instant.month,
                    instant.day,
                )
                &&& final(self).spec_cr() == 0
                &&& final(self).spec_prer() == PRER_1HZ
                &&& final(self).spec_read_twice() == old(self).spec_read_twice()
                &&& final(self).spec_wutr() == old(self).spec_wutr()
            },
            r matches Ok(ops) ==> ops@ == calendar_ops(final(self).spec_tr(), final(self).spec_dr()),
            r is Err ==> *final(self) == *old(self),
    {
        proof {
            lemma_low_masks();
        }
        // Validate and encode datetime
        let y: i32 = instant.year;
        if !(2001 <= y && y <= 2099) {
            return Err(Error::InvalidInputData);
        }
        let year = match bcd2_encode((y - 2000) as u32) {
            Ok(b) => b,
            Err(e) => return Err(e),
        };
        let month = match bcd2_encode(instant.month) {
            Ok(b) => b,
            Err(e) => return Err(e),
        };
        let day = match bcd2_encode(instant.day) {
            Ok(b) => b,
            Err(e) => return Err(e),
        };
        let hours = match bcd2_encode(instant.hour) {
            Ok(b) => b,
            Err(e) => return Err(e),
        };
        let minutes = match bcd2_encode(instant.minute) {
            Ok(b) => b,
            Err(e) => return Err(e),
        };
        let seconds = match bcd2_encode(instant.second) {
            Ok(b) => b,
            Err(e) => return Err(e),
        };
        // Configure RTC. For now, the default values are all fine.
        self.cr = 0;
        // Configure the prescaler to generate a 1 Hz clock for the calendar.
        self.prer = PRER_1HZ;
        // Write time, in 24-hour format.
        let tr = write_field_masked(0, 22, 1, 0);
        let tr = write_field_masked(tr, 20, 2, hours.tens as u32);
        let tr = write_field_masked(tr, 16, 4, hours.units as u32);
        let tr = write_field_masked(tr, 12, 3, minutes.tens as u32);
        let tr = write_field_masked(tr, 8, 4, minutes.units as u32);
        let tr = write_field_masked(tr, 4, 3, seconds.tens as u32);
        let tr = write_field_masked(tr, 0, 4, seconds.units as u32);
        self.tr = tr;
        // Write date
        let dr = write_field_masked(0, 20, 4, year.tens as u32);
        let dr = write_field_masked(dr, 16, 4, year.units as u32);
        let mt: u32 = if month.tens > 0 { 1 } else { 0 };
        let dr = write_field_masked(dr, 12, 1, mt);
        let dr = write_field_masked(dr, 8, 4, month.units as u32);
        let dr = write_field_masked(dr, 4, 2, day.tens as u32);
        let dr = write_field_masked(dr, 0, 4, day.units as u32);
        self.dr = dr;
        Ok(calendar_writes(tr, dr))
    }

    /// The access that precedes a read of the calendar: waiting until the
    /// time and date registers are synchronized (`RSF`).
    pub fn sync_wait(&self) -> (r: RtcOp)
        ensures
            r == RtcOp::WaitIsrSet(ISR_RSF),
    {
        RtcOp::WaitIsrSet(ISR_RSF)
    }

    /// Whether the time and date registers `tr` and `dr` hold a valid
    /// calendar date and time of day (see [`valid_datetime`]).
    pub fn calendar_valid(&self, tr: u32, dr: u32) -> (r: bool)
        ensures
            r == valid_datetime(decode_datetime(tr, dr)),
    {
        datetime_valid(decode(tr, dr))
    }

    /// The date/time that the time and date registers `tr` and `dr`, as read
    /// from the RTC after [`Rtc::sync_wait`], hold; and the register accesses
    /// that follow the read: the synchronization flag cleared under lifted
    /// write protection, which unlocks the registers for the next read.
    ///
    /// The registers must hold a valid date (see [`Rtc::calendar_valid`]).
    pub fn now(&mut self, tr: u32, dr: u32) -> (r: (DateTime, Vec<RtcOp>))
        requires
            valid_datetime(decode_datetime(tr, dr)),
        ensures
            r.0 == decode_datetime(tr, dr),
            r.1@ == protected(seq![RtcOp::IsrWrite(1u32 << ISR_RSF)]),
            *final(self) == *old(self),
    {
        (decode(tr, dr), protect_one(RtcOp::IsrWrite(1u32 << ISR_RSF)))
    }

    /// Whether the time and date registers must be read twice, until two
    /// reads agree (the APB1 clock is less than seven times the RTC clock).
    pub fn read_twice(&self) -> (r: bool)
        ensures
            r == self.spec_read_twice(),
    {
        self.read_twice
    }

    /// Whether two consecutive reads of the time and date registers agree,
    /// so that they can be used. When the APB1 clock is fast enough, a
    /// single read is enough.
    pub fn reads_agree(&self, tr: u32, dr: u32, tr2: u32, dr2: u32) -> (r: bool)
        ensures
            r == (!self.spec_read_twice() || (tr == tr2 && dr == dr2)),
    {
        !self.read_twice || (tr == tr2 && dr == dr2)
    }

    /// Enable interrupts
    ///
    /// The interrupts set to `true` in `interrupts` will be enabled. Those set
    /// to false will not be modified.
    pub fn enable_interrupts(&mut self, interrupts: Interrupts) -> (r: Vec<RtcOp>)
        ensures
            r@ == protected(seq![RtcOp::Cr(final(self).spec_cr())]),
            final(self).spec_cr() == old(self).spec_cr() | interrupt_mask(interrupts),
            final(self).spec_tr() == old(self).spec_tr(),
            final(self).spec_dr() == old(self).spec_dr(),
    {
        let mask = Self::mask_of(interrupts);
        self.cr = self.cr | mask;
        protect_one(RtcOp::Cr(self.cr))
    }

    /// Disable interrupts
    ///
    /// The interrupts set to `true` in `interrupts` will be disabled. Those set
    /// to false will not be modified.
    pub fn disable_interrupts(&mut self, interrupts: Interrupts) -> (r: Vec<RtcOp>)
        ensures
            r@ == protected(seq![RtcOp::Cr(final(self).spec_cr())]),
            final(self).spec_cr() == old(self).spec_cr() & !interrupt_mask(interrupts),
            final(self).spec_tr() == old(self).spec_tr(),
            final(self).spec_dr() == old(self).spec_dr(),
    {
        let mask = Self::mask_of(interrupts);
        self.cr = self.cr & !mask;
        protect_one(RtcOp::Cr(self.cr))
    }

    fn mask_of(interrupts: Interrupts) -> (r: u32)
        ensures
            r == interrupt_mask(interrupts),
    {
        let ts: u32 = if interrupts.timestamp { 1u32 << CR_TSIE } else { 0 };
        let wu: u32 = if interrupts.wakeup_timer { 1u32 << CR_WUTIE } else { 0 };
        let ab: u32 = if interrupts.alarm_b { 1u32 << CR_ALRBIE } else { 0 };
        let aa: u32 = if interrupts.alarm_a { 1u32 << CR_ALRAIE } else { 0 };
        ts | wu | ab | aa
    }

    /// Access the wakeup timer
    pub fn wakeup_timer(&mut self) -> (r: WakeupTimer<'_>)
        ensures
            *r.rtc == *old(self),
            *final(self) == *final(r.rtc),
    {
        WakeupTimer { rtc: self }
    }
}

/// Enabling interrupts and disabling the same ones again restores the control
/// register, when none of them was enabled before.
pub proof fn lemma_interrupts_enable_disable(cr: u32, interrupts: Interrupts)
    requires
        cr & interrupt_mask(interrupts) == 0,
    ensures
        (cr | interrupt_mask(interrupts)) & !interrupt_mask(interrupts) == cr,
{
    let m = interrupt_mask(interrupts);
    assert((cr & m) == 0 ==> (cr | m) & !m == cr) by (bit_vector);
}

/// The RTC wakeup timer
///
/// You don't need to call `wait`, if you call `cancel`, as that also resets the
/// flag. Restarting the timer by calling `start` will also reset the flag.
pub struct WakeupTimer<'r> {
    pub rtc: &'r mut Rtc,
}

impl WakeupTimer<'_> {
    /// Starts the wakeup timer
    ///
    /// The `delay` argument specifies the timer delay in seconds. Up to 17 bits
    /// of delay are supported, giving us a range of over 36 hours: the low 16
    /// bits of `delay - 1` go to the wakeup timer register, the 17th selects
    /// the clock (`WUCKSEL` 0b110 instead of 0b100).
    pub fn start(&mut self, delay: u32) -> (r: Vec<RtcOp>)
        requires
            1 <= delay <= 0x1_ffff,
        ensures
            r@ == cancel_ops(with_field(old(self).rtc.spec_cr(), CR_WUTE, 1, 0)) + protected(
                seq![RtcOp::Wutr(final(self).rtc.spec_wutr()), RtcOp::Cr(final(self).rtc.spec_cr())],
            ) + seq![RtcOp::WaitIsrClear(ISR_WUTWF)],
            final(self).rtc.spec_wutr() == (delay - 1) % 0x1_0000,
            field(final(self).rtc.spec_cr(), 0, 3) == (if (delay - 1) >= 0x1_0000 {
                0b110u32
            } else {
                0b100u32
            }),
            field(final(self).rtc.spec_cr(), CR_WUTE, 1) == 1,
            final(self).rtc.spec_tr() == old(self).rtc.spec_tr(),
            final(self).rtc.spec_dr() == old(self).rtc.spec_dr(),
    {
        proof {
            lemma_low_masks();
        }
        let delay = delay - 1;
        let mut ops = self.cancel();
        self.rtc.wutr = delay & 0xffff;
        let wucksel: u32 = if delay & 0x1_00_00 != 0 { 0b110 } else { 0b100 };
        let cr = write_field(self.rtc.cr, 0, 3, wucksel);
        self.rtc.cr = write_field(cr, CR_WUTE, 1, 1);
        let ghost cancelled = ops@;
        let mut timer_ops: Vec<RtcOp> = Vec::new();
        timer_ops.push(RtcOp::Wutr(self.rtc.wutr));
        timer_ops.push(RtcOp::Cr(self.rtc.cr));
        assert(timer_ops@ =~= seq![RtcOp::Wutr(self.rtc.wutr), RtcOp::Cr(self.rtc.cr)]);
        let framed = protect(&timer_ops);
        extend_ops(&mut ops, &framed);
        ops.push(RtcOp::WaitIsrClear(ISR_WUTWF));
        assert(ops@ =~= cancelled + framed@ + seq![RtcOp::WaitIsrClear(ISR_WUTWF)]);
        assert(disjoint(CR_WUTE, 1, 0, 3));
        assert((delay & 0xffff) == delay % 0x1_0000 && ((delay & 0x1_0000 != 0) == (delay
            >= 0x1_0000))) by (bit_vector)
            requires
                delay <= 0x1_fffe,
        ;
        ops
    }

    /// Whether the wakeup timer flag (`wutf`) reports an expired delay; the
    /// flag is then to be cleared.
    pub fn wait(&mut self, wutf: bool) -> (r: (bool, Vec<RtcOp>))
        ensures
            r.0 == wutf,
            r.1@ == (if wutf { protected(seq![RtcOp::IsrClear(ISR_WUTF)]) } else { Seq::<RtcOp>::empty() }),
            *final(self).rtc == *old(self).rtc,
    {
        if wutf {
            (true, protect_one(RtcOp::IsrClear(ISR_WUTF)))
        } else {
            let v: Vec<RtcOp> = Vec::new();
            assert(v@ =~= Seq::<RtcOp>::empty());
            (false, v)
        }
    }

    /// Disables the wakeup timer.
    pub fn cancel(&mut self) -> (r: Vec<RtcOp>)
        ensures
            r@ == cancel_ops(final(self).rtc.spec_cr()),
            final(self).rtc.spec_cr() == with_field(old(self).rtc.spec_cr(), CR_WUTE, 1, 0),
            field(final(self).rtc.spec_cr(), CR_WUTE, 1) == 0,
            forall|o: u32, w: u32|
                1 <= w && o + w <= 32 && disjoint(CR_WUTE, 1, o, w) ==> #[trigger] field(
                    final(self).rtc.spec_cr(),
                    o,
                    w,
                ) == field(old(self).rtc.spec_cr(), o, w),
            final(self).rtc.spec_tr() == old(self).rtc.spec_tr(),
            final(self).rtc.spec_dr() == old(self).rtc.spec_dr(),
            final(self).rtc.spec_wutr() == old(self).rtc.spec_wutr(),
            final(self).rtc.spec_read_twice() == old(self).rtc.spec_read_twice(),
    {
        proof {
            lemma_low_masks();
        }
        self.rtc.cr = write_field(self.rtc.cr, CR_WUTE, 1, 0);
        cancel_writes(self.rtc.cr)
    }
}

/// The date and time the RTC starts with when none is given.
pub open spec fn default_init() -> DateTime {
    DateTime { year: 2001, month: 1, day: 1, hour: 0, minute: 0, second: 0 }
}

/// Setting the calendar and reading it back gives the date and time that
/// was set, for every date and time in the supported range.
pub proof fn lemma_set_now_round_trip(dt: DateTime)
    requires
        in_range(dt),
    ensures
        set_accepts(dt),
        decode_datetime(
            tr_word(dt.hour, dt.minute, dt.second),
            dr_word((dt.year - 2000) as u32, dt.month, dt.day),
        ) == dt,
{
    lemma_low_masks();
    let h = dt.hour;
    let mi = dt.minute;
    let s = dt.second;
    let y = (dt.year - 2000) as u32;
    let mo = dt.month;
    let d = dt.day;
    let (ht, hu, mt, mu, st, su) = (h / 10, h % 10, mi / 10, mi % 10, s / 10, s % 10);
    let (yt, yu, mot, mou, dt_, du) = (y / 10, y % 10, if mo / 10 > 0 { 1u32 } else { 0u32 }, mo % 10, d / 10, d % 10);
    assert(ht <= 2 && hu <= 9 && mt <= 5 && mu <= 9 && st <= 5 && su <= 9);
    assert(yt <= 9 && yu <= 9 && mou <= 9 && dt_ <= 3 && du <= 9);
    assert(mot == mo / 10);
    let tr = tr_word(h, mi, s);
    let dr = dr_word(y, mo, d);
    assert(field(tr, 20, 2) == ht && field(tr, 16, 4) == hu && field(tr, 12, 3) == mt && field(tr, 8, 4)
        == mu && field(tr, 4, 3) == st && field(tr, 0, 4) == su) by (bit_vector)
        requires
            ht <= 2,
            hu <= 9,
            mt <= 5,
            mu <= 9,
            st <= 5,
            su <= 9,
            tr == tr_word(h, mi, s),
            ht == h / 10, hu == h % 10, mt == mi / 10, mu == mi % 10, st == s / 10, su == s % 10,
    ;
    assert(field(dr, 20, 4) == yt && field(dr, 16, 4) == yu && field(dr, 12, 1) == mot && field(dr, 8, 4)
        == mou && field(dr, 4, 2) == dt_ && field(dr, 0, 4) == du) by (bit_vector)
        requires
            yt <= 9,
            yu <= 9,
            mot <= 1,
            mou <= 9,
            dt_ <= 3,
            du <= 9,
            dr == dr_word(y, mo, d),
            yt == y / 10, yu == y % 10, mot == (if mo / 10 > 0 { 1u32 } else { 0u32 }), mou == mo % 10, dt_ == d / 10, du == d % 10,
    ;
}

} // verus!

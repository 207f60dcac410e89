use stm32l0xx_hal::delay::{next_reload, MAX_RVR};
use stm32l0xx_hal::i2c::{timing, timing_valid, I2c, SCLPin, SDAPin, Timing};
use stm32l0xx_hal::pwm;
use stm32l0xx_hal::rcc::{freeze, Config};
use stm32l0xx_hal::serial::{self, Serial, RxPin, TxPin};
use stm32l0xx_hal::spi::{self, Spi};
use stm32l0xx_hal::time::{Bps, Hertz, MicroSeconds, U32Ext};
use stm32l0xx_hal::timer::{get_clock_config, syst_reload_valid, LinkedTimerPair, StartStep, Timer};
use stm32l0xx_hal::watchdog::{IndependedWatchdog, IwdgOp, WindowWatchdog};

struct Bus;
struct PinSda;
struct PinScl;
struct PinTx;
struct PinRx;
struct SpiPins;

impl SDAPin<Bus> for PinSda {
    fn setup(&self) {}
}
impl SCLPin<Bus> for PinScl {
    fn setup(&self) {}
}
impl TxPin<Bus> for PinTx {
    fn setup(&self) {}
}
impl RxPin<Bus> for PinRx {
    fn setup(&self) {}
}
impl spi::Pins<Bus> for SpiPins {
    fn setup(&self) {}
}

#[test]
fn clock_config_for_timer_periods() {
    // 16 MHz down to 1 Hz needs a prescaler: 16_000_000 ticks per period.
    assert_eq!(get_clock_config(1, 16_000_000), (244, 65306));
    // 1 kHz fits the auto-reload register without a prescaler.
    assert_eq!(get_clock_config(1_000, 16_000_000), (0, 16_000));
    assert_eq!(get_clock_config(2, 2_000_000), (15, 62_500));
}

#[test]
fn timer_configs_from_clocks() {
    let (rcc, _) = freeze(Config::hsi16());
    let timer = Timer::new((), rcc.clocks);
    assert_eq!(timer.syst_reload(Hertz(1_000)), 15_999);
    assert_eq!(timer.apb1_config(Hertz(1_000)), (0, 16_000));
    assert_eq!(timer.apb2_config(Hertz(10)), (24, 64_000));
    let mut timer = timer;
    assert_eq!(timer.wait(0), None);
    assert_eq!(timer.wait(0b11), Some(0b10));
    // CEN set and ARPE (bit 7) kept: paused, URS set, running again.
    assert_eq!(
        timer.start_steps(0x81, 0, 16_000),
        vec![
            StartStep::Cr1(0x80),
            StartStep::ResetCounter,
            StartStep::Psc(0),
            StartStep::Arr(16_000),
            StartStep::Cr1(0x84),
            StartStep::Egr(1),
            StartStep::Cr1(0x85),
        ]
    );
}

#[test]
fn linked_timer_counter() {
    let pair = LinkedTimerPair::new((), ());
    assert_eq!(pair.counter_from(0x1234, 0x5678, 0x1234), Some(0x1234_5678));
    // The most significant half changed between the reads: read again.
    assert_eq!(pair.counter_from(0x1234, 0x0001, 0x1235), None);
}

#[test]
fn pwm_timer_frequency() {
    let (mut timer, config) = pwm::Timer::new((), Hertz(1_000), 16_000_000);
    assert_eq!(config, (0, 16_000));
    assert_eq!(timer.set_frequency(Hertz(1), 16_000_000), (244, 65306));
    assert_eq!(timer.stop(), 0);
    assert_eq!(timer.start(), 1);
}

#[test]
fn independent_watchdog_start() {
    let mut wd = IndependedWatchdog::new();
    wd.start(Hertz(1));
    // 38_000 / 1 / 4 = 9500 ticks, halved twice to fit 12 bits.
    assert_eq!(wd.pr(), 2);
    assert_eq!(wd.rlr(), 2375);
    wd.start(Hertz(10));
    assert_eq!(wd.pr(), 0);
    assert_eq!(wd.rlr(), 950);
    let ops = wd.set_config(0xff, 0xffff);
    assert_eq!(wd.pr(), 7);
    assert_eq!(wd.rlr(), 0xfff);
    // Reload and unlock, prescaler and reload value once they may be
    // written, then start and reload.
    assert_eq!(
        ops,
        vec![
            IwdgOp::Kr(0xAAAA),
            IwdgOp::Kr(0x5555),
            IwdgOp::WaitPvuClear,
            IwdgOp::Pr(7),
            IwdgOp::WaitRvuClear,
            IwdgOp::Rlr(0xfff),
            IwdgOp::Kr(0xCCCC),
            IwdgOp::Kr(0xAAAA),
        ]
    );
    assert_eq!(wd.start(Hertz(10))[3], IwdgOp::Pr(0));
    assert_eq!(wd.feed(), 0xAAAA);
}

#[test]
fn window_watchdog_window() {
    let (rcc, _) = freeze(Config::hsi16());
    let mut wd = WindowWatchdog::new(&rcc.clocks);
    // 16 MHz / 4096 = 3906 ticks per second; 390 per window of 10 Hz,
    // halved twice: 97, so the window value is 0xff - 97, cut to 7 bits.
    wd.set_window(Hertz(10));
    assert_eq!(wd.cfr(), (2 << 7) | ((0xff - 97) & 0x7f));
    wd.start(Hertz(10));
    assert_eq!(wd.cr(), 0xff);
    wd.feed();
    assert_eq!(wd.cr() & 0x7f, 0x7f);
    wd.listen();
    assert_eq!(wd.cfr(), 0x7f | (1 << 9));
}

#[test]
fn i2c_timing_fast_and_standard() {
    assert_eq!(
        timing(16_000_000, 100_000),
        Timing { presc: 0, scll: 103, sclh: 51, sdadel: 2, scldel: 7 }
    );
    assert!(timing_valid(8_000_000, 50_000));
    assert_eq!(
        timing(8_000_000, 50_000),
        Timing { presc: 0, scll: 77, sclh: 77, sdadel: 4, scldel: 9 }
    );
    // The data setup delay would not fit its four bits.
    assert!(!timing_valid(16_000_000, 50_000));
    assert!(!timing_valid(16_000_000, 0));
    assert!(!timing_valid(16_000_000, 1_000_001));
    let (_i2c, t, cr1) = I2c::new(Bus, PinSda, PinScl, Hertz(100_000), 16_000_000);
    assert_eq!(t.scll, 103);
    // Enabled, with DMA requests for both directions.
    assert_eq!(cr1, (1 << 15) | (1 << 14) | 1);
    assert_eq!(t.timingr(), (7 << 20) | (2 << 16) | (51 << 8) | 103);
}

#[test]
fn serial_baud_rates() {
    let config = serial::Config::default();
    let result = Serial::new(Bus, PinTx, PinRx, config, 16_000_000, false);
    let (serial, setup) = match result {
        Ok(v) => v,
        Err(_) => panic!("configuration refused"),
    };
    // The default is 9600 baud: 16 MHz / 9600 is 1666.7, mantissa 104 and
    // fraction 3 (sixteenths).
    assert_eq!(setup.brr, (104 << 4) | 3);
    assert_eq!(setup.cr1, 0b1101);
    assert_eq!(setup.cr2, 0);
    assert_eq!(setup.cr3, (1 << 7) | (1 << 6));
    assert_eq!(serial.cr1(), 0b1101);

    // The low-power UART scales the divider by 256.
    let (_, setup) = match Serial::new(Bus, PinTx, PinRx, config, 16_000_000, true) {
        Ok(v) => v,
        Err(_) => panic!("configuration refused"),
    };
    assert_eq!(setup.brr, ((104 << 4) | 3) * 256);

    // 16 MHz / 115_200 baud is 138.9: mantissa 8, fraction 11.
    let config = serial::Config::default().baudrate(Bps(115_200)).parity_odd().wordlength_9();
    let (_, setup) = match Serial::new(Bus, PinTx, PinRx, config, 16_000_000, false) {
        Ok(v) => v,
        Err(_) => panic!("configuration refused"),
    };
    assert_eq!(setup.brr, (8 << 4) | 11);
    assert_eq!(setup.cr1, 0b1101 | (1 << 12) | (1 << 10) | (1 << 9));
}

#[test]
fn spi_baud_rate_divider() {
    let (_spi, setup) = Spi::new(Bus, SpiPins, spi::mode_0(), Hertz(1_000_000), 16_000_000);
    // Ratio 16: BR = 0b011 (divide by 16).
    assert_eq!(setup.cr1, (1 << 2) | (0b011 << 3) | (1 << 6) | (1 << 8) | (1 << 9));
    assert_eq!(setup.cr2, 0b11);
    let (_spi, setup) = Spi::new(Bus, SpiPins, spi::mode_3(), Hertz(8_000_000), 16_000_000);
    assert_eq!(setup.cr1 & 0b11, 0b11);
    assert_eq!((setup.cr1 >> 3) & 0b111, 0);
    let (_spi, setup) = Spi::new(Bus, SpiPins, spi::mode_1(), Hertz(1_000), 16_000_000);
    assert_eq!((setup.cr1 >> 3) & 0b111, 0b111);
}

#[test]
fn delay_reloads_split_long_waits() {
    // Two seconds at 16 ticks per microsecond: 32_000_000 ticks, split into
    // periods of the 24-bit system timer.
    let mut total: u64 = 32_000_000;
    let mut reloads = Vec::new();
    while let Some((current, rest)) = next_reload(total) {
        assert!(current > 0 && current <= MAX_RVR);
        reloads.push(current);
        total = rest;
    }
    assert_eq!(reloads, vec![MAX_RVR, 32_000_000 - MAX_RVR]);
    assert_eq!(next_reload(0), None);
    assert_eq!(next_reload(MAX_RVR as u64), Some((MAX_RVR, 0)));
    assert_eq!(next_reload(MAX_RVR as u64 + 1), Some((MAX_RVR, 1)));
    assert_eq!(next_reload(7), Some((7, 0)));
}

#[test]
fn delay_clamped_wait_fits_the_reload_steps() {
    // The longest wait, u32::MAX microseconds at 32 ticks per microsecond,
    // goes beyond 32 bits of ticks and still splits into timer periods.
    let mut total: u64 = 32 * u32::MAX as u64;
    let mut periods: u64 = 0;
    let mut waited: u64 = 0;
    while let Some((current, rest)) = next_reload(total) {
        waited += current as u64;
        periods += 1;
        total = rest;
    }
    assert_eq!(waited, 32 * u32::MAX as u64);
    let max = MAX_RVR as u64;
    assert_eq!(periods, (32 * u32::MAX as u64 + max - 1) / max);
}

#[test]
fn frequency_and_period_units() {
    assert_eq!(1_000.hz(), Hertz(1_000));
    assert_eq!(8.mhz(), Hertz(8_000_000));
    assert_eq!(400.khz(), Hertz(400_000));
    assert_eq!(9_600.bps(), Bps(9_600));
    assert_eq!(3.ms(), MicroSeconds(3_000));
    assert_eq!(Hertz(1_000).to_micro_seconds(), MicroSeconds(1_000));
    assert_eq!(MicroSeconds(250).to_hertz(), Hertz(4_000));
}

#[test]
fn timer_register_steps() {
    let (rcc, _) = freeze(Config::hsi16());
    let mut timer = Timer::new((), rcc.clocks);
    // Stop, restrict the update source, run.
    assert_eq!(timer.start_cr1(0b1000_0001), (0b1000_0000, 0b1000_0100, 0b1000_0101));
    assert_eq!(timer.listen(), 1);
    assert_eq!(timer.unlisten(), 0);
    assert_eq!(timer.clear_irq(), 0);
    assert_eq!(timer.reset_cr1(0b101), (0b100, 0b101));
    assert_eq!(timer.stop_cr1(0b101), 0b100);
    assert!(syst_reload_valid(1_000, 16_000_000));
    assert!(!syst_reload_valid(0, 16_000_000));
    // One period per second at 32 MHz: 32_000_000 ticks exceed 24 bits.
    assert!(!syst_reload_valid(1, 32_000_000));
    assert!(!syst_reload_valid(16_000_001, 16_000_000));
}

#[test]
fn linked_timers_setup_and_reset() {
    let mut pair = LinkedTimerPair::new((), ());
    let setup = pair.link(0, 0, 0, 0xff);
    assert_eq!(setup.primary_cr1, 1);
    assert_eq!(setup.secondary_cr1, 1);
    assert_eq!(setup.primary_cr2, 0b010 << 4);
    // The trigger selection (bits 4 to 6) cleared, then the slave mode
    // (bits 0 to 2) set to external clock mode 1.
    assert_eq!(setup.secondary_smcr_ts, 0x8f);
    assert_eq!(setup.secondary_smcr, 0x8f);
    assert_eq!(pair.link(0, 0, 0, 0).secondary_smcr, 0b111);
    assert_eq!(pair.reset_cr1(0b101, 0b1), (0b100, 0, 1, 0b101));
}

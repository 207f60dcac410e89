use stm32l0xx_hal::exti::{
    gpio_line_valid, ConfigurableLine, DirectLine, Exti, ExtiLine, ExtiRegisters, GpioLine, Interrupt, TriggerEdge,
};
use stm32l0xx_hal::flash::{self, FlashOp, Memory, FLASH};
use stm32l0xx_hal::gpio::{AltMode, Analog, GpioRegisters, Output, Pin, Port, PushPull, Speed};
use stm32l0xx_hal::mco;
use stm32l0xx_hal::{encoder, i2c, pwm, serial, spi};
use stm32l0xx_hal::pwr::{self, PwrOp, StopModeConfig, VcoreRange, PWR};
use stm32l0xx_hal::rcc::{freeze, Config, MSIRange};
use stm32l0xx_hal::syscfg::{SyscfgRegisters, SYSCFG};

fn zero_gpio() -> GpioRegisters {
    GpioRegisters { moder: 0, otyper: 0, ospeedr: 0, pupdr: 0, afrl: 0, afrh: 0 }
}

#[test]
fn gpio_modes_speeds_and_alternate_functions() {
    let mut regs = zero_gpio();
    regs.set_mode::<Output<PushPull>>(5);
    assert_eq!((regs.moder >> 10) & 0b11, 0b01);
    assert_eq!(regs.otyper, 0);
    regs.set_mode::<Analog>(0);
    assert_eq!(regs.moder & 0b11, 0b11);
    assert_eq!((regs.moder >> 10) & 0b11, 0b01);
    regs.set_speed(15, Speed::VeryHigh);
    assert_eq!(regs.ospeedr, 0b11 << 30);
    regs.set_alt_mode(9, AltMode::AF6);
    assert_eq!(regs.afrh, 6 << 4);
    assert_eq!((regs.moder >> 18) & 0b11, 0b10);
    regs.set_alt_mode(2, AltMode::AF3);
    assert_eq!(regs.afrl, 3 << 8);
}

#[test]
fn gpio_pin_outputs_and_inputs() {
    let pin: Pin<Output<PushPull>> = Pin::new(Port::PB, 3);
    assert_eq!(pin.port(), Port::PB);
    assert_eq!(pin.pin_number(), 3);
    assert_eq!(pin.set_high(), 1 << 3);
    assert_eq!(pin.set_low(), 1 << 19);
    assert!(pin.is_set_high(0b1000));
    assert!(pin.is_set_low(0b0111));
    let input: Pin<stm32l0xx_hal::gpio::Input<stm32l0xx_hal::gpio::Floating>> = Pin::new(Port::PA, 0);
    assert!(input.is_high(0xffff));
    assert!(input.is_low(0xfffe));
    let drain: Pin<Output<stm32l0xx_hal::gpio::OpenDrain>> = Pin::new(Port::PC, 15);
    assert!(drain.is_high(1 << 15));
    assert!(drain.is_low(!(1 << 15)));
}

#[test]
fn exti_listen_gpio_selects_port_and_edges() {
    let mut exti = Exti::new(ExtiRegisters { imr: 0, rtsr: 0, ftsr: 0 });
    let mut syscfg = SYSCFG::new(SyscfgRegisters { exticr1: 0, exticr2: 0, exticr3: 0, exticr4: 0 });
    let line = GpioLine::from_raw_line(6).unwrap();
    exti.listen_gpio(&mut syscfg, Port::PC, line, TriggerEdge::Falling);
    assert_eq!(syscfg.syscfg.exticr2, 2 << 8);
    let line = GpioLine::from_raw_line(13).unwrap();
    exti.listen_gpio(&mut syscfg, Port::PB, line, TriggerEdge::Both);
    assert_eq!(syscfg.syscfg.exticr4, 1 << 4);
    assert!(gpio_line_valid(Port::PH, 9));
    assert!(!gpio_line_valid(Port::PH, 5));
    assert!(gpio_line_valid(Port::PA, 5));
    let regs = exti.release();
    assert_eq!(regs.imr, (1 << 6) | (1 << 13));
    assert_eq!(regs.ftsr, (1 << 6) | (1 << 13));
    assert_eq!(regs.rtsr, 1 << 13);
}

#[test]
fn exti_configurable_and_direct_lines() {
    let mut exti = Exti::new(ExtiRegisters { imr: 0, rtsr: 0, ftsr: 0 });
    exti.listen_configurable(ConfigurableLine::RtcWakeup, TriggerEdge::Rising);
    exti.listen_direct(DirectLine::Usart1);
    let regs = exti.release();
    assert_eq!(regs.imr, (1 << 20) | (1 << 25));
    assert_eq!(regs.rtsr, 1 << 20);
    assert_eq!(regs.ftsr, 0);

    let mut exti = Exti::new(regs);
    exti.unlisten(ConfigurableLine::RtcWakeup);
    let regs = exti.release();
    assert_eq!(regs.imr, 1 << 25);
    assert_eq!(regs.rtsr, 0);

    assert_eq!(Exti::pend(DirectLine::Lptim1), 1 << 29);
    assert_eq!(Exti::unpend(GpioLine::from_raw_line(0).unwrap()), 1);
    assert!(Exti::is_pending(ConfigurableLine::Pvd, 1 << 16));
    assert!(!Exti::is_pending(ConfigurableLine::Pvd, 1 << 17));
}

#[test]
fn exti_raw_lines_round_trip() {
    assert!(GpioLine::from_raw_line(16).is_none());
    assert_eq!(GpioLine::from_raw_line(15).unwrap().raw_line(), 15);
    assert!(ConfigurableLine::from_raw_line(18).is_none());
    assert_eq!(ConfigurableLine::from_raw_line(19).unwrap(), ConfigurableLine::RtcTamper_CssLse);
    assert!(DirectLine::from_raw_line(27).is_none());
    assert_eq!(DirectLine::from_raw_line(28).unwrap(), DirectLine::Lpuart1);
    assert_eq!(GpioLine::from_raw_line(1).unwrap().interrupt(), Interrupt::EXTI0_1);
    assert_eq!(GpioLine::from_raw_line(3).unwrap().interrupt(), Interrupt::EXTI2_3);
    assert_eq!(GpioLine::from_raw_line(9).unwrap().interrupt(), Interrupt::EXTI4_15);
    assert_eq!(DirectLine::Usb.interrupt(), Interrupt::USB);
    assert_eq!(ConfigurableLine::RtcAlarm.interrupt(), Interrupt::RTC);
}

#[test]
fn pwr_vcore_and_low_power_modes() {
    let mut pwr = PWR::new(0);
    assert_eq!(pwr.cr(), 1 << 8);
    pwr.switch_vcore_range(VcoreRange::Range3);
    assert_eq!(pwr.cr(), (1 << 8) | (0b11 << 11));
    assert_eq!(pwr.get_vcore_range(), VcoreRange::Range3);
    assert_eq!(VcoreRange::from_bits(2), VcoreRange::Range2);

    let (rcc, _) = freeze(Config::msi(MSIRange::Range1));
    assert!(pwr.low_power_sleep_allowed(&rcc.clocks));
    pwr.enter_low_power_run_mode(rcc.clocks);
    assert_eq!(pwr.get_vcore_range(), VcoreRange::Range2);
    assert_eq!(pwr.cr() & ((1 << 14) | 1), (1 << 14) | 1);
    pwr.exit_low_power_run_mode();
    assert_eq!(pwr.cr() & ((1 << 14) | 1), 0);

    pwr.configure_stop_mode(StopModeConfig { ultra_low_power: true });
    assert_eq!(pwr.cr() & 0b1111, 0b101);
    assert_eq!(pwr.cr() & (1 << 9), 1 << 9);
    pwr.configure_standby_mode();
    assert_eq!(pwr.cr() & 0b110, 0b110);

    let (rcc, _) = freeze(Config::hsi16());
    assert!(!pwr.low_power_sleep_allowed(&rcc.clocks));
    assert!(pwr::stop_mode_wakeup_clock(rcc.clocks.source()));
    let (rcc, _) = freeze(Config::default());
    assert!(!pwr::stop_mode_wakeup_clock(rcc.clocks.source()));
}

#[test]
fn pwr_steps_in_order() {
    let base = 1u32 << 8;
    let mut pwr = PWR::new(0);
    let range2 = base | (0b10 << 11);
    let (rcc, _) = freeze(Config::msi(MSIRange::Range1));
    let ops = pwr.enter_low_power_run_mode(rcc.clocks);
    assert_eq!(
        ops,
        vec![
            PwrOp::WaitVosfClear,
            PwrOp::Cr(range2),
            PwrOp::WaitVosfClear,
            PwrOp::Cr(range2 | 1),
            PwrOp::Cr(range2 | 1 | (1 << 14)),
        ]
    );
    let ops = pwr.exit_low_power_run_mode();
    assert_eq!(ops, vec![PwrOp::Cr(range2 | 1), PwrOp::Cr(range2)]);

    let mut pwr = PWR::new(0);
    pwr.switch_vcore_range(VcoreRange::Range1);
    let range1 = base | (0b01 << 11);
    let ops = pwr.enter_low_power_sleep_mode(&rcc.clocks);
    assert_eq!(
        ops,
        vec![
            PwrOp::WaitVosfClear,
            PwrOp::Cr(range2),
            PwrOp::WaitVosfClear,
            PwrOp::Cr(range2 | 1),
            PwrOp::SleepDeep(false),
            PwrOp::WaitForInterrupt,
            PwrOp::WaitVosfClear,
            PwrOp::Cr(range1 | 1),
            PwrOp::WaitVosfClear,
        ]
    );
    let ops = pwr.enter_sleep_mode();
    assert_eq!(
        ops,
        vec![PwrOp::Cr(range1), PwrOp::SleepDeep(false), PwrOp::WaitForInterrupt]
    );
    let ops = pwr.enter_stop_mode(StopModeConfig { ultra_low_power: false }, rcc.clocks.source());
    assert_eq!(
        ops,
        vec![
            PwrOp::SleepDeep(true),
            PwrOp::StopWakeupClock(false),
            PwrOp::Cr(range1 | 0b101),
            PwrOp::WaitWufClear,
            PwrOp::WaitForInterrupt,
        ]
    );
    let ops = pwr.enter_standby_mode();
    assert_eq!(
        ops,
        vec![
            PwrOp::SleepDeep(true),
            PwrOp::Cr(range1 | 0b111),
            PwrOp::WaitWufClear,
            PwrOp::WaitForInterrupt,
        ]
    );
}

#[test]
fn flash_layout_and_errors() {
    let mut nvm = FLASH::new(192);
    assert_eq!(nvm.verify_address(0x0800_0000), Memory::Flash);
    assert_eq!(nvm.verify_address(0x0802_FFFF), Memory::Flash);
    assert!(!nvm.is_nvm_address(0x0803_0000));
    assert_eq!(nvm.verify_address(0x0808_0000), Memory::Eeprom);
    assert!(!nvm.is_nvm_address(0x0808_0000 + flash::EEPROM_SIZE));
    assert!(!nvm.is_nvm_address(0x2000_0000));
    assert!(nvm.is_nvm_address(0x0808_0010));
    let unlock = vec![
        FlashOp::PeKey(0x89AB_CDEF),
        FlashOp::PeKey(0x0203_0405),
        FlashOp::PrgKey(0x8C9D_AEBF),
        FlashOp::PrgKey(0x1314_1516),
        FlashOp::OptKey(0xFBEA_D9C8),
        FlashOp::OptKey(0x2425_2627),
    ];
    let framed = |steps: Vec<FlashOp>| {
        let mut all = unlock.clone();
        all.push(FlashOp::WaitIdle);
        all.extend(steps);
        all.push(FlashOp::WaitIdle);
        all.push(FlashOp::CheckErrors);
        all.push(FlashOp::Pecr(0x07));
        all
    };
    assert_eq!(
        nvm.erase_flash_page(0x0800_0080),
        framed(vec![FlashOp::PecrSet((1 << 9) | (1 << 3)), FlashOp::WriteWord(0x0800_0080, 0)])
    );
    let mut words = [0u32; 16];
    for (i, w) in words.iter_mut().enumerate() {
        *w = 0x1000 + i as u32;
    }
    assert_eq!(
        nvm.write_flash_half_page(0x0800_0040, &words),
        framed(vec![
            FlashOp::PecrSet((1 << 10) | (1 << 3)),
            FlashOp::WriteHalfPage(0x0800_0040, words),
        ])
    );
    assert_eq!(nvm.write_word(0x0808_0004, 7), framed(vec![FlashOp::WriteWord(0x0808_0004, 7)]));
    assert_eq!(nvm.write_byte(0x0808_0010, 9), framed(vec![FlashOp::WriteByte(0x0808_0010, 9)]));
    assert!(!nvm.latency());
    assert_eq!(nvm.set_wait_states(flash::Latency::WS1, 0b110), 0b111);
    assert!(nvm.latency());
    assert_eq!(nvm.set_wait_states(flash::Latency::WS0, 0b111), 0b110);
    let keys = nvm.unlock();
    assert_eq!(keys, [0x89AB_CDEF, 0x0203_0405, 0x8C9D_AEBF, 0x1314_1516, 0xFBEA_D9C8, 0x2425_2627]);

    assert_eq!(nvm.check_errors(0), Ok(()));
    assert_eq!(nvm.check_errors(1 << 17), Err(flash::Error::AbortedByFetch));
    assert_eq!(nvm.check_errors(1 << 16), Err(flash::Error::NotErased));
    assert_eq!(nvm.check_errors(1 << 14), Err(flash::Error::ReadProtection));
    assert_eq!(nvm.check_errors(1 << 11), Err(flash::Error::ConfigMismatch));
    assert_eq!(nvm.check_errors(1 << 10), Err(flash::Error::InvalidSize));
    assert_eq!(nvm.check_errors(1 << 9), Err(flash::Error::InvalidAlignment));
    assert_eq!(nvm.check_errors(1 << 8), Err(flash::Error::WriteProtection));
    // The error flagged first in the order of the variants wins; once its
    // flag is cleared, the next one is reported.
    let sr = (1 << 8) | (1 << 16);
    assert_eq!(nvm.check_errors(sr), Err(flash::Error::NotErased));
    let sr = sr & !flash::Error::NotErased.clear_flag();
    assert_eq!(nvm.check_errors(sr), Err(flash::Error::WriteProtection));
    let sr = sr & !flash::Error::WriteProtection.clear_flag();
    assert_eq!(nvm.check_errors(sr), Ok(()));
    assert_eq!(flash::Error::InvalidSize.clear_flag(), 1 << 10);
}

#[test]
fn mco_pins() {
    assert_eq!(mco::alt_mode(Port::PA, 8), Some(AltMode::AF0));
    assert_eq!(mco::alt_mode(Port::PA, 9), Some(AltMode::AF0));
    assert_eq!(mco::alt_mode(Port::PB, 13), Some(AltMode::AF2));
    assert_eq!(mco::alt_mode(Port::PB, 8), None);
}

#[test]
fn peripheral_pin_functions() {
    // Serial ports
    assert_eq!(serial::tx_alt_mode(serial::Usart::Usart2, Port::PA, 2), Some(AltMode::AF4));
    assert_eq!(serial::rx_alt_mode(serial::Usart::Usart2, Port::PA, 3), Some(AltMode::AF4));
    assert_eq!(serial::tx_alt_mode(serial::Usart::Lpuart1, Port::PA, 2), Some(AltMode::AF6));
    // PB10 and PB11 swap roles on the low-power UART with the function.
    assert_eq!(serial::tx_alt_mode(serial::Usart::Lpuart1, Port::PB, 10), Some(AltMode::AF4));
    assert_eq!(serial::rx_alt_mode(serial::Usart::Lpuart1, Port::PB, 10), Some(AltMode::AF7));
    assert_eq!(serial::tx_alt_mode(serial::Usart::Lpuart1, Port::PB, 11), Some(AltMode::AF7));
    assert_eq!(serial::rx_alt_mode(serial::Usart::Lpuart1, Port::PB, 11), Some(AltMode::AF4));
    assert_eq!(serial::tx_alt_mode(serial::Usart::Usart5, Port::PC, 12), Some(AltMode::AF2));
    assert_eq!(serial::rx_alt_mode(serial::Usart::Usart5, Port::PD, 2), Some(AltMode::AF6));
    assert_eq!(serial::tx_alt_mode(serial::Usart::Usart1, Port::PA, 10), None);
    assert_eq!(serial::rx_alt_mode(serial::Usart::Usart4, Port::PH, 1), None);
    // I2C buses
    assert_eq!(i2c::sda_alt_mode(i2c::Bus::I2C1, Port::PB, 7), Some(AltMode::AF1));
    assert_eq!(i2c::scl_alt_mode(i2c::Bus::I2C1, Port::PB, 8), Some(AltMode::AF4));
    assert_eq!(i2c::sda_alt_mode(i2c::Bus::I2C2, Port::PB, 14), Some(AltMode::AF5));
    assert_eq!(i2c::scl_alt_mode(i2c::Bus::I2C3, Port::PA, 8), Some(AltMode::AF7));
    assert_eq!(i2c::scl_alt_mode(i2c::Bus::I2C3, Port::PC, 1), None);
    // SPI buses
    assert_eq!(spi::sck_alt_mode(spi::Bus::SPI1, Port::PA, 5), Some(AltMode::AF0));
    assert_eq!(spi::miso_alt_mode(spi::Bus::SPI1, Port::PA, 11), Some(AltMode::AF0));
    assert_eq!(spi::mosi_alt_mode(spi::Bus::SPI2, Port::PB, 15), Some(AltMode::AF0));
    assert_eq!(spi::mosi_alt_mode(spi::Bus::SPI2, Port::PB, 14), None);
    // PWM channels
    assert_eq!(pwm::pin_alt_mode(pwm::TimerInstance::Tim2, 1, Port::PA, 0), Some(AltMode::AF2));
    assert_eq!(pwm::pin_alt_mode(pwm::TimerInstance::Tim2, 1, Port::PA, 15), Some(AltMode::AF5));
    assert_eq!(pwm::pin_alt_mode(pwm::TimerInstance::Tim2, 2, Port::PA, 0), None);
    assert_eq!(pwm::pin_alt_mode(pwm::TimerInstance::Tim3, 2, Port::PB, 5), Some(AltMode::AF4));
    assert_eq!(pwm::pin_alt_mode(pwm::TimerInstance::Tim3, 4, Port::PE, 6), Some(AltMode::AF2));
    // Encoder inputs
    assert_eq!(encoder::pin_alt_mode(encoder::TimerInstance::Tim21, 1, Port::PB, 13), Some(AltMode::AF6));
    assert_eq!(encoder::pin_alt_mode(encoder::TimerInstance::Tim2, 2, Port::PA, 1), Some(AltMode::AF2));
    assert_eq!(encoder::pin_alt_mode(encoder::TimerInstance::Tim2, 3, Port::PA, 2), None);
}

#[test]
fn exti_edge_replaces_the_previous_one() {
    let mut exti = Exti::new(ExtiRegisters { imr: 0, rtsr: 0, ftsr: 0 });
    let mut syscfg = SYSCFG::new(SyscfgRegisters { exticr1: 0, exticr2: 0, exticr3: 0, exticr4: 0 });
    let line = GpioLine::from_raw_line(4).unwrap();
    exti.listen_gpio(&mut syscfg, Port::PA, line, TriggerEdge::Falling);
    exti.listen_gpio(&mut syscfg, Port::PA, line, TriggerEdge::Rising);
    let regs = exti.registers();
    // Rising edges only.
    assert_eq!(regs.rtsr, 1 << 4);
    assert_eq!(regs.ftsr, 0);
    assert_eq!(regs.imr, 1 << 4);
    exti.listen_configurable(ConfigurableLine::RtcWakeup, TriggerEdge::Both);
    exti.listen_configurable(ConfigurableLine::RtcWakeup, TriggerEdge::Falling);
    let regs = exti.registers();
    assert_eq!(regs.rtsr, 1 << 4);
    assert_eq!(regs.ftsr, 1 << 20);
}

#[test]
fn flash_checks_report_each_error_once() {
    let nvm = FLASH::new(192);
    // FWWERR, RDERR and WRPERR set, and the busy bit (bit 0), which stays.
    let mut sr: u32 = (1 << 17) | (1 << 14) | (1 << 8) | 1;
    let mut reported = Vec::new();
    while let Err(e) = nvm.check_errors(sr) {
        sr &= !e.clear_flag();
        reported.push(e);
    }
    assert_eq!(
        reported,
        vec![
            flash::Error::AbortedByFetch,
            flash::Error::ReadProtection,
            flash::Error::WriteProtection,
        ]
    );
    assert_eq!(sr, 1);
}

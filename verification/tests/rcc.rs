use stm32l0xx_hal::rcc::{
    freeze, hsi48_ready, lse_ready, AHBPrescaler, APBPrescaler, ClockSrc, Config, HSI16Div,
    MSIRange, PLLDiv, PLLMul, PLLSource, RccOp, MCOPRE, MCOSEL,
};
use stm32l0xx_hal::rcc_bus::{disable, enable, is_enabled, reset, Bus, RccBus};
use stm32l0xx_hal::time::Hertz;
use stm32l0::stm32l0x2::{GPIOB, I2C3, TIM21, USART2};

#[test]
fn default_config_runs_on_msi_range5() {
    let (rcc, setup) = freeze(Config::default());
    assert_eq!(rcc.clocks.sys_clk().0, 2_097_152);
    assert_eq!(rcc.clocks.ahb_clk().0, 2_097_152);
    assert_eq!(rcc.clocks.apb1_clk().0, 2_097_152);
    assert_eq!(rcc.clocks.apb1_tim_clk().0, 2_097_152);
    assert_eq!(rcc.clocks.apb2_tim_clk().0, 2_097_152);
    assert_eq!(setup.msi_range, Some(5));
    assert_eq!(setup.sw, 0);
    assert_eq!(setup.pll, None);
}

#[test]
fn msi_ranges_double_from_65536() {
    let ranges = [
        (MSIRange::Range0, 65_536),
        (MSIRange::Range1, 131_072),
        (MSIRange::Range2, 262_144),
        (MSIRange::Range3, 524_288),
        (MSIRange::Range4, 1_048_576),
        (MSIRange::Range5, 2_097_152),
        (MSIRange::Range6, 4_194_304),
    ];
    for (range, freq) in ranges.iter() {
        let (rcc, _) = freeze(Config::msi(*range));
        assert_eq!(rcc.clocks.sys_clk().0, *freq);
    }
}

#[test]
fn hsi16_with_prescalers() {
    let config = Config::hsi16()
        .ahb_pre(AHBPrescaler::Div2)
        .apb1_pre(APBPrescaler::Div4)
        .apb2_pre(APBPrescaler::NotDivided);
    let (rcc, setup) = freeze(config);
    assert_eq!(rcc.clocks.sys_clk().0, 16_000_000);
    assert_eq!(rcc.clocks.ahb_clk().0, 8_000_000);
    assert_eq!(rcc.clocks.apb1_clk().0, 2_000_000);
    // A divided APB bus clocks its timers at twice its frequency.
    assert_eq!(rcc.clocks.apb1_tim_clk().0, 4_000_000);
    assert_eq!(rcc.clocks.apb2_clk().0, 8_000_000);
    assert_eq!(rcc.clocks.apb2_tim_clk().0, 8_000_000);
    assert_eq!(setup.sw, 1);
    assert_eq!(setup.hsi16_div4, Some(false));
    assert_eq!(setup.hpre, 0b1000);
    assert_eq!(setup.ppre1, 0b101);
    assert_eq!(setup.ppre2, 0);
}

#[test]
fn pll_from_hsi16_gives_32_mhz() {
    let config = Config::pll(PLLSource::HSI16(HSI16Div::Div1), PLLMul::Mul4, PLLDiv::Div2);
    let (rcc, setup) = freeze(config);
    assert_eq!(rcc.clocks.sys_clk().0, 32_000_000);
    assert_eq!(setup.sw, 3);
    let pll = setup.pll.unwrap();
    assert_eq!(pll.mul, 1);
    assert_eq!(pll.div, 1);
    assert!(!pll.src_hse);
    assert_eq!(setup.hsi16_div4, Some(false));
    assert!(!setup.hse_on);
}

#[test]
fn pll_from_hse_and_hse_alone() {
    let config = Config::pll(PLLSource::HSE(Hertz(8_000_000)), PLLMul::Mul12, PLLDiv::Div3);
    let (rcc, setup) = freeze(config);
    assert_eq!(rcc.clocks.sys_clk().0, 32_000_000);
    assert!(setup.hse_on);
    assert!(setup.pll.unwrap().src_hse);

    let (rcc, setup) = freeze(Config::hse(Hertz(12_000_000)));
    assert_eq!(rcc.clocks.sys_clk().0, 12_000_000);
    assert_eq!(setup.sw, 2);
    assert!(setup.hse_on);
}

#[test]
fn hsi16_divided_by_four() {
    let config = Config::default().clock_src(ClockSrc::HSI16(HSI16Div::Div4));
    let (rcc, setup) = freeze(config);
    assert_eq!(rcc.clocks.sys_clk().0, 4_000_000);
    assert_eq!(setup.hsi16_div4, Some(true));
}

#[test]
fn lse_and_hsi48_and_mco() {
    let (mut rcc, _) = freeze(Config::hsi16());
    let pwr = stm32l0xx_hal::pwr::PWR::new(0);
    let (csr, _lse) = rcc.enable_lse(0, &pwr);
    assert_eq!(csr, 1 << 8);
    assert!(!lse_ready(csr));
    assert!(lse_ready(csr | (1 << 9)));

    let mut syscfg = stm32l0xx_hal::syscfg::SYSCFG::new(stm32l0xx_hal::syscfg::SyscfgRegisters {
        exticr1: 0,
        exticr2: 0,
        exticr3: 0,
        exticr4: 0,
    });
    let (setup, _hsi48) = rcc.enable_hsi48(&mut syscfg, 0x2000, 0, 0, 0);
    assert_eq!(setup.crs_cfgr, (0x2022_BB7F & !(0b11 << 28)) | (0b01 << 28));
    assert_eq!(setup.crs_cr, 0x2000 | (1 << 6) | (1 << 5));
    assert_eq!(setup.cfgr3, (1 << 13) | 1);
    assert_eq!(setup.ccipr, 1 << 26);
    assert_eq!(setup.crrcr, 1);
    assert!(hsi48_ready(0b10));
    assert!(!hsi48_ready(0b01));

    let (cfgr, _mco) = rcc.configure_mco(0xffff_ffff, MCOSEL::HSI16, MCOPRE::DIV4);
    assert_eq!(cfgr, (0xffff_ffff & !(0xf << 24) & !(0x7 << 28)) | (2 << 24) | (2 << 28));
}

#[test]
fn bus_bits_of_peripherals() {
    assert_eq!(enable::<GPIOB>(0), 0b10);
    assert_eq!(<GPIOB as RccBus>::bus(), Bus::IOP);
    assert_eq!(enable::<I2C3>(0), 1 << 30);
    assert_eq!(disable::<TIM21>(0xffff_ffff), 0xffff_ffff & !(1 << 2));
    assert!(is_enabled::<USART2>(1 << 17));
    assert!(!is_enabled::<USART2>(1 << 18));
    assert_eq!(reset::<stm32l0xx_hal::aes::AES>(0), (1 << 24, 0));
    // Enabling then disabling a disabled peripheral restores the register.
    let enr = 0x1234_0000;
    assert_eq!(disable::<TIM21>(enable::<TIM21>(enr)), enr);
}

#[test]
fn freeze_steps_in_order() {
    let config = Config::pll(PLLSource::HSE(Hertz(8_000_000)), PLLMul::Mul12, PLLDiv::Div3);
    let (_, setup) = freeze(config);
    let pll = setup.pll.unwrap();
    assert_eq!(
        setup.ops(),
        vec![
            RccOp::EnableHse,
            RccOp::WaitHseReady,
            RccOp::DisablePll,
            RccOp::WaitPllStopped,
            RccOp::ConfigurePll(pll),
            RccOp::EnablePll,
            RccOp::WaitPllReady,
            RccOp::Switch { sw: 3, hpre: 0, ppre1: 0, ppre2: 0 },
        ]
    );
    let (_, setup) = freeze(Config::default());
    assert_eq!(
        setup.ops(),
        vec![
            RccOp::MsiRange(5),
            RccOp::EnableMsi,
            RccOp::WaitMsiReady,
            RccOp::Switch { sw: 0, hpre: 0, ppre1: 0, ppre2: 0 },
        ]
    );
    let (_, setup) = freeze(Config::hsi16());
    assert_eq!(
        setup.ops(),
        vec![
            RccOp::EnableHsi16(false),
            RccOp::WaitHsi16Ready,
            RccOp::Switch { sw: 1, hpre: 0, ppre1: 0, ppre2: 0 },
        ]
    );
}

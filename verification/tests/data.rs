use stm32l0xx_hal::adc::{Adc, AdcOp, Align, Channels, Precision, ReadStep, SampleTime, Trigger};
use stm32l0xx_hal::aes::{self, Mode, AES};
use stm32l0xx_hal::dma::{self, Priority, DMA};
use stm32l0xx_hal::encoder::{self, Direction, Encoder, PinCh1, PinCh2};
use stm32l0xx_hal::gpio::{Analog, Pin, Port};
use stm32l0xx_hal::i2c::{self, Action, WriteRead};
use stm32l0xx_hal::rcc::{freeze, Config};
use stm32l0xx_hal::rng::Rng;
use stm32l0xx_hal::rtc::{self, DateTime, Interrupts, Rtc, RtcOp};
use stm32l0xx_hal::signature::device_id_hex;
use stm32l0xx_hal::time::Hertz;
use stm32l0xx_hal::usb::USB;

struct Ch1;
struct Ch2;

impl PinCh1<()> for Ch1 {
    fn into_alt_mode(self) {}
}
impl PinCh2<()> for Ch2 {
    fn into_alt_mode(self) {}
}

#[test]
fn aes_blocks_pass_through_the_data_registers() {
    let block: [u8; 16] = [
        0x00, 0x01, 0x02, 0x03, 0x04, 0x05, 0x06, 0x07, 0x08, 0x09, 0x0a, 0x0b, 0x0c, 0x0d, 0x0e,
        0x0f,
    ];
    let aes = AES::new();
    assert_eq!(aes.cr(), (1 << 12) | (1 << 11));
    let (mut stream, steps) = aes.enable(<dyn Mode>::ecb_encrypt(), [1, 2, 3, 4]);
    assert_eq!(steps.key, [1, 2, 3, 4]);
    assert!(steps.derive_key.is_none());
    assert!(steps.init_vector.is_none());
    assert_eq!(steps.cr, (1 << 12) | (1 << 11) | (0b10 << 1) | 1);
    let words = stream.tx.write(&block);
    // The last four bytes go first, each group as a little-endian word.
    assert_eq!(words, [0x0f0e0d0c, 0x0b0a0908, 0x07060504, 0x03020100]);
    assert_eq!(stream.rx.read(words), block);
    assert_eq!(stream.tx.check(0), Ok(()));
    assert_eq!(stream.tx.check(1 << 2), Err(aes::Error::Busy));
    assert!(!stream.rx.is_ready(0));
    assert!(stream.rx.is_ready(1));
    assert_eq!(stream.clear_ccf(), steps.cr | (1 << 7));
    let aes = stream.disable();
    assert_eq!(aes.cr(), steps.cr & !1);
}

#[test]
fn aes_modes_select_chaining_and_vectors() {
    let (_, steps) = AES::new().enable(<dyn Mode>::cbc_decrypt([10, 11, 12, 13]), [0; 4]);
    let base = (1 << 12) | (1 << 11);
    assert_eq!(steps.derive_key, Some((base | (0b01 << 3), base | (0b01 << 3) | 1)));
    assert_eq!(steps.init_vector, Some([10, 11, 12, 13]));
    assert_eq!(steps.cr, base | (0b01 << 5) | (0b10 << 3) | (0b10 << 1) | 1);

    let (_, steps) = AES::new().enable(<dyn Mode>::ctr([7, 8, 9]), [0; 4]);
    assert_eq!(steps.init_vector, Some([7, 8, 9, 1]));
    assert!(steps.derive_key.is_none());
    assert_eq!(steps.cr, base | (0b10 << 5) | (0b10 << 1) | 1);

    let (_, steps) = AES::new().enable(<dyn Mode>::ecb_decrypt(), [0; 4]);
    assert!(steps.derive_key.is_some());
    assert_eq!(steps.cr, base | (0b10 << 3) | (0b10 << 1) | 1);

    let (_, steps) = AES::new().enable(<dyn Mode>::cbc_encrypt([1, 1, 1, 1]), [0; 4]);
    assert!(steps.derive_key.is_none());
    assert_eq!(steps.cr, base | (0b01 << 5) | (0b10 << 1) | 1);
}

#[test]
fn dma_channel_setup() {
    let mut dma = DMA::new();
    assert_eq!(dma.handle.cselr(), 0);
    let channels = dma::Channels::new();
    let (mut adc, _config, setup, ccr, _) = Adc::new(()).0.start(
        Channels::from_channel(1),
        None,
        &mut dma.handle,
        channels.channel2,
        (),
        8,
        0x2000_0100,
        0x4001_2440,
    );
    // The ADC is request 0 on channel 2.
    assert_eq!(dma.handle.cselr(), 0);
    assert_eq!(setup.par, 0x4001_2440);
    assert_eq!(setup.mar, 0x2000_0100);
    assert_eq!(setup.ndtr, 8);
    // Half-word transfers at high priority, memory incremented, circular,
    // from the peripheral.
    assert_eq!(setup.ccr, (1 << 10) | (1 << 8) | (2 << 12) | (1 << 7) | (1 << 5));
    assert_eq!(ccr, setup.ccr | 1);
    let permit = adc.read_available(false).0.ok().unwrap();
    match adc.begin_read(&permit, 8, false, false) {
        ReadStep::Done(None) => {}
        _ => panic!("buffer should be empty"),
    }
    let _ = Priority::low();
}

#[test]
fn dma_request_selection() {
    let mut dma = DMA::new();
    let channels = dma::Channels::new();
    let (_stream, _) = AES::new().enable(<dyn Mode>::ecb_encrypt(), [0; 4]);
    let (stream, _) = AES::new().enable(<dyn Mode>::ecb_encrypt(), [0; 4]);
    let aes::Stream { tx, rx, .. } = stream;
    let (_t, setup) = tx.write_all(&mut dma.handle, (), 32, 0x2000_0000, channels.channel1);
    assert_eq!(dma.handle.cselr() & 0xf, 11);
    assert_eq!(setup.par, aes::DINR_ADDRESS);
    assert_eq!(setup.ndtr, 8);
    assert_eq!(setup.ccr, (2 << 10) | (2 << 8) | (2 << 12) | (1 << 7) | (1 << 4));
    let (_t, setup) = rx.read_all(&mut dma.handle, (), 16, 0x2000_0040, channels.channel3);
    assert_eq!((dma.handle.cselr() >> 8) & 0xf, 11);
    assert_eq!(setup.par, aes::DOUTR_ADDRESS);
    assert_eq!(setup.ndtr, 4);
    assert_eq!(setup.ccr, (2 << 10) | (2 << 8) | (3 << 12) | (1 << 7));
}

#[test]
fn adc_configuration_and_one_shot() {
    let (mut adc, regulator) = Adc::new(());
    adc.set_precision(Precision::B_6);
    adc.set_align(Align::Left);
    adc.set_sample_time(SampleTime::T_160_5);
    let mut channels = Channels::new();
    channels.add(3);
    channels.add(17);
    let config = adc.configuration(&channels, false, Some(Trigger::TIM2_TRGO));
    assert_eq!(config.chselr, (1 << 3) | (1 << 17));
    assert!(config.align_left);
    assert!(!config.cont);
    assert_eq!(config.res, 0b11);
    assert_eq!(config.smp, 0b111);
    assert_eq!(config.extsel, Some(0b010));
    assert_eq!(adc.one_shot_value(0x2a), 0x2a00);
    adc.set_align(Align::Right);
    assert_eq!(adc.one_shot_value(0x2a), 0x2a);
    assert_eq!(Channels::from_channel(5).flags(), 1 << 5);
    assert_eq!(regulator, AdcOp::CrSet(1 << 28));
    // One conversion of channel 5: power up, configure (6 bits, left
    // aligned, single, circular DMA requests), start, wait for the end.
    assert_eq!(
        adc.one_shot(5),
        vec![
            AdcOp::IsrSet(1),
            AdcOp::CrSet(1),
            AdcOp::WaitIsrSet(0),
            AdcOp::Cfgr1((0b11 << 3) | 0b11),
            AdcOp::SmprSmp(0b111),
            AdcOp::Chselr(1 << 5),
            AdcOp::IsrSet(1 << 3),
            AdcOp::CrSet(1 << 2),
            AdcOp::WaitIsrSet(3),
        ]
    );
    assert_eq!(adc.power_down(), vec![AdcOp::CrSet(1 << 1), AdcOp::IsrSet(1), AdcOp::WaitCrClear(0)]);
    let () = adc.release();
}

#[test]
fn adc_circular_buffer_reads() {
    let mut dma = DMA::new();
    let channels = dma::Channels::new();
    let (mut adc, config, _, _, ops) = Adc::new(()).0.start(
        Channels::from_channel(0),
        None,
        &mut dma.handle,
        channels.channel1,
        (),
        4,
        0x2000_0000,
        0x4001_2440,
    );
    assert!(config.cont);
    // Continuous conversions with circular DMA requests.
    assert_eq!(ops[3], AdcOp::Cfgr1((1 << 13) | 0b11));
    assert_eq!(ops[7], AdcOp::CrSet(1 << 2));
    assert_eq!(ops.len(), 8);
    assert!(adc.read_available(true).0.is_err());
    let permit = adc.read_available(false).0.ok().unwrap();
    // Nothing converted yet: 4 values remain to be written.
    match adc.begin_read(&permit, 4, false, false) {
        ReadStep::Done(None) => {}
        _ => panic!("buffer should be empty"),
    }
    // Two values written: the first is read at position 0.
    match adc.begin_read(&permit, 2, false, false) {
        ReadStep::ReadAt(0) => {}
        _ => panic!("value expected at position 0"),
    }
    assert_eq!(adc.finish_read(123, 2, false, false).ok(), Some(123));
    match adc.begin_read(&permit, 2, false, false) {
        ReadStep::ReadAt(1) => {}
        _ => panic!("value expected at position 1"),
    }
    assert_eq!(adc.finish_read(456, 2, false, false).ok(), Some(456));
    match adc.begin_read(&permit, 2, false, false) {
        ReadStep::Done(None) => {}
        _ => panic!("buffer should be empty again"),
    }
}

#[test]
fn i2c_write_read_transaction() {
    let (mut t, cr2) = WriteRead::new(0x42, 2, 1);
    assert_eq!(cr2, (1 << 13) | (2 << 16) | 0x84);
    assert_eq!(t.step(0), Action::Wait);
    assert_eq!(t.step(1 << 1), Action::Send(0));
    assert_eq!(t.step(1 << 1), Action::Send(1));
    assert_eq!(t.step(1 << 1), Action::Wait);
    assert_eq!(
        t.step(1 << 6),
        Action::Restart((1 << 13) | (1 << 16) | 0x84 | (1 << 10) | (1 << 25))
    );
    assert_eq!(t.step(1 << 2), Action::Receive(0));
    assert_eq!(t.step(0), Action::Done);

    let (mut t, _) = WriteRead::new(0x10, 1, 1);
    assert_eq!(t.step(1 << 4), Action::Fail(i2c::Error::Nack, (1 << 5) | (1 << 4), true));
    assert_eq!(t.step(1 << 1), Action::Done);
    assert_eq!(i2c::busy_wait(1 << 8, 1), i2c::Wait::Fail(i2c::Error::BusError, 1 << 8, false));
    assert_eq!(i2c::busy_wait(1 << 9, 1), i2c::Wait::Fail(i2c::Error::ArbitrationLost, 1 << 9, false));
    assert_eq!(i2c::busy_wait((1 << 9) | (1 << 1), 1), i2c::Wait::Ready);
}

#[test]
fn rtc_set_and_read_back() {
    let init = DateTime { year: 2021, month: 3, day: 14, hour: 15, minute: 9, second: 26 };
    let mut rtc = match Rtc::new(Hertz(16_000_000), false, Some(init), 0, 0, 0) {
        Ok((rtc, _)) => rtc,
        Err(_) => panic!("date refused"),
    };
    assert_eq!(rtc.tr(), 0x15_09_26);
    assert_eq!(rtc.dr(), 0x21_03_14);
    assert_eq!(rtc.prer(), rtc::PRER_1HZ);
    let (tr, dr) = (rtc.tr(), rtc.dr());
    assert_eq!(rtc.now(tr, dr).0, init);
    // Reads agree at once with a fast bus clock.
    assert!(rtc.reads_agree(tr, dr, tr + 1, dr));

    let later = DateTime { year: 2099, month: 12, day: 31, hour: 23, minute: 59, second: 59 };
    assert!(rtc.set(later).is_ok());
    let (tr, dr) = (rtc.tr(), rtc.dr());
    assert_eq!(rtc.now(tr, dr).0, later);
    let bad = DateTime { year: 2100, month: 1, day: 1, hour: 0, minute: 0, second: 0 };
    assert_eq!(rtc.set(bad), Err(rtc::Error::InvalidInputData));
    assert_eq!(rtc.tr(), tr);
    let bad = DateTime { year: 2000, month: 1, day: 1, hour: 0, minute: 0, second: 0 };
    assert_eq!(rtc.set(bad), Err(rtc::Error::InvalidInputData));

    // A slow bus clock asks for two equal reads.
    let slow = match Rtc::new(Hertz(131_072), true, None, tr, dr, 0) {
        Ok((rtc, _)) => rtc,
        Err(_) => panic!("refused"),
    };
    assert_eq!(slow.tr(), tr);
    assert!(!slow.reads_agree(tr, dr, tr + 1, dr));
    assert!(slow.reads_agree(tr, dr, tr, dr));
}

#[test]
fn rtc_interrupts_and_wakeup_timer() {
    let mut rtc = match Rtc::new(Hertz(16_000_000), false, None, 0, 0, 0) {
        Ok((rtc, _)) => rtc,
        Err(_) => panic!("refused"),
    };
    let (tr, dr) = (rtc.tr(), rtc.dr());
    assert_eq!(rtc.now(tr, dr).0, DateTime { year: 2001, month: 1, day: 1, hour: 0, minute: 0, second: 0 });
    let mut irq = Interrupts::default();
    irq.wakeup_timer = true;
    irq.alarm_a = true;
    rtc.enable_interrupts(irq);
    assert_eq!(rtc.cr(), (1 << 14) | (1 << 12));
    let mut off = Interrupts::default();
    off.alarm_a = true;
    rtc.disable_interrupts(off);
    assert_eq!(rtc.cr(), 1 << 14);

    let mut timer = rtc.wakeup_timer();
    timer.start(10);
    assert_eq!(timer.rtc.wutr(), 9);
    assert_eq!(timer.rtc.cr() & 0b111, 0b100);
    assert_eq!(timer.rtc.cr() & (1 << 10), 1 << 10);
    timer.start(0x1_0005);
    assert_eq!(timer.rtc.wutr(), 4);
    assert_eq!(timer.rtc.cr() & 0b111, 0b110);
    assert!(!timer.wait(false).0);
    assert!(timer.wait(true).0);
    timer.cancel();
    assert_eq!(timer.rtc.cr() & (1 << 10), 0);
}

#[test]
fn encoder_status_and_registers() {
    let (mut enc, setup): (Encoder<(), (Ch1, Ch2)>, _) = Encoder::new((), (Ch1, Ch2), encoder::Mode::Qei, 1_000);
    assert_eq!(setup.cr1_disable, 0);
    assert_eq!(setup.smcr, (0b100 << 4) | 0b011);
    assert_eq!(setup.cr1_enable, 0b101);
    assert_eq!(setup.arr, 1_000);
    assert_eq!(enc.arr(), 1_000);
    assert_eq!(enc.set_arr(500), 500);
    assert_eq!(enc.arr(), 500);
    assert_eq!(enc.listen(), 1);
    assert_eq!(enc.listen_all(), (1, 1 << 6));
    let status = enc.status(1 << 4, 1, 0x1_0042);
    assert_eq!(status.direction, Direction::Down);
    assert!(status.did_overflow);
    assert_eq!(status.count, 0x42);
    let status = enc.status(0, 0, 7);
    assert_eq!(status.direction, Direction::Up);
    assert!(!status.did_overflow);
    assert_eq!(enc.clear_irq(), 0);
    let (_, setup): (Encoder<(), (Ch1, Ch2)>, _) = Encoder::new((), (Ch1, Ch2), encoder::Mode::CountTi2, 1);
    assert_eq!(setup.smcr & 0b111, 0b001);
    let (_, setup): (Encoder<(), (Ch1, Ch2)>, _) = Encoder::new((), (Ch1, Ch2), encoder::Mode::CountTi1, 1);
    assert_eq!(setup.smcr & 0b111, 0b010);
}

#[test]
fn rng_control_and_data() {
    let (mut rcc, _) = freeze(Config::hsi16());
    let mut syscfg = stm32l0xx_hal::syscfg::SYSCFG::new(stm32l0xx_hal::syscfg::SyscfgRegisters {
        exticr1: 0,
        exticr2: 0,
        exticr3: 0,
        exticr4: 0,
    });
    let (_, hsi48) = rcc.enable_hsi48(&mut syscfg, 0, 0, 0, 0);
    let mut rng = Rng::new(hsi48);
    assert_eq!(rng.cr(), 1 << 2);
    rng.disable();
    assert_eq!(rng.cr(), 0);
    rng.enable();
    assert_eq!(rng.cr(), 1 << 2);
    assert!(!rng.wait(0));
    assert!(rng.wait(1));
    assert_eq!(rng.take_result(0xdead_beef), 0xdead_beef);

    let dm: Pin<Analog> = Pin::new(Port::PA, 11);
    let dp: Pin<Analog> = Pin::new(Port::PA, 12);
    let (_, hsi48) = rcc.enable_hsi48(&mut syscfg, 0, 0, 0, 0);
    let _usb = USB::new(dm, dp, hsi48);
}

#[test]
fn device_id_as_hex_text() {
    let id = [0x00, 0x01, 0x7f, 0x80, 0xab, 0xcd, 0xef, 0x10, 0x32, 0x54, 0x76, 0xff];
    let hex = device_id_hex(&id);
    assert_eq!(&hex[..], b"00017f80abcdef10325476ff");
}

#[test]
fn rtc_new_keeps_a_running_calendar() {
    // A calendar that runs already keeps its registers; only the wakeup
    // timer is switched off.
    let cr = (1 << 10) | (1 << 14) | 0b100;
    let rtc = match Rtc::new(Hertz(16_000_000), true, None, 0x12_34_56, 0x21_06_30, cr) {
        Ok((rtc, _)) => rtc,
        Err(_) => panic!("refused"),
    };
    assert_eq!(rtc.tr(), 0x12_34_56);
    assert_eq!(rtc.dr(), 0x21_06_30);
    assert_eq!(rtc.cr(), (1 << 14) | 0b100);
    assert_eq!(rtc.wutr(), 0);

    // An initial date out of range is refused only when it is used.
    let bad = DateTime { year: 2100, month: 1, day: 1, hour: 0, minute: 0, second: 0 };
    assert!(Rtc::new(Hertz(16_000_000), true, Some(bad), 0, 0, 0).is_ok());
    assert_eq!(
        Rtc::new(Hertz(16_000_000), false, Some(bad), 0, 0, 0).err(),
        Some(rtc::Error::InvalidInputData)
    );
    // A fresh calendar starts with a cleared control register.
    let fresh = match Rtc::new(Hertz(16_000_000), false, None, 0, 0, cr) {
        Ok((rtc, _)) => rtc,
        Err(_) => panic!("refused"),
    };
    assert_eq!(fresh.cr(), 0);
}

#[test]
fn rtc_register_accesses_in_order() {
    let init = DateTime { year: 2021, month: 12, day: 31, hour: 23, minute: 59, second: 58 };
    let (mut rtc, ops) = match Rtc::new(Hertz(16_000_000), false, Some(init), 0, 0, 0) {
        Ok(v) => v,
        Err(_) => panic!("refused"),
    };
    // The calendar written under lifted write protection, the wakeup
    // timer cancelled, the synchronization flag cleared.
    assert_eq!(
        ops,
        vec![
            RtcOp::Wpr(0xCA), RtcOp::Wpr(0x53),
            RtcOp::IsrSet(7), RtcOp::WaitIsrSet(6), RtcOp::Cr(0), RtcOp::Prer(0x007f_00ff), RtcOp::Tr(0x23_59_58), RtcOp::Dr(0x21_12_31), RtcOp::IsrClear(7),
            RtcOp::Wpr(0xFF),
            RtcOp::Wpr(0xCA), RtcOp::Wpr(0x53), RtcOp::Cr(0), RtcOp::WaitIsrSet(2), RtcOp::IsrClear(10), RtcOp::Wpr(0xFF),
            RtcOp::IsrWrite(1 << 5),
        ]
    );
    assert_eq!(rtc.sync_wait(), RtcOp::WaitIsrSet(5));
    assert!(rtc.calendar_valid(0x23_59_58, 0x21_12_31));
    // 2021-02-29 does not exist.
    assert!(!rtc.calendar_valid(0, 0x21_02_29));
    assert!(rtc.calendar_valid(0, 0x24_02_29));
    let (now, ops) = rtc.now(0x23_59_58, 0x21_12_31);
    assert_eq!(now, init);
    assert_eq!(ops, vec![RtcOp::Wpr(0xCA), RtcOp::Wpr(0x53), RtcOp::IsrWrite(1 << 5), RtcOp::Wpr(0xFF)]);
    let mut irq = Interrupts::default();
    irq.alarm_a = true;
    assert_eq!(rtc.enable_interrupts(irq), vec![RtcOp::Wpr(0xCA), RtcOp::Wpr(0x53), RtcOp::Cr(1 << 12), RtcOp::Wpr(0xFF)]);
    let mut timer = rtc.wakeup_timer();
    assert_eq!(
        timer.start(2),
        vec![
            RtcOp::Wpr(0xCA), RtcOp::Wpr(0x53), RtcOp::Cr(1 << 12), RtcOp::WaitIsrSet(2), RtcOp::IsrClear(10), RtcOp::Wpr(0xFF),
            RtcOp::Wpr(0xCA), RtcOp::Wpr(0x53), RtcOp::Wutr(1), RtcOp::Cr((1 << 12) | (1 << 10) | 0b100), RtcOp::Wpr(0xFF),
            RtcOp::WaitIsrClear(2),
        ]
    );
    assert_eq!(timer.wait(true).1, vec![RtcOp::Wpr(0xCA), RtcOp::Wpr(0x53), RtcOp::IsrClear(10), RtcOp::Wpr(0xFF)]);
    assert!(timer.wait(false).1.is_empty());
    assert_eq!(
        timer.cancel(),
        vec![RtcOp::Wpr(0xCA), RtcOp::Wpr(0x53), RtcOp::Cr((1 << 12) | 0b100), RtcOp::WaitIsrSet(2), RtcOp::IsrClear(10), RtcOp::Wpr(0xFF)]
    );
    assert!(rtc::datetime_valid(DateTime { year: 2000, month: 2, day: 29, hour: 0, minute: 0, second: 0 }));
    assert!(!rtc::datetime_valid(DateTime { year: 2100, month: 2, day: 29, hour: 0, minute: 0, second: 0 }));
    assert!(!rtc::datetime_valid(DateTime { year: 2021, month: 4, day: 31, hour: 0, minute: 0, second: 0 }));
    assert!(!rtc::datetime_valid(DateTime { year: 2021, month: 1, day: 1, hour: 24, minute: 0, second: 0 }));
}

#[test]
fn rtc_clocked_from_the_lse() {
    // RTCSEL = 0b01 and RTCEN over the other bits of RCC_CSR.
    assert_eq!(rtc::rtc_clock_csr(0), (0b01 << 16) | (1 << 18));
    assert_eq!(rtc::rtc_clock_csr(0b11 << 16 | 0x100), (0b01 << 16) | (1 << 18) | 0x100);
}

#[test]
fn i2c_flush_after_nack() {
    assert_eq!(i2c::flush_txdr_data(1 << 1), Some(0));
    assert_eq!(i2c::flush_txdr_data(1), None);
    assert_eq!(i2c::flush_txdr_empty(1), Some(1));
    assert_eq!(i2c::flush_txdr_empty(1 << 1), None);
}

#[test]
fn rtc_bcd_decode_undoes_encode() {
    let b = rtc::bcd2_encode(59).unwrap();
    assert_eq!(b, rtc::Bcd2 { tens: 5, units: 9 });
    assert_eq!(rtc::bcd2_decode(b.tens, b.units), 59);
    for word in 0..=255u32 {
        let b = rtc::bcd2_encode(word).unwrap();
        assert_eq!(rtc::bcd2_decode(b.tens, b.units), word);
    }
    assert_eq!(rtc::bcd2_encode(2560), Err(rtc::Error::InvalidInputData));
}

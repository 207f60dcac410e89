use stm32l0xx_hal::adc::{self, Adc, Channels, ReadStep};
use stm32l0xx_hal::dma::{self, DMA};
use stm32l0xx_hal::gpio::{GpioRegisters, Input, Output, OpenDrain, PullDown, PullUp};
use stm32l0xx_hal::pwm::{self, ChannelRegisters, C1, C4};
use stm32l0xx_hal::serial::{self, Event, RxPin, Serial, TxPin};
use stm32l0xx_hal::spi::{self, Spi};
use stm32l0xx_hal::time::Hertz;

struct Port;
struct PinTx;
struct PinRx;
struct SpiPins;
struct ChannelPin;

impl TxPin<Port> for PinTx {
    fn setup(&self) {}
}
impl RxPin<Port> for PinRx {
    fn setup(&self) {}
}
impl spi::Pins<Port> for SpiPins {
    fn setup(&self) {}
}
impl pwm::Pin<(), C1> for ChannelPin {
    fn setup(&self) {}
}
impl pwm::Pin<(), C4> for ChannelPin {
    fn setup(&self) {}
}

fn serial_port() -> Serial<Port> {
    match Serial::new(Port, PinTx, PinRx, serial::Config::default(), 16_000_000, false) {
        Ok((serial, _)) => serial,
        Err(_) => panic!("configuration refused"),
    }
}

#[test]
fn serial_reception_errors_in_order() {
    let serial = serial_port();
    let (mut tx, mut rx) = serial.split();
    assert_eq!(rx.check_errors(0), Ok(()));
    assert_eq!(rx.check_errors(1 << 0), Err(serial::Error::Parity));
    assert_eq!(rx.check_errors(1 << 1), Err(serial::Error::Framing));
    assert_eq!(rx.check_errors(1 << 2), Err(serial::Error::Noise));
    assert_eq!(rx.check_errors(1 << 3), Err(serial::Error::Overrun));
    // Parity is reported first.
    assert_eq!(rx.check_errors(0b1111), Err(serial::Error::Parity));
    assert_eq!(rx.clear_errors(), 0b1111);
    assert_eq!(serial::Error::Overrun.clear_flag(), 1 << 3);
    assert_eq!(rx.read(1 << 5, 0x41), Ok(Some(0x41)));
    assert_eq!(rx.read(0, 0x41), Ok(None));
    assert_eq!(rx.read((1 << 5) | (1 << 1), 0x41), Err(serial::Error::Framing));
    assert!(rx.is_idle(1 << 4));
    assert_eq!(rx.clear_idle_interrupt(), 1 << 4);
    assert!(rx.is_rx_not_empty(1 << 5));
    assert!(tx.is_tx_empty(1 << 7));
    assert!(!tx.flush(0));
    assert!(tx.flush(1 << 6));
}

#[test]
fn serial_events_need_listening() {
    let mut serial = serial_port();
    assert_eq!(serial.pending_event(0xff), None);
    serial.listen(Event::Txe);
    assert_eq!(serial.cr1() & (1 << 7), 1 << 7);
    assert_eq!(serial.pending_event(1 << 7), Some(Event::Txe));
    serial.listen(Event::Rxne);
    // Reception comes first.
    assert_eq!(serial.pending_event((1 << 7) | (1 << 5)), Some(Event::Rxne));
    serial.unlisten(Event::Rxne);
    assert_eq!(serial.pending_event(1 << 5), None);
    serial.listen(Event::Idle);
    assert_eq!(serial.pending_event(1 << 4), Some(Event::Idle));
    // Listening changes only the interrupt enable bits.
    assert_eq!(serial.cr1() & 0b1101, 0b1101);
    // The low-power UART on the LSE at 9600 baud.
    assert_eq!(serial::lse_brr(), 873);
}

#[test]
fn spi_bus_errors_in_order() {
    let (mut spi, _) = Spi::new(Port, SpiPins, spi::mode_2(), Hertz(500_000), 16_000_000);
    assert_eq!(spi.read(1 << 6, 7), Err(spi::Error::Overrun));
    assert_eq!(spi.read(1 << 5, 7), Err(spi::Error::ModeFault));
    assert_eq!(spi.read(1 << 4, 7), Err(spi::Error::Crc));
    assert_eq!(spi.read((1 << 4) | (1 << 6), 7), Err(spi::Error::Overrun));
    assert_eq!(spi.read(1, 7), Ok(Some(7)));
    assert_eq!(spi.read(0, 7), Ok(None));
    assert!(spi.rx_not_empty(1));
    assert!(!spi.rx_not_empty(1 << 1));
    assert_eq!(spi.send(1 << 1), Ok(true));
    assert_eq!(spi.send(0), Ok(false));
    assert_eq!(spi.send(1 << 5), Err(spi::Error::ModeFault));
    let (_bus, _pins) = spi.free();
}

#[test]
fn adc_buffer_overrun() {
    let mut dma = DMA::new();
    let channels = dma::Channels::new();
    let (mut adc, _, _, _, _) = Adc::new(()).0.start(
        Channels::from_channel(0),
        None,
        &mut dma.handle,
        channels.channel1,
        (),
        4,
        0x2000_0000,
        0x4001_2440,
    );
    let permit = adc.read_available(false).0.ok().unwrap();
    // The write position wrapped around past the read position: overrun.
    match adc.begin_read(&permit, 4, true, true) {
        ReadStep::Done(Some(Err(adc::Error::BufferOverrun))) => {}
        _ => panic!("overrun expected"),
    }
    // After an overrun the buffer starts over empty.
    match adc.begin_read(&permit, 4, false, false) {
        ReadStep::Done(None) => {}
        _ => panic!("empty buffer expected"),
    }
    let (result, ops) = adc.read_available(true);
    assert_eq!(result.err(), Some(adc::Error::AdcOverrun));
    // The overrun flag is cleared.
    assert_eq!(ops, vec![adc::AdcOp::IsrWrite(1 << 4)]);
    assert!(adc.read_available(false).1.is_empty());
}

#[test]
fn gpio_pull_and_drain_modes() {
    let mut regs = GpioRegisters { moder: 0xffff_ffff, otyper: 0, ospeedr: 0, pupdr: 0, afrl: 0, afrh: 0 };
    regs.set_mode::<Input<PullUp>>(1);
    assert_eq!((regs.pupdr >> 2) & 0b11, 0b01);
    assert_eq!((regs.moder >> 2) & 0b11, 0b00);
    regs.set_mode::<Input<PullDown>>(2);
    assert_eq!((regs.pupdr >> 4) & 0b11, 0b10);
    regs.set_mode::<Output<OpenDrain>>(3);
    assert_eq!((regs.otyper >> 3) & 1, 1);
    assert_eq!((regs.moder >> 6) & 0b11, 0b01);
    assert_eq!(regs.moder & 0b11, 0b11);
}

#[test]
fn pwm_channels_enable_and_disable() {
    let (timer, _) = pwm::Timer::new((), Hertz(1_000), 16_000_000);
    let mut regs = ChannelRegisters { ccmr1: 0, ccmr2: 0, ccer: 0 };
    let mut ch1 = timer.channel1.assign(ChannelPin);
    ch1.enable(&mut regs);
    assert_eq!(regs.ccmr1, (0b110 << 4) | (1 << 3));
    assert_eq!(regs.ccer, 1);
    let mut ch4 = timer.channel4.assign(ChannelPin);
    ch4.enable(&mut regs);
    assert_eq!(regs.ccmr2, (0b110 << 12) | (1 << 11));
    assert_eq!(regs.ccer, 1 | (1 << 12));
    assert_eq!(ch1.set_frequency(Hertz(1), 16_000_000), (244, 65306));
    ch1.disable(&mut regs);
    assert_eq!(regs.ccer, 1 << 12);
    assert_eq!(regs.ccmr1, (0b110 << 4) | (1 << 3));
}

#[test]
fn serial_switch_to_lse() {
    let mut serial = serial_port();
    let (mut rcc, _) = stm32l0xx_hal::rcc::freeze(stm32l0xx_hal::rcc::Config::hsi16());
    let pwr = stm32l0xx_hal::pwr::PWR::new(0);
    let (_, lse) = rcc.enable_lse(0, &pwr);
    serial.listen(Event::Rxne);
    let switch = serial.use_lse(0xffff_ffff, &lse);
    assert_eq!(switch.ccipr, 0xffff_ffff);
    assert_eq!(serial.use_lse(0, &lse).ccipr, 0b11 << 10);
    // The transmitter goes off first, then the whole port.
    assert_eq!(switch.cr1_tx_off, (0b1101 | (1 << 5)) & !(1 << 3));
    assert_eq!(switch.cr1_off, switch.cr1_tx_off & !1);
    assert_eq!(switch.brr, 873);
    assert!(serial.tx_complete(1 << 6));
    assert!(!serial.tx_complete(1 << 7));
    // The port restarts with transmitter and receiver, interrupts off.
    assert_eq!(switch.cr1, 0b1101);
    assert_eq!(serial.cr1(), 0b1101);
}

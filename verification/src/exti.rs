//! External interrupt controller (EXTI).
use vstd::prelude::*;

use crate::bits::{disjoint, field, lemma_low_masks, write_field};
use crate::gpio;
use crate::syscfg::{SYSCFG, SyscfgRegisters};

verus! {

/// Edges that can trigger a configurable interrupt line.
#[derive(Debug, Copy, Clone, PartialEq, Eq, Structural)]
pub enum TriggerEdge {
    /// Trigger on rising edges only.
    Rising,
    /// Trigger on falling edges only.
    Falling,
    /// Trigger on both rising and falling edges.
    Both,
}

/// The NVIC interrupts that EXTI lines feed.
#[derive(Debug, Copy, Clone, PartialEq, Eq, Structural)]
pub enum Interrupt {
    EXTI0_1,
    EXTI2_3,
    EXTI4_15,
    PVD,
    RTC,
    ADC_COMP,
    USB,
    I2C1,
    I2C3,
    USART1,
    USART2,
    AES_RNG_LPUART1,
    LPTIM1,
}

/// The EXTI registers that the HAL configures, as plain values.
#[derive(Debug, Copy, Clone, PartialEq, Eq, Structural)]
pub struct ExtiRegisters {
    /// Interrupt mask register
    pub imr: u32,
    /// Rising trigger selection register
    pub rtsr: u32,
    /// Falling trigger selection register
    pub ftsr: u32,
}

/// Higher-lever wrapper around the `EXTI` peripheral.
pub struct Exti {
    raw: ExtiRegisters,
}

/// The edge selection registers after selecting `edge` for the lines in
/// `bm`: the chosen edges are set, and an edge not chosen is cleared, so that
/// `Rising` triggers on rising edges only and `Falling` on falling edges only.
pub open spec fn with_edge(rtsr: u32, ftsr: u32, bm: u32, edge: TriggerEdge) -> (u32, u32) {
    match edge {
        TriggerEdge::Rising => (rtsr | bm, ftsr & !bm),
        TriggerEdge::Falling => (rtsr & !bm, ftsr | bm),
        TriggerEdge::Both => (rtsr | bm, ftsr | bm),
    }
}

/// The port number that the EXTI configuration registers use for `port`.
pub open spec fn port_bits(port: gpio::Port) -> u32 {
    match port {
        gpio::Port::PA => 0,
        gpio::Port::PB => 1,
        gpio::Port::PC => 2,
        gpio::Port::PD => 3,
        gpio::Port::PE => 4,
        gpio::Port::PH => 5,
    }
}

/// The GPIO port that EXTI line `line` (`0..=15`) is connected to,
/// according to the configuration registers.
pub open spec fn line_port(regs: SyscfgRegisters, line: u32) -> u32 {
    let off = (4 * (line % 4)) as u32;
    if line < 4 {
        field(regs.exticr1, off, 4)
    } else if line < 8 {
        field(regs.exticr2, off, 4)
    } else if line < 12 {
        field(regs.exticr3, off, 4)
    } else {
        field(regs.exticr4, off, 4)
    }
}

/// Port H only has lines 0, 1, 9 and 10.
pub open spec fn gpio_line_ok(port: gpio::Port, line: u8) -> bool {
    port == gpio::Port::PH ==> (line < 2 || line == 9 || line == 10)
}

/// Whether port `port` has a line `line` that can be routed to the EXTI
/// (see [`gpio_line_ok`]).
pub fn gpio_line_valid(port: gpio::Port, line: u8) -> (r: bool)
    ensures
        r == gpio_line_ok(port, line),
{
    match port {
        gpio::Port::PH => line < 2 || line == 9 || line == 10,
        _ => true,
    }
}

impl Exti {
    /// The register contents.
    pub closed spec fn spec_raw(&self) -> ExtiRegisters {
        self.raw
    }

    /// Creates a new `Exti` wrapper from the raw `EXTI` register contents.
    pub fn new(raw: ExtiRegisters) -> (r: Self)
        ensures
            r.spec_raw() == raw,
    {
        Self { raw }
    }

    /// The register contents to write.
    pub fn registers(&self) -> (r: ExtiRegisters)
        ensures
            r == self.spec_raw(),
    {
        self.raw
    }

    /// Destroys this `Exti` instance, returning the raw register contents.
    pub fn release(self) -> (r: ExtiRegisters)
        ensures
            r == self.spec_raw(),
    {
        self.raw
    }

    fn listen_edges(&mut self, bm: u32, edge: TriggerEdge)
        ensures
            (final(self).spec_raw().rtsr, final(self).spec_raw().ftsr) == with_edge(
                old(self).spec_raw().rtsr,
                old(self).spec_raw().ftsr,
                bm,
                edge,
            ),
            final(self).spec_raw().imr == old(self).spec_raw().imr | bm,
    {
        match edge {
            TriggerEdge::Rising => {
                self.raw.rtsr = self.raw.rtsr | bm;
                self.raw.ftsr = self.raw.ftsr & !bm;
            },
            TriggerEdge::Falling => {
                self.raw.rtsr = self.raw.rtsr & !bm;
                self.raw.ftsr = self.raw.ftsr | bm;
            },
            TriggerEdge::Both => {
                self.raw.rtsr = self.raw.rtsr | bm;
                self.raw.ftsr = self.raw.ftsr | bm;
            },
        }
        self.raw.imr = self.raw.imr | bm;
    }

    /// Starts listening on a GPIO interrupt line.
    ///
    /// GPIO interrupt lines are "configurable" lines, meaning that the edges
    /// that should trigger the interrupt can be configured. However, they
    /// require more setup than ordinary "configurable" lines: the line is
    /// connected to `port` in the SYSCFG configuration registers.
    pub fn listen_gpio(
        &mut self,
        syscfg: &mut SYSCFG,
        port: gpio::Port,
        line: GpioLine,
        edge: TriggerEdge,
    )
        requires
            gpio_line_ok(port, line.spec_raw_line()),
        ensures
            ({
                let l = line.spec_raw_line();
                let bm = 1u32 << l;
                &&& line_port(final(syscfg).syscfg, l as u32) == port_bits(port)
                &&& forall|k: u32|
                    k < 16 && k != l ==> line_port(final(syscfg).syscfg, k) == line_port(
                        old(syscfg).syscfg,
                        k,
                    )
                &&& (final(self).spec_raw().rtsr, final(self).spec_raw().ftsr) == with_edge(
                    old(self).spec_raw().rtsr,
                    old(self).spec_raw().ftsr,
                    bm,
                    edge,
                )
                &&& final(self).spec_raw().imr == old(self).spec_raw().imr | bm
            }),
            // The same on the registers themselves: the port's number goes
            // to the four bits of the line in EXTICR1 for lines 0 to 3,
            // EXTICR2 for 4 to 7, EXTICR3 for 8 to 11 and EXTICR4 for 12 to
            // 15; the other three registers stay as they were.
            ({
                let l = line.spec_raw_line();
                let off = (4 * (l % 4)) as u32;
                let p = port_bits(port);
                let o = old(syscfg).syscfg;
                let f = final(syscfg).syscfg;
                &&& l < 4 ==> field(f.exticr1, off, 4) == p && f.exticr2 == o.exticr2 && f.exticr3
                    == o.exticr3 && f.exticr4 == o.exticr4
                &&& 4 <= l < 8 ==> field(f.exticr2, off, 4) == p && f.exticr1 == o.exticr1
                    && f.exticr3 == o.exticr3 && f.exticr4 == o.exticr4
                &&& 8 <= l < 12 ==> field(f.exticr3, off, 4) == p && f.exticr1 == o.exticr1
                    && f.exticr2 == o.exticr2 && f.exticr4 == o.exticr4
                &&& 12 <= l < 16 ==> field(f.exticr4, off, 4) == p && f.exticr1 == o.exticr1
                    && f.exticr2 == o.exticr2 && f.exticr3 == o.exticr3
            }),
    {
        proof {
            lemma_low_masks();
        }
        let line = line.raw_line();
        let port_bm: u32 = match port {
            gpio::Port::PA => 0,
            gpio::Port::PB => 1,
            gpio::Port::PC => 2,
            gpio::Port::PD => 3,
            gpio::Port::PE => 4,
            gpio::Port::PH => 5,
        };
        let off: u32 = 4 * (line as u32 % 4);
        let ghost old_regs = syscfg.syscfg;
        if line < 4 {
            syscfg.syscfg.exticr1 = write_field(syscfg.syscfg.exticr1, off, 4, port_bm);
        } else if line < 8 {
            syscfg.syscfg.exticr2 = write_field(syscfg.syscfg.exticr2, off, 4, port_bm);
        } else if line < 12 {
            syscfg.syscfg.exticr3 = write_field(syscfg.syscfg.exticr3, off, 4, port_bm);
        } else {
            syscfg.syscfg.exticr4 = write_field(syscfg.syscfg.exticr4, off, 4, port_bm);
        }
        assert forall|k: u32| k < 16 && k != line implies line_port(syscfg.syscfg, k) == line_port(
            old_regs,
            k,
        ) by {
            assert(k / 4 != line / 4 ==> true);
            assert(k / 4 == line / 4 ==> disjoint(off, 4, (4 * (k % 4)) as u32, 4));
        }
        let bm: u32 = 1u32 << line;
        self.listen_edges(bm, edge);
    }

    /// Starts listening on a configurable interrupt line.
    ///
    /// The edges that should trigger the interrupt can be configured with
    /// `edge`.
    pub fn listen_configurable(&mut self, line: ConfigurableLine, edge: TriggerEdge)
        ensures
            ({
                let bm = 1u32 << line.spec_raw_line();
                &&& (final(self).spec_raw().rtsr, final(self).spec_raw().ftsr) == with_edge(
                    old(self).spec_raw().rtsr,
                    old(self).spec_raw().ftsr,
                    bm,
                    edge,
                )
                &&& final(self).spec_raw().imr == old(self).spec_raw().imr | bm
            }),
    {
        let bm: u32 = 1u32 << line.raw_line();
        self.listen_edges(bm, edge);
    }

    /// Starts listening on a "direct" interrupt line.
    pub fn listen_direct(&mut self, line: DirectLine)
        ensures
            final(self).spec_raw().imr == old(self).spec_raw().imr | (1u32 << line.spec_raw_line()),
            final(self).spec_raw().rtsr == old(self).spec_raw().rtsr,
            final(self).spec_raw().ftsr == old(self).spec_raw().ftsr,
    {
        let bm: u32 = 1u32 << line.raw_line();
        self.raw.imr = self.raw.imr | bm;
    }

    /// Disables the interrupt on `line`.
    pub fn unlisten<L: ExtiLine>(&mut self, line: L)
        ensures
            ({
                let bm = 1u32 << line.spec_raw_line();
                &&& final(self).spec_raw().imr == old(self).spec_raw().imr & !bm
                &&& final(self).spec_raw().rtsr == old(self).spec_raw().rtsr & !bm
                &&& final(self).spec_raw().ftsr == old(self).spec_raw().ftsr & !bm
            }),
    {
        let bm: u32 = 1u32 << line.raw_line();
        self.raw.imr = self.raw.imr & !bm;
        self.raw.rtsr = self.raw.rtsr & !bm;
        self.raw.ftsr = self.raw.ftsr & !bm;
    }

    /// The value that, written to the software interrupt event register,
    /// marks `line` as "pending".
    pub fn pend<L: ExtiLine>(line: L) -> (r: u32)
        ensures
            r == 1u32 << line.spec_raw_line(),
    {
        1u32 << line.raw_line()
    }

    /// The value that, written to the pending register, marks `line` as "not
    /// pending".
    pub fn unpend<L: ExtiLine>(line: L) -> (r: u32)
        ensures
            r == 1u32 << line.spec_raw_line(),
    {
        1u32 << line.raw_line()
    }

    /// Returns whether `line` is marked as pending in the pending register
    /// contents `pr`.
    pub fn is_pending<L: ExtiLine>(line: L, pr: u32) -> (r: bool)
        ensures
            r == (pr & (1u32 << line.spec_raw_line()) != 0),
    {
        let bm: u32 = 1u32 << line.raw_line();
        pr & bm != 0
    }
}

/// Trait implemented by all types representing EXTI interrupt lines.
pub trait ExtiLine: Sized + Sealed {
    /// The raw EXTI line number of `self`.
    spec fn spec_raw_line(&self) -> u8;

    /// Whether `raw` is a valid line for this type.
    spec fn spec_valid(raw: u8) -> bool;

    /// Returns the line object corresponding to a raw EXTI line number.
    ///
    /// If `raw` is not a valid line for type `Self`, `None` is returned.
    fn from_raw_line(raw: u8) -> (r: Option<Self>)
        ensures
            r is Some <==> Self::spec_valid(raw),
            r matches Some(l) ==> l.spec_raw_line() == raw,
    ;

    /// Returns that raw EXTI line number corresponding to `self`.
    fn raw_line(&self) -> (r: u8)
        ensures
            r == self.spec_raw_line(),
            r < 30,
    ;

    /// Returns the NVIC interrupt corresponding to `self`.
    fn interrupt(&self) -> Interrupt;
}

/// Sealing of `ExtiLine`: only the line types of this module are lines.
pub trait Sealed {

}

impl Sealed for GpioLine {

}

impl Sealed for ConfigurableLine {

}

impl Sealed for DirectLine {

}

/// An EXTI interrupt line sourced by a GPIO.
///
/// All `GpioLine`s are *configurable*: They can be configured to listen for
/// rising or falling edges.
///
/// You can create a `GpioLine` by using the `ExtiLine::from_raw_line` method.
/// Lines `0..=15` are valid GPIO lines.
#[derive(Debug, Copy, Clone, PartialEq, Eq, Structural)]
pub struct GpioLine(u8);

impl GpioLine {
    /// A GPIO line has a number below 16.
    #[verifier::type_invariant]
    closed spec fn wf(&self) -> bool {
        self.0 < 16
    }
}

impl ExtiLine for GpioLine {
    closed spec fn spec_raw_line(&self) -> u8 {
        self.0
    }

    open spec fn spec_valid(raw: u8) -> bool {
        raw <= 15
    }

    fn from_raw_line(line: u8) -> (r: Option<Self>) {
        if line <= 15 {
            Some(GpioLine(line))
        } else {
            None
        }
    }

    fn raw_line(&self) -> (r: u8)
        ensures
            r < 16,
    {
        proof {
            use_type_invariant(self);
        }
        self.0
    }

    fn interrupt(&self) -> (r: Interrupt)
        ensures
            r == (if self.spec_raw_line() <= 1 {
                Interrupt::EXTI0_1
            } else if self.spec_raw_line() <= 3 {
                Interrupt::EXTI2_3
            } else {
                Interrupt::EXTI4_15
            }),
    {
        let l = self.raw_line();
        if l <= 1 {
            Interrupt::EXTI0_1
        } else if l <= 3 {
            Interrupt::EXTI2_3
        } else {
            Interrupt::EXTI4_15
        }
    }
}

/// A configurable EXTI line that is not a GPIO-sourced line.
///
/// These lines can be configured to listen for rising edges, falling edges, or
/// both.
#[derive(Debug, Copy, Clone, PartialEq, Eq, Structural)]
pub enum ConfigurableLine {
    Pvd,
    RtcAlarm,
    RtcTamper_CssLse,
    RtcWakeup,
    Comp1,
    Comp2,
}

impl ExtiLine for ConfigurableLine {
    open spec fn spec_raw_line(&self) -> u8 {
        match self {
            ConfigurableLine::Pvd => 16,
            ConfigurableLine::RtcAlarm => 17,
            ConfigurableLine::RtcTamper_CssLse => 19,
            ConfigurableLine::RtcWakeup => 20,
            ConfigurableLine::Comp1 => 21,
            ConfigurableLine::Comp2 => 22,
        }
    }

    open spec fn spec_valid(raw: u8) -> bool {
        16 <= raw <= 22 && raw != 18
    }

    fn from_raw_line(line: u8) -> (r: Option<Self>) {
        match line {
            16 => Some(ConfigurableLine::Pvd),
            17 => Some(ConfigurableLine::RtcAlarm),
            // 18 = USB (or reserved)
            19 => Some(ConfigurableLine::RtcTamper_CssLse),
            20 => Some(ConfigurableLine::RtcWakeup),
            21 => Some(ConfigurableLine::Comp1),
            22 => Some(ConfigurableLine::Comp2),
            _ => None,
        }
    }

    fn raw_line(&self) -> (r: u8) {
        match self {
            ConfigurableLine::Pvd => 16,
            ConfigurableLine::RtcAlarm => 17,
            ConfigurableLine::RtcTamper_CssLse => 19,
            ConfigurableLine::RtcWakeup => 20,
            ConfigurableLine::Comp1 => 21,
            ConfigurableLine::Comp2 => 22,
        }
    }

    fn interrupt(&self) -> (r: Interrupt)
        ensures
            r == (match self {
                ConfigurableLine::Pvd => Interrupt::PVD,
                ConfigurableLine::Comp1 | ConfigurableLine::Comp2 => Interrupt::ADC_COMP,
                _ => Interrupt::RTC,
            }),
    {
        match self {
            ConfigurableLine::Pvd => Interrupt::PVD,
            ConfigurableLine::RtcAlarm | ConfigurableLine::RtcTamper_CssLse
            | ConfigurableLine::RtcWakeup => Interrupt::RTC,
            ConfigurableLine::Comp1 | ConfigurableLine::Comp2 => Interrupt::ADC_COMP,
        }
    }
}

/// A non-configurable interrupt line.
#[derive(Debug, Copy, Clone, PartialEq, Eq, Structural)]
pub enum DirectLine {
    Usb,
    I2C1,
    I2C3,
    Usart1,
    Usart2,
    // 27 = reserved
    Lpuart1,
    Lptim1,
}

impl ExtiLine for DirectLine {
    open spec fn spec_raw_line(&self) -> u8 {
        match self {
            DirectLine::Usb => 18,
            DirectLine::I2C1 => 23,
            DirectLine::I2C3 => 24,
            DirectLine::Usart1 => 25,
            DirectLine::Usart2 => 26,
            DirectLine::Lpuart1 => 28,
            DirectLine::Lptim1 => 29,
        }
    }

    open spec fn spec_valid(raw: u8) -> bool {
        raw == 18 || (23 <= raw <= 29 && raw != 27)
    }

    fn from_raw_line(line: u8) -> (r: Option<Self>) {
        match line {
            18 => Some(DirectLine::Usb),
            23 => Some(DirectLine::I2C1),
            24 => Some(DirectLine::I2C3),
            25 => Some(DirectLine::Usart1),
            26 => Some(DirectLine::Usart2),
            // 27 = reserved
            28 => Some(DirectLine::Lpuart1),
            29 => Some(DirectLine::Lptim1),
            _ => None,
        }
    }

    fn raw_line(&self) -> (r: u8) {
        match self {
            DirectLine::Usb => 18,
            DirectLine::I2C1 => 23,
            DirectLine::I2C3 => 24,
            DirectLine::Usart1 => 25,
            DirectLine::Usart2 => 26,
            DirectLine::Lpuart1 => 28,
            DirectLine::Lptim1 => 29,
        }
    }

    fn interrupt(&self) -> (r: Interrupt)
        ensures
            r == (match self {
                DirectLine::Usb => Interrupt::USB,
                DirectLine::I2C1 => Interrupt::I2C1,
                DirectLine::I2C3 => Interrupt::I2C3,
                DirectLine::Usart1 => Interrupt::USART1,
                DirectLine::Usart2 => Interrupt::USART2,
                DirectLine::Lpuart1 => Interrupt::AES_RNG_LPUART1,
                DirectLine::Lptim1 => Interrupt::LPTIM1,
            }),
    {
        match self {
            DirectLine::Usb => Interrupt::USB,
            DirectLine::I2C1 => Interrupt::I2C1,
            DirectLine::I2C3 => Interrupt::I2C3,
            DirectLine::Usart1 => Interrupt::USART1,
            DirectLine::Usart2 => Interrupt::USART2,
            DirectLine::Lpuart1 => Interrupt::AES_RNG_LPUART1,
            DirectLine::Lptim1 => Interrupt::LPTIM1,
        }
    }
}

/// Where the port of each EXTI line is configured: the four bits at
/// `4 (line % 4)` of EXTICR1 for lines 0 to 3, of EXTICR2 for lines 4 to 7,
/// of EXTICR3 for lines 8 to 11 and of EXTICR4 for lines 12 to 15; the ports
/// are numbered A = 0, B = 1, C = 2, D = 3, E = 4 and H = 5.
pub proof fn lemma_line_port_registers(regs: SyscfgRegisters, line: u32)
    ensures
        line < 4 ==> line_port(regs, line) == (regs.exticr1 >> (4 * line) as u32) & 0xf,
        4 <= line < 8 ==> line_port(regs, line) == (regs.exticr2 >> (4 * (line - 4)) as u32)
            & 0xf,
        8 <= line < 12 ==> line_port(regs, line) == (regs.exticr3 >> (4 * (line - 8)) as u32)
            & 0xf,
        12 <= line < 16 ==> line_port(regs, line) == (regs.exticr4 >> (4 * (line - 12)) as u32)
            & 0xf,
        port_bits(gpio::Port::PA) == 0,
        port_bits(gpio::Port::PB) == 1,
        port_bits(gpio::Port::PC) == 2,
        port_bits(gpio::Port::PD) == 3,
        port_bits(gpio::Port::PE) == 4,
        port_bits(gpio::Port::PH) == 5,
{
    lemma_low_masks();
}

/// A line number converts to a line and back unchanged, and every line
/// converts to its number and back unchanged.
pub proof fn lemma_line_round_trip(raw: u8, c: ConfigurableLine, d: DirectLine)
    ensures
        ConfigurableLine::spec_valid(c.spec_raw_line()),
        DirectLine::spec_valid(d.spec_raw_line()),
        GpioLine::spec_valid(raw) ==> raw < 16,
        ConfigurableLine::spec_valid(raw) ==> !GpioLine::spec_valid(raw) && !DirectLine::spec_valid(
            raw,
        ),
{
}

/// Selecting an edge for line `line` sets exactly the chosen edge bits of
/// that line and clears the other one, whatever was selected before, and
/// leaves every other line's edge bits as they were: a line listening on
/// rising edges triggers on rising edges only, on falling edges falling
/// edges only.
pub proof fn lemma_edge_replaces(rtsr: u32, ftsr: u32, line: u32, other: u32, edge: TriggerEdge)
    requires
        line < 32,
        other < 32,
        line != other,
    ensures
        ({
            let (r, f) = with_edge(rtsr, ftsr, 1u32 << line, edge);
            &&& (r >> line) & 1 == (if edge == TriggerEdge::Falling { 0u32 } else { 1u32 })
            &&& (f >> line) & 1 == (if edge == TriggerEdge::Rising { 0u32 } else { 1u32 })
            &&& (r >> other) & 1 == (rtsr >> other) & 1
            &&& (f >> other) & 1 == (ftsr >> other) & 1
        }),
{
    assert({
        &&& ((rtsr | (1u32 << line)) >> line) & 1 == 1
        &&& ((rtsr & !(1u32 << line)) >> line) & 1 == 0
        &&& ((ftsr | (1u32 << line)) >> line) & 1 == 1
        &&& ((ftsr & !(1u32 << line)) >> line) & 1 == 0
        &&& ((rtsr | (1u32 << line)) >> other) & 1 == (rtsr >> other) & 1
        &&& ((rtsr & !(1u32 << line)) >> other) & 1 == (rtsr >> other) & 1
        &&& ((ftsr | (1u32 << line)) >> other) & 1 == (ftsr >> other) & 1
        &&& ((ftsr & !(1u32 << line)) >> other) & 1 == (ftsr >> other) & 1
    }) by (bit_vector)
        requires
            line < 32,
            other < 32,
            line != other,
    ;
}

/// Listening on a line and then unlistening it clears the line's bits in
/// the mask and edge registers, and leaves every other line as it was.
pub proof fn lemma_unlisten_clears(imr: u32, line: u32, other: u32)
    requires
        line < 32,
        other < 32,
        line != other,
    ensures
        (imr | (1u32 << line)) & !(1u32 << line) & (1u32 << line) == 0,
        ((imr | (1u32 << line)) & !(1u32 << line)) & (1u32 << other) == imr & (1u32 << other),
{
    assert((imr | (1u32 << line)) & !(1u32 << line) & (1u32 << line) == 0
        && ((imr | (1u32 << line)) & !(1u32 << line)) & (1u32 << other) == imr & (1u32 << other))
        by (bit_vector)
        requires
            line < 32,
            other < 32,
            line != other,
    ;
}

} // verus!

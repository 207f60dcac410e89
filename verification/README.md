# stm32l0xx_hal

A hardware abstraction layer for the STM32L0xx microcontrollers whose
register logic is proved with Verus.

## Layout

- `src/` is the verified library. Each peripheral module computes the values
  that its registers must hold: clock tree frequencies and `RCC` fields, GPIO
  and EXTI configuration, serial, SPI and I2C framing and timing, DMA channel
  setup, ADC circular buffers, AES block layout, RTC calendar encoding, flash
  programming and watchdog timing. Register reads come in as plain integers
  and register writes go out as plain integers, so every contract speaks of
  the exact bits that reach the hardware. Laws that relate several
  operations (a calendar that is set reads back as the same date, enabling
  and disabling an interrupt restores the control register, a block written
  to the AES data registers is the block read back, and so on) are public
  proof functions beside the code they are about.
- `app/` holds what touches the hardware itself: register access through the
  `stm32l0` peripheral access crate, busy-waits on status flags, the
  `embedded-hal` trait implementations and the core's sleep instructions.
  Where the order of the accesses matters (starting the oscillators and
  switching the system clock, the RTC's write protection and initialization
  handshake, flash programming, the watchdog's key sequence, the ADC's
  power-up and conversions, voltage scaling and the low-power modes, a timer
  count-down start, the system timer periods of a delay), the library
  returns the whole sequence of steps, values and waits in order, and `app/`
  performs them one by one. Elsewhere it writes the register values that the
  library computes.
- `tests/` runs the library on concrete values.

Outside crates that the library calls from verified code sit behind small
trusted wrappers in `src/convert.rs`; peripheral types of `stm32l0` and
`cortex-m` that the library carries as tokens are declared in
`src/peripherals.rs`.

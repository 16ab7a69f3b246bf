//! Memory-mapped peripherals of the microcontroller, as producers of register
//! accesses.

use vstd::prelude::*;

verus! {

/// One access to a memory-mapped register.
///
/// The firmware performs the accesses of a queue in order.  `Update*` reads the
/// register, merges the masked bits (see [`Bitwise::merge`]) and writes the
/// result back.  `AwaitSet16` reads the register again and again for as long
/// as all bits of `mask` read as zero, `AwaitClear16` for as long as any of
/// them reads as one (see [`RegOp::released_by`]); neither has a timeout, so a
/// status bit that never changes holds the firmware for good.  `Fetch*` reads
/// the register and hands the word to the caller.
#[allow(inconsistent_fields)]
#[derive(Clone, Copy, Debug, PartialEq, Eq)]
pub enum RegOp {
    Write16 { addr: u32, value: u16 },
    Write32 { addr: u32, value: u32 },
    Update16 { addr: u32, mask: u16, value: u16 },
    Update32 { addr: u32, mask: u32, value: u32 },
    AwaitSet16 { addr: u32, mask: u16 },
    AwaitClear16 { addr: u32, mask: u16 },
    Fetch16 { addr: u32 },
    Fetch32 { addr: u32 },
}

impl RegOp {
    /// Whether the access is over once the register has read as `status`.  A
    /// wait for set bits is over when a bit of its mask reads as one, a wait
    /// for clear bits when every bit of its mask reads as zero; any other
    /// access does not wait.
    pub open spec fn lets_go(&self, status: u16) -> bool {
        match *self {
            RegOp::AwaitSet16 { mask, .. } => status & mask != 0,
            RegOp::AwaitClear16 { mask, .. } => status & mask == 0,
            _ => true,
        }
    }

    /// Decides after one read of the register whether the access is over or
    /// has to read again.
    pub fn released_by(&self, status: u16) -> (over: bool)
        ensures
            over == self.lets_go(status),
    {
        match *self {
            RegOp::AwaitSet16 { addr: _, mask } => status & mask != 0,
            RegOp::AwaitClear16 { addr: _, mask } => status & mask == 0,
            _ => true,
        }
    }
}

/// A register word on which bits can be merged under a mask.
pub trait Bitwise: Copy {
    /// `self` with the bits selected by `mask` replaced by those of `value`.
    spec fn merged(self, mask: Self, value: Self) -> Self;

    /// `self` with the bits of `value` set.
    spec fn joined(self, value: Self) -> Self;

    fn merge(self, mask: Self, value: Self) -> (word: Self)
        ensures
            word == self.merged(mask, value),
    ;

    /// Merging a value under itself as the mask sets exactly its bits.
    proof fn merge_under_itself_joins(self, value: Self)
        ensures
            self.merged(value, value) == self.joined(value),
    ;
}

impl Bitwise for u16 {
    open spec fn merged(self, mask: u16, value: u16) -> u16 {
        (self & !mask) | (value & mask)
    }

    open spec fn joined(self, value: u16) -> u16 {
        self | value
    }

    fn merge(self, mask: u16, value: u16) -> (word: u16) {
        (self & !mask) | (value & mask)
    }

    proof fn merge_under_itself_joins(self, value: u16) {
        assert((self & !value) | (value & value) == self | value) by (bit_vector);
    }
}

impl Bitwise for u32 {
    open spec fn merged(self, mask: u32, value: u32) -> u32 {
        (self & !mask) | (value & mask)
    }

    open spec fn joined(self, value: u32) -> u32 {
        self | value
    }

    fn merge(self, mask: u32, value: u32) -> (word: u32) {
        (self & !mask) | (value & mask)
    }

    proof fn merge_under_itself_joins(self, value: u32) {
        assert((self & !value) | (value & value) == self | value) by (bit_vector);
    }
}

/// A register of word type `T` at a fixed address.
pub trait Register<T: Bitwise> {
    /// The access that reads the register.
    spec fn read_op(&self) -> RegOp;

    /// The access that stores `value`.
    spec fn write_op(&self, value: T) -> RegOp;

    /// The access that replaces the bits under `mask` by those of `value`.
    spec fn update_op(&self, mask: T, value: T) -> RegOp;

    fn read(&self, out: &mut Vec<RegOp>)
        ensures
            final(out)@ == old(out)@.push(self.read_op()),
    ;

    fn write(&self, out: &mut Vec<RegOp>, value: T)
        ensures
            final(out)@ == old(out)@.push(self.write_op(value)),
    ;

    /// Sets the bits of `value` and leaves the others as they are.
    fn write_or(&self, out: &mut Vec<RegOp>, value: T)
        ensures
            final(out)@ == old(out)@.push(self.update_op(value, value)),
    ;

    /// Replaces the bits under `mask` by those of `value`.
    fn write_masked(&self, out: &mut Vec<RegOp>, mask: T, value: T)
        ensures
            final(out)@ == old(out)@.push(self.update_op(mask, value)),
    ;
}

/// A register of sixteen bits.
pub struct Register16 {
    pub addr: u32,
}

impl Register<u16> for Register16 {
    open spec fn read_op(&self) -> RegOp {
        RegOp::Fetch16 { addr: self.addr }
    }

    open spec fn write_op(&self, value: u16) -> RegOp {
        RegOp::Write16 { addr: self.addr, value }
    }

    open spec fn update_op(&self, mask: u16, value: u16) -> RegOp {
        RegOp::Update16 { addr: self.addr, mask, value }
    }

    fn read(&self, out: &mut Vec<RegOp>) {
        out.push(RegOp::Fetch16 { addr: self.addr });
    }

    fn write(&self, out: &mut Vec<RegOp>, value: u16) {
        out.push(RegOp::Write16 { addr: self.addr, value });
    }

    fn write_or(&self, out: &mut Vec<RegOp>, value: u16) {
        self.write_masked(out, value, value);
    }

    fn write_masked(&self, out: &mut Vec<RegOp>, mask: u16, value: u16) {
        out.push(RegOp::Update16 { addr: self.addr, mask, value });
    }
}

impl Register16 {
    /// The access that spins until a bit of `mask` reads as one.
    pub open spec fn await_set_op(&self, mask: u16) -> RegOp {
        RegOp::AwaitSet16 { addr: self.addr, mask }
    }

    /// The access that spins until every bit of `mask` reads as zero.
    pub open spec fn await_clear_op(&self, mask: u16) -> RegOp {
        RegOp::AwaitClear16 { addr: self.addr, mask }
    }

    pub fn await_set(&self, out: &mut Vec<RegOp>, mask: u16)
        ensures
            final(out)@ == old(out)@.push(self.await_set_op(mask)),
    {
        out.push(RegOp::AwaitSet16 { addr: self.addr, mask });
    }

    pub fn await_clear(&self, out: &mut Vec<RegOp>, mask: u16)
        ensures
            final(out)@ == old(out)@.push(self.await_clear_op(mask)),
    {
        out.push(RegOp::AwaitClear16 { addr: self.addr, mask });
    }
}

/// A register of thirty-two bits.
pub struct Register32 {
    pub addr: u32,
}

impl Register<u32> for Register32 {
    open spec fn read_op(&self) -> RegOp {
        RegOp::Fetch32 { addr: self.addr }
    }

    open spec fn write_op(&self, value: u32) -> RegOp {
        RegOp::Write32 { addr: self.addr, value }
    }

    open spec fn update_op(&self, mask: u32, value: u32) -> RegOp {
        RegOp::Update32 { addr: self.addr, mask, value }
    }

    fn read(&self, out: &mut Vec<RegOp>) {
        out.push(RegOp::Fetch32 { addr: self.addr });
    }

    fn write(&self, out: &mut Vec<RegOp>, value: u32) {
        out.push(RegOp::Write32 { addr: self.addr, value });
    }

    fn write_or(&self, out: &mut Vec<RegOp>, value: u32) {
        self.write_masked(out, value, value);
    }

    fn write_masked(&self, out: &mut Vec<RegOp>, mask: u32, value: u32) {
        out.push(RegOp::Update32 { addr: self.addr, mask, value });
    }
}

/// The AHB1 peripheral clock enable register.
pub struct RccAhb1enr;

pub const RCC_AHB1ENR_ADDR: u32 = 0x4002_3830;

pub const AHB1_GPIOA: u32 = 0x0000_0001;

pub const AHB1_GPIOC: u32 = 0x0000_0004;

pub const AHB1_GPIOD: u32 = 0x0000_0008;

pub const AHB1_GPIOF: u32 = 0x0000_0020;

pub const AHB1_GPIOG: u32 = 0x0000_0040;

impl RccAhb1enr {
    /// Setting the enable bits `bits` and leaving every other clock as it is.
    pub open spec fn enable_ops(bits: u32) -> Seq<RegOp> {
        seq![RegOp::Update32 { addr: RCC_AHB1ENR_ADDR, mask: bits, value: bits }]
    }

    pub fn enable_gpioa(&self, out: &mut Vec<RegOp>)
        ensures
            final(out)@ == old(out)@ + Self::enable_ops(AHB1_GPIOA),
    {
        Register32 { addr: RCC_AHB1ENR_ADDR }.write_or(out, AHB1_GPIOA);
    }

    pub fn enable_gpioc(&self, out: &mut Vec<RegOp>)
        ensures
            final(out)@ == old(out)@ + Self::enable_ops(AHB1_GPIOC),
    {
        Register32 { addr: RCC_AHB1ENR_ADDR }.write_or(out, AHB1_GPIOC);
    }

    pub fn enable_gpiod(&self, out: &mut Vec<RegOp>)
        ensures
            final(out)@ == old(out)@ + Self::enable_ops(AHB1_GPIOD),
    {
        Register32 { addr: RCC_AHB1ENR_ADDR }.write_or(out, AHB1_GPIOD);
    }

    pub fn enable_gpiof(&self, out: &mut Vec<RegOp>)
        ensures
            final(out)@ == old(out)@ + Self::enable_ops(AHB1_GPIOF),
    {
        Register32 { addr: RCC_AHB1ENR_ADDR }.write_or(out, AHB1_GPIOF);
    }

    pub fn enable_gpiog(&self, out: &mut Vec<RegOp>)
        ensures
            final(out)@ == old(out)@ + Self::enable_ops(AHB1_GPIOG),
    {
        Register32 { addr: RCC_AHB1ENR_ADDR }.write_or(out, AHB1_GPIOG);
    }
}

pub const RCC_AHB1ENR: RccAhb1enr = RccAhb1enr;

/// The APB2 peripheral clock enable register.
pub struct RccApb2enr;

pub const RCC_APB2ENR_ADDR: u32 = 0x4002_3844;

pub const APB2_USART1: u32 = 0x0000_0010;

pub const APB2_SPI5: u32 = 0x0010_0000;

impl RccApb2enr {
    /// Setting the enable bits `bits` and leaving every other clock as it is.
    pub open spec fn enable_ops(bits: u32) -> Seq<RegOp> {
        seq![RegOp::Update32 { addr: RCC_APB2ENR_ADDR, mask: bits, value: bits }]
    }

    pub fn enable_spi5(&self, out: &mut Vec<RegOp>)
        ensures
            final(out)@ == old(out)@ + Self::enable_ops(APB2_SPI5),
    {
        Register32 { addr: RCC_APB2ENR_ADDR }.write_or(out, APB2_SPI5);
    }

    pub fn enable_usart1(&self, out: &mut Vec<RegOp>)
        ensures
            final(out)@ == old(out)@ + Self::enable_ops(APB2_USART1),
    {
        Register32 { addr: RCC_APB2ENR_ADDR }.write_or(out, APB2_USART1);
    }
}

pub const RCC_APB2ENR: RccApb2enr = RccApb2enr;

/// What a pin is used for.
pub enum GpioMode {
    Output,
    AltFunc,
}

impl GpioMode {
    /// The two mode bits of a pin, before they are moved to the pin's place.
    pub open spec fn bits(&self) -> u32 {
        match self {
            GpioMode::Output => 0b01,
            GpioMode::AltFunc => 0b10,
        }
    }

    pub fn code(&self) -> (bits: u32)
        ensures
            bits == self.bits(),
    {
        match self {
            GpioMode::Output => 0b01,
            GpioMode::AltFunc => 0b10,
        }
    }
}

/// The peripheral that a pin in alternate-function mode is routed to.
pub enum AltFunc {
    AF5,
    AF7,
}

impl AltFunc {
    /// The four selector bits of a pin, before they are moved to the pin's
    /// place.
    pub open spec fn bits(&self) -> u32 {
        match self {
            AltFunc::AF5 => 5,
            AltFunc::AF7 => 7,
        }
    }

    pub fn code(&self) -> (bits: u32)
        ensures
            bits == self.bits(),
    {
        match self {
            AltFunc::AF5 => 5,
            AltFunc::AF7 => 7,
        }
    }
}

/// One port of sixteen general-purpose pins.
pub struct Gpio {
    pub base: u32,
}

pub const GPIO_MODER: u32 = 0x00;

pub const GPIO_BSRR: u32 = 0x18;

pub const GPIO_AFRL: u32 = 0x20;

pub const GPIO_AFRH: u32 = 0x24;

impl Gpio {
    /// The port's register block lies inside the address space.
    pub open spec fn wf(&self) -> bool {
        self.base + GPIO_AFRH <= u32::MAX
    }

    /// Replacing the two mode bits of `pin`.
    pub open spec fn set_mode_ops(&self, pin: u8, mode: GpioMode) -> Seq<RegOp> {
        seq![
            RegOp::Update32 {
                addr: (self.base + GPIO_MODER) as u32,
                mask: 0b11u32 << (2 * pin) as u32,
                value: mode.bits() << (2 * pin) as u32,
            },
        ]
    }

    /// Writing the reset bit of `pin`, which drives the pin low.
    pub open spec fn set_low_ops(&self, pin: u8) -> Seq<RegOp> {
        seq![
            RegOp::Write32 { addr: (self.base + GPIO_BSRR) as u32, value: 1u32 << (pin + 16) as u32 },
        ]
    }

    /// Writing the set bit of `pin`, which drives the pin high.
    pub open spec fn set_high_ops(&self, pin: u8) -> Seq<RegOp> {
        seq![RegOp::Write32 { addr: (self.base + GPIO_BSRR) as u32, value: 1u32 << pin as u32 }]
    }

    /// Replacing the four selector bits of `pin`: pins 0 to 7 live in the low
    /// selector register, pins 8 to 15 in the high one.
    pub open spec fn set_alt_func_ops(&self, pin: u8, alt_func: AltFunc) -> Seq<RegOp> {
        let addr = if pin < 8 {
            self.base + GPIO_AFRL
        } else {
            self.base + GPIO_AFRH
        };
        let offset = if pin < 8 {
            pin * 4
        } else {
            (pin - 8) * 4
        };
        seq![
            RegOp::Update32 {
                addr: addr as u32,
                mask: 0b1111u32 << offset as u32,
                value: alt_func.bits() << offset as u32,
            },
        ]
    }

    pub fn set_mode(&self, out: &mut Vec<RegOp>, pin: u8, mode: GpioMode)
        requires
            self.wf(),
            pin < 16,
        ensures
            final(out)@ == old(out)@ + self.set_mode_ops(pin, mode),
    {
        let moder = Register32 { addr: self.base + GPIO_MODER };
        let shift: u32 = 2 * (pin as u32);
        let mask: u32 = 0b11u32 << shift;
        let value: u32 = mode.code() << shift;
        moder.write_masked(out, mask, value);
    }

    pub fn set_low(&self, out: &mut Vec<RegOp>, pin: u8)
        requires
            self.wf(),
            pin < 16,
        ensures
            final(out)@ == old(out)@ + self.set_low_ops(pin),
    {
        let bsrr = Register32 { addr: self.base + GPIO_BSRR };
        let shift: u32 = (pin as u32) + 16;
        let value: u32 = 1u32 << shift;
        bsrr.write(out, value);
    }

    pub fn set_high(&self, out: &mut Vec<RegOp>, pin: u8)
        requires
            self.wf(),
            pin < 16,
        ensures
            final(out)@ == old(out)@ + self.set_high_ops(pin),
    {
        let bsrr = Register32 { addr: self.base + GPIO_BSRR };
        let shift: u32 = pin as u32;
        let value: u32 = 1u32 << shift;
        bsrr.write(out, value);
    }

    pub fn set_alt_func(&self, out: &mut Vec<RegOp>, pin: u8, alt_func: AltFunc)
        requires
            self.wf(),
            pin < 16,
        ensures
            final(out)@ == old(out)@ + self.set_alt_func_ops(pin, alt_func),
    {
        let afr: Register32;
        let offset: u8;
        if pin < 8 {
            afr = Register32 { addr: self.base + GPIO_AFRL };
            offset = pin * 4;
        } else {
            afr = Register32 { addr: self.base + GPIO_AFRH };
            offset = (pin - 8) * 4;
        }
        let shift: u32 = offset as u32;
        let mask: u32 = 0b1111u32 << shift;
        let value: u32 = alt_func.code() << shift;
        afr.write_masked(out, mask, value);
    }
}

pub const GPIOA_BASE: u32 = 0x4002_0000;

/// Port A.
pub fn gpioa() -> (port: Gpio)
    ensures
        port == (Gpio { base: GPIOA_BASE }),
{
    Gpio { base: GPIOA_BASE }
}

pub const GPIOC_BASE: u32 = 0x4002_0800;

/// Port C.
pub fn gpioc() -> (port: Gpio)
    ensures
        port == (Gpio { base: GPIOC_BASE }),
{
    Gpio { base: GPIOC_BASE }
}

pub const GPIOD_BASE: u32 = 0x4002_0c00;

/// Port D.
pub fn gpiod() -> (port: Gpio)
    ensures
        port == (Gpio { base: GPIOD_BASE }),
{
    Gpio { base: GPIOD_BASE }
}

pub const GPIOF_BASE: u32 = 0x4002_1400;

/// Port F.
pub fn gpiof() -> (port: Gpio)
    ensures
        port == (Gpio { base: GPIOF_BASE }),
{
    Gpio { base: GPIOF_BASE }
}

pub const GPIOG_BASE: u32 = 0x4002_1800;

/// Port G.
pub fn gpiog() -> (port: Gpio)
    ensures
        port == (Gpio { base: GPIOG_BASE }),
{
    Gpio { base: GPIOG_BASE }
}

/// A serial port.
pub struct Usart {
    pub base: u32,
}

pub const USART_SR: u32 = 0x00;

pub const USART_DR: u32 = 0x04;

pub const USART_BRR: u32 = 0x08;

pub const USART_CR1: u32 = 0x0c;

/// Status bit: a received byte waits in the data register.
pub const USART_SR_RXNE: u16 = 0x0020;

/// Status bit: the data register takes another byte to send.
pub const USART_SR_TXE: u16 = 0x0080;

/// Control bits: port enable, transmitter enable, receiver enable.
pub const USART_CR1_UE_TE_RE: u16 = 0x200c;

impl Usart {
    /// The port's register block lies inside the address space.
    pub open spec fn wf(&self) -> bool {
        self.base + USART_CR1 <= u32::MAX
    }

    pub open spec fn sr_reg(&self) -> Register16 {
        Register16 { addr: (self.base + USART_SR) as u32 }
    }

    pub open spec fn dr_reg(&self) -> Register16 {
        Register16 { addr: (self.base + USART_DR) as u32 }
    }

    pub fn sr(&self) -> (reg: Register16)
        requires
            self.wf(),
        ensures
            reg == self.sr_reg(),
    {
        Register16 { addr: self.base + USART_SR }
    }

    pub fn dr(&self) -> (reg: Register16)
        requires
            self.wf(),
        ensures
            reg == self.dr_reg(),
    {
        Register16 { addr: self.base + USART_DR }
    }

    /// Storing the baud rate divisor.
    pub open spec fn set_brr_ops(&self, value: u16) -> Seq<RegOp> {
        seq![RegOp::Write16 { addr: (self.base + USART_BRR) as u32, value }]
    }

    /// Setting the three enable bits and leaving the other controls alone.
    pub open spec fn enable_rx_tx_ops(&self) -> Seq<RegOp> {
        seq![
            RegOp::Update16 {
                addr: (self.base + USART_CR1) as u32,
                mask: USART_CR1_UE_TE_RE,
                value: USART_CR1_UE_TE_RE,
            },
        ]
    }

    /// Waiting for room in the transmitter, then handing it `byte`.
    pub open spec fn transmit_byte_ops(&self, byte: u8) -> Seq<RegOp> {
        seq![
            self.sr_reg().await_set_op(USART_SR_TXE),
            self.dr_reg().write_op(byte as u16),
        ]
    }

    /// Waiting for a byte to arrive, then fetching the data register.
    pub open spec fn receive_byte_ops(&self) -> Seq<RegOp> {
        seq![self.sr_reg().await_set_op(USART_SR_RXNE), self.dr_reg().read_op()]
    }

    pub fn set_brr(&self, out: &mut Vec<RegOp>, value: u16)
        requires
            self.wf(),
        ensures
            final(out)@ == old(out)@ + self.set_brr_ops(value),
    {
        let brr = Register16 { addr: self.base + USART_BRR };
        brr.write(out, value);
    }

    pub fn enable_rx_tx(&self, out: &mut Vec<RegOp>)
        requires
            self.wf(),
        ensures
            final(out)@ == old(out)@ + self.enable_rx_tx_ops(),
    {
        let cr1 = Register16 { addr: self.base + USART_CR1 };
        cr1.write_or(out, USART_CR1_UE_TE_RE);
    }

    /// Whether the status word `status` reports a received byte: the
    /// condition that the wait of `receive_byte` is over on.
    pub fn byte_received(&self, status: u16) -> (arrived: bool)
        ensures
            arrived == (status & USART_SR_RXNE != 0),
            arrived == self.receive_byte_ops()[0].lets_go(status),
    {
        status & USART_SR_RXNE != 0
    }

    pub fn transmit_byte(&self, out: &mut Vec<RegOp>, byte: u8)
        requires
            self.wf(),
        ensures
            final(out)@ == old(out)@ + self.transmit_byte_ops(byte),
    {
        self.sr().await_set(out, USART_SR_TXE);
        self.dr().write(out, byte as u16);
    }

    /// Queues the wait for a byte and the fetch of the data register.  The
    /// byte is the low half of the fetched word: see [`Usart::received`].
    pub fn receive_byte(&self, out: &mut Vec<RegOp>)
        requires
            self.wf(),
        ensures
            final(out)@ == old(out)@ + self.receive_byte_ops(),
    {
        self.sr().await_set(out, USART_SR_RXNE);
        self.dr().read(out);
    }

    /// The byte in a word fetched from the data register.
    pub fn received(word: u16) -> (byte: u8)
        ensures
            byte == word % 256,
    {
        assert(word & 0xff == word % 256) by (bit_vector);
        (word & 0xff) as u8
    }
}

pub const USART1_BASE: u32 = 0x4001_1000;

/// The serial port that carries the terminal's input.
pub fn usart1() -> (port: Usart)
    ensures
        port == (Usart { base: USART1_BASE }),
{
    Usart { base: USART1_BASE }
}

/// The clock divisor of an SPI port.
pub enum SpiBaudDivisor {
    Div2,
}

impl SpiBaudDivisor {
    /// The divisor's three selector bits, at their place in the control word.
    pub open spec fn bits(&self) -> u16 {
        match self {
            SpiBaudDivisor::Div2 => 0,
        }
    }

    pub fn code(&self) -> (bits: u16)
        ensures
            bits == self.bits(),
    {
        match self {
            SpiBaudDivisor::Div2 => 0,
        }
    }
}

/// An SPI port, used as the bus's main device.
pub struct Spi {
    pub base: u32,
}

pub const SPI_CR1: u32 = 0x00;

pub const SPI_SR: u32 = 0x08;

pub const SPI_DR: u32 = 0x0c;

/// Control bits: the three bits that select the clock divisor.
pub const SPI_CR1_BR: u16 = 0x0038;

/// Control bits: software sub-device management, internal sub-device select
/// high, port enable, main mode.
pub const SPI_CR1_SSM_SSI_SPE_MSTR: u16 = 0x0344;

/// Status bit: the transmit buffer takes another byte.
pub const SPI_SR_TXE: u16 = 0x0002;

/// Status bit: the shift register is still clocking bits out.
pub const SPI_SR_BSY: u16 = 0x0080;

impl Spi {
    /// The port's register block lies inside the address space.
    pub open spec fn wf(&self) -> bool {
        self.base + SPI_DR <= u32::MAX
    }

    pub open spec fn cr1_reg(&self) -> Register16 {
        Register16 { addr: (self.base + SPI_CR1) as u32 }
    }

    pub open spec fn sr_reg(&self) -> Register16 {
        Register16 { addr: (self.base + SPI_SR) as u32 }
    }

    pub open spec fn dr_reg(&self) -> Register16 {
        Register16 { addr: (self.base + SPI_DR) as u32 }
    }

    pub fn cr1(&self) -> (reg: Register16)
        requires
            self.wf(),
        ensures
            reg == self.cr1_reg(),
    {
        Register16 { addr: self.base + SPI_CR1 }
    }

    pub fn sr(&self) -> (reg: Register16)
        requires
            self.wf(),
        ensures
            reg == self.sr_reg(),
    {
        Register16 { addr: self.base + SPI_SR }
    }

    pub fn dr(&self) -> (reg: Register16)
        requires
            self.wf(),
        ensures
            reg == self.dr_reg(),
    {
        Register16 { addr: self.base + SPI_DR }
    }

    /// Replacing the divisor's selector bits.
    pub open spec fn set_baud_divisor_ops(&self, div: SpiBaudDivisor) -> Seq<RegOp> {
        seq![self.cr1_reg().update_op(SPI_CR1_BR, div.bits())]
    }

    /// Setting the four mode bits and leaving the other controls alone.
    pub open spec fn enable_ops(&self) -> Seq<RegOp> {
        seq![self.cr1_reg().update_op(SPI_CR1_SSM_SSI_SPE_MSTR, SPI_CR1_SSM_SSI_SPE_MSTR)]
    }

    /// Waiting for room in the transmit buffer, then handing it `b`.
    pub open spec fn write_byte_ops(&self, b: u8) -> Seq<RegOp> {
        seq![self.sr_reg().await_set_op(SPI_SR_TXE), self.dr_reg().write_op(b as u16)]
    }

    /// Waiting until the transmit buffer is empty and then until the shift
    /// register has gone idle: after that every byte has left the port.
    pub open spec fn flush_ops(&self) -> Seq<RegOp> {
        seq![self.sr_reg().await_set_op(SPI_SR_TXE), self.sr_reg().await_clear_op(SPI_SR_BSY)]
    }

    /// Sending `b` and waiting until it has left the port.
    pub open spec fn write_byte_flush_ops(&self, b: u8) -> Seq<RegOp> {
        self.write_byte_ops(b) + self.flush_ops()
    }

    pub fn set_baud_divisor(&self, out: &mut Vec<RegOp>, div: SpiBaudDivisor)
        requires
            self.wf(),
        ensures
            final(out)@ == old(out)@ + self.set_baud_divisor_ops(div),
    {
        self.cr1().write_masked(out, SPI_CR1_BR, div.code());
    }

    pub fn software_sub_management_sub_select_high_main_mode_spi_enable(
        &self,
        out: &mut Vec<RegOp>,
    )
        requires
            self.wf(),
        ensures
            final(out)@ == old(out)@ + self.enable_ops(),
    {
        self.cr1().write_or(out, SPI_CR1_SSM_SSI_SPE_MSTR);
    }

    pub fn write_byte(&self, out: &mut Vec<RegOp>, b: u8)
        requires
            self.wf(),
        ensures
            final(out)@ == old(out)@ + self.write_byte_ops(b),
    {
        self.sr().await_set(out, SPI_SR_TXE);
        self.dr().write(out, b as u16);
    }

    pub fn flush(&self, out: &mut Vec<RegOp>)
        requires
            self.wf(),
        ensures
            final(out)@ == old(out)@ + self.flush_ops(),
    {
        self.sr().await_set(out, SPI_SR_TXE);
        self.sr().await_clear(out, SPI_SR_BSY);
    }

    pub fn write_byte_flush(&self, out: &mut Vec<RegOp>, b: u8)
        requires
            self.wf(),
        ensures
            final(out)@ == old(out)@ + self.write_byte_flush_ops(b),
    {
        self.write_byte(out, b);
        self.flush(out);
    }

    /// Whether the status word `status` reports room in the transmit buffer:
    /// the condition that the wait of `write_byte` and the first wait of
    /// `flush` are over on.
    pub fn transmit_buf_empty(&self, status: u16) -> (empty: bool)
        ensures
            empty == (status & SPI_SR_TXE != 0),
            empty == self.write_byte_ops(0)[0].lets_go(status),
            empty == self.flush_ops()[0].lets_go(status),
    {
        status & SPI_SR_TXE != 0
    }

    /// Whether the status word `status` reports a transfer under way: the
    /// second wait of `flush` lasts for as long as it does.
    pub fn busy(&self, status: u16) -> (busy: bool)
        ensures
            busy == (status & SPI_SR_BSY != 0),
            busy == !self.flush_ops()[1].lets_go(status),
    {
        status & SPI_SR_BSY != 0
    }
}

pub const SPI5_BASE: u32 = 0x4001_5000;

/// The SPI port that the display controller listens on.
pub fn spi5() -> (port: Spi)
    ensures
        port == (Spi { base: SPI5_BASE }),
{
    Spi { base: SPI5_BASE }
}

} // verus!

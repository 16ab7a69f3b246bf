//! The board: which pins and ports the terminal uses, and how they are set up.

use crate::display::{draw_demo, lcd_set_up_driver, set_up_driver_ops, string_ops};
use crate::display::{CS_PIN, DC_PIN, DEMO_COLUMN, DEMO_ROW, DEMO_TEXT};
use crate::font::Font;
use crate::peripherals::{gpioa, gpioc, gpiod, gpiof, gpiog, spi5, usart1};
use crate::peripherals::{AltFunc, Gpio, GpioMode, RccAhb1enr, RccApb2enr, RegOp, Spi, SpiBaudDivisor, Usart};
use crate::peripherals::{AHB1_GPIOA, AHB1_GPIOC, AHB1_GPIOD, AHB1_GPIOF, AHB1_GPIOG, APB2_SPI5, APB2_USART1};
use crate::peripherals::{GPIOA_BASE, GPIOC_BASE, GPIOD_BASE, GPIOF_BASE, GPIOG_BASE, SPI5_BASE, USART1_BASE};
use crate::peripherals::{RCC_AHB1ENR, RCC_APB2ENR};
use vstd::prelude::*;
use vstd::string::StringSliceAdditionalSpecFns;

verus! {

/// Frequency of the system clock in hertz.
pub const SYSCLK_SPEED: u32 = 16_000_000;

/// Speed of the serial line in bits per second.
pub const BAUD_RATE: u32 = 9600;

/// Pin of port A that sends on the serial line.
pub const UART_TX_PIN: u8 = 9;

/// Pin of port A that receives from the serial line.
pub const UART_RX_PIN: u8 = 10;

/// Pin of port F that carries the SPI clock.
pub const SPI_SCK_PIN: u8 = 7;

/// Pin of port F that carries the SPI data to the display.
pub const SPI_MOSI_PIN: u8 = 9;

/// Pin of port G that lights the board's lamp.
pub const LAMP_PIN: u8 = 13;

/// The byte sent over the serial line while the display controller wakes up.
pub const WARM_UP_BYTE: u8 = 46;

/// How many of them are sent.
pub const WARM_UP_BYTES: u8 = 32;

/// Routing the two serial pins to the port, setting the line's speed and
/// switching the port, its transmitter and its receiver on.
pub open spec fn uart1_set_up_ops() -> Seq<RegOp> {
    let pins = Gpio { base: GPIOA_BASE };
    let port = Usart { base: USART1_BASE };
    pins.set_alt_func_ops(UART_TX_PIN, AltFunc::AF7) + pins.set_alt_func_ops(
        UART_RX_PIN,
        AltFunc::AF7,
    ) + pins.set_mode_ops(UART_TX_PIN, GpioMode::AltFunc) + pins.set_mode_ops(
        UART_RX_PIN,
        GpioMode::AltFunc,
    ) + port.set_brr_ops((SYSCLK_SPEED / BAUD_RATE) as u16) + port.enable_rx_tx_ops()
}

/// Routing clock and data pins to the SPI port, making the two control lines
/// outputs, releasing the chip-select line, and switching the port on at the
/// fastest clock.
pub open spec fn lcd_set_up_spi_ops() -> Seq<RegOp> {
    let pins = Gpio { base: GPIOF_BASE };
    let dc = Gpio { base: GPIOD_BASE };
    let cs = Gpio { base: GPIOC_BASE };
    let port = Spi { base: SPI5_BASE };
    pins.set_alt_func_ops(SPI_SCK_PIN, AltFunc::AF5) + pins.set_alt_func_ops(
        SPI_MOSI_PIN,
        AltFunc::AF5,
    ) + pins.set_mode_ops(SPI_SCK_PIN, GpioMode::AltFunc) + pins.set_mode_ops(
        SPI_MOSI_PIN,
        GpioMode::AltFunc,
    ) + dc.set_mode_ops(DC_PIN, GpioMode::Output) + cs.set_mode_ops(CS_PIN, GpioMode::Output)
        + cs.set_high_ops(CS_PIN) + port.set_baud_divisor_ops(SpiBaudDivisor::Div2)
        + port.enable_ops()
}

/// Switching on the clocks of the five pin ports, the serial port and the SPI
/// port, then lighting the lamp.
pub open spec fn clocks_ops() -> Seq<RegOp> {
    let lamp = Gpio { base: GPIOG_BASE };
    RccAhb1enr::enable_ops(AHB1_GPIOA) + RccAhb1enr::enable_ops(AHB1_GPIOC)
        + RccAhb1enr::enable_ops(AHB1_GPIOD) + RccAhb1enr::enable_ops(AHB1_GPIOF)
        + RccAhb1enr::enable_ops(AHB1_GPIOG) + RccApb2enr::enable_ops(APB2_USART1)
        + RccApb2enr::enable_ops(APB2_SPI5) + lamp.set_mode_ops(LAMP_PIN, GpioMode::Output)
        + lamp.set_high_ops(LAMP_PIN)
}

/// Sending the warm-up byte `count` times over the serial line.
pub open spec fn warm_up_ops(count: nat) -> Seq<RegOp>
    decreases count,
{
    if count == 0 {
        Seq::empty()
    } else {
        warm_up_ops((count - 1) as nat) + (Usart { base: USART1_BASE }).transmit_byte_ops(
            WARM_UP_BYTE,
        )
    }
}

/// Everything from reset to the greeting on the screen.
pub open spec fn start_up_ops(font: Font) -> Seq<RegOp> {
    clocks_ops() + uart1_set_up_ops() + warm_up_ops(WARM_UP_BYTES as nat) + lcd_set_up_spi_ops()
        + set_up_driver_ops() + string_ops(
        font,
        DEMO_ROW as int,
        DEMO_COLUMN as int,
        DEMO_TEXT.spec_bytes(),
    )
}

/// Sets up the serial port.
pub fn uart1_set_up(out: &mut Vec<RegOp>)
    ensures
        final(out)@ == old(out)@ + uart1_set_up_ops(),
{
    gpioa().set_alt_func(out, UART_TX_PIN, AltFunc::AF7);
    gpioa().set_alt_func(out, UART_RX_PIN, AltFunc::AF7);
    gpioa().set_mode(out, UART_TX_PIN, GpioMode::AltFunc);
    gpioa().set_mode(out, UART_RX_PIN, GpioMode::AltFunc);
    usart1().set_brr(out, (SYSCLK_SPEED / BAUD_RATE) as u16);
    usart1().enable_rx_tx(out);
    assert(out@ =~= old(out)@ + uart1_set_up_ops());
}

/// Sets up the SPI port and the two control lines of the display.
pub fn lcd_set_up_spi(out: &mut Vec<RegOp>)
    ensures
        final(out)@ == old(out)@ + lcd_set_up_spi_ops(),
{
    gpiof().set_alt_func(out, SPI_SCK_PIN, AltFunc::AF5);
    gpiof().set_alt_func(out, SPI_MOSI_PIN, AltFunc::AF5);
    gpiof().set_mode(out, SPI_SCK_PIN, GpioMode::AltFunc);
    gpiof().set_mode(out, SPI_MOSI_PIN, GpioMode::AltFunc);
    gpiod().set_mode(out, DC_PIN, GpioMode::Output);
    gpioc().set_mode(out, CS_PIN, GpioMode::Output);
    gpioc().set_high(out, CS_PIN);
    spi5().set_baud_divisor(out, SpiBaudDivisor::Div2);
    spi5().software_sub_management_sub_select_high_main_mode_spi_enable(out);
    assert(out@ =~= old(out)@ + lcd_set_up_spi_ops());
}

/// Switches on the clocks of everything the terminal uses and lights the
/// lamp.
fn enable_clocks(out: &mut Vec<RegOp>)
    ensures
        final(out)@ == old(out)@ + clocks_ops(),
{
    RCC_AHB1ENR.enable_gpioa(out);
    RCC_AHB1ENR.enable_gpioc(out);
    RCC_AHB1ENR.enable_gpiod(out);
    RCC_AHB1ENR.enable_gpiof(out);
    RCC_AHB1ENR.enable_gpiog(out);
    RCC_APB2ENR.enable_usart1(out);
    RCC_APB2ENR.enable_spi5(out);
    gpiog().set_mode(out, LAMP_PIN, GpioMode::Output);
    gpiog().set_high(out, LAMP_PIN);
    assert(out@ =~= old(out)@ + clocks_ops());
}

/// Sends the warm-up bytes: the time they take on the line is the time the
/// display controller needs to come up.
fn warm_up(out: &mut Vec<RegOp>)
    ensures
        final(out)@ == old(out)@ + warm_up_ops(WARM_UP_BYTES as nat),
{
    let ghost before = out@;
    let mut sent: u8 = 0;
    assert(before + warm_up_ops(0) =~= before);
    while sent < WARM_UP_BYTES
        invariant
            sent <= WARM_UP_BYTES,
            out@ == before + warm_up_ops(sent as nat),
        decreases WARM_UP_BYTES - sent,
    {
        usart1().transmit_byte(out, WARM_UP_BYTE);
        assert(out@ =~= before + warm_up_ops((sent + 1) as nat));
        sent = sent + 1;
    }
}

/// Brings the board from reset to the greeting on the screen.
pub fn start_up(out: &mut Vec<RegOp>, font: &Font)
    ensures
        final(out)@ == old(out)@ + start_up_ops(*font),
{
    enable_clocks(out);
    uart1_set_up(out);
    warm_up(out);
    lcd_set_up_spi(out);
    lcd_set_up_driver(out);
    draw_demo(out, font);
    assert(out@ =~= old(out)@ + start_up_ops(*font));
}

} // verus!

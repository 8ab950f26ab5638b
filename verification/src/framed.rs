//! The capability table of a front-end that is driven by framed commands,
//! and the entry points through which the protocol engine reaches it.
//!
//! This is the second transport variant. Where the front-end of
//! [`crate::platform`] is a set of registers behind a chip select, this one
//! takes a command with its data and answers with a response; it is polled
//! until it is ready, and signalled over a pair of interrupt lines. The slot
//! and its write-once installation are those of [`crate::platform`].

use vstd::prelude::*;
use crate::platform::installed;

pub use crate::platform::{rfal_platform_set, strcmp};

verus! {

/// What the front-end answered to a read.
#[derive(Debug, PartialEq, Eq)]
pub struct SpiResponse {
    /// The value that the platform's read returned.
    pub ret: u16,
    /// The result code of the response.
    pub code: u8,
    /// The data of the response.
    pub data: Vec<u8>,
}

/// The platform functions of a front-end that is driven by framed commands:
/// polling, command and response, echo and flush, the interrupt lines, a
/// tick source, a delay, and the diagnostic sinks.
pub trait Platform {
    /// Polls the front-end until it takes a command; whether it did.
    fn spi_poll_send(&self) -> bool;

    /// Resets the front-end over the bus.
    fn spi_reset(&self);

    /// Sends the command `cmd` with its data. `sod` marks the data as
    /// beginning with a start-of-data byte.
    fn spi_send_cmd(&self, cmd: u8, data: &[u8], sod: bool);

    /// Reads a response of up to `len` bytes of data.
    fn spi_read(&self, len: usize) -> SpiResponse;

    /// Sends an echo and says whether the front-end answered it.
    fn spi_read_echo(&self) -> bool;

    /// Discards what the front-end still holds.
    fn spi_flush(&self);

    /// Reports an error of the engine with the place where it was raised.
    fn handle_error(&self, file: &[u8], line: i32);

    /// Logs a message of the engine together with a value.
    fn log(&self, msg: &[u8], value: usize);

    /// Pulses the interrupt line to the front-end low.
    fn irq_in_pulse_low(&self);

    /// Waits up to `timeout` milliseconds for a falling edge on the
    /// interrupt line from the front-end; whether one came.
    fn wait_irq_out_falling_edge(&self, timeout: u32) -> bool;

    /// The milliseconds that have passed, by the platform's tick source.
    fn get_ticks_ms(&self) -> u32;

    /// Blocks for `delay` milliseconds.
    fn delay_ms(&self, delay: u32);
}

/// Entry point of the engine: polls until the front-end takes a command.
pub fn ffi_spi_poll_send<P: Platform>(slot: &Option<P>) -> (ready: bool)
    requires
        slot is Some,
    ensures
        call_ensures(P::spi_poll_send, (&slot->Some_0,), ready),
{
    installed(slot).spi_poll_send()
}

/// Entry point of the engine: resets the front-end.
pub fn ffi_spi_reset<P: Platform>(slot: &Option<P>)
    requires
        slot is Some,
    ensures
        call_ensures(P::spi_reset, (&slot->Some_0,), ()),
{
    installed(slot).spi_reset()
}

/// Entry point of the engine: sends a command with its data. An empty
/// `data` stands for a command without data.
pub fn ffi_spi_send_cmd<P: Platform>(slot: &Option<P>, cmd: u8, data: &[u8], sod: bool)
    requires
        slot is Some,
    ensures
        call_ensures(P::spi_send_cmd, (&slot->Some_0, cmd, data, sod), ()),
{
    installed(slot).spi_send_cmd(cmd, data, sod)
}

/// Entry point of the engine: reads a response of up to `len` bytes of
/// data. The result is the table's answer: its return value, the result
/// code and the data.
pub fn ffi_spi_read<P: Platform>(slot: &Option<P>, len: usize) -> (response: SpiResponse)
    requires
        slot is Some,
    ensures
        call_ensures(P::spi_read, (&slot->Some_0, len), response),
{
    installed(slot).spi_read(len)
}

/// Entry point of the engine: sends an echo.
pub fn ffi_spi_read_echo<P: Platform>(slot: &Option<P>) -> (answered: bool)
    requires
        slot is Some,
    ensures
        call_ensures(P::spi_read_echo, (&slot->Some_0,), answered),
{
    installed(slot).spi_read_echo()
}

/// Entry point of the engine: discards what the front-end still holds.
pub fn ffi_spi_flush<P: Platform>(slot: &Option<P>)
    requires
        slot is Some,
    ensures
        call_ensures(P::spi_flush, (&slot->Some_0,), ()),
{
    installed(slot).spi_flush()
}

/// Entry point of the engine: reports an error with its location.
pub fn ffi_handle_error<P: Platform>(slot: &Option<P>, file: &[u8], line: i32)
    requires
        slot is Some,
    ensures
        call_ensures(P::handle_error, (&slot->Some_0, file, line), ()),
{
    installed(slot).handle_error(file, line)
}

/// Entry point of the engine: logs a message together with a value.
pub fn ffi_log<P: Platform>(slot: &Option<P>, msg: &[u8], val: usize)
    requires
        slot is Some,
    ensures
        call_ensures(P::log, (&slot->Some_0, msg, val), ()),
{
    installed(slot).log(msg, val)
}

/// Entry point of the engine: pulses the interrupt line to the front-end.
pub fn ffi_irq_in_pulse_low<P: Platform>(slot: &Option<P>)
    requires
        slot is Some,
    ensures
        call_ensures(P::irq_in_pulse_low, (&slot->Some_0,), ()),
{
    installed(slot).irq_in_pulse_low()
}

/// Entry point of the engine: waits for a falling edge on the interrupt
/// line from the front-end.
pub fn ffi_wait_irq_out_falling_edge<P: Platform>(slot: &Option<P>, timeout: u32) -> (seen: bool)
    requires
        slot is Some,
    ensures
        call_ensures(P::wait_irq_out_falling_edge, (&slot->Some_0, timeout), seen),
{
    installed(slot).wait_irq_out_falling_edge(timeout)
}

/// Entry point of the engine: the milliseconds that have passed, from which
/// the engine counts its timeouts.
pub fn ffi_get_ticks_ms<P: Platform>(slot: &Option<P>) -> (ticks: u32)
    requires
        slot is Some,
    ensures
        call_ensures(P::get_ticks_ms, (&slot->Some_0,), ticks),
{
    installed(slot).get_ticks_ms()
}

/// Entry point of the engine: blocks for `delay` milliseconds.
pub fn ffi_delay_ms<P: Platform>(slot: &Option<P>, delay: u32)
    requires
        slot is Some,
    ensures
        call_ensures(P::delay_ms, (&slot->Some_0, delay), ()),
{
    installed(slot).delay_ms(delay)
}

} // verus!

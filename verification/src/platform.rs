//! The capability table of a front-end on a register bus, and the entry
//! points through which the protocol engine reaches it.
//!
//! The integrator implements [`RfalPlatform`] and installs it, once, in a
//! slot that lives as long as the process. The engine then calls the entry
//! points below, on the caller's own stack; each hands its arguments to the
//! installed table and hands back what the table returned. An entry point
//! that is reached before a table is installed shows a broken integration:
//! every one of them demands an installed table.

use vstd::prelude::*;

verus! {

/// The platform functions of a front-end that is driven over a register
/// bus: chip select and synchronous byte exchange, GPIO and interrupt lines,
/// timers, a tick source, a delay, and the diagnostic sinks.
pub trait RfalPlatform {
    /// Blocks for `delay` milliseconds.
    fn delay_ms(&self, delay: u32);

    /// Asserts the chip select of the front-end.
    fn spi_select(&self);

    /// Releases the chip select of the front-end.
    fn spi_deselect(&self);

    /// Clocks `tx` out and gives the bytes clocked in meanwhile.
    fn spi_tx_rx(&self, tx: &[u8]) -> Vec<u8>;

    /// Reports an error of the engine with the place where it was raised.
    fn handle_error(&self, file: &[u8], line: i32);

    /// Logs a message of the engine together with a value.
    fn log(&self, msg: &[u8], value: usize);

    /// Drives a pin.
    fn gpio_set(&self, port: u32, pin: u32, value: bool);

    /// Reads a pin.
    fn gpio_get(&self, port: u32, pin: u32) -> bool;

    /// Inverts a pin.
    fn gpio_toggle(&self, port: u32, pin: u32);

    /// The pin of the interrupt line from the front-end.
    fn ffi_irq_out_pin(&self) -> u32;

    /// The port of the interrupt line from the front-end.
    fn ffi_irq_out_port(&self) -> u32;

    /// The pin of the interrupt line to the front-end.
    fn ffi_irq_in_pin(&self) -> u32;

    /// The port of the interrupt line to the front-end.
    fn ffi_irq_in_port(&self) -> u32;

    /// Starts a timer that expires after `timeout` milliseconds.
    fn ffi_create_timer(&self, timeout: u32) -> u32;

    /// Whether a timer has expired.
    fn ffi_timer_is_expired(&self, timer: u32) -> bool;

    /// The milliseconds that have passed, by the platform's tick source.
    fn get_ticks_ms(&self) -> u32;
}

/// What a slot holds after an attempt to install `platform` in it: the
/// table that was there first, and `platform` only where there was none.
pub open spec fn installed_after<P>(slot: Option<P>, platform: P) -> Option<P> {
    if slot is Some {
        slot
    } else {
        Some(platform)
    }
}

/// Installs the capability table.
///
/// The installation succeeds exactly once. On a slot that already holds a
/// table it fails, and the table that is active stays.
pub fn rfal_platform_set<P>(slot: &mut Option<P>, platform: P) -> (r: Result<(), ()>)
    ensures
        r is Ok <==> *old(slot) is None,
        *final(slot) == installed_after(*old(slot), platform),
{
    if slot.is_some() {
        return Err(());
    }
    *slot = Some(platform);
    Ok(())
}

/// A second installation fails, and the slot still holds the table of the
/// first: whatever is dispatched afterwards reaches the first table.
pub proof fn lemma_install_is_write_once<P>(first: P, second: P)
    ensures
        installed_after(None::<P>, first) == Some(first),
        installed_after(installed_after(None::<P>, first), second) == Some(first),
        installed_after(Some(first), second) is Some,
{
}

/// Once a table is installed, no further attempt changes the slot.
pub proof fn lemma_installed_table_stays<P>(slot: Option<P>, platform: P)
    requires
        slot is Some,
    ensures
        installed_after(slot, platform) == slot,
        installed_after(slot, platform)->Some_0 == slot->Some_0,
{
}

/// The table that a slot holds.
pub fn installed<P>(slot: &Option<P>) -> (table: &P)
    requires
        slot is Some,
    ensures
        *table == slot->Some_0,
{
    slot.as_ref().unwrap()
}

/// Entry point of the engine: blocks for `delay` milliseconds.
pub fn ffi_delay_ms<P: RfalPlatform>(slot: &Option<P>, delay: u32)
    requires
        slot is Some,
    ensures
        call_ensures(P::delay_ms, (&slot->Some_0, delay), ()),
{
    installed(slot).delay_ms(delay)
}

/// Entry point of the engine: asserts the chip select.
pub fn ffi_spi_select<P: RfalPlatform>(slot: &Option<P>)
    requires
        slot is Some,
    ensures
        call_ensures(P::spi_select, (&slot->Some_0,), ()),
{
    installed(slot).spi_select()
}

/// Entry point of the engine: releases the chip select.
pub fn ffi_spi_deselect<P: RfalPlatform>(slot: &Option<P>)
    requires
        slot is Some,
    ensures
        call_ensures(P::spi_deselect, (&slot->Some_0,), ()),
{
    installed(slot).spi_deselect()
}

/// Entry point of the engine: exchanges bytes with the front-end. The
/// result is what the table clocked in while `tx` went out.
pub fn ffi_spi_tx_rx<P: RfalPlatform>(slot: &Option<P>, tx: &[u8]) -> (rx: Vec<u8>)
    requires
        slot is Some,
    ensures
        call_ensures(P::spi_tx_rx, (&slot->Some_0, tx), rx),
{
    installed(slot).spi_tx_rx(tx)
}

/// Entry point of the engine: reports an error with its location.
pub fn ffi_handle_error<P: RfalPlatform>(slot: &Option<P>, file: &[u8], line: i32)
    requires
        slot is Some,
    ensures
        call_ensures(P::handle_error, (&slot->Some_0, file, line), ()),
{
    installed(slot).handle_error(file, line)
}

/// Entry point of the engine: drives a pin.
pub fn ffi_gpio_set<P: RfalPlatform>(slot: &Option<P>, port: u32, pin: u32, value: bool)
    requires
        slot is Some,
    ensures
        call_ensures(P::gpio_set, (&slot->Some_0, port, pin, value), ()),
{
    installed(slot).gpio_set(port, pin, value)
}

/// Entry point of the engine: reads a pin.
pub fn ffi_gpio_get<P: RfalPlatform>(slot: &Option<P>, port: u32, pin: u32) -> (level: bool)
    requires
        slot is Some,
    ensures
        call_ensures(P::gpio_get, (&slot->Some_0, port, pin), level),
{
    installed(slot).gpio_get(port, pin)
}

/// Entry point of the engine: inverts a pin.
pub fn ffi_gpio_toggle<P: RfalPlatform>(slot: &Option<P>, port: u32, pin: u32)
    requires
        slot is Some,
    ensures
        call_ensures(P::gpio_toggle, (&slot->Some_0, port, pin), ()),
{
    installed(slot).gpio_toggle(port, pin)
}

/// Entry point of the engine: the pin of the interrupt line from the
/// front-end.
pub fn ffi_irq_out_pin<P: RfalPlatform>(slot: &Option<P>) -> (pin: u32)
    requires
        slot is Some,
    ensures
        call_ensures(P::ffi_irq_out_pin, (&slot->Some_0,), pin),
{
    installed(slot).ffi_irq_out_pin()
}

/// Entry point of the engine: the port of the interrupt line from the
/// front-end.
pub fn ffi_irq_out_port<P: RfalPlatform>(slot: &Option<P>) -> (port: u32)
    requires
        slot is Some,
    ensures
        call_ensures(P::ffi_irq_out_port, (&slot->Some_0,), port),
{
    installed(slot).ffi_irq_out_port()
}

/// Entry point of the engine: the pin of the interrupt line to the
/// front-end.
pub fn ffi_irq_in_pin<P: RfalPlatform>(slot: &Option<P>) -> (pin: u32)
    requires
        slot is Some,
    ensures
        call_ensures(P::ffi_irq_in_pin, (&slot->Some_0,), pin),
{
    installed(slot).ffi_irq_in_pin()
}

/// Entry point of the engine: the port of the interrupt line to the
/// front-end.
pub fn ffi_irq_in_port<P: RfalPlatform>(slot: &Option<P>) -> (port: u32)
    requires
        slot is Some,
    ensures
        call_ensures(P::ffi_irq_in_port, (&slot->Some_0,), port),
{
    installed(slot).ffi_irq_in_port()
}

/// Entry point of the engine: starts a timer.
pub fn ffi_create_timer<P: RfalPlatform>(slot: &Option<P>, timeout: u32) -> (timer: u32)
    requires
        slot is Some,
    ensures
        call_ensures(P::ffi_create_timer, (&slot->Some_0, timeout), timer),
{
    installed(slot).ffi_create_timer(timeout)
}

/// Entry point of the engine: whether a timer has expired.
pub fn ffi_timer_is_expired<P: RfalPlatform>(slot: &Option<P>, timer: u32) -> (expired: bool)
    requires
        slot is Some,
    ensures
        call_ensures(P::ffi_timer_is_expired, (&slot->Some_0, timer), expired),
{
    installed(slot).ffi_timer_is_expired(timer)
}

/// Entry point of the engine: logs a message together with a value.
pub fn ffi_log<P: RfalPlatform>(slot: &Option<P>, msg: &[u8], len: usize)
    requires
        slot is Some,
    ensures
        call_ensures(P::log, (&slot->Some_0, msg, len), ()),
{
    installed(slot).log(msg, len)
}

/// Entry point of the engine: the milliseconds that have passed, from which
/// the engine counts its timeouts.
pub fn ffi_get_ticks_ms<P: RfalPlatform>(slot: &Option<P>) -> (ticks: u32)
    requires
        slot is Some,
    ensures
        call_ensures(P::get_ticks_ms, (&slot->Some_0,), ticks),
{
    installed(slot).get_ticks_ms()
}

/// The byte of a string at a position. A string ends with its slice, so
/// every position behind the end reads as the terminator.
pub open spec fn byte_at(s: Seq<i8>, i: int) -> int {
    if 0 <= i < s.len() {
        s[i] as int
    } else {
        0
    }
}

/// Whether a comparison of two strings stops at a position: the bytes there
/// differ, or the first string ends.
pub open spec fn stops_at(a: Seq<i8>, b: Seq<i8>, i: int) -> bool {
    byte_at(a, i) != byte_at(b, i) || byte_at(a, i) == 0
}

/// The difference at the first position from `i` on at which the comparison
/// of two strings stops.
pub open spec fn difference_from(a: Seq<i8>, b: Seq<i8>, i: int) -> int
    decreases a.len() - i,
{
    if stops_at(a, b, i) || i >= a.len() {
        byte_at(a, i) - byte_at(b, i)
    } else {
        difference_from(a, b, i + 1)
    }
}

/// `difference_from` at a position given as an index.
pub open spec fn difference_from_index(a: Seq<i8>, b: Seq<i8>, i: usize) -> int {
    difference_from(a, b, i as int)
}

/// A byte as a 32-bit number of the same value.
fn widen(byte: i8) -> (wide: i32)
    ensures
        wide == byte,
{
    byte as i32
}

/// The byte of a string at a position, the terminator behind its end.
fn read_byte(s: &[i8], i: usize) -> (byte: i8)
    ensures
        byte == byte_at(s@, i as int),
{
    if i < s.len() {
        s[i]
    } else {
        0
    }
}

/// Compares two byte strings, for the engine's freestanding build.
///
/// The comparison is lexicographic. It stops at the first position at which
/// the bytes differ or the first string ends, and the result is the signed
/// difference of the two bytes there: zero for equal strings, negative
/// where `s1` sorts first, positive where `s2` does.
pub fn strcmp(s1: &[i8], s2: &[i8]) -> (r: i32)
    ensures
        r == difference_from(s1@, s2@, 0),
{
    let mut i: usize = 0;
    loop
        invariant
            i <= s1.len(),
            difference_from(s1@, s2@, 0) == difference_from_index(s1@, s2@, i),
        decreases s1.len() - i,
    {
        let left: i8 = read_byte(s1, i);
        let right: i8 = read_byte(s2, i);
        let val: i32 = widen(left) - widen(right);
        if val != 0 || left == 0 {
            return val;
        }
        i += 1;
    }
}

/// The result of a comparison is the difference at the first position at
/// which it stops, whichever that is.
pub proof fn lemma_difference_at_first_stop(a: Seq<i8>, b: Seq<i8>, k: int)
    requires
        0 <= k,
        stops_at(a, b, k),
        forall|j: int| 0 <= j < k ==> !stops_at(a, b, j),
    ensures
        difference_from(a, b, 0) == byte_at(a, k) - byte_at(b, k),
{
    lemma_difference_skips(a, b, 0, k);
}

/// From a position up to the first stop, the difference does not depend on
/// where the comparison starts.
proof fn lemma_difference_skips(a: Seq<i8>, b: Seq<i8>, i: int, k: int)
    requires
        0 <= i <= k,
        stops_at(a, b, k),
        forall|j: int| i <= j < k ==> !stops_at(a, b, j),
    ensures
        difference_from(a, b, i) == byte_at(a, k) - byte_at(b, k),
    decreases k - i,
{
    if i < k {
        assert(!stops_at(a, b, i));
        assert(i < a.len());
        lemma_difference_skips(a, b, i + 1, k);
    }
}

/// A string compared with itself gives zero.
pub proof fn lemma_equal_strings_have_no_difference(a: Seq<i8>)
    ensures
        difference_from(a, a, 0) == 0,
{
    lemma_same_from(a, 0);
}

/// From any position on, a string has no difference from itself.
proof fn lemma_same_from(a: Seq<i8>, i: int)
    requires
        0 <= i,
    ensures
        difference_from(a, a, i) == 0,
    decreases a.len() - i,
{
    if !(stops_at(a, a, i) || i >= a.len()) {
        lemma_same_from(a, i + 1);
    }
}

} // verus!

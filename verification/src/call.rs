//! The entry points of the protocol engine, as values.

use vstd::prelude::*;
use crate::discover::DiscoverParam;
use crate::ndef::{CapabilityContainer, NdefContext, NdefInfo};
use crate::nfc::Device;

verus! {

/// How a session with the active device is ended.
#[derive(Debug, Clone, Copy, PartialEq, Eq, Structural)]
pub enum Deactivation {
    /// Back to idle: nothing is polled until discovery is started again.
    Idle,
    /// The tag is put to sleep and can be woken up later.
    Sleep,
    /// Discovery restarts at once, so the tag is polled again right away.
    Discovery,
}

/// One call on the protocol engine, with the arguments to hand to it.
#[derive(Debug, Clone, Copy, PartialEq, Eq)]
pub enum Call<'a> {
    /// Bring up the engine's radio layer.
    RfalInitialize,
    /// Bring up the engine's session layer.
    NfcInitialize,
    /// Advance the engine by one non-blocking step.
    NfcWorker,
    /// Read the engine's session state.
    NfcGetState,
    /// Start discovery with this parameter block.
    NfcDiscover(DiscoverParam),
    /// List the devices that discovery found.
    NfcGetDevicesFound,
    /// Activate the device with this index in the list of those found.
    NfcSelect(u8),
    /// Report the device that is active.
    NfcGetActiveDevice,
    /// End the session with the active device.
    NfcDeactivate(Deactivation),
    /// Begin one transceive. `tx` is absent for a receive-only exchange;
    /// `tx_len` is the number of its bytes to send.
    DataExchangeStart { tx: Option<&'a [u8]>, tx_len: u16, fwt: u32 },
    /// Poll the transceive that was begun.
    DataExchangeGetStatus,
    /// Bind the blank context `ctx` to the activated device `device`.
    NdefContextInitialization { ctx: NdefContext, device: Device },
    /// Probe the tag of the bound device for an NDEF application, and put
    /// what is found into `info`.
    NdefDetect { ctx: NdefContext, info: NdefInfo },
    /// Read the raw message of the tag into a staging buffer of `buf_len`
    /// bytes, in one go where `single` is set.
    NdefReadRawMessage { ctx: NdefContext, buf_len: u32, single: bool },
    /// Write the first `len` bytes of `message` to the tag as its raw
    /// message.
    NdefWriteRawMessage { ctx: NdefContext, message: &'a [u8], len: u32 },
    /// Format the tag by writing the capability container `cc` to it.
    NdefTagFormat { ctx: NdefContext, cc: CapabilityContainer, option: u32 },
}

} // verus!

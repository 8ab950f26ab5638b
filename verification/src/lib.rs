//! Driver core for a contactless reader front-end that is operated through a
//! vendor-supplied protocol engine.
//!
//! The engine does the radio work: discovery, anticollision and framing.
//! This crate is the layer around it: the capability table through which
//! the engine reaches the platform, the discovery configurator, the session
//! driver, the data-exchange channel, the NDEF tag accessor, and the
//! translation of the engine's status codes into a closed set of errors.
//!
//! The crate makes no call on the engine. An operation names the call to
//! make, as a [`Call`]; the host makes it and hands the engine's answer
//! back, and the driver says how the operation ended.

pub mod call;
pub mod discover;
pub mod error;
pub mod framed;
pub mod ndef;
pub mod nfc;
pub mod platform;
pub mod session;

pub use crate::call::{Call, Deactivation};
pub use crate::discover::{
    BitRate, ComplianceMode, Discover, DiscoverParam, LmNfcidLen, RFAL_FWT_NONE,
    RFAL_NFC_LISTEN_TECH_A, RFAL_NFC_POLL_TECH_A, RFAL_NFC_TECH_NONE,
};
pub use crate::error::{result, Error};
pub use crate::framed::Platform;
pub use crate::ndef::{
    CapabilityContainer, CapabilityContainerT1t, CapabilityContainerT2t, Ndef, NdefContext,
    NdefDeviceType, NdefInfo, NdefState, Poller,
};
pub use crate::nfc::{
    DataExchange, DevType, Device, Nfc, NfcaListenDevice, NfcaListenDeviceType, Technology,
};
pub use crate::session::{Bringup, Rfal, Startup};

//! The session as a whole: its bring-up, and the three components that work
//! against the engine once it is up.

use vstd::prelude::*;
use crate::call::Call;
use crate::discover::{is_default_param, Discover};
use crate::error::{result, translate, Error, RFAL_ERR_NONE};
use crate::ndef::Ndef;
use crate::nfc::Nfc;
use crate::platform::{installed_after, rfal_platform_set};

verus! {

/// A session with the engine: the discovery configurator, the session
/// driver and the NDEF component.
#[derive(Debug, Clone, Copy, PartialEq, Eq)]
pub struct Rfal {
    pub discover: Discover,
    pub nfc: Nfc,
    pub ndef: Ndef,
}

/// A session in which nothing has happened yet: the discovery parameters at
/// their defaults, no device enumerated, no context bound.
pub open spec fn is_fresh(rfal: Rfal) -> bool {
    &&& is_default_param(rfal.discover.params)
    &&& rfal.nfc.devices_reported() == 0
    &&& rfal.ndef.poller.bound() is None
}

/// A stage of the bring-up: the engine call whose answer is awaited.
#[derive(Debug, Clone, Copy, PartialEq, Eq, Structural)]
pub enum Startup {
    /// The capability table is in place; the engine's radio layer is to be
    /// brought up.
    Engine,
    /// The radio layer is up; the engine's session layer is to be brought
    /// up.
    Session,
}

/// Where the bring-up stands after an answer of the engine.
#[derive(Debug, Clone, Copy, PartialEq, Eq)]
pub enum Bringup {
    /// Another call is due.
    Pending(Startup),
    /// The engine is up, and this is the session with it.
    Ready(Rfal),
}

/// What an answer of the engine makes of a stage of the bring-up.
///
/// A failure at either stage ends the bring-up for good: it yields no
/// further stage and no session.
pub open spec fn bringup_step(stage: Startup, status: u16, next: Result<Bringup, Error>) -> bool {
    if status != RFAL_ERR_NONE {
        next == Err::<Bringup, Error>(translate(status))
    } else {
        match stage {
            Startup::Engine => next == Ok::<Bringup, Error>(Bringup::Pending(Startup::Session)),
            Startup::Session => next matches Ok(Bringup::Ready(rfal)) && is_fresh(rfal),
        }
    }
}

impl Startup {
    /// The stage's call on the engine.
    pub open spec fn due(self) -> Call<'static> {
        match self {
            Startup::Engine => Call::RfalInitialize,
            Startup::Session => Call::NfcInitialize,
        }
    }

    /// Names the call that is due at this stage.
    pub fn call(&self) -> (call: Call<'static>)
        ensures
            call == self.due(),
    {
        match self {
            Startup::Engine => Call::RfalInitialize,
            Startup::Session => Nfc::initialize(),
        }
    }

    /// Takes the engine's answer to the call of this stage.
    pub fn reply(self, status: u16) -> (next: Result<Bringup, Error>)
        ensures
            bringup_step(self, status, next),
            next is Ok <==> status == RFAL_ERR_NONE,
    {
        match result(status) {
            Ok(()) => match self {
                Startup::Engine => Ok(Bringup::Pending(Startup::Session)),
                Startup::Session => Ok(
                    Bringup::Ready(
                        Rfal {
                            discover: Discover::default(),
                            nfc: Nfc::default(),
                            ndef: Ndef::default(),
                        },
                    ),
                ),
            },
            Err(error) => Err(error),
        }
    }
}

impl Rfal {
    /// Begins the bring-up of a session: installs the capability table and
    /// gives the first stage.
    ///
    /// The table is installed before the first engine call, since the
    /// engine reaches the platform through it from then on. Where a table
    /// is installed already, it stays: a session never replaces the active
    /// table.
    pub fn new<P>(slot: &mut Option<P>, platform: P) -> (stage: Startup)
        ensures
            stage == Startup::Engine,
            *final(slot) == installed_after(*old(slot), platform),
            *final(slot) is Some,
    {
        let _ = rfal_platform_set(slot, platform);
        Startup::Engine
    }

    /// Tears the session down to its beginning: the discovery parameters go
    /// back to their defaults, the devices enumerated are forgotten, and the
    /// NDEF accessor is bound to nothing.
    pub fn reset(&mut self)
        ensures
            is_fresh(*final(self)),
    {
        self.discover = Discover::default();
        self.nfc = Nfc::default();
        self.ndef = Ndef::default();
    }
}

/// A bring-up in which the engine answers both calls with success ends in a
/// fresh session, after exactly these two calls in this order; a failure at
/// the first call leaves the second unmade.
pub proof fn lemma_bringup_order(
    first: u16,
    second: u16,
    after_first: Result<Bringup, Error>,
    after_second: Result<Bringup, Error>,
)
    requires
        bringup_step(Startup::Engine, first, after_first),
        bringup_step(Startup::Session, second, after_second),
    ensures
        Startup::Engine.due() == Call::<'static>::RfalInitialize,
        first != RFAL_ERR_NONE ==> after_first is Err,
        first == RFAL_ERR_NONE ==> after_first == Ok::<Bringup, Error>(
            Bringup::Pending(Startup::Session),
        ) && Startup::Session.due() == Call::<'static>::NfcInitialize,
        second == RFAL_ERR_NONE ==> (after_second matches Ok(Bringup::Ready(rfal)) && is_fresh(
            rfal,
        )),
        second != RFAL_ERR_NONE ==> after_second is Err,
{
}

} // verus!

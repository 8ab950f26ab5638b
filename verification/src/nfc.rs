//! The session driver: enumeration, selection and release of devices, and
//! the data-exchange channel to the one that is active.
//!
//! The driver never touches the protocol engine itself. Each operation names
//! the engine call to make as a [`Call`]; the host makes it, and hands what
//! the engine answered to the matching `*_reply` function, which copies what
//! is to be kept and says how the operation ended.

use vstd::prelude::*;
use vstd::slice::slice_subrange;
use crate::call::{Call, Deactivation};
use crate::error::{result, Error, outcome, RFAL_ERR_NONE};

verus! {

/// Length of the longest device identifier.
pub const NFCID_MAX_LEN: usize = 10;

/// Number of devices that the fixed-capacity enumeration can hold.
pub const DEVICE_CAPACITY: usize = 4;

/// The technology and role of a device, as the engine tags it.
#[derive(Debug, Clone, Copy, PartialEq, Eq, Structural)]
pub enum DevType {
    ListenNfca,
    ListenNfcb,
    ListenNfcf,
    ListenNfcv,
    ListenSt25tb,
    ListenAp2p,
    ListenProp,
    PollNfca,
    PollNfcb,
    PollNfcf,
    PollNfcv,
    PollAp2p,
}

/// The kind of an NFC-A listener, as its selection response classifies it.
#[derive(Debug, Clone, Copy, PartialEq, Eq, Structural)]
pub enum NfcaListenDeviceType {
    T1t,
    T2t,
    T4t,
    NfcDep,
    T4tNfcDep,
}

/// What is known of an NFC-A listener after collision resolution.
#[derive(Debug, Clone, Copy, PartialEq, Eq)]
pub struct NfcaListenDevice {
    pub listen_type: NfcaListenDeviceType,
    /// Anticollision information and platform information.
    pub sens_res: [u8; 2],
    /// The select acknowledge byte.
    pub sel_res: u8,
    pub nfcid1_len: u8,
    pub nfcid1: [u8; 10],
    pub is_sleep: bool,
}

/// The type tag of a device together with the payload that the tag selects.
///
/// A payload can only be read through the variant that carries it, so the
/// bytes of one technology are never taken for those of another.
#[derive(Debug, Clone, Copy, PartialEq, Eq)]
pub enum Technology {
    ListenNfca(NfcaListenDevice),
    ListenNfcb,
    ListenNfcf,
    ListenNfcv,
    ListenSt25tb,
    ListenAp2p,
    ListenProp,
    PollNfca,
    PollNfcb,
    PollNfcf,
    PollNfcv,
    PollAp2p,
}

impl Technology {
    /// The type tag of this technology.
    pub open spec fn tag(self) -> DevType {
        match self {
            Technology::ListenNfca(_) => DevType::ListenNfca,
            Technology::ListenNfcb => DevType::ListenNfcb,
            Technology::ListenNfcf => DevType::ListenNfcf,
            Technology::ListenNfcv => DevType::ListenNfcv,
            Technology::ListenSt25tb => DevType::ListenSt25tb,
            Technology::ListenAp2p => DevType::ListenAp2p,
            Technology::ListenProp => DevType::ListenProp,
            Technology::PollNfca => DevType::PollNfca,
            Technology::PollNfcb => DevType::PollNfcb,
            Technology::PollNfcf => DevType::PollNfcf,
            Technology::PollNfcv => DevType::PollNfcv,
            Technology::PollAp2p => DevType::PollAp2p,
        }
    }

    /// The NFC-A payload, which only an NFC-A listener carries.
    pub open spec fn nfca_payload(self) -> Option<NfcaListenDevice> {
        match self {
            Technology::ListenNfca(payload) => Some(payload),
            _ => None,
        }
    }
}

/// A caller-owned copy of one device record that the engine reported.
///
/// The record holds no reference into the engine's storage, so it stays
/// readable after the next tick; what it describes is current only until the
/// next discovery cycle.
#[derive(Debug, Clone, Copy, PartialEq, Eq)]
pub struct Device {
    technology: Technology,
    nfcid: [u8; 10],
    nfcid_len: u8,
}

impl Device {
    #[verifier::type_invariant]
    spec fn well_formed(self) -> bool {
        self.nfcid_len <= 10
    }

    /// The technology of the device, with its payload.
    pub closed spec fn technology(self) -> Technology {
        self.technology
    }

    /// The identifier of the device: between 0 and 10 bytes.
    pub closed spec fn identifier(self) -> Seq<u8> {
        self.nfcid@.take(self.nfcid_len as int)
    }

    /// Builds the record of a device from its technology and identifier.
    ///
    /// An identifier of more than ten bytes is not a device identifier, and
    /// gives `None`.
    pub fn new(technology: Technology, nfcid: &[u8]) -> (device: Option<Device>)
        ensures
            device is Some <==> nfcid@.len() <= NFCID_MAX_LEN,
            device is Some ==> device->Some_0.technology() == technology,
            device is Some ==> device->Some_0.identifier() == nfcid@,
    {
        let len: usize = nfcid.len();
        if len > NFCID_MAX_LEN {
            return None;
        }
        let mut bytes: [u8; 10] = [0u8; 10];
        let mut i: usize = 0;
        while i < len
            invariant
                len == nfcid@.len(),
                len <= 10,
                i <= len,
                bytes@.take(i as int) == nfcid@.take(i as int),
            decreases len - i,
        {
            bytes[i] = nfcid[i];
            i += 1;
            assert(bytes@.take(i as int) =~= nfcid@.take(i as int));
        }
        assert(nfcid@.take(len as int) =~= nfcid@);
        Some(Device { technology, nfcid: bytes, nfcid_len: len as u8 })
    }

    /// The NFC-A payload of the record, present exactly for an NFC-A
    /// listener.
    pub fn nfca(&self) -> (payload: Option<NfcaListenDevice>)
        ensures
            payload == self.technology().nfca_payload(),
            payload is Some <==> self.technology().tag() == DevType::ListenNfca,
    {
        match self.technology {
            Technology::ListenNfca(payload) => Some(payload),
            _ => None,
        }
    }

    /// The identifier of the device, or `None` where it has none.
    pub fn id(&self) -> (id: Option<&[u8]>)
        ensures
            self.identifier().len() <= NFCID_MAX_LEN,
            id is None <==> self.identifier().len() == 0,
            id is Some ==> id->Some_0@ == self.identifier(),
    {
        proof {
            use_type_invariant(self);
        }
        if self.nfcid_len != 0 {
            let all: &[u8] = self.nfcid.as_slice();
            Some(slice_subrange(all, 0, self.nfcid_len as usize))
        } else {
            None
        }
    }

    /// The type tag of the device.
    pub fn dev_type(&self) -> (tag: DevType)
        ensures
            tag == self.technology().tag(),
    {
        match self.technology {
            Technology::ListenNfca(_) => DevType::ListenNfca,
            Technology::ListenNfcb => DevType::ListenNfcb,
            Technology::ListenNfcf => DevType::ListenNfcf,
            Technology::ListenNfcv => DevType::ListenNfcv,
            Technology::ListenSt25tb => DevType::ListenSt25tb,
            Technology::ListenAp2p => DevType::ListenAp2p,
            Technology::ListenProp => DevType::ListenProp,
            Technology::PollNfca => DevType::PollNfca,
            Technology::PollNfcb => DevType::PollNfcb,
            Technology::PollNfcf => DevType::PollNfcf,
            Technology::PollNfcv => DevType::PollNfcv,
            Technology::PollAp2p => DevType::PollAp2p,
        }
    }
}


#[verifier::external_type_specification]
#[verifier::external_body]
#[verifier::reject_recursive_types(T)]
pub struct ExBoundedVec<T, const N: usize>(heapless::Vec<T, N>);

/// The device records that a fixed-capacity enumeration holds, in the order
/// in which they were put there.
pub uninterp spec fn held(list: heapless::Vec<Device, 4>) -> Seq<Device>;

/// `heapless::Vec::new`: a vector that holds nothing.
#[verifier::external_body]
fn bounded_new() -> (list: heapless::Vec<Device, 4>)
    ensures
        held(list) == Seq::<Device>::empty(),
{
    heapless::Vec::new()
}

/// `heapless::Vec::push`: below the capacity of four the record is appended
/// behind those already held; at capacity nothing changes and the record
/// comes back in the error.
#[verifier::external_body]
fn bounded_push(list: &mut heapless::Vec<Device, 4>, device: Device) -> (r: Result<(), Device>)
    ensures
        r is Ok <==> held(*old(list)).len() < 4,
        r is Ok ==> held(*final(list)) == held(*old(list)).push(device),
        r is Err ==> held(*final(list)) == held(*old(list)) && r->Err_0 == device,
{
    list.push(device)
}

/// The lesser of two lengths.
pub open spec fn least(a: int, b: int) -> int {
    if a <= b {
        a
    } else {
        b
    }
}

/// The data-exchange channel: one asynchronous transceive at a time against
/// the active device.
#[derive(Debug, Clone, Copy, PartialEq, Eq)]
pub struct DataExchange {}

impl Default for DataExchange {
    fn default() -> (channel: DataExchange)
        ensures
            channel == (DataExchange {}),
    {
        DataExchange {}
    }
}

/// The number of bytes of a transmit buffer that an exchange sends: its
/// length, as far as sixteen bits hold it, and nothing where there is no
/// buffer.
pub open spec fn transmit_len(tx: Option<&[u8]>) -> nat {
    match tx {
        Some(bytes) => bytes@.len() % 0x1_0000,
        None => 0,
    }
}

/// The call that begins a transceive: the transmit buffer as it was given,
/// the number of its bytes to send, and the frame wait time.
pub open spec fn start_request<'a>(tx: Option<&'a [u8]>, fwt: u32) -> Call<'a> {
    Call::DataExchangeStart { tx, tx_len: transmit_len(tx) as u16, fwt }
}

/// The number of received bytes that reach a receive buffer of `capacity`
/// bytes: all of them, as far as the buffer and a sixteen-bit count hold
/// them.
pub open spec fn delivered_len(received: int, capacity: int) -> int {
    least(least(received, capacity), 0xffff)
}

impl DataExchange {
    /// Begins a transceive: names the call that starts it.
    ///
    /// `tx_data` is absent for a receive-only exchange. `fwt` is the frame
    /// wait time, which bounds the engine's own timeout and not the cadence
    /// at which the caller polls. Nothing has moved when the call returns:
    /// the bytes move during the ticks that follow.
    pub fn start<'a>(&self, tx_data: Option<&'a [u8]>, fwt: u32) -> (call: Call<'a>)
        ensures
            call == start_request(tx_data, fwt),
    {
        let tx_len: u16 = match tx_data {
            Some(bytes) => (bytes.len() % 0x1_0000) as u16,
            None => 0,
        };
        Call::DataExchangeStart { tx: tx_data, tx_len, fwt }
    }

    /// Names the call that polls the transceive in progress.
    pub fn get_status(&self) -> (call: Call<'static>)
        ensures
            call == Call::<'static>::DataExchangeGetStatus,
    {
        Call::DataExchangeGetStatus
    }

    /// Takes the engine's answer to a poll.
    ///
    /// The result is success, the in-progress indication `Error::Busy`, or
    /// the translated failure. On success the bytes that the engine received
    /// are copied out of its storage into `rx_data`, and `rcv_len` is set to
    /// their number; otherwise both are left as they were.
    pub fn get_status_reply(
        &self,
        status: u16,
        received: &[u8],
        rx_data: &mut [u8],
        rcv_len: &mut u16,
    ) -> (r: Result<(), Error>)
        ensures
            r == outcome(status),
            final(rx_data)@.len() == old(rx_data)@.len(),
            r is Err ==> final(rx_data)@ == old(rx_data)@ && *final(rcv_len) == *old(rcv_len),
            r is Ok ==> *final(rcv_len) == delivered_len(
                received@.len() as int,
                old(rx_data)@.len() as int,
            ),
            r is Ok ==> final(rx_data)@.take(*final(rcv_len) as int) == received@.take(
                *final(rcv_len) as int,
            ),
            r is Ok ==> final(rx_data)@.skip(*final(rcv_len) as int) == old(rx_data)@.skip(
                *final(rcv_len) as int,
            ),
    {
        match result(status) {
            Ok(()) => {
                let mut limit: usize = received.len();
                if rx_data.len() < limit {
                    limit = rx_data.len();
                }
                if limit > 0xffff {
                    limit = 0xffff;
                }
                let mut i: usize = 0;
                while i < limit
                    invariant
                        limit <= received@.len(),
                        limit <= rx_data@.len(),
                        rx_data@.len() == old(rx_data)@.len(),
                        i <= limit,
                        forall|j: int| 0 <= j < i ==> rx_data@[j] == received@[j],
                        forall|j: int| i <= j < rx_data@.len() ==> rx_data@[j] == old(rx_data)@[j],
                    decreases limit - i,
                {
                    rx_data[i] = received[i];
                    i += 1;
                }
                assert(rx_data@.take(limit as int) =~= received@.take(limit as int));
                assert(rx_data@.skip(limit as int) =~= old(rx_data)@.skip(limit as int));
                *rcv_len = limit as u16;
                Ok(())
            },
            Err(error) => Err(error),
        }
    }
}

/// The statuses that an engine gives to `pending + 1` polls when it reports
/// "in progress" `pending` times and then success.
pub open spec fn poll_script(pending: nat) -> Seq<u16> {
    Seq::new(
        pending + 1,
        |i: int|
            if i < pending {
                crate::error::RFAL_ERR_BUSY
            } else {
                RFAL_ERR_NONE
            },
    )
}

/// Against an engine that reports "in progress" `pending` times and then
/// success, each of the first `pending` polls ends with the in-progress
/// indication, which is no final result, and the poll after them ends with
/// success.
pub proof fn lemma_polls_until_success(pending: nat)
    ensures
        poll_script(pending).len() == pending + 1,
        forall|i: int|
            0 <= i < pending ==> {
                &&& #[trigger] outcome(poll_script(pending)[i]) == Err::<(), Error>(Error::Busy)
                &&& outcome(poll_script(pending)[i])->Err_0.is_in_progress()
            },
        outcome(poll_script(pending)[pending as int]) == Ok::<(), Error>(()),
{
}


/// The session driver.
///
/// It drives nothing by itself: the caller ticks the engine with
/// [`Nfc::worker`] again and again, and the driver reacts to what the engine
/// reports. What it keeps is the number of devices that the engine reported
/// at the last enumeration, against which a selection is checked.
#[derive(Debug, Clone, Copy, PartialEq, Eq)]
pub struct Nfc {
    pub data_exchange: DataExchange,
    reported: usize,
}

impl Default for Nfc {
    /// A driver that has enumerated nothing yet.
    fn default() -> (nfc: Nfc)
        ensures
            nfc.devices_reported() == 0,
            nfc.channel() == (DataExchange {}),
    {
        Nfc { data_exchange: DataExchange {}, reported: 0 }
    }
}

/// What an enumeration copies out of the records that the engine reported:
/// all of them, as far as `capacity` reaches, in the engine's order.
pub open spec fn enumerated(reported: Seq<Device>, capacity: int) -> Seq<Device> {
    reported.take(least(reported.len() as int, capacity))
}

/// How the engine's answer to "which device is active" ends the operation.
pub open spec fn active_outcome(status: u16, device: Option<Device>) -> Result<Device, Error> {
    if status != RFAL_ERR_NONE {
        Err(crate::error::translate(status))
    } else {
        match device {
            Some(record) => Ok(record),
            None => Err(Error::Request),
        }
    }
}

impl Nfc {
    /// The number of devices that the engine reported at the last successful
    /// enumeration; zero before the first.
    pub closed spec fn devices_reported(self) -> nat {
        self.reported as nat
    }

    /// The data-exchange channel of the session.
    pub closed spec fn channel(self) -> DataExchange {
        self.data_exchange
    }

    /// Names the call that brings up the engine's session layer. It is to be
    /// made once, after the capability table is installed and before any
    /// other call of the session; [`result`] says how it ended.
    pub fn initialize() -> (call: Call<'static>)
        ensures
            call == Call::<'static>::NfcInitialize,
    {
        Call::NfcInitialize
    }

    /// Names the call that reads the engine's session state. The read has no
    /// side effect, on the driver or on the engine.
    pub fn state(&self) -> (call: Call<'static>)
        ensures
            call == Call::<'static>::NfcGetState,
    {
        Call::NfcGetState
    }

    /// Names the call that advances the engine by one step. The step never
    /// blocks, and nothing moves without it.
    pub fn worker(&self) -> (call: Call<'static>)
        ensures
            call == Call::<'static>::NfcWorker,
    {
        Call::NfcWorker
    }

    /// Names the call that lists the devices found.
    pub fn get_devices_found(&self) -> (call: Call<'static>)
        ensures
            call == Call::<'static>::NfcGetDevicesFound,
    {
        Call::NfcGetDevicesFound
    }

    /// Takes the engine's answer to an enumeration, into fixed-capacity
    /// storage.
    ///
    /// `reported` are the records in the engine's storage. On success the
    /// first four of them at most are copied out, in order; the devices
    /// beyond the capacity cannot be enumerated. The driver remembers how
    /// many the engine reported. On failure nothing is copied and the driver
    /// is unchanged.
    pub fn get_devices_found_reply(&mut self, status: u16, reported: &[Device]) -> (r: Result<
        heapless::Vec<Device, 4>,
        Error,
    >)
        ensures
            r is Ok <==> status == RFAL_ERR_NONE,
            r is Err ==> r->Err_0 == crate::error::translate(status) && *final(self) == *old(self),
            r is Ok ==> held(r->Ok_0) == enumerated(reported@, DEVICE_CAPACITY as int),
            r is Ok ==> held(r->Ok_0).len() <= reported@.len() && held(r->Ok_0).len()
                <= DEVICE_CAPACITY,
            r is Ok ==> final(self).devices_reported() == reported@.len()
                && final(self).channel() == old(self).channel(),
    {
        match result(status) {
            Ok(()) => {
                let mut list = bounded_new();
                let mut i: usize = 0;
                while i < reported.len() && i < DEVICE_CAPACITY
                    invariant
                        i <= reported@.len(),
                        i <= DEVICE_CAPACITY,
                        held(list) == reported@.take(i as int),
                    decreases DEVICE_CAPACITY - i,
                {
                    let _ = bounded_push(&mut list, reported[i]);
                    assert(reported@.take(i as int).push(reported@[i as int]) =~= reported@.take(
                        i + 1,
                    ));
                    i += 1;
                }
                self.reported = reported.len();
                Ok(list)
            },
            Err(error) => Err(error),
        }
    }

    /// Takes the engine's answer to an enumeration, into storage that grows.
    ///
    /// On success every record that the engine reported is copied out, in
    /// order, and the driver remembers how many there were. On failure
    /// nothing is copied and the driver is unchanged.
    pub fn get_devices_found_reply_unbounded(&mut self, status: u16, reported: &[Device]) -> (r:
        Result<Vec<Device>, Error>)
        ensures
            r is Ok <==> status == RFAL_ERR_NONE,
            r is Err ==> r->Err_0 == crate::error::translate(status) && *final(self) == *old(self),
            r is Ok ==> r->Ok_0@ == reported@,
            r is Ok ==> final(self).devices_reported() == reported@.len()
                && final(self).channel() == old(self).channel(),
    {
        match result(status) {
            Ok(()) => {
                let mut list: Vec<Device> = Vec::new();
                let mut i: usize = 0;
                while i < reported.len()
                    invariant
                        i <= reported@.len(),
                        list@ == reported@.take(i as int),
                    decreases reported@.len() - i,
                {
                    list.push(reported[i]);
                    assert(reported@.take(i as int).push(reported@[i as int]) =~= reported@.take(
                        i + 1,
                    ));
                    i += 1;
                }
                assert(reported@.take(reported@.len() as int) =~= reported@);
                self.reported = reported.len();
                Ok(list)
            },
            Err(error) => Err(error),
        }
    }

    /// Names the call that activates one of the devices found.
    ///
    /// An index at or beyond the number of devices that the engine reported
    /// is refused with `Error::Param`, and no call is to be made. For an
    /// index in range, [`result`] of the engine's answer says whether the
    /// engine accepted the selection.
    pub fn select(&self, dev_idx: u8) -> (r: Result<Call<'static>, Error>)
        ensures
            r == select_request(self.devices_reported(), dev_idx),
            r is Err <==> dev_idx >= self.devices_reported(),
    {
        if (dev_idx as usize) < self.reported {
            Ok(Call::NfcSelect(dev_idx))
        } else {
            Err(Error::Param)
        }
    }

    /// Names the call that reports the active device.
    pub fn active_device(&self) -> (call: Call<'static>)
        ensures
            call == Call::<'static>::NfcGetActiveDevice,
    {
        Call::NfcGetActiveDevice
    }

    /// Takes the engine's answer to "which device is active".
    ///
    /// The record is copied out on success. Where the engine reports a
    /// failure, no device is active and the translated error is returned; a
    /// success that comes without a record is an invalid request.
    pub fn active_device_reply(&self, status: u16, device: Option<&Device>) -> (r: Result<
        Device,
        Error,
    >)
        ensures
            r == active_outcome(
                status,
                match device {
                    Some(record) => Some(*record),
                    None => None,
                },
            ),
    {
        match result(status) {
            Ok(()) => match device {
                Some(record) => Ok(*record),
                None => Err(Error::Request),
            },
            Err(error) => Err(error),
        }
    }

    /// Names the call that ends the session and returns to idle.
    pub fn deactivate_and_idle(&self) -> (call: Call<'static>)
        ensures
            call == Call::<'static>::NfcDeactivate(Deactivation::Idle),
    {
        Call::NfcDeactivate(Deactivation::Idle)
    }

    /// Names the call that ends the session and puts the tag to sleep.
    pub fn deactivate_and_sleep(&self) -> (call: Call<'static>)
        ensures
            call == Call::<'static>::NfcDeactivate(Deactivation::Sleep),
    {
        Call::NfcDeactivate(Deactivation::Sleep)
    }

    /// Names the call that ends the session and restarts discovery at once.
    pub fn deactivate_and_discovery(&self) -> (call: Call<'static>)
        ensures
            call == Call::<'static>::NfcDeactivate(Deactivation::Discovery),
    {
        Call::NfcDeactivate(Deactivation::Discovery)
    }
}

/// An enumeration never holds more records than the engine reported, nor
/// more than the capacity, and holds all of them where they fit.
pub proof fn lemma_enumeration_is_bounded(reported: Seq<Device>, capacity: int)
    requires
        0 <= capacity,
    ensures
        enumerated(reported, capacity).len() <= reported.len(),
        enumerated(reported, capacity).len() <= capacity,
        reported.len() <= capacity ==> enumerated(reported, capacity) == reported,
        forall|i: int|
            0 <= i < enumerated(reported, capacity).len() ==> enumerated(reported, capacity)[i]
                == reported[i],
{
    if reported.len() <= capacity {
        assert(reported.take(reported.len() as int) =~= reported);
    }
}

/// The request of a selection among `reported` devices: the call for an
/// index in range, and a refusal with `Error::Param` for any other.
pub open spec fn select_request(reported: nat, dev_idx: u8) -> Result<Call<'static>, Error> {
    if dev_idx < reported {
        Ok(Call::NfcSelect(dev_idx))
    } else {
        Err(Error::Param)
    }
}

/// How a selection ends: with the refusal where the request was refused,
/// and else with what the engine answered to the call.
pub open spec fn select_outcome(reported: nat, dev_idx: u8, status: u16) -> Result<(), Error> {
    match select_request(reported, dev_idx) {
        Ok(_) => outcome(status),
        Err(error) => Err(error),
    }
}

/// A selection fails for every index at or beyond the number of devices
/// reported, whatever the engine would say, and succeeds for every index
/// in range against an engine that accepts the selection.
pub proof fn lemma_select_in_range(reported: nat, dev_idx: u8)
    ensures
        dev_idx >= reported ==> forall|status: u16| #[trigger]
            select_outcome(reported, dev_idx, status) == Err::<(), Error>(Error::Param),
        dev_idx < reported ==> select_request(reported, dev_idx) == Ok::<Call<'static>, Error>(
            Call::NfcSelect(dev_idx),
        ),
        dev_idx < reported ==> select_outcome(reported, dev_idx, RFAL_ERR_NONE) == Ok::<
            (),
            Error,
        >(()),
{
}

} // verus!

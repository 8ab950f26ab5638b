//! The NDEF tag accessor: binds to an activated device and reads, writes
//! and formats the NDEF content of its tag.
//!
//! The engine works on a context that it updates with every operation. The
//! accessor keeps the context of the bound device, hands a copy of it to
//! each call, and takes the updated copy back only where the call succeeded.

use vstd::prelude::*;
use vstd::slice::slice_subrange;
use crate::call::Call;
use crate::discover::all_zero;
use crate::error::{result, translate, Error, RFAL_ERR_NONE};
use crate::nfc::{least, Device};

verus! {

/// Size of the staging buffer through which a raw message is read.
pub const RAW_MESSAGE_CAPACITY: u32 = 256;

/// The NDEF tag type that a context is bound to.
#[derive(Debug, Clone, Copy, PartialEq, Eq, Structural)]
pub enum NdefDeviceType {
    /// No tag type: the context has not been bound by the engine.
    NoDevice,
    T1t,
    T2t,
    T3t,
    T4t,
    T5t,
}

/// The state of the NDEF content of a tag.
#[derive(Debug, Clone, Copy, PartialEq, Eq, Structural)]
pub enum NdefState {
    Invalid,
    Initialized,
    ReadWrite,
    ReadOnly,
}

/// The capability container of a type 1 tag.
#[derive(Debug, Clone, Copy, PartialEq, Eq, Structural)]
pub struct CapabilityContainerT1t {
    pub magic_number: u8,
    pub major_version: u8,
    pub minor_version: u8,
    pub tag_memory_size: u16,
    pub read_access: u8,
    pub write_access: u8,
}

/// The capability container of a type 2 tag.
#[derive(Debug, Clone, Copy, PartialEq, Eq, Structural)]
pub struct CapabilityContainerT2t {
    pub magic_number: u8,
    pub major_version: u8,
    pub minor_version: u8,
    pub size: u8,
    pub read_access: u8,
    pub write_access: u8,
}

/// A capability container, discriminated by the tag type it belongs to.
#[derive(Debug, Clone, Copy, PartialEq, Eq, Structural)]
pub enum CapabilityContainer {
    T1t(CapabilityContainerT1t),
    T2t(CapabilityContainerT2t),
}

/// What the detection of an NDEF application found.
#[derive(Debug, Clone, Copy, PartialEq, Eq, Structural)]
pub struct NdefInfo {
    pub major_version: u8,
    pub minor_version: u8,
    pub area_len: u32,
    pub area_available_space_len: u32,
    pub message_len: u32,
    pub state: NdefState,
}

/// The context of one bound device, as the engine reads and updates it.
#[derive(Debug, Clone, Copy, PartialEq, Eq)]
pub struct NdefContext {
    pub ndef_type: NdefDeviceType,
    pub device: Device,
    pub state: NdefState,
    pub cc: CapabilityContainer,
    pub message_len: u32,
    pub message_offset: u32,
    pub area_len: u32,
    /// The capability container as it stands on the tag.
    pub cc_buf: [u8; 17],
}

/// The context that a binding starts from: made for `device`, with nothing
/// known of its tag, and every byte of the capability container zero, so
/// that nothing of a tag bound before shows through whichever variant the
/// engine then fills.
pub open spec fn is_blank_context(ctx: NdefContext, device: Device) -> bool {
    &&& ctx.ndef_type == NdefDeviceType::NoDevice
    &&& ctx.device == device
    &&& ctx.state == NdefState::Invalid
    &&& ctx.cc == CapabilityContainer::T1t(
        CapabilityContainerT1t {
            magic_number: 0,
            major_version: 0,
            minor_version: 0,
            tag_memory_size: 0,
            read_access: 0,
            write_access: 0,
        },
    )
    &&& ctx.message_len == 0
    &&& ctx.message_offset == 0
    &&& ctx.area_len == 0
    &&& all_zero(ctx.cc_buf@)
}

/// The findings that a probe starts from: nothing found, and the content
/// invalid.
pub open spec fn blank_info() -> NdefInfo {
    NdefInfo {
        major_version: 0,
        minor_version: 0,
        area_len: 0,
        area_available_space_len: 0,
        message_len: 0,
        state: NdefState::Invalid,
    }
}

/// How an operation on a bound context ends, and what the accessor is bound
/// to afterwards, when the engine answers `status` and hands back `ctx`.
///
/// An accessor that is not bound stays so and fails with `NotInitialized`.
/// Where the engine reports a failure the binding is kept as it was. On
/// success the updated context replaces the one held.
pub open spec fn settled(bound: Option<NdefContext>, status: u16, ctx: NdefContext) -> (
    Option<NdefContext>,
    Result<(), Error>,
) {
    if bound is None {
        (None, Err(Error::NotInitialized))
    } else if status != RFAL_ERR_NONE {
        (bound, Err(translate(status)))
    } else {
        (Some(ctx), Ok(()))
    }
}

/// The part of a staging buffer that a read of `received_len` bytes filled:
/// a view of that length, and never of more than the buffer holds.
pub open spec fn message_view(staging: Seq<u8>, received_len: u32) -> Seq<u8> {
    staging.take(least(received_len as int, staging.len() as int))
}

/// The number of bytes of a message that a write hands over: its length, as
/// far as thirty-two bits hold it.
pub open spec fn write_len(message: Seq<u8>) -> nat {
    message.len() % 0x1_0000_0000
}

/// The accessor that polls a tag for its NDEF content.
#[derive(Debug, Clone, Copy, PartialEq, Eq)]
pub struct Poller {
    ctx: Option<NdefContext>,
}

impl Default for Poller {
    /// An accessor that is bound to no device.
    fn default() -> (poller: Poller)
        ensures
            poller.bound() is None,
    {
        Poller { ctx: None }
    }
}

impl Poller {
    /// The context of the device that the accessor is bound to, if any.
    pub closed spec fn bound(self) -> Option<NdefContext> {
        self.ctx
    }

    /// Names the call that binds a context to an activated device.
    ///
    /// The context handed to the engine is blank. The accessor itself is
    /// bound by [`Poller::initialize_reply`], once the engine has succeeded.
    pub fn initialize(&self, nfc_dev: &Device) -> (call: Call<'static>)
        ensures
            call matches Call::NdefContextInitialization { ctx, device } && device == *nfc_dev
                && is_blank_context(ctx, *nfc_dev),
    {
        let ctx = NdefContext {
            ndef_type: NdefDeviceType::NoDevice,
            device: *nfc_dev,
            state: NdefState::Invalid,
            cc: CapabilityContainer::T1t(
                CapabilityContainerT1t {
                    magic_number: 0,
                    major_version: 0,
                    minor_version: 0,
                    tag_memory_size: 0,
                    read_access: 0,
                    write_access: 0,
                },
            ),
            message_len: 0,
            message_offset: 0,
            area_len: 0,
            cc_buf: [0u8; 17],
        };
        Call::NdefContextInitialization { ctx, device: *nfc_dev }
    }

    /// Takes the engine's answer to a binding.
    ///
    /// On success the accessor is bound to the context that the engine
    /// filled, whatever it was bound to before. On failure it is left as it
    /// was.
    pub fn initialize_reply(&mut self, status: u16, ctx: NdefContext) -> (r: Result<(), Error>)
        ensures
            r == crate::error::outcome(status),
            r is Ok ==> final(self).bound() == Some(ctx),
            r is Err ==> final(self).bound() == old(self).bound(),
    {
        match result(status) {
            Ok(()) => {
                self.ctx = Some(ctx);
                Ok(())
            },
            Err(error) => Err(error),
        }
    }

    /// Names the call that probes the tag for an NDEF application. The
    /// engine is handed the context held and a blank record for what it
    /// finds.
    ///
    /// An accessor that is not bound fails with `NotInitialized`, and no
    /// call is to be made.
    pub fn ndef_detect(&self) -> (r: Result<Call<'static>, Error>)
        ensures
            r == detect_request(self.bound()),
            r is Err <==> self.bound() is None,
    {
        match self.ctx {
            Some(ctx) => {
                let info = NdefInfo {
                    major_version: 0,
                    minor_version: 0,
                    area_len: 0,
                    area_available_space_len: 0,
                    message_len: 0,
                    state: NdefState::Invalid,
                };
                Ok(Call::NdefDetect { ctx, info })
            },
            None => Err(Error::NotInitialized),
        }
    }

    /// Takes the engine's answer to a probe: on success, what it found.
    pub fn ndef_detect_reply(&mut self, status: u16, ctx: NdefContext, info: NdefInfo) -> (r:
        Result<NdefInfo, Error>)
        ensures
            final(self).bound() == settled(old(self).bound(), status, ctx).0,
            r == detect_outcome(old(self).bound(), status, ctx, info),
    {
        match self.settle(status, ctx) {
            Ok(()) => Ok(info),
            Err(error) => Err(error),
        }
    }

    /// The tag type of the bound context, or `None` where none is bound.
    pub fn ndef_ctx_type(&self) -> (ndef_type: Option<NdefDeviceType>)
        ensures
            ndef_type == match self.bound() {
                Some(ctx) => Some(ctx.ndef_type),
                None => None,
            },
    {
        match self.ctx {
            Some(ctx) => Some(ctx.ndef_type),
            None => None,
        }
    }

    /// The NDEF state of the bound context, or `None` where none is bound.
    pub fn ndef_ctx_state(&self) -> (state: Option<NdefState>)
        ensures
            state == match self.bound() {
                Some(ctx) => Some(ctx.state),
                None => None,
            },
    {
        match self.ctx {
            Some(ctx) => Some(ctx.state),
            None => None,
        }
    }

    /// Names the call that reads the raw message of the tag into a staging
    /// buffer of [`RAW_MESSAGE_CAPACITY`] bytes.
    ///
    /// An accessor that is not bound fails with `NotInitialized`, and no
    /// call is to be made.
    pub fn read_raw_message(&self) -> (r: Result<Call<'static>, Error>)
        ensures
            r == read_request(self.bound()),
            r is Err <==> self.bound() is None,
    {
        match self.ctx {
            Some(ctx) => Ok(
                Call::NdefReadRawMessage { ctx, buf_len: RAW_MESSAGE_CAPACITY, single: true },
            ),
            None => Err(Error::NotInitialized),
        }
    }

    /// Takes the engine's answer to a read.
    ///
    /// `staging` is the buffer that the engine filled and `received_len` the
    /// number of bytes it put there. On success the result is a view of the
    /// buffer of exactly that length; a length beyond the buffer is cut down
    /// to it.
    pub fn read_raw_message_reply<'a>(
        &mut self,
        status: u16,
        ctx: NdefContext,
        staging: &'a [u8],
        received_len: u32,
    ) -> (r: Result<&'a [u8], Error>)
        ensures
            final(self).bound() == settled(old(self).bound(), status, ctx).0,
            r is Ok <==> read_outcome(old(self).bound(), status, ctx, staging@, received_len) is Ok,
            r is Ok ==> r->Ok_0@ == read_outcome(
                old(self).bound(),
                status,
                ctx,
                staging@,
                received_len,
            )->Ok_0,
            r is Err ==> r->Err_0 == read_outcome(
                old(self).bound(),
                status,
                ctx,
                staging@,
                received_len,
            )->Err_0,
    {
        match self.settle(status, ctx) {
            Ok(()) => {
                let mut len: usize = staging.len();
                if (received_len as usize) < len {
                    len = received_len as usize;
                }
                Ok(slice_subrange(staging, 0, len))
            },
            Err(error) => Err(error),
        }
    }

    /// Names the call that writes `msg` to the tag as its raw message.
    ///
    /// An accessor that is not bound fails with `NotInitialized`, and no
    /// call is to be made.
    pub fn write_raw_message<'a>(&self, msg: &'a [u8]) -> (r: Result<Call<'a>, Error>)
        ensures
            r == write_request(self.bound(), msg),
            r is Err <==> self.bound() is None,
    {
        match self.ctx {
            Some(ctx) => {
                let len: u32 = ((msg.len() as u64) % 0x1_0000_0000u64) as u32;
                Ok(Call::NdefWriteRawMessage { ctx, message: msg, len })
            },
            None => Err(Error::NotInitialized),
        }
    }

    /// Takes the engine's answer to a write.
    ///
    /// The engine's failure, for want of space or of write access among
    /// others, comes back translated.
    pub fn write_raw_message_reply(&mut self, status: u16, ctx: NdefContext) -> (r: Result<
        (),
        Error,
    >)
        ensures
            final(self).bound() == settled(old(self).bound(), status, ctx).0,
            r == settled(old(self).bound(), status, ctx).1,
    {
        self.settle(status, ctx)
    }

    /// Names the call that formats a blank tag by writing the capability
    /// container `cc` to it. `option` selects among the formatting variants
    /// of the tag's vendor.
    ///
    /// An accessor that is not bound fails with `NotInitialized`, and no
    /// call is to be made.
    pub fn tag_format(&self, cc: CapabilityContainer, option: u32) -> (r: Result<
        Call<'static>,
        Error,
    >)
        ensures
            r == format_request(self.bound(), cc, option),
            r is Err <==> self.bound() is None,
    {
        match self.ctx {
            Some(ctx) => Ok(Call::NdefTagFormat { ctx, cc, option }),
            None => Err(Error::NotInitialized),
        }
    }

    /// Takes the engine's answer to a formatting.
    pub fn tag_format_reply(&mut self, status: u16, ctx: NdefContext) -> (r: Result<(), Error>)
        ensures
            final(self).bound() == settled(old(self).bound(), status, ctx).0,
            r == settled(old(self).bound(), status, ctx).1,
    {
        self.settle(status, ctx)
    }

    /// Replaces the context held by the one the engine updated, where the
    /// accessor is bound and the engine succeeded.
    fn settle(&mut self, status: u16, ctx: NdefContext) -> (r: Result<(), Error>)
        ensures
            final(self).bound() == settled(old(self).bound(), status, ctx).0,
            r == settled(old(self).bound(), status, ctx).1,
    {
        if self.ctx.is_none() {
            return Err(Error::NotInitialized);
        }
        match result(status) {
            Ok(()) => {
                self.ctx = Some(ctx);
                Ok(())
            },
            Err(error) => Err(error),
        }
    }
}

/// The request of a probe: refused on an accessor that is not bound.
pub open spec fn detect_request(bound: Option<NdefContext>) -> Result<Call<'static>, Error> {
    match bound {
        Some(ctx) => Ok(Call::NdefDetect { ctx, info: blank_info() }),
        None => Err(Error::NotInitialized),
    }
}

/// How a probe ends.
pub open spec fn detect_outcome(
    bound: Option<NdefContext>,
    status: u16,
    ctx: NdefContext,
    info: NdefInfo,
) -> Result<NdefInfo, Error> {
    match settled(bound, status, ctx).1 {
        Ok(_) => Ok(info),
        Err(error) => Err(error),
    }
}

/// The request of a read: refused on an accessor that is not bound.
pub open spec fn read_request(bound: Option<NdefContext>) -> Result<Call<'static>, Error> {
    match bound {
        Some(ctx) => Ok(
            Call::NdefReadRawMessage { ctx, buf_len: RAW_MESSAGE_CAPACITY, single: true },
        ),
        None => Err(Error::NotInitialized),
    }
}

/// How a read ends: on success, with the message that the engine staged.
pub open spec fn read_outcome(
    bound: Option<NdefContext>,
    status: u16,
    ctx: NdefContext,
    staging: Seq<u8>,
    received_len: u32,
) -> Result<Seq<u8>, Error> {
    match settled(bound, status, ctx).1 {
        Ok(_) => Ok(message_view(staging, received_len)),
        Err(error) => Err(error),
    }
}

/// The request of a write: refused on an accessor that is not bound.
pub open spec fn write_request<'a>(bound: Option<NdefContext>, msg: &'a [u8]) -> Result<
    Call<'a>,
    Error,
> {
    match bound {
        Some(ctx) => Ok(
            Call::NdefWriteRawMessage { ctx, message: msg, len: write_len(msg@) as u32 },
        ),
        None => Err(Error::NotInitialized),
    }
}

/// The request of a formatting: refused on an accessor that is not bound.
pub open spec fn format_request(bound: Option<NdefContext>, cc: CapabilityContainer, option: u32)
    -> Result<Call<'static>, Error> {
    match bound {
        Some(ctx) => Ok(Call::NdefTagFormat { ctx, cc, option }),
        None => Err(Error::NotInitialized),
    }
}

/// The NDEF component of a session.
#[derive(Debug, Clone, Copy, PartialEq, Eq)]
pub struct Ndef {
    pub poller: Poller,
}

impl Default for Ndef {
    /// A component whose accessor is bound to no device.
    fn default() -> (ndef: Ndef)
        ensures
            ndef.poller.bound() is None,
    {
        Ndef { poller: Poller { ctx: None } }
    }
}

/// An accessor that is not bound refuses every operation but the binding
/// with `NotInitialized`: it names no call, and an answer that is handed to
/// it all the same changes nothing.
pub proof fn lemma_unbound_accessor_refuses(
    msg: &[u8],
    cc: CapabilityContainer,
    option: u32,
    status: u16,
    ctx: NdefContext,
    info: NdefInfo,
    staging: Seq<u8>,
    received_len: u32,
)
    ensures
        detect_request(None) == Err::<Call<'static>, Error>(Error::NotInitialized),
        read_request(None) == Err::<Call<'static>, Error>(Error::NotInitialized),
        write_request(None, msg) is Err && write_request(None, msg)->Err_0
            == Error::NotInitialized,
        format_request(None, cc, option) == Err::<Call<'static>, Error>(Error::NotInitialized),
        settled(None, status, ctx) == (
            None::<NdefContext>,
            Err::<(), Error>(Error::NotInitialized),
        ),
        detect_outcome(None, status, ctx, info) == Err::<NdefInfo, Error>(Error::NotInitialized),
        read_outcome(None, status, ctx, staging, received_len) == Err::<Seq<u8>, Error>(
            Error::NotInitialized,
        ),
{
}

/// On a bound accessor every operation names its call, and where the engine
/// answers with success the operation succeeds and the accessor stays
/// bound, so that the next operation can follow.
pub proof fn lemma_bound_accessor_proceeds(
    bound: NdefContext,
    msg: &[u8],
    cc: CapabilityContainer,
    option: u32,
    ctx: NdefContext,
    info: NdefInfo,
    staging: Seq<u8>,
    received_len: u32,
)
    ensures
        detect_request(Some(bound)) is Ok,
        read_request(Some(bound)) is Ok,
        write_request(Some(bound), msg) is Ok,
        format_request(Some(bound), cc, option) is Ok,
        settled(Some(bound), RFAL_ERR_NONE, ctx) == (Some(ctx), Ok::<(), Error>(())),
        detect_outcome(Some(bound), RFAL_ERR_NONE, ctx, info) == Ok::<NdefInfo, Error>(info),
        read_outcome(Some(bound), RFAL_ERR_NONE, ctx, staging, received_len) is Ok,
{
}

/// A failure of the engine comes back as its error and leaves the binding
/// as it was.
pub proof fn lemma_failure_keeps_binding(bound: NdefContext, status: u16, ctx: NdefContext)
    requires
        status != RFAL_ERR_NONE,
    ensures
        settled(Some(bound), status, ctx) == (
            Some(bound),
            Err::<(), Error>(translate(status)),
        ),
{
}

/// Writing a message and then reading it back, against an engine that
/// stages for the read exactly what the write handed to it, yields the
/// message written, byte for byte and in its full length.
///
/// The write hands over `msg` whole, the accessor stays bound across the
/// write, and the view that the read returns is `msg`. This holds for every
/// message that the staging buffer can take.
pub proof fn lemma_write_then_read_echoes(
    bound: NdefContext,
    msg: &[u8],
    after_write: NdefContext,
    after_read: NdefContext,
    staging: Seq<u8>,
)
    requires
        msg@.len() <= RAW_MESSAGE_CAPACITY,
        staging.len() == RAW_MESSAGE_CAPACITY,
        staging.take(msg@.len() as int) == msg@,
    ensures
        write_request(Some(bound), msg) matches Ok(Call::NdefWriteRawMessage { message, len, .. })
            && message@ == msg@ && len == msg@.len(),
        settled(Some(bound), RFAL_ERR_NONE, after_write).0 == Some(after_write),
        read_request(Some(after_write)) matches Ok(Call::NdefReadRawMessage { buf_len, .. })
            && buf_len == RAW_MESSAGE_CAPACITY,
        read_outcome(
            Some(after_write),
            RFAL_ERR_NONE,
            after_read,
            staging,
            write_len(msg@) as u32,
        ) == Ok::<Seq<u8>, Error>(msg@),
        read_outcome(
            Some(after_write),
            RFAL_ERR_NONE,
            after_read,
            staging,
            write_len(msg@) as u32,
        )->Ok_0.len() == msg@.len(),
{
}

} // verus!

use rfal::discover::{IsoDepFsxi, WumPeriod, RFAL_NFCDEP_LR_254};
use rfal::ndef::RAW_MESSAGE_CAPACITY;
use rfal::{
    result, BitRate, Bringup, Call, CapabilityContainer, CapabilityContainerT1t,
    CapabilityContainerT2t, ComplianceMode, DataExchange, Deactivation, DevType, Device,
    Discover, Error, LmNfcidLen, NdefContext, NdefDeviceType, NdefInfo, NdefState, Nfc,
    NfcaListenDevice, NfcaListenDeviceType, Poller, Rfal, Startup, Technology,
    RFAL_NFC_TECH_NONE,
};

/// What the stub engine answers to a call.
enum Reply {
    Nothing,
    Status(u16),
    Devices(u16, Vec<Device>),
    Active(u16, Option<Device>),
    Context(u16, NdefContext),
    Detected(u16, NdefContext, NdefInfo),
    Read(u16, NdefContext, Vec<u8>, u32),
}

/// A stand-in for the protocol engine.
struct StubEngine {
    calls: Vec<String>,
    devices: Vec<Device>,
    accepts_selection: bool,
    active: Option<Device>,
    polls_in_progress: u32,
    tag: Vec<u8>,
    init_status: u16,
    nfc_init_status: u16,
}

impl StubEngine {
    fn new() -> StubEngine {
        StubEngine {
            calls: Vec::new(),
            devices: Vec::new(),
            accepts_selection: true,
            active: None,
            polls_in_progress: 0,
            tag: Vec::new(),
            init_status: 0,
            nfc_init_status: 0,
        }
    }

    fn perform(&mut self, call: Call) -> Reply {
        match call {
            Call::RfalInitialize => {
                self.calls.push(String::from("rfal_initialize"));
                Reply::Status(self.init_status)
            }
            Call::NfcInitialize => {
                self.calls.push(String::from("nfc_initialize"));
                Reply::Status(self.nfc_init_status)
            }
            Call::NfcWorker => {
                self.calls.push(String::from("worker"));
                Reply::Nothing
            }
            Call::NfcGetState => Reply::Nothing,
            Call::NfcDiscover(params) => {
                if params.techs2find == RFAL_NFC_TECH_NONE {
                    Reply::Status(7)
                } else {
                    Reply::Status(0)
                }
            }
            Call::NfcGetDevicesFound => Reply::Devices(0, self.devices.clone()),
            Call::NfcSelect(index) => {
                self.calls.push(format!("select {}", index));
                if self.accepts_selection {
                    self.active = Some(self.devices[usize::from(index)]);
                    Reply::Status(0)
                } else {
                    Reply::Status(33)
                }
            }
            Call::NfcGetActiveDevice => match self.active {
                Some(device) => Reply::Active(0, Some(device)),
                None => Reply::Active(33, None),
            },
            Call::NfcDeactivate(_) => {
                self.active = None;
                Reply::Status(0)
            }
            Call::DataExchangeStart { .. } => Reply::Status(0),
            Call::DataExchangeGetStatus => {
                if self.polls_in_progress > 0 {
                    self.polls_in_progress -= 1;
                    Reply::Status(2)
                } else {
                    Reply::Status(0)
                }
            }
            Call::NdefContextInitialization { ctx, device } => {
                let mut bound: NdefContext = ctx;
                bound.ndef_type = NdefDeviceType::T2t;
                bound.device = device;
                Reply::Context(0, bound)
            }
            Call::NdefDetect { ctx, info: _ } => {
                let mut seen: NdefContext = ctx;
                seen.state = NdefState::ReadWrite;
                seen.area_len = 128;
                let info = NdefInfo {
                    major_version: 1,
                    minor_version: 0,
                    area_len: 128,
                    area_available_space_len: 100,
                    message_len: 28,
                    state: NdefState::ReadWrite,
                };
                Reply::Detected(0, seen, info)
            }
            Call::NdefReadRawMessage { ctx, buf_len, single: _ } => {
                let mut staging: Vec<u8> = Vec::new();
                staging.resize(usize::try_from(buf_len).unwrap(), 0);
                staging[..self.tag.len()].copy_from_slice(&self.tag);
                Reply::Read(0, ctx, staging, u32::try_from(self.tag.len()).unwrap())
            }
            Call::NdefWriteRawMessage { ctx, message, len } => {
                let taken: usize = usize::try_from(len).unwrap();
                if taken > 256 {
                    return Reply::Context(1, ctx);
                }
                self.tag = message[..taken].to_vec();
                let mut written: NdefContext = ctx;
                written.message_len = len;
                Reply::Context(0, written)
            }
            Call::NdefTagFormat { ctx, cc, option: _ } => {
                let mut formatted: NdefContext = ctx;
                formatted.cc = cc;
                formatted.state = NdefState::Initialized;
                Reply::Context(0, formatted)
            }
        }
    }

    fn status(&mut self, call: Call) -> u16 {
        match self.perform(call) {
            Reply::Status(status) => status,
            _ => unreachable!(),
        }
    }
}

fn nfca_payload() -> NfcaListenDevice {
    NfcaListenDevice {
        listen_type: NfcaListenDeviceType::T2t,
        sens_res: [0x44, 0x00],
        sel_res: 0x00,
        nfcid1_len: 7,
        nfcid1: [4, 1, 2, 3, 4, 5, 6, 0, 0, 0],
        is_sleep: false,
    }
}

fn tag(serial: u8) -> Device {
    Device::new(Technology::ListenNfca(nfca_payload()), &[4, serial, 2, 3, 4, 5, 6]).unwrap()
}

fn tags(count: u8) -> Vec<Device> {
    (0..count).map(tag).collect()
}

fn bound_poller(engine: &mut StubEngine) -> Poller {
    let mut poller = Poller::default();
    let device = tag(1);
    match engine.perform(poller.initialize(&device)) {
        Reply::Context(status, ctx) => poller.initialize_reply(status, ctx).unwrap(),
        _ => unreachable!(),
    }
    poller
}

#[test]
fn device_keeps_identifier_and_payload() {
    let device = tag(9);
    assert_eq!(device.id(), Some(&[4u8, 9, 2, 3, 4, 5, 6][..]));
    assert_eq!(device.dev_type(), DevType::ListenNfca);
    assert_eq!(device.nfca(), Some(nfca_payload()));
}

#[test]
fn device_without_identifier_has_no_id() {
    let device = Device::new(Technology::PollNfcb, &[]).unwrap();
    assert_eq!(device.id(), None);
    assert_eq!(device.dev_type(), DevType::PollNfcb);
    assert_eq!(device.nfca(), None);
}

#[test]
fn device_identifier_is_at_most_ten_bytes() {
    let ten = [1u8, 2, 3, 4, 5, 6, 7, 8, 9, 10];
    let eleven = [1u8, 2, 3, 4, 5, 6, 7, 8, 9, 10, 11];
    let device = Device::new(Technology::ListenNfcv, &ten).unwrap();
    assert_eq!(device.id(), Some(&ten[..]));
    assert_eq!(device.dev_type(), DevType::ListenNfcv);
    assert!(Device::new(Technology::ListenNfcv, &eleven).is_none());
}

#[test]
fn every_technology_has_its_tag() {
    let cases = [
        (Technology::ListenNfca(nfca_payload()), DevType::ListenNfca),
        (Technology::ListenNfcb, DevType::ListenNfcb),
        (Technology::ListenNfcf, DevType::ListenNfcf),
        (Technology::ListenNfcv, DevType::ListenNfcv),
        (Technology::ListenSt25tb, DevType::ListenSt25tb),
        (Technology::ListenAp2p, DevType::ListenAp2p),
        (Technology::ListenProp, DevType::ListenProp),
        (Technology::PollNfca, DevType::PollNfca),
        (Technology::PollNfcb, DevType::PollNfcb),
        (Technology::PollNfcf, DevType::PollNfcf),
        (Technology::PollNfcv, DevType::PollNfcv),
        (Technology::PollAp2p, DevType::PollAp2p),
    ];
    for (technology, expected) in cases {
        let device = Device::new(technology, &[1, 2, 3, 4]).unwrap();
        assert_eq!(device.dev_type(), expected);
    }
}

#[test]
fn discovery_defaults() {
    let discover = Discover::default();
    let p = discover.params;
    assert_eq!(p.comp_mode, ComplianceMode::Nfc);
    assert_eq!(p.dev_limit, 1);
    assert_eq!(p.nfcf_br, BitRate::Br212);
    assert_eq!(p.ap2p_br, BitRate::Br424);
    assert_eq!(p.max_br, BitRate::Keep);
    assert_eq!(p.iso_dep_fs, IsoDepFsxi::Fsx256);
    assert_eq!(p.nfc_dep_lr, RFAL_NFCDEP_LR_254);
    assert_eq!(p.nfc_dep_lr, 3);
    assert_eq!(p.gb_len, 0);
    assert!(!p.p2p_nfca_prio);
    assert!(!p.wakeup_enabled);
    assert!(p.wakeup_config_default);
    assert!(!p.wakeup_poll_before);
    assert_eq!(p.wakeup_n_polls, 1);
    assert_eq!(p.total_duration, 1000);
    assert_eq!(p.techs2find, 0);
    assert_eq!(p.techs2bail, 0);
    assert_eq!(p.nfcid3, [0u8; 10]);
    assert_eq!(p.gb, [0u8; 48]);
    assert_eq!(p.lm_config_pa.nfcid_len, LmNfcidLen::Len04);
    assert_eq!(p.lm_config_pa.nfcid, [0u8; 10]);
    assert_eq!(p.lm_config_pa.sens_res, [0u8; 2]);
    assert_eq!(p.lm_config_pa.sel_res, 0);
    assert_eq!(p.lm_config_pf.sc, [0u8; 2]);
    assert_eq!(p.lm_config_pf.sensf_res, [0u8; 19]);
    assert_eq!(p.wakeup_config.period, WumPeriod::Period300Ms);
    assert!(!p.wakeup_config.ind_amp.enabled);
    assert_eq!(p.wakeup_config.ind_amp.delta, 0);
    assert_eq!(p.wakeup_config.ind_amp.reference, 0);
}

#[test]
fn discovery_start_submits_the_block() {
    let mut engine = StubEngine::new();
    let mut discover = Discover::default();
    assert_eq!(discover.start(), Call::NfcDiscover(discover.params));
    assert_eq!(result(engine.status(discover.start())), Err(Error::Param));
    discover.params.techs2find = rfal::RFAL_NFC_POLL_TECH_A;
    discover.params.dev_limit = 4;
    match discover.start() {
        Call::NfcDiscover(params) => {
            assert_eq!(params.techs2find, 1);
            assert_eq!(params.dev_limit, 4);
        }
        _ => unreachable!(),
    }
    assert_eq!(result(engine.status(discover.start())), Ok(()));
}

#[test]
fn session_calls_are_named() {
    let nfc = Nfc::default();
    assert_eq!(Nfc::initialize(), Call::NfcInitialize);
    assert_eq!(nfc.state(), Call::NfcGetState);
    assert_eq!(nfc.worker(), Call::NfcWorker);
    assert_eq!(nfc.get_devices_found(), Call::NfcGetDevicesFound);
    assert_eq!(nfc.active_device(), Call::NfcGetActiveDevice);
    assert_eq!(nfc.deactivate_and_idle(), Call::NfcDeactivate(Deactivation::Idle));
    assert_eq!(nfc.deactivate_and_sleep(), Call::NfcDeactivate(Deactivation::Sleep));
    assert_eq!(nfc.deactivate_and_discovery(), Call::NfcDeactivate(Deactivation::Discovery));
    assert_eq!(nfc.data_exchange.get_status(), Call::DataExchangeGetStatus);
}

#[test]
fn enumeration_copies_what_the_engine_reports() {
    let mut nfc = Nfc::default();
    let reported = tags(3);
    let found = nfc.get_devices_found_reply(0, &reported).unwrap();
    assert_eq!(found.len(), 3);
    assert_eq!(found[0], tag(0));
    assert_eq!(found[1], tag(1));
    assert_eq!(found[2], tag(2));
}

#[test]
fn enumeration_of_nothing_is_empty() {
    let mut nfc = Nfc::default();
    let found = nfc.get_devices_found_reply(0, &[]).unwrap();
    assert_eq!(found.len(), 0);
    assert!(found.is_empty());
}

#[test]
fn enumeration_stops_at_capacity() {
    let mut nfc = Nfc::default();
    let reported = tags(4);
    let found = nfc.get_devices_found_reply(0, &reported).unwrap();
    assert_eq!(found.len(), 4);
    assert!(found.is_full());
    let reported = tags(7);
    let found = nfc.get_devices_found_reply(0, &reported).unwrap();
    assert_eq!(found.len(), 4);
    assert_eq!(found.as_slice(), &reported[..4]);
}

#[test]
fn unbounded_enumeration_copies_everything() {
    let mut nfc = Nfc::default();
    let reported = tags(7);
    let found = nfc.get_devices_found_reply_unbounded(0, &reported).unwrap();
    assert_eq!(found, reported);
}

#[test]
fn failed_enumeration_reports_the_error() {
    let mut nfc = Nfc::default();
    let reported = tags(2);
    assert_eq!(nfc.get_devices_found_reply(33, &reported), Err(Error::WrongState));
    assert_eq!(nfc.get_devices_found_reply_unbounded(33, &reported), Err(Error::WrongState));
    assert_eq!(nfc.select(0), Err(Error::Param));
}

#[test]
fn selection_checks_the_index() {
    let mut engine = StubEngine::new();
    engine.devices = tags(3);
    let mut nfc = Nfc::default();
    assert_eq!(nfc.select(0), Err(Error::Param));
    let reported = match engine.perform(nfc.get_devices_found()) {
        Reply::Devices(status, reported) => {
            nfc.get_devices_found_reply(status, &reported).unwrap();
            reported
        }
        _ => unreachable!(),
    };
    assert_eq!(reported.len(), 3);
    for index in 0u8..3 {
        let call = nfc.select(index).unwrap();
        assert_eq!(call, Call::NfcSelect(index));
        assert_eq!(result(engine.status(call)), Ok(()));
    }
    for index in 3u8..=255 {
        assert_eq!(nfc.select(index), Err(Error::Param));
    }
    assert_eq!(engine.calls, vec!["select 0", "select 1", "select 2"]);
}

#[test]
fn selection_reaches_devices_beyond_capacity() {
    let mut nfc = Nfc::default();
    let reported = tags(6);
    let found = nfc.get_devices_found_reply(0, &reported).unwrap();
    assert_eq!(found.len(), 4);
    assert_eq!(nfc.select(5), Ok(Call::NfcSelect(5)));
    assert_eq!(nfc.select(6), Err(Error::Param));
}

#[test]
fn rejected_selection_reports_the_engine_error() {
    let mut engine = StubEngine::new();
    engine.devices = tags(1);
    engine.accepts_selection = false;
    let mut nfc = Nfc::default();
    nfc.get_devices_found_reply(0, &engine.devices.clone()).unwrap();
    let call = nfc.select(0).unwrap();
    assert_eq!(result(engine.status(call)), Err(Error::WrongState));
}

#[test]
fn active_device_is_copied_out() {
    let mut engine = StubEngine::new();
    engine.devices = tags(2);
    let mut nfc = Nfc::default();
    nfc.get_devices_found_reply(0, &engine.devices.clone()).unwrap();
    match engine.perform(nfc.active_device()) {
        Reply::Active(status, device) => {
            assert_eq!(nfc.active_device_reply(status, device.as_ref()), Err(Error::WrongState));
        }
        _ => unreachable!(),
    }
    let call = nfc.select(1).unwrap();
    assert_eq!(result(engine.status(call)), Ok(()));
    match engine.perform(nfc.active_device()) {
        Reply::Active(status, device) => {
            assert_eq!(nfc.active_device_reply(status, device.as_ref()), Ok(tag(1)));
        }
        _ => unreachable!(),
    }
    assert_eq!(result(engine.status(nfc.deactivate_and_idle())), Ok(()));
    assert_eq!(nfc.active_device_reply(0, None), Err(Error::Request));
    assert_eq!(nfc.active_device_reply(4, Some(&tag(1))), Err(Error::Timeout));
}

#[test]
fn exchange_start_marshals_the_transmit_buffer() {
    let exchange = DataExchange::default();
    let tx = [0x30u8, 0x04];
    assert_eq!(
        exchange.start(Some(&tx), 1000),
        Call::DataExchangeStart { tx: Some(&tx[..]), tx_len: 2, fwt: 1000 }
    );
    assert_eq!(
        exchange.start(None, rfal::RFAL_FWT_NONE),
        Call::DataExchangeStart { tx: None, tx_len: 0, fwt: 0xffff_ffff }
    );
    let long = vec![0u8; 65536 + 5];
    match exchange.start(Some(&long), 1) {
        Call::DataExchangeStart { tx, tx_len, fwt } => {
            assert_eq!(tx.unwrap().len(), 65541);
            assert_eq!(tx_len, 5);
            assert_eq!(fwt, 1);
        }
        _ => unreachable!(),
    }
    let full = vec![0u8; 65535];
    match exchange.start(Some(&full), 1) {
        Call::DataExchangeStart { tx_len, .. } => assert_eq!(tx_len, 65535),
        _ => unreachable!(),
    }
}

#[test]
fn polls_are_pending_until_the_engine_is_done() {
    for pending in [0u32, 1, 2, 5, 40] {
        let mut engine = StubEngine::new();
        engine.polls_in_progress = pending;
        let nfc = Nfc::default();
        assert_eq!(result(engine.status(nfc.data_exchange.start(Some(&[1, 2, 3]), 100))), Ok(()));
        let mut rx = [0u8; 8];
        let mut rcv_len: u16 = 0;
        for _ in 0..pending {
            engine.perform(nfc.worker());
            let status: u16 = engine.status(nfc.data_exchange.get_status());
            let polled = nfc.data_exchange.get_status_reply(status, &[], &mut rx, &mut rcv_len);
            assert_eq!(polled, Err(Error::Busy));
            assert_eq!(rcv_len, 0);
        }
        engine.perform(nfc.worker());
        let status: u16 = engine.status(nfc.data_exchange.get_status());
        let polled =
            nfc.data_exchange.get_status_reply(status, &[0x90, 0x00], &mut rx, &mut rcv_len);
        assert_eq!(polled, Ok(()));
        assert_eq!(rcv_len, 2);
        assert_eq!(rx, [0x90, 0, 0, 0, 0, 0, 0, 0]);
    }
}

#[test]
fn received_bytes_stop_at_the_receive_buffer() {
    let exchange = DataExchange::default();
    let mut rx = [7u8; 4];
    let mut rcv_len: u16 = 9;
    assert_eq!(
        exchange.get_status_reply(21, &[1, 2, 3], &mut rx, &mut rcv_len),
        Err(Error::Crc)
    );
    assert_eq!(rx, [7, 7, 7, 7]);
    assert_eq!(rcv_len, 9);
    assert_eq!(exchange.get_status_reply(0, &[1, 2, 3], &mut rx, &mut rcv_len), Ok(()));
    assert_eq!(rx, [1, 2, 3, 7]);
    assert_eq!(rcv_len, 3);
    assert_eq!(exchange.get_status_reply(0, &[9, 8, 7, 6, 5, 4], &mut rx, &mut rcv_len), Ok(()));
    assert_eq!(rx, [9, 8, 7, 6]);
    assert_eq!(rcv_len, 4);
    assert_eq!(exchange.get_status_reply(0, &[], &mut rx, &mut rcv_len), Ok(()));
    assert_eq!(rx, [9, 8, 7, 6]);
    assert_eq!(rcv_len, 0);
}

#[test]
fn received_count_fits_sixteen_bits() {
    let exchange = DataExchange::default();
    let received = vec![5u8; 70000];
    let mut rx = vec![0u8; 70000];
    let mut rcv_len: u16 = 0;
    assert_eq!(exchange.get_status_reply(0, &received, &mut rx, &mut rcv_len), Ok(()));
    assert_eq!(rcv_len, 65535);
    assert_eq!(rx[65534], 5);
    assert_eq!(rx[65535], 0);
}

#[test]
fn exchange_failures_are_translated() {
    let exchange = DataExchange::default();
    let mut rx = [0u8; 2];
    let mut rcv_len: u16 = 0;
    let cases = [
        (4u16, Error::Timeout),
        (9, Error::Framing),
        (21, Error::Crc),
        (27, Error::Par),
        (29, Error::RfCollision),
        (37, Error::LinkLoss),
        (99, Error::Unknown(99)),
    ];
    for (status, error) in cases {
        assert_eq!(exchange.get_status_reply(status, &[1], &mut rx, &mut rcv_len), Err(error));
    }
}

#[test]
fn unbound_accessor_refuses() {
    let mut poller = Poller::default();
    let ctx = match poller.initialize(&tag(1)) {
        Call::NdefContextInitialization { ctx, .. } => ctx,
        _ => unreachable!(),
    };
    let cc = CapabilityContainer::T2t(CapabilityContainerT2t {
        magic_number: 0xe1,
        major_version: 1,
        minor_version: 0,
        size: 6,
        read_access: 0,
        write_access: 0,
    });
    let info = NdefInfo {
        major_version: 0,
        minor_version: 0,
        area_len: 0,
        area_available_space_len: 0,
        message_len: 0,
        state: NdefState::Invalid,
    };
    assert_eq!(poller.ndef_detect(), Err(Error::NotInitialized));
    assert_eq!(poller.read_raw_message(), Err(Error::NotInitialized));
    assert_eq!(poller.write_raw_message(&[1, 2, 3]), Err(Error::NotInitialized));
    assert_eq!(poller.tag_format(cc, 0), Err(Error::NotInitialized));
    assert_eq!(poller.ndef_detect_reply(0, ctx, info), Err(Error::NotInitialized));
    assert_eq!(poller.read_raw_message_reply(0, ctx, &[1, 2], 2), Err(Error::NotInitialized));
    assert_eq!(poller.write_raw_message_reply(0, ctx), Err(Error::NotInitialized));
    assert_eq!(poller.tag_format_reply(0, ctx), Err(Error::NotInitialized));
    assert_eq!(poller.ndef_ctx_type(), None);
    assert_eq!(poller.ndef_ctx_state(), None);
}

#[test]
fn binding_starts_from_a_blank_context() {
    let poller = Poller::default();
    let device = tag(3);
    match poller.initialize(&device) {
        Call::NdefContextInitialization { ctx, device: handed } => {
            assert_eq!(handed, device);
            assert_eq!(ctx.device, device);
            assert_eq!(ctx.ndef_type, NdefDeviceType::NoDevice);
            assert_eq!(ctx.state, NdefState::Invalid);
            assert_eq!(
                ctx.cc,
                CapabilityContainer::T1t(CapabilityContainerT1t {
                    magic_number: 0,
                    major_version: 0,
                    minor_version: 0,
                    tag_memory_size: 0,
                    read_access: 0,
                    write_access: 0,
                })
            );
            assert_eq!(ctx.message_len, 0);
            assert_eq!(ctx.message_offset, 0);
            assert_eq!(ctx.area_len, 0);
            assert_eq!(ctx.cc_buf, [0u8; 17]);
        }
        _ => unreachable!(),
    }
}

#[test]
fn failed_binding_leaves_the_accessor_unbound() {
    let mut poller = Poller::default();
    let ctx = match poller.initialize(&tag(1)) {
        Call::NdefContextInitialization { ctx, .. } => ctx,
        _ => unreachable!(),
    };
    assert_eq!(poller.initialize_reply(24, ctx), Err(Error::NotSupp));
    assert_eq!(poller.ndef_detect(), Err(Error::NotInitialized));
    assert_eq!(poller.ndef_ctx_type(), None);
}

#[test]
fn bound_accessor_works_in_sequence() {
    let mut engine = StubEngine::new();
    let mut poller = bound_poller(&mut engine);
    assert_eq!(poller.ndef_ctx_type(), Some(NdefDeviceType::T2t));
    assert_eq!(poller.ndef_ctx_state(), Some(NdefState::Invalid));

    let info = match engine.perform(poller.ndef_detect().unwrap()) {
        Reply::Detected(status, ctx, info) => poller.ndef_detect_reply(status, ctx, info).unwrap(),
        _ => unreachable!(),
    };
    assert_eq!(info.area_len, 128);
    assert_eq!(info.message_len, 28);
    assert_eq!(info.state, NdefState::ReadWrite);
    assert_eq!(poller.ndef_ctx_state(), Some(NdefState::ReadWrite));

    match engine.perform(poller.read_raw_message().unwrap()) {
        Reply::Read(status, ctx, staging, received) => {
            assert_eq!(staging.len(), 256);
            assert_eq!(poller.read_raw_message_reply(status, ctx, &staging, received), Ok(&[][..]));
        }
        _ => unreachable!(),
    }

    match engine.perform(poller.write_raw_message(&[0x03, 0x01, 0xd0]).unwrap()) {
        Reply::Context(status, ctx) => {
            assert_eq!(poller.write_raw_message_reply(status, ctx), Ok(()))
        }
        _ => unreachable!(),
    }

    let cc = CapabilityContainer::T2t(CapabilityContainerT2t {
        magic_number: 0xe1,
        major_version: 1,
        minor_version: 0,
        size: 6,
        read_access: 0,
        write_access: 0,
    });
    match engine.perform(poller.tag_format(cc, 0).unwrap()) {
        Reply::Context(status, ctx) => assert_eq!(poller.tag_format_reply(status, ctx), Ok(())),
        _ => unreachable!(),
    }
    assert_eq!(poller.ndef_ctx_state(), Some(NdefState::Initialized));
    match poller.ndef_detect().unwrap() {
        Call::NdefDetect { ctx, .. } => assert_eq!(ctx.cc, cc),
        _ => unreachable!(),
    }
}

#[test]
fn probe_starts_from_blank_findings() {
    let mut engine = StubEngine::new();
    let poller = bound_poller(&mut engine);
    match poller.ndef_detect().unwrap() {
        Call::NdefDetect { ctx, info } => {
            assert_eq!(ctx.ndef_type, NdefDeviceType::T2t);
            assert_eq!(
                info,
                NdefInfo {
                    major_version: 0,
                    minor_version: 0,
                    area_len: 0,
                    area_available_space_len: 0,
                    message_len: 0,
                    state: NdefState::Invalid,
                }
            );
        }
        _ => unreachable!(),
    }
}

#[test]
fn read_request_names_the_staging_buffer() {
    let mut engine = StubEngine::new();
    let poller = bound_poller(&mut engine);
    assert_eq!(RAW_MESSAGE_CAPACITY, 256);
    match poller.read_raw_message().unwrap() {
        Call::NdefReadRawMessage { buf_len, single, .. } => {
            assert_eq!(buf_len, 256);
            assert!(single);
        }
        _ => unreachable!(),
    }
}

#[test]
fn written_message_is_read_back() {
    let messages: [&[u8]; 4] = [&[], &[0x03], &[0x03, 0x03, 0xd0, 0x00, 0x00, 0xfe], &[0xaa; 256]];
    for message in messages {
        let mut engine = StubEngine::new();
        let mut poller = bound_poller(&mut engine);
        let call = poller.write_raw_message(message).unwrap();
        match call {
            Call::NdefWriteRawMessage { message: handed, len, .. } => {
                assert_eq!(handed, message);
                assert_eq!(usize::try_from(len).unwrap(), message.len());
            }
            _ => unreachable!(),
        }
        match engine.perform(call) {
            Reply::Context(status, ctx) => {
                assert_eq!(poller.write_raw_message_reply(status, ctx), Ok(()))
            }
            _ => unreachable!(),
        }
        match engine.perform(poller.read_raw_message().unwrap()) {
            Reply::Read(status, ctx, staging, received) => {
                let read = poller.read_raw_message_reply(status, ctx, &staging, received).unwrap();
                assert_eq!(read, message);
                assert_eq!(read.len(), message.len());
            }
            _ => unreachable!(),
        }
    }
}

#[test]
fn failed_write_keeps_the_context() {
    let mut engine = StubEngine::new();
    let mut poller = bound_poller(&mut engine);
    let before = match poller.ndef_detect().unwrap() {
        Call::NdefDetect { ctx, .. } => ctx,
        _ => unreachable!(),
    };
    let too_long = [0u8; 300];
    match engine.perform(poller.write_raw_message(&too_long).unwrap()) {
        Reply::Context(status, ctx) => {
            assert_eq!(poller.write_raw_message_reply(status, ctx), Err(Error::NoMem))
        }
        _ => unreachable!(),
    }
    let mut changed: NdefContext = before;
    changed.message_len = 77;
    assert_eq!(poller.write_raw_message_reply(25, changed), Err(Error::Write));
    assert_eq!(poller.tag_format_reply(24, changed), Err(Error::NotSupp));
    match poller.ndef_detect().unwrap() {
        Call::NdefDetect { ctx, .. } => assert_eq!(ctx, before),
        _ => unreachable!(),
    }
}

#[test]
fn read_view_never_exceeds_the_staging_buffer() {
    let mut engine = StubEngine::new();
    let mut poller = bound_poller(&mut engine);
    let ctx = match poller.ndef_detect().unwrap() {
        Call::NdefDetect { ctx, .. } => ctx,
        _ => unreachable!(),
    };
    let staging = [1u8, 2, 3, 4];
    assert_eq!(poller.read_raw_message_reply(0, ctx, &staging, 2), Ok(&[1u8, 2][..]));
    assert_eq!(poller.read_raw_message_reply(0, ctx, &staging, 4), Ok(&staging[..]));
    assert_eq!(poller.read_raw_message_reply(0, ctx, &staging, 9), Ok(&staging[..]));
    assert_eq!(poller.read_raw_message_reply(4, ctx, &staging, 2), Err(Error::Timeout));
}

#[test]
fn bring_up_makes_both_calls_in_order() {
    let mut engine = StubEngine::new();
    let mut slot: Option<u8> = None;
    let mut stage: Startup = Rfal::new(&mut slot, 1);
    assert_eq!(slot, Some(1));
    assert_eq!(stage, Startup::Engine);
    let rfal = loop {
        let status: u16 = engine.status(stage.call());
        match stage.reply(status).unwrap() {
            Bringup::Pending(next) => stage = next,
            Bringup::Ready(rfal) => break rfal,
        }
    };
    assert_eq!(engine.calls, vec!["rfal_initialize", "nfc_initialize"]);
    assert_eq!(rfal.discover, Discover::default());
    assert_eq!(rfal.nfc, Nfc::default());
    assert_eq!(rfal.ndef.poller, Poller::default());
}

#[test]
fn bring_up_stops_at_the_first_failure() {
    let mut engine = StubEngine::new();
    engine.init_status = 36;
    let mut slot: Option<u8> = None;
    let stage: Startup = Rfal::new(&mut slot, 1);
    let status: u16 = engine.status(stage.call());
    assert_eq!(stage.reply(status), Err(Error::HwMismatch));
    assert_eq!(engine.calls, vec!["rfal_initialize"]);

    let mut engine = StubEngine::new();
    engine.nfc_init_status = 3;
    let stage: Startup = Rfal::new(&mut slot, 2);
    assert_eq!(slot, Some(1));
    let status: u16 = engine.status(stage.call());
    assert_eq!(stage.reply(status), Ok(Bringup::Pending(Startup::Session)));
    let status: u16 = engine.status(Startup::Session.call());
    assert_eq!(Startup::Session.reply(status), Err(Error::Io));
}

#[test]
fn reset_returns_to_the_beginning() {
    let mut engine = StubEngine::new();
    let mut rfal = match Startup::Session.reply(0).unwrap() {
        Bringup::Ready(rfal) => rfal,
        Bringup::Pending(_) => unreachable!(),
    };
    rfal.discover.params.dev_limit = 3;
    rfal.discover.params.techs2find = rfal::RFAL_NFC_POLL_TECH_A | rfal::RFAL_NFC_LISTEN_TECH_A;
    rfal.nfc.get_devices_found_reply(0, &tags(2)).unwrap();
    rfal.ndef.poller = bound_poller(&mut engine);
    assert!(rfal.nfc.select(1).is_ok());
    assert!(rfal.ndef.poller.ndef_detect().is_ok());
    rfal.reset();
    assert_eq!(rfal.discover, Discover::default());
    assert_eq!(rfal.nfc.select(0), Err(Error::Param));
    assert_eq!(rfal.ndef.poller.ndef_detect(), Err(Error::NotInitialized));
}

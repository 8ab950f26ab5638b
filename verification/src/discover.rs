//! The discovery configurator: the parameter block that tells the engine
//! which technologies to look for, and how.

use vstd::prelude::*;
use crate::call::Call;

verus! {

/// No technology at all, in a technology bitmask.
pub const RFAL_NFC_TECH_NONE: u16 = 0x0000;

/// Poll for NFC-A, in a technology bitmask.
pub const RFAL_NFC_POLL_TECH_A: u16 = 0x0001;

/// Listen as NFC-A, in a technology bitmask.
pub const RFAL_NFC_LISTEN_TECH_A: u16 = 0x1000;

/// The frame wait time that stands for "no timeout".
pub const RFAL_FWT_NONE: u32 = 0xFFFF_FFFF;

/// The NFC-DEP length reduction for frames of up to 254 bytes.
pub const RFAL_NFCDEP_LR_254: u8 = 3;

/// The compliance mode that the engine runs discovery in.
#[derive(Debug, Clone, Copy, PartialEq, Eq, Structural)]
pub enum ComplianceMode {
    Nfc,
    Emv,
    Iso,
}

/// A bit rate of the air interface, in kbit/s, or the request to keep the
/// rate that is in use.
#[derive(Debug, Clone, Copy, PartialEq, Eq, Structural)]
pub enum BitRate {
    Br106,
    Br212,
    Br424,
    Br848,
    Br1695,
    Br3390,
    Br6780,
    Br13560,
    Keep,
}

/// The largest ISO-DEP frame, in bytes, that this side accepts.
#[derive(Debug, Clone, Copy, PartialEq, Eq, Structural)]
pub enum IsoDepFsxi {
    Fsx16,
    Fsx24,
    Fsx32,
    Fsx40,
    Fsx48,
    Fsx64,
    Fsx96,
    Fsx128,
    Fsx256,
    Fsx512,
    Fsx1024,
    Fsx2048,
    Fsx4096,
}

/// The length of the identifier that listen mode answers with.
#[derive(Debug, Clone, Copy, PartialEq, Eq, Structural)]
pub enum LmNfcidLen {
    Len04,
    Len07,
}

/// The period at which wake-up mode measures the field.
#[derive(Debug, Clone, Copy, PartialEq, Eq, Structural)]
pub enum WumPeriod {
    Period10Ms,
    Period20Ms,
    Period30Ms,
    Period40Ms,
    Period50Ms,
    Period60Ms,
    Period70Ms,
    Period80Ms,
    Period100Ms,
    Period200Ms,
    Period300Ms,
    Period400Ms,
    Period500Ms,
    Period600Ms,
    Period700Ms,
    Period800Ms,
}

/// The amplitude measurement of wake-up mode, with its thresholds.
#[derive(Debug, Clone, Copy, PartialEq, Eq)]
pub struct WakeUpAmplitude {
    pub enabled: bool,
    pub delta: u8,
    pub reference: u8,
}

/// The wake-up sub-block of the discovery parameters.
#[derive(Debug, Clone, Copy, PartialEq, Eq)]
pub struct WakeUpConfig {
    pub period: WumPeriod,
    pub ind_amp: WakeUpAmplitude,
}

/// The listen-mode sub-block for passive NFC-A card emulation.
#[derive(Debug, Clone, Copy, PartialEq, Eq)]
pub struct LmConfPa {
    pub nfcid_len: LmNfcidLen,
    pub nfcid: [u8; 10],
    pub sens_res: [u8; 2],
    pub sel_res: u8,
}

/// The listen-mode sub-block for passive NFC-F card emulation.
#[derive(Debug, Clone, Copy, PartialEq, Eq)]
pub struct LmConfPf {
    pub sc: [u8; 2],
    pub sensf_res: [u8; 19],
}

/// The discovery parameter block.
///
/// It is made for one discovery attempt and handed to the engine, which
/// does not keep it.
#[derive(Debug, Clone, Copy, PartialEq, Eq)]
pub struct DiscoverParam {
    pub comp_mode: ComplianceMode,
    /// The number of devices at which discovery stops looking for more.
    pub dev_limit: u8,
    pub nfcf_br: BitRate,
    pub ap2p_br: BitRate,
    pub max_br: BitRate,
    pub iso_dep_fs: IsoDepFsxi,
    pub nfc_dep_lr: u8,
    pub gb_len: u8,
    pub p2p_nfca_prio: bool,
    pub wakeup_enabled: bool,
    pub wakeup_config_default: bool,
    pub wakeup_poll_before: bool,
    pub wakeup_n_polls: u16,
    /// The duration of one discovery cycle, in milliseconds.
    pub total_duration: u16,
    /// Bitmask of the technologies to look for.
    pub techs2find: u16,
    /// Bitmask of the technologies at which discovery stops once one is found.
    pub techs2bail: u16,
    pub nfcid3: [u8; 10],
    pub gb: [u8; 48],
    pub lm_config_pa: LmConfPa,
    pub lm_config_pf: LmConfPf,
    pub wakeup_config: WakeUpConfig,
}

/// Whether every byte of `bytes` is zero.
pub open spec fn all_zero(bytes: Seq<u8>) -> bool {
    forall|i: int| 0 <= i < bytes.len() ==> bytes[i] == 0u8
}

/// The defaults of the discovery parameters: a single device, standard
/// timing, wake-up disabled, no technology chosen yet, and every identifier
/// and listen-mode block zeroed.
pub open spec fn is_default_param(p: DiscoverParam) -> bool {
    &&& p.comp_mode == ComplianceMode::Nfc
    &&& p.dev_limit == 1
    &&& p.nfcf_br == BitRate::Br212
    &&& p.ap2p_br == BitRate::Br424
    &&& p.max_br == BitRate::Keep
    &&& p.iso_dep_fs == IsoDepFsxi::Fsx256
    &&& p.nfc_dep_lr == RFAL_NFCDEP_LR_254
    &&& p.gb_len == 0
    &&& !p.p2p_nfca_prio
    &&& !p.wakeup_enabled
    &&& p.wakeup_config_default
    &&& !p.wakeup_poll_before
    &&& p.wakeup_n_polls == 1
    &&& p.total_duration == 1000
    &&& p.techs2find == RFAL_NFC_TECH_NONE
    &&& p.techs2bail == RFAL_NFC_TECH_NONE
    &&& all_zero(p.nfcid3@)
    &&& all_zero(p.gb@)
    &&& p.lm_config_pa.nfcid_len == LmNfcidLen::Len04
    &&& all_zero(p.lm_config_pa.nfcid@)
    &&& all_zero(p.lm_config_pa.sens_res@)
    &&& p.lm_config_pa.sel_res == 0
    &&& all_zero(p.lm_config_pf.sc@)
    &&& all_zero(p.lm_config_pf.sensf_res@)
    &&& p.wakeup_config.period == WumPeriod::Period300Ms
    &&& !p.wakeup_config.ind_amp.enabled
    &&& p.wakeup_config.ind_amp.delta == 0
    &&& p.wakeup_config.ind_amp.reference == 0
}

/// The discovery configurator.
#[derive(Debug, Clone, Copy, PartialEq, Eq)]
pub struct Discover {
    pub params: DiscoverParam,
}

impl Default for Discover {
    /// A complete parameter block at its defaults.
    fn default() -> (discover: Discover)
        ensures
            is_default_param(discover.params),
    {
        let params = DiscoverParam {
            comp_mode: ComplianceMode::Nfc,
            dev_limit: 1,
            nfcf_br: BitRate::Br212,
            ap2p_br: BitRate::Br424,
            max_br: BitRate::Keep,
            iso_dep_fs: IsoDepFsxi::Fsx256,
            nfc_dep_lr: RFAL_NFCDEP_LR_254,
            gb_len: 0,
            p2p_nfca_prio: false,
            wakeup_enabled: false,
            wakeup_config_default: true,
            wakeup_poll_before: false,
            wakeup_n_polls: 1,
            total_duration: 1000,
            techs2find: RFAL_NFC_TECH_NONE,
            techs2bail: RFAL_NFC_TECH_NONE,
            nfcid3: [0u8; 10],
            gb: [0u8; 48],
            lm_config_pa: LmConfPa {
                nfcid_len: LmNfcidLen::Len04,
                nfcid: [0u8; 10],
                sens_res: [0u8; 2],
                sel_res: 0,
            },
            lm_config_pf: LmConfPf { sc: [0u8; 2], sensf_res: [0u8; 19] },
            wakeup_config: WakeUpConfig {
                period: WumPeriod::Period300Ms,
                ind_amp: WakeUpAmplitude { enabled: false, delta: 0, reference: 0 },
            },
        };
        Discover { params }
    }
}

impl Discover {
    /// Names the call that submits the parameter block and starts discovery.
    ///
    /// The block is handed over as it stands. Whether the engine takes it is
    /// for the engine to say: [`crate::error::result`] of its answer is the
    /// translated error where it rejects the parameters or cannot begin.
    pub fn start(&self) -> (call: Call<'static>)
        ensures
            call == Call::<'static>::NfcDiscover(self.params),
    {
        Call::NfcDiscover(self.params)
    }
}

/// Two parameter blocks at their defaults agree in every field: the
/// defaults leave nothing open.
pub proof fn lemma_defaults_are_unique(p: DiscoverParam, q: DiscoverParam)
    requires
        is_default_param(p),
        is_default_param(q),
    ensures
        p == q,
{
    assert(p.nfcid3 =~= q.nfcid3);
    assert(p.gb =~= q.gb);
    assert(p.lm_config_pa.nfcid =~= q.lm_config_pa.nfcid);
    assert(p.lm_config_pa.sens_res =~= q.lm_config_pa.sens_res);
    assert(p.lm_config_pf.sc =~= q.lm_config_pf.sc);
    assert(p.lm_config_pf.sensf_res =~= q.lm_config_pf.sensf_res);
    assert(p.lm_config_pa == q.lm_config_pa);
    assert(p.lm_config_pf == q.lm_config_pf);
    assert(p.wakeup_config == q.wakeup_config);
}

} // verus!

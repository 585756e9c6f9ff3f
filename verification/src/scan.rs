//! Wi-Fi scans: the scan command built from the caller's options, and the
//! access points read out of the chip's scan report.
//!
//! The command and the report are given here by the fields that the driver
//! writes and reads; their encoding on the wire belongs to the chip's bindings.

use vstd::prelude::*;
use crate::error::Error;
use crate::action::{Action, ActionView};
use crate::bounded::{SSID_CAP, SsidBytes, ssid_bytes, ssid_new, ssid_extend_from_slice, ssid_clone};

verus! {

/// Scan reason that asks the chip to report what it found.
pub const SCAN_DISPLAY: i32 = 0;

/// Signal strength given in mBm (hundredths of a dBm).
pub const NRF_WIFI_SIGNAL_TYPE_MBM: u32 = 1;

/// Signal strength given on an unspecified scale of 0 to 100.
pub const NRF_WIFI_SIGNAL_TYPE_UNSPEC: u32 = 2;

/// Number of access points that one scan report carries.
pub const DISPLAY_BSS_PER_EVENT: usize = 8;

/// Capacity of the response buffer that scan results are read into.
pub const SCAN_RESULTS_BUFFER_LEN: usize = 1024;

/// WiFi scan type.
#[derive(Clone, Copy, Debug, PartialEq, Eq, Structural)]
pub enum ScanType {
    /// Active scan: the station actively transmits probes that make APs respond.
    /// Faster, but uses more power.
    Active,
    /// Passive scan: the station doesn't transmit any probes, just listens for beacons.
    /// Slower, but uses less power.
    Passive,
}

/// Scan options. Durations are given in ticks of `embassy_time::Duration`
/// (`Duration::as_ticks`).
#[derive(Clone, Copy, Debug)]
#[non_exhaustive]
pub struct ScanOptions {
    /// If set to `None`, all APs will be returned. If set to `Some`, only APs
    /// with the specified BSSID will be returned.
    pub bssid: Option<[u8; 6]>,
    /// Number of probes to send on each channel.
    pub nprobes: Option<u16>,
    /// Time to spend waiting on the home channel.
    pub home_time: Option<u64>,
    /// Scan type: active or passive.
    pub scan_type: ScanType,
    /// Period of time to wait on each channel when passive scanning.
    pub dwell_time: Option<u64>,
}

impl Default for ScanOptions {
    fn default() -> (r: Self)
        ensures
            r.bssid is None,
            r.nprobes is None,
            r.home_time is None,
            r.scan_type == ScanType::Passive,
            r.dwell_time is None,
    {
        ScanOptions {
            bssid: None,
            nprobes: None,
            home_time: None,
            scan_type: ScanType::Passive,
            dwell_time: None,
        }
    }
}

/// `embassy_time::Duration::as_millis` of a duration of `ticks` ticks. The
/// source computes `ticks * (1000 / g) / (TICK_HZ / g)` with
/// `g = gcd(TICK_HZ, 1000)`. This crate builds `embassy-time` with its `std`
/// feature, which selects `TICK_HZ` = 1 000 000 (a second tick-rate feature
/// would define `TICK_HZ` twice and not compile), so the result is
/// `ticks / 1000`, and the multiplication cannot overflow.
#[verifier::external_body]
fn ticks_as_millis(ticks: u64) -> (ms: u64)
    ensures
        ms == ticks / 1000,
{
    embassy_time::Duration::from_ticks(ticks).as_millis()
}

/// The scan parameters of a scan command that the driver sets. The chip's
/// bindings decide how each of them is laid out on the wire.
#[derive(Clone, Copy, Debug)]
pub struct ScanParams {
    pub passive_scan: u8,
    pub num_scan_channels: u8,
    pub mac_addr: [u8; 6],
    pub dwell_time_active: u16,
    pub dwell_time_passive: u16,
    /// Number of probes to send on each channel; 0 leaves the chip's default.
    pub num_probes: u16,
    /// Time to spend on the home channel, in milliseconds; 0 leaves the
    /// chip's default.
    pub home_time: u16,
}

/// The scan command, by the fields that the driver sets; all others are zero.
#[derive(Clone, Copy, Debug)]
pub struct ScanCommand {
    pub scan_reason: i32,
    pub scan_params: ScanParams,
}

/// The command that asks for the results of the last scan.
#[derive(Clone, Copy, Debug)]
pub struct GetScanResultsCommand {
    pub scan_reason: i32,
}

/// The dwell time, in milliseconds cut to 16 bits, that a scan with
/// `options` sets in the parameter for scans of type `param`.
pub open spec fn dwell_setting(options: ScanOptions, param: ScanType) -> u16 {
    match options.dwell_time {
        Some(ticks) => if options.scan_type == param {
            (ticks / 1000) as u16
        } else {
            0
        },
        None => 0,
    }
}

/// The number of probes per channel that a scan with `options` sets.
pub open spec fn probes_setting(options: ScanOptions) -> u16 {
    match options.nprobes {
        Some(n) => n,
        None => 0,
    }
}

/// The home-channel time, in milliseconds cut to 16 bits, that a scan with
/// `options` sets.
pub open spec fn home_time_setting(options: ScanOptions) -> u16 {
    match options.home_time {
        Some(ticks) => (ticks / 1000) as u16,
        None => 0,
    }
}

impl ScanCommand {
    /// The command with every field zero.
    pub fn zeroed() -> (c: ScanCommand)
        ensures
            c.scan_reason == 0,
            c.scan_params.passive_scan == 0,
            c.scan_params.num_scan_channels == 0,
            c.scan_params.mac_addr@ == Seq::new(6, |i: int| 0u8),
            c.scan_params.dwell_time_active == 0,
            c.scan_params.dwell_time_passive == 0,
            c.scan_params.num_probes == 0,
            c.scan_params.home_time == 0,
    {
        let c = ScanCommand {
            scan_reason: 0,
            scan_params: ScanParams {
                passive_scan: 0,
                num_scan_channels: 0,
                mac_addr: [0u8; 6],
                dwell_time_active: 0,
                dwell_time_passive: 0,
                num_probes: 0,
                home_time: 0,
            },
        };
        assert(c.scan_params.mac_addr@ =~= Seq::new(6, |i: int| 0u8));
        c
    }

    /// The command that runs a scan with the given options: the scan type
    /// decides the passive flag and which dwell time is set; the BSSID, if
    /// any, restricts the scan; all channels are scanned, and the results are
    /// kept for display. The number of probes per channel and the time on the
    /// home channel are set when the options give them.
    pub fn from_options(options: &ScanOptions) -> (command: ScanCommand)
        ensures
            command.scan_reason == SCAN_DISPLAY,
            command.scan_params.num_scan_channels == 0,
            command.scan_params.passive_scan == (if options.scan_type == ScanType::Passive {
                1u8
            } else {
                0u8
            }),
            command.scan_params.dwell_time_active == dwell_setting(*options, ScanType::Active),
            command.scan_params.dwell_time_passive == dwell_setting(*options, ScanType::Passive),
            command.scan_params.num_probes == probes_setting(*options),
            command.scan_params.home_time == home_time_setting(*options),
            command.scan_params.mac_addr@ == (match options.bssid {
                Some(bssid) => bssid@,
                None => Seq::new(6, |i: int| 0u8),
            }),
    {
        let mut command = ScanCommand::zeroed();

        match options.scan_type {
            ScanType::Active => {
                command.scan_params.passive_scan = 0;

                if let Some(dwell_time) = options.dwell_time {
                    command.scan_params.dwell_time_active = ticks_as_millis(dwell_time) as u16;
                }
            },
            ScanType::Passive => {
                command.scan_params.passive_scan = 1;

                if let Some(dwell_time) = options.dwell_time {
                    command.scan_params.dwell_time_passive = ticks_as_millis(dwell_time) as u16;
                }
            },
        }

        if let Some(bssid) = options.bssid {
            command.scan_params.mac_addr = bssid;
        }

        if let Some(nprobes) = options.nprobes {
            command.scan_params.num_probes = nprobes;
        }

        if let Some(home_time) = options.home_time {
            command.scan_params.home_time = ticks_as_millis(home_time) as u16;
        }

        command.scan_params.num_scan_channels = 0;

        command.scan_reason = SCAN_DISPLAY;

        command
    }
}

impl GetScanResultsCommand {
    /// The command that asks for the results kept for display.
    pub fn new() -> (c: GetScanResultsCommand)
        ensures
            c.scan_reason == SCAN_DISPLAY,
    {
        GetScanResultsCommand { scan_reason: SCAN_DISPLAY }
    }
}

/// The steps of a scan: the scan command, then the wait until the chip
/// reports the scan done, stopping at the first error.
#[derive(Clone, Copy, Debug)]
pub enum ScanStep {
    /// Send the scan command.
    Trigger,
    /// Wait until the chip reports the scan done.
    WaitForDone,
    /// The scan is over, with this result.
    Finished(Result<(), Error>),
}

/// The step that follows `step` once its action completed with `outcome`.
pub open spec fn next_scan_step(step: ScanStep, outcome: Result<Option<usize>, Error>) -> ScanStep {
    match step {
        ScanStep::Trigger => match outcome {
            Ok(_) => ScanStep::WaitForDone,
            Err(e) => ScanStep::Finished(Err(e)),
        },
        ScanStep::WaitForDone => match outcome {
            Ok(_) => ScanStep::Finished(Ok(())),
            Err(e) => ScanStep::Finished(Err(e)),
        },
        ScanStep::Finished(result) => ScanStep::Finished(result),
    }
}

/// The step that follows `step` once its action completed with `outcome`:
/// the wait after the command, the end after the wait, and the end with the
/// error as soon as an action fails.
pub fn scan_next(step: ScanStep, outcome: Result<Option<usize>, Error>) -> (next: ScanStep)
    ensures
        next == next_scan_step(step, outcome),
{
    match step {
        ScanStep::Trigger => match outcome {
            Ok(_) => ScanStep::WaitForDone,
            Err(e) => ScanStep::Finished(Err(e)),
        },
        ScanStep::WaitForDone => match outcome {
            Ok(_) => ScanStep::Finished(Ok(())),
            Err(e) => ScanStep::Finished(Err(e)),
        },
        ScanStep::Finished(result) => ScanStep::Finished(result),
    }
}

impl ScanStep {
    /// The action to issue at this step: the encoded scan command, sent as a
    /// command of type `msg_type` whose completion is awaited and which has no
    /// response buffer; then the wait for done; nothing once finished.
    pub fn action(&self, msg_type: u32, payload: Vec<u8>) -> (a: Option<Action>)
        ensures
            self matches ScanStep::Trigger ==> a matches Some(action) && action@ == ActionView::Command(
                msg_type,
                true,
                payload@,
                None,
            ),
            self matches ScanStep::WaitForDone ==> a matches Some(action) && action@
                == ActionView::WaitForDone,
            self matches ScanStep::Finished(_) ==> a is None,
    {
        match self {
            ScanStep::Trigger => Some(Action::Command((msg_type, true, payload, None))),
            ScanStep::WaitForDone => Some(Action::WaitForDone),
            ScanStep::Finished(_) => None,
        }
    }
}

/// Signal strength as the chip reports it; which field holds it depends on
/// `signal_type`.
#[derive(Clone, Copy, Debug)]
pub struct WifiSignal {
    pub signal_type: u32,
    pub mbm_signal: i32,
    pub unspec_signal: u8,
}

/// An SSID as the chip reports it: a length and a 32-byte array.
#[derive(Clone, Copy, Debug)]
pub struct WifiSsid {
    pub nrf_wifi_ssid_len: u8,
    pub nrf_wifi_ssid: [u8; 32],
}

/// One access point of a scan report.
#[derive(Clone, Copy, Debug)]
pub struct DisplayResult {
    pub ssid: WifiSsid,
    pub mac_addr: [u8; 6],
    pub signal: WifiSignal,
    pub nwk_band: u32,
    pub nwk_channel: u32,
}

/// A scan report: the number of access points, and room for eight of them.
#[derive(Clone, Copy, Debug)]
pub struct ScanDisplayEvent {
    pub event_bss_count: u32,
    pub display_results: [DisplayResult; 8],
}

/// Frequency band of an access point.
#[derive(Clone, Copy, Debug, PartialEq, Eq, Structural)]
pub enum Band {
    /// 2.4 GHz.
    Band2_4Ghz,
    /// 5 GHz.
    Band5Ghz,
    /// 60 GHz.
    Band60Ghz,
    /// A band code that the driver does not know.
    Invalid,
}

/// The band that a report's band code names.
pub open spec fn band_of(nwk_band: u32) -> Band {
    if nwk_band == 0 {
        Band::Band2_4Ghz
    } else if nwk_band == 1 {
        Band::Band5Ghz
    } else if nwk_band == 2 {
        Band::Band60Ghz
    } else {
        Band::Invalid
    }
}

impl Band {
    /// The band that a report's band code names.
    pub fn from_nwk_band(nwk_band: u32) -> (b: Band)
        ensures
            b == band_of(nwk_band),
    {
        match nwk_band {
            0 => Band::Band2_4Ghz,
            1 => Band::Band5Ghz,
            2 => Band::Band60Ghz,
            _ => Band::Invalid,
        }
    }
}

/// Division that rounds towards zero, as Rust's `/` on integers does.
pub open spec fn div_toward_zero(a: int, d: int) -> int {
    if a >= 0 {
        a / d
    } else {
        -((-a) / d)
    }
}

/// `x` brought into the range of `i16`.
pub open spec fn clamp_to_i16(x: int) -> int {
    if x < i16::MIN {
        i16::MIN as int
    } else if x > i16::MAX {
        i16::MAX as int
    } else {
        x
    }
}

/// The signal strength in dBm: mBm divided by 100 (towards zero) and
/// clamped to `i16`; the unspecified scale of 0 to 100 moved down by 100;
/// 0 for any other signal type.
pub open spec fn signal_dbm(sig: WifiSignal) -> int {
    if sig.signal_type == NRF_WIFI_SIGNAL_TYPE_MBM {
        clamp_to_i16(div_toward_zero(sig.mbm_signal as int, 100))
    } else if sig.signal_type == NRF_WIFI_SIGNAL_TYPE_UNSPEC {
        sig.unspec_signal - 100
    } else {
        0
    }
}

/// `i16::saturating_sub`: the documentation states that it subtracts and
/// saturates at the bounds of `i16` instead of overflowing.
pub assume_specification[ <i16>::saturating_sub ](x: i16, y: i16) -> (r: i16)
    ensures
        r == (if x - y < i16::MIN {
            i16::MIN as int
        } else if x - y > i16::MAX {
            i16::MAX as int
        } else {
            x - y
        }),
;

/// Convert a reported signal into dBm.
pub fn rssi_dbm_from_signal(sig: &WifiSignal) -> (dbm: i16)
    ensures
        dbm == signal_dbm(*sig),
{
    let typ = sig.signal_type;

    if typ == NRF_WIFI_SIGNAL_TYPE_MBM {
        let mbm: i32 = sig.mbm_signal;
        // Convert mBm -> dBm, clamp to i16.
        let dbm: i32 = mbm / 100;
        let clamped: i32 = if dbm < i16::MIN as i32 {
            i16::MIN as i32
        } else if dbm > i16::MAX as i32 {
            i16::MAX as i32
        } else {
            dbm
        };
        clamped as i16
    } else if typ == NRF_WIFI_SIGNAL_TYPE_UNSPEC {
        let unspec: i16 = sig.unspec_signal as i16;
        // Map 0..100 -> approx -100..0 dBm
        unspec.saturating_sub(100)
    } else {
        0
    }
}

/// Wifi Access Point (AP)
#[derive(Debug)]
pub struct WifiAp {
    /// SSID
    pub ssid: SsidBytes,
    /// BSSID (MAC address)
    pub bssid: [u8; 6],
    /// RSSI in dBm
    pub rssi: i16,
    /// Frequency band
    pub band: Band,
    /// Channel number
    pub channel: u32,
}

/// An access point as plain values.
pub struct WifiApView {
    pub ssid: Seq<u8>,
    pub bssid: Seq<u8>,
    pub rssi: i16,
    pub band: Band,
    pub channel: u32,
}

impl View for WifiAp {
    type V = WifiApView;

    open spec fn view(&self) -> WifiApView {
        WifiApView {
            ssid: ssid_bytes(self.ssid),
            bssid: self.bssid@,
            rssi: self.rssi,
            band: self.band,
            channel: self.channel,
        }
    }
}

/// The length of the SSID that a report gives: its length field, at most 32.
pub open spec fn ssid_len(r: DisplayResult) -> int {
    if r.ssid.nrf_wifi_ssid_len < SSID_CAP {
        r.ssid.nrf_wifi_ssid_len as int
    } else {
        SSID_CAP as int
    }
}

/// The access point that a report entry describes.
pub open spec fn access_point(r: DisplayResult) -> WifiApView {
    WifiApView {
        ssid: r.ssid.nrf_wifi_ssid@.take(ssid_len(r)),
        bssid: r.mac_addr@,
        rssi: signal_dbm(r.signal) as i16,
        band: band_of(r.nwk_band),
        channel: r.nwk_channel,
    }
}

impl Clone for WifiAp {
    fn clone(&self) -> (r: Self)
        ensures
            r@ == self@,
    {
        WifiAp {
            ssid: ssid_clone(&self.ssid),
            bssid: self.bssid,
            rssi: self.rssi,
            band: self.band,
            channel: self.channel,
        }
    }
}

impl WifiAp {
    /// The access point that a report entry describes.
    pub fn from(r: &DisplayResult) -> (ap: WifiAp)
        ensures
            ap@ == access_point(*r),
    {
        // SSID
        let reported_len = r.ssid.nrf_wifi_ssid_len as usize;
        let ssid_len: usize = if reported_len < SSID_CAP {
            reported_len
        } else {
            SSID_CAP
        };
        let mut ssid = ssid_new();
        let _ = ssid_extend_from_slice(
            &mut ssid,
            vstd::slice::slice_subrange(r.ssid.nrf_wifi_ssid.as_slice(), 0, ssid_len),
        );

        // BSSID
        let bssid = r.mac_addr;

        // RSSI
        let rssi = rssi_dbm_from_signal(&r.signal);

        // Frequency band
        let band = Band::from_nwk_band(r.nwk_band);

        // Network channel
        let channel = r.nwk_channel;

        let ap = WifiAp { ssid, bssid, rssi, band, channel };
        assert(ap@.ssid =~= access_point(*r).ssid);
        ap
    }
}

/// Wifi Scan results: at most `N` access points.
pub struct WifiScanResults<const N: usize> {
    aps: Vec<WifiAp>,
}

/// The access points of a list, as plain values.
pub open spec fn ap_views(aps: Seq<WifiAp>) -> Seq<WifiApView> {
    aps.map_values(|ap: WifiAp| ap@)
}

/// Pushing an access point onto a list pushes its view onto the list's views.
proof fn lemma_ap_views_push(aps: Seq<WifiAp>, ap: WifiAp)
    ensures
        ap_views(aps.push(ap)) == ap_views(aps).push(ap@),
{
    assert forall|j: int| 0 <= j < aps.len() + 1 implies #[trigger] ap_views(aps.push(ap))[j]
        == ap_views(aps).push(ap@)[j] by {
        if j < aps.len() {
            assert(aps.push(ap)[j] == aps[j]);
        }
    }
    assert(ap_views(aps.push(ap)) =~= ap_views(aps).push(ap@));
}

impl<const N: usize> View for WifiScanResults<N> {
    type V = Seq<WifiApView>;

    closed spec fn view(&self) -> Seq<WifiApView> {
        ap_views(self.aps@)
    }
}

impl<const N: usize> Default for WifiScanResults<N> {
    fn default() -> (r: Self)
        ensures
            r@ == Seq::<WifiApView>::empty(),
    {
        let r = WifiScanResults { aps: Vec::new() };
        assert(r@ =~= Seq::<WifiApView>::empty());
        r
    }
}

/// The access points that a scan report lists: the first `event_bss_count`
/// entries, at most eight.
pub open spec fn reported_access_points(ev: ScanDisplayEvent) -> Seq<WifiApView> {
    let count = if ev.event_bss_count < DISPLAY_BSS_PER_EVENT {
        ev.event_bss_count as int
    } else {
        DISPLAY_BSS_PER_EVENT as int
    };
    Seq::new(count as nat, |i: int| access_point(ev.display_results[i]))
}

impl<const N: usize> WifiScanResults<N> {
    /// The collection never holds more than its capacity.
    #[verifier::type_invariant]
    spec fn within_capacity(self) -> bool {
        self.aps.len() <= N
    }

    /// The number of access points, which is at most the capacity `N`.
    pub fn len(&self) -> (n: usize)
        ensures
            n == self@.len(),
            n <= N,
    {
        proof {
            use_type_invariant(self);
        }
        self.aps.len()
    }

    /// The access points, in order.
    pub fn aps(&self) -> (aps: &[WifiAp])
        ensures
            ap_views(aps@) == self@,
    {
        self.aps.as_slice()
    }

    /// The access points, in order, taken out of the collection.
    pub fn into_aps(self) -> (aps: Vec<WifiAp>)
        ensures
            ap_views(aps@) == self@,
    {
        self.aps
    }

    /// Appends the access points of `other`, all of them or, when they do not
    /// fit the capacity `N`, none.
    pub fn extend(&mut self, other: &WifiScanResults<8>) -> (r: Result<(), ()>)
        ensures
            old(self)@.len() + other@.len() <= N ==> r is Ok && final(self)@ == old(self)@ + other@,
            old(self)@.len() + other@.len() > N ==> r is Err && final(self)@ == old(self)@,
    {
        proof {
            use_type_invariant(&*self);
            use_type_invariant(other);
        }
        let n_self = self.aps.len();
        let n_other = other.aps.len();
        if n_other > N || n_self > N - n_other {
            return Err(());
        }
        let ghost start = self@;
        let mut aps: Vec<WifiAp> = Vec::new();
        core::mem::swap(&mut aps, &mut self.aps);
        let mut i: usize = 0;
        while i < n_other
            invariant
                n_other == other.aps.len(),
                n_self + n_other <= N,
                i <= n_other,
                aps.len() == n_self + i,
                ap_views(aps@) == start + other@.take(i as int),
            decreases n_other - i,
        {
            let ap = other.aps[i].clone();
            proof {
                lemma_ap_views_push(aps@, ap);
                assert(other@[i as int] == other.aps@[i as int]@);
                assert((start + other@.take(i as int)).push(ap@) =~= start + other@.take(i + 1));
            }
            aps.push(ap);
            i = i + 1;
        }
        assert(other@.take(n_other as int) =~= other@);
        self.aps = aps;
        Ok(())
    }
}

impl WifiScanResults<8> {
    /// The access points that a scan report lists.
    pub fn from(ev: &ScanDisplayEvent) -> (results: WifiScanResults<8>)
        ensures
            results@ == reported_access_points(*ev),
    {
        let reported = ev.event_bss_count as usize;
        let count: usize = if reported < 8 {
            reported
        } else {
            8
        };
        let mut aps: Vec<WifiAp> = Vec::new();
        let mut i: usize = 0;
        while i < count
            invariant
                count <= 8,
                count == (if ev.event_bss_count < 8 { ev.event_bss_count as int } else { 8 }),
                i <= count,
                aps.len() == i,
                ap_views(aps@) == reported_access_points(*ev).take(i as int),
            decreases count - i,
        {
            let ap = WifiAp::from(&ev.display_results[i]);
            proof {
                lemma_ap_views_push(aps@, ap);
                assert(reported_access_points(*ev).take(i as int).push(ap@)
                    =~= reported_access_points(*ev).take(i + 1));
            }
            aps.push(ap);
            i = i + 1;
        }
        let results = WifiScanResults { aps };
        assert(reported_access_points(*ev).take(count as int) =~= reported_access_points(*ev));
        results
    }
}

/// What the chip answered to a request for scan results.
pub enum ScanResultsReply {
    /// An answer without data.
    NoData,
    /// A scan report.
    Event(ScanDisplayEvent),
    /// Data that does not hold a whole scan report (shorter than one, for
    /// instance), which is not read as one.
    Malformed,
}

/// The scan results that an answer to a request for them gives, in a
/// collection of capacity 24: the error that the request ended with; no
/// access point for an answer without data; `InvalidData` for data that is
/// not a scan report; otherwise the access points of the report.
pub fn scan_results_from_reply(reply: Result<ScanResultsReply, Error>) -> (r: Result<WifiScanResults<24>, Error>)
    ensures
        reply matches Err(e) ==> r matches Err(e2) && e2 == e,
        reply matches Ok(ScanResultsReply::NoData) ==> r matches Ok(results) && results@
            == Seq::<WifiApView>::empty(),
        reply matches Ok(ScanResultsReply::Malformed) ==> r matches Err(e) && e
            == Error::InvalidData,
        reply matches Ok(ScanResultsReply::Event(ev)) ==> r matches Ok(results) && results@
            == reported_access_points(ev),
{
    let mut results = WifiScanResults::<24>::default();

    match reply {
        Ok(response) => match response {
            ScanResultsReply::Event(ev) => {
                let new_results = WifiScanResults::from(&ev);
                if results.extend(&new_results).is_err() {
                    return Ok(results);
                }
            },
            ScanResultsReply::Malformed => {
                return Err(Error::InvalidData);
            },
            ScanResultsReply::NoData => {},
        },
        Err(error) => {
            return Err(error);
        },
    }

    Ok(results)
}

} // verus!

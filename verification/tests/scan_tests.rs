use nrf70::error::Error;
use nrf70::action::Action;
use nrf70::scan::{
    scan_next, ScanStep, rssi_dbm_from_signal, scan_results_from_reply, Band, DisplayResult, GetScanResultsCommand,
    ScanCommand, ScanDisplayEvent, ScanOptions, ScanResultsReply, ScanType, WifiAp, WifiScanResults,
    WifiSignal, WifiSsid, NRF_WIFI_SIGNAL_TYPE_MBM, NRF_WIFI_SIGNAL_TYPE_UNSPEC, SCAN_DISPLAY,
};

fn mbm(v: i32) -> WifiSignal {
    WifiSignal { signal_type: NRF_WIFI_SIGNAL_TYPE_MBM, mbm_signal: v, unspec_signal: 0 }
}

fn unspec(v: u8) -> WifiSignal {
    WifiSignal { signal_type: NRF_WIFI_SIGNAL_TYPE_UNSPEC, mbm_signal: 0, unspec_signal: v }
}

fn display_result(name: &[u8], len: u8, band: u32, channel: u32) -> DisplayResult {
    let mut ssid = [0u8; 32];
    ssid[..name.len()].copy_from_slice(name);
    DisplayResult {
        ssid: WifiSsid { nrf_wifi_ssid_len: len, nrf_wifi_ssid: ssid },
        mac_addr: [1, 2, 3, 4, 5, 6],
        signal: mbm(-4250),
        nwk_band: band,
        nwk_channel: channel,
    }
}

fn event(count: u32) -> ScanDisplayEvent {
    let mut results = [display_result(b"", 0, 0, 0); 8];
    for (i, r) in results.iter_mut().enumerate() {
        *r = display_result(b"net", 3, 1, i as u32 + 1);
    }
    ScanDisplayEvent { event_bss_count: count, display_results: results }
}

#[test]
fn default_options_are_passive_without_limits() {
    let o = ScanOptions::default();
    assert_eq!(o.scan_type, ScanType::Passive);
    assert!(o.bssid.is_none() && o.nprobes.is_none() && o.home_time.is_none() && o.dwell_time.is_none());
}

#[test]
fn passive_scan_command() {
    let mut o = ScanOptions::default();
    o.dwell_time = Some(embassy_time::Duration::from_millis(500).as_ticks());
    let c = ScanCommand::from_options(&o);
    assert_eq!(c.scan_reason, SCAN_DISPLAY);
    assert_eq!(c.scan_params.passive_scan, 1);
    assert_eq!(c.scan_params.dwell_time_passive, 500);
    assert_eq!(c.scan_params.dwell_time_active, 0);
    assert_eq!(c.scan_params.num_scan_channels, 0);
    assert_eq!(c.scan_params.mac_addr, [0; 6]);
}

#[test]
fn active_scan_command_with_bssid() {
    let mut o = ScanOptions::default();
    o.scan_type = ScanType::Active;
    o.bssid = Some([0xaa, 0xbb, 0xcc, 0xdd, 0xee, 0xff]);
    o.dwell_time = Some(embassy_time::Duration::from_millis(120).as_ticks());
    o.nprobes = Some(3);
    let c = ScanCommand::from_options(&o);
    assert_eq!(c.scan_params.passive_scan, 0);
    assert_eq!(c.scan_params.dwell_time_active, 120);
    assert_eq!(c.scan_params.dwell_time_passive, 0);
    assert_eq!(c.scan_params.mac_addr, [0xaa, 0xbb, 0xcc, 0xdd, 0xee, 0xff]);
}

#[test]
fn dwell_time_is_cut_to_16_bits() {
    let mut o = ScanOptions::default();
    o.dwell_time = Some(embassy_time::Duration::from_millis(70_000).as_ticks());
    let c = ScanCommand::from_options(&o);
    assert_eq!(c.scan_params.dwell_time_passive, (70_000u64 % 65_536) as u16);
}

#[test]
fn get_scan_results_command_asks_for_display() {
    assert_eq!(GetScanResultsCommand::new().scan_reason, SCAN_DISPLAY);
}

#[test]
fn rssi_from_mbm() {
    assert_eq!(rssi_dbm_from_signal(&mbm(-4250)), -42);
    assert_eq!(rssi_dbm_from_signal(&mbm(4299)), 42);
    assert_eq!(rssi_dbm_from_signal(&mbm(-99)), 0);
    assert_eq!(rssi_dbm_from_signal(&mbm(i32::MIN)), i16::MIN);
    assert_eq!(rssi_dbm_from_signal(&mbm(i32::MAX)), i16::MAX);
}

#[test]
fn rssi_from_unspec() {
    assert_eq!(rssi_dbm_from_signal(&unspec(0)), -100);
    assert_eq!(rssi_dbm_from_signal(&unspec(60)), -40);
    assert_eq!(rssi_dbm_from_signal(&unspec(100)), 0);
    assert_eq!(rssi_dbm_from_signal(&unspec(255)), 155);
}

#[test]
fn rssi_of_other_signal_type() {
    let sig = WifiSignal { signal_type: 0, mbm_signal: -5000, unspec_signal: 50 };
    assert_eq!(rssi_dbm_from_signal(&sig), 0);
}

#[test]
fn access_point_from_report() {
    let ap = WifiAp::from(&display_result(b"home", 4, 0, 6));
    assert_eq!(ap.ssid.as_slice(), b"home");
    assert_eq!(ap.bssid, [1, 2, 3, 4, 5, 6]);
    assert_eq!(ap.rssi, -42);
    assert_eq!(ap.band, Band::Band2_4Ghz);
    assert_eq!(ap.channel, 6);
}

#[test]
fn ssid_is_cut_to_32_bytes() {
    let r = display_result(&[b'x'; 32], 200, 2, 1);
    let ap = WifiAp::from(&r);
    assert_eq!(ap.ssid.len(), 32);
    assert_eq!(ap.band, Band::Band60Ghz);
}

#[test]
fn unknown_band_is_invalid() {
    assert_eq!(WifiAp::from(&display_result(b"a", 1, 7, 1)).band, Band::Invalid);
    assert_eq!(WifiAp::from(&display_result(b"a", 1, 1, 1)).band, Band::Band5Ghz);
}

#[test]
fn report_yields_listed_access_points() {
    let r = WifiScanResults::<8>::from(&event(3));
    assert_eq!(r.aps().len(), 3);
    assert_eq!(r.aps()[2].channel, 3);
    assert_eq!(r.aps()[0].ssid.as_slice(), b"net");
}

#[test]
fn report_yields_at_most_eight() {
    assert_eq!(WifiScanResults::<8>::from(&event(20)).len(), 8);
    assert_eq!(WifiScanResults::<8>::from(&event(0)).len(), 0);
}

#[test]
fn extend_within_capacity() {
    let mut all = WifiScanResults::<24>::default();
    assert_eq!(all.extend(&WifiScanResults::<8>::from(&event(8))), Ok(()));
    assert_eq!(all.extend(&WifiScanResults::<8>::from(&event(8))), Ok(()));
    assert_eq!(all.extend(&WifiScanResults::<8>::from(&event(8))), Ok(()));
    assert_eq!(all.len(), 24);
    assert_eq!(all.aps()[23].channel, 8);
    assert_eq!(all.extend(&WifiScanResults::<8>::from(&event(1))), Err(()));
    assert_eq!(all.len(), 24);
}

#[test]
fn extend_beyond_capacity_changes_nothing() {
    let mut small = WifiScanResults::<4>::default();
    assert_eq!(small.extend(&WifiScanResults::<8>::from(&event(5))), Err(()));
    assert_eq!(small.len(), 0);
    assert_eq!(small.extend(&WifiScanResults::<8>::from(&event(4))), Ok(()));
    assert_eq!(small.len(), 4);
}

#[test]
fn scan_results_from_event_reply() {
    let r = scan_results_from_reply(Ok(ScanResultsReply::Event(event(5)))).unwrap();
    assert_eq!(r.aps().len(), 5);
    assert_eq!(r.aps()[4].channel, 5);
}

#[test]
fn scan_results_without_data() {
    let r = scan_results_from_reply(Ok(ScanResultsReply::NoData)).unwrap();
    assert!(r.aps().is_empty());
}

#[test]
fn scan_results_malformed() {
    assert!(matches!(scan_results_from_reply(Ok(ScanResultsReply::Malformed)), Err(Error::InvalidData)));
}

#[test]
fn scan_results_error_is_passed_on() {
    assert!(matches!(scan_results_from_reply(Err(Error::Busy)), Err(Error::Busy)));
}

#[test]
fn scan_command_carries_probes_and_home_time() {
    let mut o = ScanOptions::default();
    let plain = ScanCommand::from_options(&o);
    assert_eq!(plain.scan_params.num_probes, 0);
    assert_eq!(plain.scan_params.home_time, 0);
    o.nprobes = Some(3);
    o.home_time = Some(embassy_time::Duration::from_millis(45).as_ticks());
    let c = ScanCommand::from_options(&o);
    assert_eq!(c.scan_params.num_probes, 3);
    assert_eq!(c.scan_params.home_time, 45);
}

#[test]
fn scan_steps_command_then_wait() {
    let step = ScanStep::Trigger;
    match step.action(3, vec![1, 2]) {
        Some(Action::Command((3, true, payload, None))) => assert_eq!(payload, vec![1, 2]),
        other => panic!("unexpected {:?}", other),
    }
    let step = scan_next(step, Ok(None));
    assert!(matches!(step, ScanStep::WaitForDone));
    assert!(matches!(step.action(3, vec![]), Some(Action::WaitForDone)));
    let step = scan_next(step, Ok(None));
    assert!(matches!(step, ScanStep::Finished(Ok(()))));
    assert!(step.action(3, vec![]).is_none());
}

#[test]
fn scan_stops_at_first_error() {
    let step = scan_next(ScanStep::Trigger, Err(Error::Busy));
    assert!(matches!(step, ScanStep::Finished(Err(Error::Busy))));
    assert!(matches!(scan_next(step, Ok(None)), ScanStep::Finished(Err(Error::Busy))));
    let step = scan_next(ScanStep::WaitForDone, Err(Error::InvalidData));
    assert!(matches!(step, ScanStep::Finished(Err(Error::InvalidData))));
}

#[test]
fn results_taken_out_in_order() {
    let aps = WifiScanResults::<8>::from(&event(3)).into_aps();
    assert_eq!(aps.len(), 3);
    assert_eq!(aps[0].channel, 1);
    assert_eq!(aps[2].channel, 3);
}

use lora::mod_params::Bandwidth;
use lora::mod_params::CodingRate;
use lora::mod_params::RadioError;
use lora::mod_params::SpreadingFactor;
use lora::interface::InterfaceVariant;
use lora::mock::MockInterface;
use lora::radio::LoRa;

fn fresh_radio() -> LoRa {
    let mut iv = MockInterface::new();
    iv.push_response(vec![0; 10]);
    iv.push_response(vec![0, 0x01, 0x08, 0xAC, 0, 0, 0, 0, 0, 0]);
    LoRa::new(&mut iv, true).unwrap()
}

#[test]
fn time_on_air_sf7_125khz() {
    let mut radio = fresh_radio();
    let ms = radio
        .get_time_on_air(
            SpreadingFactor::_7,
            Bandwidth::_125KHz,
            CodingRate::_4_5,
            8,
            false,
            10,
            true,
        )
        .unwrap();
    assert_eq!(ms, 42);
}

#[test]
fn time_on_air_sf12_125khz() {
    let mut radio = fresh_radio();
    let ms = radio
        .get_time_on_air(
            SpreadingFactor::_12,
            Bandwidth::_125KHz,
            CodingRate::_4_5,
            8,
            false,
            10,
            true,
        )
        .unwrap();
    assert_eq!(ms, 992);
}

#[test]
fn time_on_air_sf9_500khz_fixed() {
    let mut radio = fresh_radio();
    let ms = radio
        .get_time_on_air(
            SpreadingFactor::_9,
            Bandwidth::_500KHz,
            CodingRate::_4_7,
            12,
            true,
            32,
            false,
        )
        .unwrap();
    assert_eq!(ms, 76);
}

#[test]
fn time_on_air_zero_bandwidth_is_rejected() {
    let mut radio = fresh_radio();
    let r = radio.get_time_on_air(
        SpreadingFactor::_7,
        Bandwidth::Reserved,
        CodingRate::_4_5,
        8,
        false,
        10,
        true,
    );
    assert_eq!(r, Err(RadioError::InvalidBandwidth));
}

#[test]
fn time_on_air_clamps_short_preambles_below_sf7() {
    let mut radio = fresh_radio();
    let short = radio
        .get_time_on_air(
            SpreadingFactor::_5,
            Bandwidth::_125KHz,
            CodingRate::_4_5,
            5,
            false,
            10,
            true,
        )
        .unwrap();
    let twelve = radio
        .get_time_on_air(
            SpreadingFactor::_5,
            Bandwidth::_125KHz,
            CodingRate::_4_5,
            12,
            false,
            10,
            true,
        )
        .unwrap();
    assert_eq!(short, twelve);
    assert_eq!(short, 14);
}

#[test]
fn wakeup_time_includes_radio_margin() {
    let mut radio = fresh_radio();
    assert_eq!(radio.get_wakeup_time(), 3);
}

#[test]
fn rf_frequency_range_check() {
    let mut radio = fresh_radio();
    let mut iv = MockInterface::new();
    assert_eq!(radio.check_rf_frequency(&mut iv, 868_000_000), Ok(true));
    assert_eq!(radio.check_rf_frequency(&mut iv, 100_000_000), Ok(false));
    assert_eq!(radio.check_rf_frequency(&mut iv, 1_000_000_000), Ok(false));
}

#[test]
fn packet_status_starts_empty() {
    let mut radio = fresh_radio();
    assert_eq!(radio.get_latest_packet_status(), None);
    let mut iv = MockInterface::new();
    assert!(iv.wait_on_busy().is_ok());
    assert_eq!(iv.event_count(), 1);
}

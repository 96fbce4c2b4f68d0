use lora::mock::MockInterface;
use lora::mod_params::Bandwidth;
use lora::mod_params::CodingRate;
use lora::mod_params::RadioError;
use lora::mod_params::SpreadingFactor;
use lora::mod_params::derive_modulation_params;
use lora::mod_params::derive_packet_params;
use lora::radio::LoRa;
use lora::retention::retention_list_add;

fn ldro(sf: SpreadingFactor, bw: Bandwidth) -> u8 {
    derive_modulation_params(sf, bw, CodingRate::_4_5).low_data_rate_optimize
}

#[test]
fn low_data_rate_optimize_table() {
    assert_eq!(ldro(SpreadingFactor::_11, Bandwidth::_125KHz), 1);
    assert_eq!(ldro(SpreadingFactor::_12, Bandwidth::_125KHz), 1);
    assert_eq!(ldro(SpreadingFactor::_12, Bandwidth::_250KHz), 1);
    assert_eq!(ldro(SpreadingFactor::_10, Bandwidth::_125KHz), 0);
    assert_eq!(ldro(SpreadingFactor::_11, Bandwidth::_250KHz), 0);
    assert_eq!(ldro(SpreadingFactor::_12, Bandwidth::_500KHz), 0);
    assert_eq!(ldro(SpreadingFactor::_7, Bandwidth::_125KHz), 0);
}

#[test]
fn short_spreading_factors_get_twelve_preamble_symbols() {
    let pp = derive_packet_params(SpreadingFactor::_5, 6, false, 255, true, false);
    assert_eq!(pp.preamble_length, 12);
    let pp6 = derive_packet_params(SpreadingFactor::_6, 11, false, 255, true, false);
    assert_eq!(pp6.preamble_length, 12);
    let kept = derive_packet_params(SpreadingFactor::_6, 20, false, 255, true, false);
    assert_eq!(kept.preamble_length, 20);
    let normal = derive_packet_params(SpreadingFactor::_7, 6, false, 255, true, false);
    assert_eq!(normal.preamble_length, 6);
}

#[test]
fn config_stores_both_parameter_snapshots() {
    let mut setup = MockInterface::new();
    setup.push_response(vec![0; 10]);
    setup.push_response(vec![0, 0x01, 0x08, 0xAC, 0, 0, 0, 0, 0, 0]);
    let mut radio = LoRa::new(&mut setup, true).unwrap();
    assert!(radio.modulation_params.is_none());
    assert!(radio.packet_params.is_none());

    let mut config = MockInterface::new();
    config.push_response(vec![0, 0x00]);
    radio
        .set_rx_config(
            &mut config,
            SpreadingFactor::_11,
            Bandwidth::_125KHz,
            CodingRate::_4_6,
            16,
            8,
            true,
            32,
            true,
            false,
            0,
            true,
            false,
        )
        .unwrap();
    let mp = radio.modulation_params.unwrap();
    assert_eq!(mp.spreading_factor, SpreadingFactor::_11);
    assert_eq!(mp.bandwidth, Bandwidth::_125KHz);
    assert_eq!(mp.coding_rate, CodingRate::_4_6);
    assert_eq!(mp.low_data_rate_optimize, 1);
    let pp = radio.packet_params.unwrap();
    assert_eq!(pp.preamble_length, 16);
    assert!(pp.implicit_header);
    assert_eq!(pp.payload_length, 32); // fixed length reduces the payload
    assert!(pp.crc_on);
    assert!(pp.iq_inverted);
    assert_eq!(radio.max_payload_length, 32);

    let mut tx = MockInterface::new();
    tx.push_response(vec![0, 0x00]);
    radio
        .set_tx_config(
            &mut tx,
            14,
            SpreadingFactor::_9,
            Bandwidth::_250KHz,
            CodingRate::_4_8,
            12,
            false,
            false,
            false,
            0,
            false,
        )
        .unwrap();
    assert!(radio.modulation_params.is_some());
    assert!(radio.packet_params.is_some());
    let tx_pp = radio.packet_params.unwrap();
    assert_eq!(tx_pp.payload_length, 32); // keeps the stored maximum
    assert!(!tx_pp.crc_on);
}

#[test]
fn retention_image_add_and_dedup() {
    let empty: Vec<u8> = vec![0; 9];
    let one = retention_list_add(&empty, 0x08AC).unwrap().unwrap();
    assert_eq!(one, vec![1, 0x08, 0xAC, 0, 0, 0, 0, 0, 0]);

    // Adding the stored address again changes nothing.
    assert_eq!(retention_list_add(&one, 0x08AC).unwrap(), None);

    let two = retention_list_add(&one, 0x0889).unwrap().unwrap();
    assert_eq!(two, vec![2, 0x08, 0xAC, 0x08, 0x89, 0, 0, 0, 0]);

    let three = retention_list_add(&two, 0x0740).unwrap().unwrap();
    let four = retention_list_add(&three, 0x0736).unwrap().unwrap();
    assert_eq!(four[0], 4);

    // A fifth distinct address does not fit; a stored one still answers.
    assert_eq!(retention_list_add(&four, 0x0819), Err(RadioError::RetentionListExceeded));
    assert_eq!(retention_list_add(&four, 0x0740).unwrap(), None);
}

#[test]
fn retention_rejects_a_corrupt_count() {
    let corrupt: Vec<u8> = vec![9, 0, 0, 0, 0, 0, 0, 0, 0];
    assert_eq!(retention_list_add(&corrupt, 0x08AC), Err(RadioError::RetentionListExceeded));
}

use lora::mock::MockInterface;
use lora::mock::RecordedEvent;
use lora::mod_params::Bandwidth;
use lora::mod_params::CodingRate;
use lora::mod_params::PacketStatus;
use lora::mod_params::RadioError;
use lora::mod_params::RadioState;
use lora::mod_params::SpreadingFactor;
use lora::radio::LoRa;

/// All byte strings written to the chip, in order.
fn written_frames(iv: &MockInterface) -> Vec<Vec<u8>> {
    let mut out: Vec<Vec<u8>> = Vec::new();
    let mut i: usize = 0;
    while let Some(event) = iv.event_at(i) {
        if let RecordedEvent::Write(bytes) = event {
            out.push(bytes);
        }
        i += 1;
    }
    out
}

fn count_resets(iv: &MockInterface) -> usize {
    let mut n: usize = 0;
    let mut i: usize = 0;
    while let Some(event) = iv.event_at(i) {
        if event == RecordedEvent::Reset {
            n += 1;
        }
        i += 1;
    }
    n
}

/// A radio brought up against an empty retention list.
fn configured_radio(iv: &mut MockInterface) -> LoRa {
    iv.push_response(vec![0; 10]);
    iv.push_response(vec![0, 0x01, 0x08, 0xAC, 0, 0, 0, 0, 0, 0]);
    LoRa::new(iv, true).unwrap()
}

#[test]
fn new_emits_the_initialisation_sequence() {
    let mut iv = MockInterface::new();
    let radio = configured_radio(&mut iv);
    assert_eq!(count_resets(&iv), 1);
    assert_eq!(iv.event_at(0), Some(RecordedEvent::Reset));

    let writes = written_frames(&iv);
    let expected: Vec<Vec<u8>> = vec![
        vec![0x80, 0x00],                                              // standby, RC
        vec![0x96, 0x01],                                              // regulator, DCDC
        vec![0x8F, 0x00, 0x00],                                        // buffer base addresses
        vec![0x8E, 0x00, 0x04],                                        // 0 dBm, 200 us ramp
        vec![0x08, 0x03, 0xFF, 0x03, 0xFF, 0x00, 0x00, 0x00, 0x00],    // route all IRQs to DIO1
        vec![0x1D, 0x02, 0x9F],                                        // read retention list
        vec![0x0D, 0x02, 0x9F, 0x01, 0x08, 0xAC, 0, 0, 0, 0, 0, 0],    // retain RxGain
        vec![0x1D, 0x02, 0x9F],                                        // read retention list
        vec![0x0D, 0x02, 0x9F, 0x02, 0x08, 0xAC, 0x08, 0x89, 0, 0, 0, 0], // retain TxModulation
        vec![0x8A, 0x01],                                              // packet type LoRa
        vec![0x0D, 0x07, 0x40, 0x34, 0x44],                            // public sync word
    ];
    assert_eq!(writes, expected);
    assert_eq!(radio.operating_mode, lora::mod_params::RadioMode::StandbyRC);
}

#[test]
fn new_private_network_writes_the_private_syncword() {
    let mut iv = MockInterface::new();
    iv.push_response(vec![0; 10]);
    iv.push_response(vec![0, 0x01, 0x08, 0xAC, 0, 0, 0, 0, 0, 0]);
    LoRa::new(&mut iv, false).unwrap();
    let writes = written_frames(&iv);
    assert_eq!(writes.last().unwrap(), &vec![0x0D, 0x07, 0x40, 0x14, 0x24]);
}

#[test]
fn retention_add_is_idempotent_on_chip() {
    // The retention list already holds RxGain: bringing the radio up must
    // write the list back exactly once, for TxModulation alone.
    let mut iv = MockInterface::new();
    iv.push_response(vec![0, 0x01, 0x08, 0xAC, 0, 0, 0, 0, 0, 0]);
    iv.push_response(vec![0, 0x01, 0x08, 0xAC, 0, 0, 0, 0, 0, 0]);
    LoRa::new(&mut iv, true).unwrap();
    let retention_writes: Vec<Vec<u8>> = written_frames(&iv)
        .into_iter()
        .filter(|w| w.len() > 3 && w[0] == 0x0D && w[1] == 0x02 && w[2] == 0x9F)
        .collect();
    assert_eq!(
        retention_writes,
        vec![vec![0x0D, 0x02, 0x9F, 0x02, 0x08, 0xAC, 0x08, 0x89, 0, 0, 0, 0]]
    );
}

#[test]
fn retention_list_overflow_is_reported() {
    let mut iv = MockInterface::new();
    iv.push_response(vec![0, 0x04, 0x01, 0x02, 0x03, 0x04, 0x05, 0x06, 0x07, 0x08]);
    assert_eq!(LoRa::new(&mut iv, true).err(), Some(RadioError::RetentionListExceeded));
}

#[test]
fn send_emits_dio_packet_buffer_and_tx_frames() {
    let mut setup = MockInterface::new();
    let mut radio = configured_radio(&mut setup);

    let mut config = MockInterface::new();
    config.push_response(vec![0, 0x00]); // TxModulation register reads zero
    radio
        .set_tx_config(
            &mut config,
            0,
            SpreadingFactor::_7,
            Bandwidth::_125KHz,
            CodingRate::_4_5,
            8,
            false,
            true,
            false,
            0,
            false,
        )
        .unwrap();
    let config_writes = written_frames(&config);
    let expected_config: Vec<Vec<u8>> = vec![
        vec![0x80, 0x00],                         // standby, RC
        vec![0x8B, 7, 0x04, 0x01, 0x00],          // SF7, 125 kHz, 4/5, no optimisation
        vec![0x8C, 0x00, 0x08, 0x00, 0xFF, 0x01, 0x00], // preamble 8, explicit, 255, CRC
        vec![0x1D, 0x08, 0x89],                   // read TxModulation
        vec![0x0D, 0x08, 0x89, 0x04],             // set bit 2: not 500 kHz
        vec![0x8E, 0x00, 0x04],                   // 0 dBm, 200 us ramp
    ];
    assert_eq!(config_writes, expected_config);

    let mut iv = MockInterface::new();
    radio.send(&mut iv, &[0x0A, 0x0B, 0x0C], 1000).unwrap();
    let writes = written_frames(&iv);
    let expected: Vec<Vec<u8>> = vec![
        vec![0x08, 0x02, 0x01, 0x02, 0x01, 0x00, 0x00, 0x00, 0x00], // TxDone | RxTxTimeout on DIO1
        vec![0x8C, 0x00, 0x08, 0x00, 0x03, 0x01, 0x00],             // payload length 3
        vec![0x0E, 0x00, 0x0A, 0x0B, 0x0C],                         // payload at base 0
        vec![0x83, 0x00, 0xFA, 0x00],                               // 1000 ms << 6
    ];
    assert_eq!(writes, expected);
    assert_eq!(radio.get_status(), RadioState::TxRunning);

    let mut irq = MockInterface::new();
    irq.set_irq_rounds(1);
    irq.push_response(vec![0, 0, 0]); // device errors
    irq.push_response(vec![0]); // status
    irq.push_response(vec![0, 0x00, 0x01]); // TxDone
    let mut buffer: Vec<u8> = Vec::new();
    let mut len: u8 = 0;
    let mut cad = false;
    radio.process_irq(&mut irq, &mut buffer, &mut len, &mut cad).unwrap();
    assert_eq!(radio.get_status(), RadioState::Idle);
}

#[test]
fn continuous_rx_receives_a_packet_and_stays_receiving() {
    let mut setup = MockInterface::new();
    let mut radio = configured_radio(&mut setup);

    let mut config = MockInterface::new();
    config.push_response(vec![0, 0x08]); // IQPolarity register
    radio
        .set_rx_config(
            &mut config,
            SpreadingFactor::_7,
            Bandwidth::_125KHz,
            CodingRate::_4_5,
            8,
            5,
            false,
            0,
            true,
            false,
            0,
            false,
            true,
        )
        .unwrap();
    let config_writes = written_frames(&config);
    let expected_config: Vec<Vec<u8>> = vec![
        vec![0x9F, 0x00],                         // keep the timer running on preamble
        vec![0x80, 0x00],                         // standby, RC
        vec![0x8B, 7, 0x04, 0x01, 0x00],          // SF7, 125 kHz, 4/5
        vec![0x8C, 0x00, 0x08, 0x00, 0xFF, 0x01, 0x00],
        vec![0xA0, 0x00],                         // symbol timeout forced to zero
        vec![0x1D, 0x07, 0x36],                   // read IQPolarity
        vec![0x0D, 0x07, 0x36, 0x0C],             // set bit 2: IQ not inverted
    ];
    assert_eq!(config_writes, expected_config);

    let mut iv = MockInterface::new();
    radio.rx(&mut iv, 1000).unwrap();
    let writes = written_frames(&iv);
    assert_eq!(writes[0], vec![0x08, 0x03, 0xFF, 0x03, 0xFF, 0x00, 0x00, 0x00, 0x00]);
    assert_eq!(writes[1], vec![0x82, 0xFF, 0xFF, 0xFF]); // continuous sentinel
    assert_eq!(radio.get_status(), RadioState::RxRunning);

    let mut irq = MockInterface::new();
    irq.set_irq_rounds(1);
    irq.push_response(vec![0, 0, 0]); // device errors
    irq.push_response(vec![0]); // status
    irq.push_response(vec![0, 0x00, 0x02]); // RxDone
    irq.push_response(vec![0, 0x04, 0x00]); // four bytes at offset zero
    irq.push_response(vec![0, 0xDE, 0xAD, 0xBE, 0xEF]); // the payload
    irq.push_response(vec![0, 100, 20, 80]); // packet status
    let mut buffer: Vec<u8> = Vec::new();
    let mut len: u8 = 0;
    let mut cad = false;
    radio.process_irq(&mut irq, &mut buffer, &mut len, &mut cad).unwrap();
    assert_eq!(buffer, vec![0xDE, 0xAD, 0xBE, 0xEF]);
    assert_eq!(len, 4);
    assert_eq!(radio.get_status(), RadioState::RxRunning); // continuous: stays in receive
    assert_eq!(
        radio.get_latest_packet_status(),
        Some(PacketStatus { rssi: -50, snr: 5, signal_rssi: -40 })
    );
}

#[test]
fn crc_error_during_receive_demotes_to_standby() {
    let mut setup = MockInterface::new();
    let mut radio = configured_radio(&mut setup);

    let mut config = MockInterface::new();
    config.push_response(vec![0, 0x08]);
    radio
        .set_rx_config(
            &mut config,
            SpreadingFactor::_7,
            Bandwidth::_125KHz,
            CodingRate::_4_5,
            8,
            5,
            false,
            0,
            true,
            false,
            0,
            false,
            false,
        )
        .unwrap();
    // Single reception: the caller's symbol timeout goes to the chip.
    assert!(written_frames(&config).contains(&vec![0xA0, 0x05]));

    let mut iv = MockInterface::new();
    radio.rx(&mut iv, 1000).unwrap();
    assert_eq!(written_frames(&iv)[1], vec![0x82, 0x00, 0xFA, 0x00]);

    let mut irq = MockInterface::new();
    irq.set_irq_rounds(1);
    irq.push_response(vec![0, 0, 0]);
    irq.push_response(vec![0]);
    irq.push_response(vec![0, 0x00, 0x40]); // CRC error
    let mut buffer: Vec<u8> = Vec::new();
    let mut len: u8 = 0;
    let mut cad = false;
    let r = radio.process_irq(&mut irq, &mut buffer, &mut len, &mut cad);
    assert_eq!(r, Err(RadioError::CRCErrorOnReceive));
    assert_eq!(radio.get_status(), RadioState::Idle); // demoted to standby
}

#[test]
fn irq_clears_what_it_read() {
    let mut setup = MockInterface::new();
    let mut radio = configured_radio(&mut setup);
    let mut config = MockInterface::new();
    config.push_response(vec![0, 0x00]);
    radio
        .set_tx_config(
            &mut config,
            0,
            SpreadingFactor::_7,
            Bandwidth::_125KHz,
            CodingRate::_4_5,
            8,
            false,
            true,
            false,
            0,
            false,
        )
        .unwrap();
    let mut iv = MockInterface::new();
    radio.send(&mut iv, &[0x01], 10).unwrap();

    let mut irq = MockInterface::new();
    irq.set_irq_rounds(1);
    irq.push_response(vec![0, 0, 0]);
    irq.push_response(vec![0]);
    irq.push_response(vec![0, 0x00, 0x01]);
    let mut buffer: Vec<u8> = Vec::new();
    let mut len: u8 = 0;
    let mut cad = false;
    radio.process_irq(&mut irq, &mut buffer, &mut len, &mut cad).unwrap();
    assert!(written_frames(&irq).contains(&vec![0x02, 0x00, 0x01]));
}

#[test]
fn send_without_packet_params_is_rejected() {
    let mut setup = MockInterface::new();
    let mut radio = configured_radio(&mut setup);
    let mut iv = MockInterface::new();
    assert_eq!(radio.send(&mut iv, &[0x01], 10), Err(RadioError::PacketParamsMissing));
    assert_eq!(iv.event_count(), 0);
}

#[test]
fn rx_without_params_is_rejected() {
    let mut setup = MockInterface::new();
    let mut radio = configured_radio(&mut setup);
    let mut iv = MockInterface::new();
    assert_eq!(radio.rx(&mut iv, 1000), Err(RadioError::PacketParamsMissing));
    assert_eq!(radio.set_rx_boosted(&mut iv, 1000), Err(RadioError::PacketParamsMissing));
    assert_eq!(iv.event_count(), 0);
}

#[test]
fn start_cad_without_params_is_rejected() {
    let mut setup = MockInterface::new();
    let mut radio = configured_radio(&mut setup);
    let mut iv = MockInterface::new();
    assert_eq!(radio.start_cad(&mut iv), Err(RadioError::PacketParamsMissing));
    assert_eq!(iv.event_count(), 0);
}

#[test]
fn max_payload_length_without_packet_params_is_rejected() {
    let mut setup = MockInterface::new();
    let mut radio = configured_radio(&mut setup);
    let mut iv = MockInterface::new();
    assert_eq!(radio.set_max_payload_length(&mut iv, 64), Err(RadioError::PacketParamsMissing));
}

#[test]
fn sleep_frames_a_warm_start_and_waits() {
    let mut setup = MockInterface::new();
    let mut radio = configured_radio(&mut setup);
    let mut iv = MockInterface::new();
    radio.sleep(&mut iv).unwrap();
    assert_eq!(written_frames(&iv), vec![vec![0x84, 0x04]]);
    let last = iv.event_at(iv.event_count() - 1);
    assert_eq!(last, Some(RecordedEvent::DelayMs(2)));
    assert_eq!(radio.operating_mode, lora::mod_params::RadioMode::Sleep);
}

#[test]
fn standby_frames_the_rc_mode() {
    let mut setup = MockInterface::new();
    let mut radio = configured_radio(&mut setup);
    let mut iv = MockInterface::new();
    radio.standby(&mut iv).unwrap();
    assert_eq!(written_frames(&iv), vec![vec![0x80, 0x00]]);
    assert_eq!(radio.get_status(), RadioState::Idle);
}

#[test]
fn start_cad_arms_only_cad_flags() {
    let mut setup = MockInterface::new();
    let mut radio = configured_radio(&mut setup);
    let mut config = MockInterface::new();
    config.push_response(vec![0, 0x08]);
    radio
        .set_rx_config(
            &mut config,
            SpreadingFactor::_7,
            Bandwidth::_125KHz,
            CodingRate::_4_5,
            8,
            5,
            false,
            0,
            true,
            false,
            0,
            false,
            false,
        )
        .unwrap();
    let mut iv = MockInterface::new();
    radio.start_cad(&mut iv).unwrap();
    let writes = written_frames(&iv);
    // CADDone | CADActivityDetected = 0x0180.
    assert_eq!(writes[0], vec![0x08, 0x01, 0x80, 0x01, 0x80, 0x00, 0x00, 0x00, 0x00]);
    assert_eq!(writes[1], vec![0xC5]);
    assert_eq!(radio.get_status(), RadioState::ChannelActivityDetecting);

    let mut irq = MockInterface::new();
    irq.set_irq_rounds(1);
    irq.push_response(vec![0, 0, 0]);
    irq.push_response(vec![0]);
    irq.push_response(vec![0, 0x01, 0x80]); // CADDone with activity
    let mut buffer: Vec<u8> = Vec::new();
    let mut len: u8 = 0;
    let mut cad = false;
    radio.process_irq(&mut irq, &mut buffer, &mut len, &mut cad).unwrap();
    assert!(cad);
    assert_eq!(radio.get_status(), RadioState::Idle);
}

#[test]
fn set_channel_calibrates_once_per_band() {
    let mut setup = MockInterface::new();
    let mut radio = configured_radio(&mut setup);
    let mut iv = MockInterface::new();
    radio.set_channel(&mut iv, 868_000_000).unwrap();
    let writes = written_frames(&iv);
    assert_eq!(writes[0], vec![0x98, 0xD7, 0xDB]); // 863–870 MHz image band
    assert_eq!(writes[1], vec![0x86, 0x36, 0x40, 0x00, 0x00]); // 868 MHz in PLL steps

    let mut again = MockInterface::new();
    radio.set_channel(&mut again, 868_000_000).unwrap();
    assert_eq!(written_frames(&again), vec![vec![0x86, 0x36, 0x40, 0x00, 0x00]]);
}

#[test]
fn set_channel_outside_every_band_is_rejected() {
    let mut setup = MockInterface::new();
    let mut radio = configured_radio(&mut setup);
    let mut iv = MockInterface::new();
    assert_eq!(radio.set_channel(&mut iv, 100_000_000), Err(RadioError::InvalidFrequency));
    assert_eq!(iv.event_count(), 0);
}

#[test]
fn rssi_returns_the_raw_byte() {
    let mut setup = MockInterface::new();
    let mut radio = configured_radio(&mut setup);
    let mut iv = MockInterface::new();
    iv.push_response(vec![0, 200]);
    assert_eq!(radio.get_rssi(&mut iv), Ok(200));
}

#[test]
fn random_value_masks_irqs_and_reads_four_bytes() {
    let mut setup = MockInterface::new();
    let mut radio = configured_radio(&mut setup);
    let mut iv = MockInterface::new();
    iv.push_response(vec![0, 0x12, 0x34, 0x56, 0x78]);
    assert_eq!(radio.get_random_value(&mut iv), Ok(0x12345678));
    let writes = written_frames(&iv);
    assert_eq!(writes[0], vec![0x08, 0x00, 0x00, 0x00, 0x00, 0x00, 0x00, 0x00, 0x00]);
    assert_eq!(writes[1], vec![0x1D, 0x08, 0x19]); // RandomNumberGen register
}

#[test]
fn rx_boosted_writes_the_gain_register() {
    let mut setup = MockInterface::new();
    let mut radio = configured_radio(&mut setup);
    let mut config = MockInterface::new();
    config.push_response(vec![0, 0x08]);
    radio
        .set_rx_config(
            &mut config,
            SpreadingFactor::_7,
            Bandwidth::_125KHz,
            CodingRate::_4_5,
            8,
            5,
            false,
            0,
            true,
            false,
            0,
            false,
            false,
        )
        .unwrap();
    let mut iv = MockInterface::new();
    radio.set_rx_boosted(&mut iv, 500).unwrap();
    let writes = written_frames(&iv);
    assert_eq!(writes[1], vec![0x0D, 0x08, 0xAC, 0x96]);
    assert_eq!(writes[2], vec![0x82, 0x00, 0x7D, 0x00]); // 500 ms << 6
    assert_eq!(radio.get_status(), RadioState::RxRunning);
}

#[test]
fn rx_duty_cycle_frames_both_windows() {
    let mut setup = MockInterface::new();
    let mut radio = configured_radio(&mut setup);
    let mut iv = MockInterface::new();
    radio.set_rx_duty_cycle(&mut iv, 0x010203, 0x040506).unwrap();
    assert_eq!(
        written_frames(&iv),
        vec![vec![0x94, 0x01, 0x02, 0x03, 0x04, 0x05, 0x06]]
    );
    assert_eq!(radio.operating_mode, lora::mod_params::RadioMode::ReceiveDutyCycle);
}

#[test]
fn tx_continuous_wave_frames_frequency_power_and_wave() {
    let mut setup = MockInterface::new();
    let mut radio = configured_radio(&mut setup);
    radio.set_channel(&mut MockInterface::new(), 868_000_000).unwrap();
    let mut iv = MockInterface::new();
    radio.set_tx_continuous_wave(&mut iv, 868_000_000, 10, 0).unwrap();
    let writes = written_frames(&iv);
    assert_eq!(writes[0], vec![0x86, 0x36, 0x40, 0x00, 0x00]);
    assert_eq!(writes[1], vec![0x8E, 0x0A, 0x04]);
    assert_eq!(writes[2], vec![0xD1]);
    assert_eq!(radio.get_status(), RadioState::TxRunning);
}

#[test]
fn register_buffer_round_trip() {
    let mut setup = MockInterface::new();
    let mut radio = configured_radio(&mut setup);
    let mut iv = MockInterface::new();
    radio
        .write_registers_from_buffer(&mut iv, lora::mod_params::Register::RxGain, &[0x96, 0x01])
        .unwrap();
    assert_eq!(written_frames(&iv), vec![vec![0x0D, 0x08, 0xAC, 0x96, 0x01]]);

    let mut read_iv = MockInterface::new();
    read_iv.push_response(vec![0, 0xAB, 0xCD]);
    let mut buffer: Vec<u8> = vec![0, 0];
    radio
        .read_registers_into_buffer(&mut read_iv, lora::mod_params::Register::RxGain, &mut buffer)
        .unwrap();
    assert_eq!(buffer, vec![0xAB, 0xCD]);
}

#[test]
fn busy_failure_surfaces_as_busy() {
    let mut setup = MockInterface::new();
    let mut radio = configured_radio(&mut setup);
    let mut iv = MockInterface::new();
    iv.fail_busy = true;
    assert_eq!(radio.standby(&mut iv), Err(RadioError::Busy));
}

#[test]
fn spi_failure_surfaces_as_spi() {
    let mut setup = MockInterface::new();
    let mut radio = configured_radio(&mut setup);
    let mut iv = MockInterface::new();
    iv.fail_spi = true;
    assert_eq!(radio.standby(&mut iv), Err(RadioError::SPI));
}

#[test]
fn delay_failure_surfaces_as_delay_error() {
    let mut setup = MockInterface::new();
    let mut radio = configured_radio(&mut setup);
    let mut iv = MockInterface::new();
    iv.fail_delay = true;
    assert_eq!(radio.sleep(&mut iv), Err(RadioError::DelayError));
}

#[test]
fn exhausted_interrupt_line_surfaces_as_irq() {
    let mut setup = MockInterface::new();
    let mut radio = configured_radio(&mut setup);
    let mut irq = MockInterface::new();
    irq.push_response(vec![0, 0, 0]);
    irq.push_response(vec![0]);
    let mut buffer: Vec<u8> = Vec::new();
    let mut len: u8 = 0;
    let mut cad = false;
    assert_eq!(
        radio.process_irq(&mut irq, &mut buffer, &mut len, &mut cad),
        Err(RadioError::Irq)
    );
}

#[test]
fn unexpected_completions_are_classified() {
    // A transmit-done flag while the radio believes it is receiving is a
    // desynchronisation, not a completion.
    let mut setup = MockInterface::new();
    let mut radio = configured_radio(&mut setup);
    let mut config = MockInterface::new();
    config.push_response(vec![0, 0x08]);
    radio
        .set_rx_config(
            &mut config,
            SpreadingFactor::_7,
            Bandwidth::_125KHz,
            CodingRate::_4_5,
            8,
            5,
            false,
            0,
            true,
            false,
            0,
            false,
            false,
        )
        .unwrap();
    radio.rx(&mut MockInterface::new(), 1000).unwrap();

    let mut irq = MockInterface::new();
    irq.set_irq_rounds(1);
    irq.push_response(vec![0, 0, 0]);
    irq.push_response(vec![0]);
    irq.push_response(vec![0, 0x00, 0x01]); // TxDone while receiving
    let mut buffer: Vec<u8> = Vec::new();
    let mut len: u8 = 0;
    let mut cad = false;
    assert_eq!(
        radio.process_irq(&mut irq, &mut buffer, &mut len, &mut cad),
        Err(RadioError::TransmitDoneUnexpected)
    );
    assert_eq!(radio.get_status(), RadioState::RxRunning); // mode untouched
}

#[test]
fn informational_events_keep_waiting() {
    let mut setup = MockInterface::new();
    let mut radio = configured_radio(&mut setup);
    let mut config = MockInterface::new();
    config.push_response(vec![0, 0x08]);
    radio
        .set_rx_config(
            &mut config,
            SpreadingFactor::_7,
            Bandwidth::_125KHz,
            CodingRate::_4_5,
            8,
            5,
            false,
            0,
            true,
            false,
            0,
            false,
            false,
        )
        .unwrap();
    radio.rx(&mut MockInterface::new(), 1000).unwrap();

    let mut irq = MockInterface::new();
    irq.set_irq_rounds(2);
    // First wake-up: preamble detected only; second: the packet.
    irq.push_response(vec![0, 0, 0]);
    irq.push_response(vec![0]);
    irq.push_response(vec![0, 0x00, 0x04]); // PreambleDetected
    irq.push_response(vec![0, 0, 0]);
    irq.push_response(vec![0]);
    irq.push_response(vec![0, 0x00, 0x02]); // RxDone
    irq.push_response(vec![0, 0x00]); // EvtClr register reads zero
    irq.push_response(vec![0, 0x02, 0x00]); // two bytes at offset zero
    irq.push_response(vec![0, 0x11, 0x22]);
    irq.push_response(vec![0, 60, 4, 50]);
    let mut buffer: Vec<u8> = Vec::new();
    let mut len: u8 = 0;
    let mut cad = false;
    radio.process_irq(&mut irq, &mut buffer, &mut len, &mut cad).unwrap();
    assert_eq!(buffer, vec![0x11, 0x22]);
    assert_eq!(len, 2);
    assert_eq!(radio.get_status(), RadioState::Idle); // single reception demotes
    assert_eq!(
        radio.get_latest_packet_status(),
        Some(PacketStatus { rssi: -30, snr: 1, signal_rssi: -25 })
    );
    // The single-reception path stops the receive timer's RTC and clears
    // its event before the payload is read.
    let writes = written_frames(&irq);
    assert!(writes.contains(&vec![0x0D, 0x09, 0x02, 0x00]));
}

fn rx_radio_with_flags(flags_hi: u8, flags_lo: u8, continuous: bool) -> (LoRa, Result<(), RadioError>) {
    let mut setup = MockInterface::new();
    let mut radio = configured_radio(&mut setup);
    let mut config = MockInterface::new();
    config.push_response(vec![0, 0x08]);
    radio
        .set_rx_config(
            &mut config,
            SpreadingFactor::_7,
            Bandwidth::_125KHz,
            CodingRate::_4_5,
            8,
            5,
            false,
            0,
            true,
            false,
            0,
            false,
            continuous,
        )
        .unwrap();
    radio.rx(&mut MockInterface::new(), 1000).unwrap();

    let mut irq = MockInterface::new();
    irq.set_irq_rounds(1);
    irq.push_response(vec![0, 0, 0]);
    irq.push_response(vec![0]);
    irq.push_response(vec![0, flags_hi, flags_lo]);
    let mut buffer: Vec<u8> = Vec::new();
    let mut len: u8 = 0;
    let mut cad = false;
    let r = radio.process_irq(&mut irq, &mut buffer, &mut len, &mut cad);
    (radio, r)
}

#[test]
fn header_error_demotes_unless_continuous() {
    let (radio, r) = rx_radio_with_flags(0x00, 0x20, false);
    assert_eq!(r, Err(RadioError::HeaderError));
    assert_eq!(radio.operating_mode, lora::mod_params::RadioMode::StandbyRC);

    let (radio, r) = rx_radio_with_flags(0x00, 0x20, true);
    assert_eq!(r, Err(RadioError::HeaderError));
    assert_eq!(radio.operating_mode, lora::mod_params::RadioMode::Receive);
}

#[test]
fn receive_timeout_demotes() {
    let (radio, r) = rx_radio_with_flags(0x02, 0x00, false);
    assert_eq!(r, Err(RadioError::ReceiveTimeout));
    assert_eq!(radio.operating_mode, lora::mod_params::RadioMode::StandbyRC);
}

#[test]
fn transmit_timeout_demotes() {
    let mut setup = MockInterface::new();
    let mut radio = configured_radio(&mut setup);
    let mut config = MockInterface::new();
    config.push_response(vec![0, 0x00]);
    radio
        .set_tx_config(
            &mut config,
            0,
            SpreadingFactor::_7,
            Bandwidth::_125KHz,
            CodingRate::_4_5,
            8,
            false,
            true,
            false,
            0,
            false,
        )
        .unwrap();
    radio.send(&mut MockInterface::new(), &[0x01], 10).unwrap();

    let mut irq = MockInterface::new();
    irq.set_irq_rounds(1);
    irq.push_response(vec![0, 0, 0]);
    irq.push_response(vec![0]);
    irq.push_response(vec![0, 0x02, 0x00]); // RxTxTimeout while transmitting
    let mut buffer: Vec<u8> = Vec::new();
    let mut len: u8 = 0;
    let mut cad = false;
    assert_eq!(
        radio.process_irq(&mut irq, &mut buffer, &mut len, &mut cad),
        Err(RadioError::TransmitTimeout)
    );
    assert_eq!(radio.operating_mode, lora::mod_params::RadioMode::StandbyRC);
}

#[test]
fn crc_error_outside_receive_is_a_desynchronisation() {
    let mut setup = MockInterface::new();
    let mut radio = configured_radio(&mut setup);
    let mut irq = MockInterface::new();
    irq.set_irq_rounds(1);
    irq.push_response(vec![0, 0, 0]);
    irq.push_response(vec![0]);
    irq.push_response(vec![0, 0x00, 0x40]); // CRC error while in standby
    let mut buffer: Vec<u8> = Vec::new();
    let mut len: u8 = 0;
    let mut cad = false;
    assert_eq!(
        radio.process_irq(&mut irq, &mut buffer, &mut len, &mut cad),
        Err(RadioError::CRCErrorUnexpected)
    );
}

#[test]
fn timeout_outside_transmit_and_receive_is_a_desynchronisation() {
    let mut setup = MockInterface::new();
    let mut radio = configured_radio(&mut setup);
    let mut irq = MockInterface::new();
    irq.set_irq_rounds(1);
    irq.push_response(vec![0, 0, 0]);
    irq.push_response(vec![0]);
    irq.push_response(vec![0, 0x02, 0x00]); // RxTxTimeout while in standby
    let mut buffer: Vec<u8> = Vec::new();
    let mut len: u8 = 0;
    let mut cad = false;
    assert_eq!(
        radio.process_irq(&mut irq, &mut buffer, &mut len, &mut cad),
        Err(RadioError::TimeoutUnexpected)
    );
}

#[test]
fn receive_done_outside_receive_is_a_desynchronisation() {
    let mut setup = MockInterface::new();
    let mut radio = configured_radio(&mut setup);
    let mut irq = MockInterface::new();
    irq.set_irq_rounds(1);
    irq.push_response(vec![0, 0, 0]);
    irq.push_response(vec![0]);
    irq.push_response(vec![0, 0x00, 0x02]); // RxDone while in standby
    let mut buffer: Vec<u8> = Vec::new();
    let mut len: u8 = 0;
    let mut cad = false;
    assert_eq!(
        radio.process_irq(&mut irq, &mut buffer, &mut len, &mut cad),
        Err(RadioError::ReceiveDoneUnexpected)
    );
}

#[test]
fn cad_flags_outside_cad_are_a_desynchronisation() {
    let mut setup = MockInterface::new();
    let mut radio = configured_radio(&mut setup);
    let mut irq = MockInterface::new();
    irq.set_irq_rounds(1);
    irq.push_response(vec![0, 0, 0]);
    irq.push_response(vec![0]);
    irq.push_response(vec![0, 0x00, 0x80]); // CADDone while in standby
    let mut buffer: Vec<u8> = Vec::new();
    let mut len: u8 = 0;
    let mut cad = false;
    assert_eq!(
        radio.process_irq(&mut irq, &mut buffer, &mut len, &mut cad),
        Err(RadioError::CADUnexpected)
    );
}

#[test]
fn max_payload_length_rewrites_the_packet_frame() {
    let mut setup = MockInterface::new();
    let mut radio = configured_radio(&mut setup);
    let mut config = MockInterface::new();
    config.push_response(vec![0, 0x00]);
    radio
        .set_tx_config(
            &mut config,
            0,
            SpreadingFactor::_7,
            Bandwidth::_125KHz,
            CodingRate::_4_5,
            8,
            false,
            true,
            false,
            0,
            false,
        )
        .unwrap();
    let mut iv = MockInterface::new();
    radio.set_max_payload_length(&mut iv, 64).unwrap();
    assert_eq!(
        written_frames(&iv),
        vec![vec![0x8C, 0x00, 0x08, 0x00, 0x40, 0x01, 0x00]]
    );
    assert_eq!(radio.max_payload_length, 64);
}

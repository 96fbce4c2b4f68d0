use lora::multicast::DownlinkMulticastMsg;
use lora::multicast::DownlinkMulticastMsgIterator;
use lora::multicast::Error;
use lora::multicast::McGroupStatusAnsPayload;
use lora::multicast::UplinkMulticastMsg;
use lora::multicast::UplinkMulticastMsgIterator;

#[test]
fn downlink_stream_decodes_in_order() {
    let mut data: Vec<u8> = vec![0x00]; // package-version request, empty
    data.push(0x01); // group-status request
    data.push(0xAA);
    data.push(0x03); // group-delete request
    data.push(0x02);
    let mut it = DownlinkMulticastMsgIterator::new(&data);

    match it.next() {
        Some(Ok(DownlinkMulticastMsg::PackageVersionReq(_))) => {},
        _ => panic!("expected a package-version request"),
    }
    match it.next() {
        Some(Ok(DownlinkMulticastMsg::McGroupStatusReq(p))) => assert_eq!(p.bytes(), &[0xAA]),
        _ => panic!("expected a group-status request"),
    }
    match it.next() {
        Some(Ok(DownlinkMulticastMsg::McGroupDeleteReq(p))) => assert_eq!(p.bytes(), &[0x02]),
        _ => panic!("expected a group-delete request"),
    }
    assert!(it.next().is_none());
}

#[test]
fn downlink_group_setup_takes_twenty_four_bytes() {
    let mut data: Vec<u8> = vec![0x02];
    for i in 0..24u8 {
        data.push(i);
    }
    let mut it = DownlinkMulticastMsgIterator::new(&data);
    match it.next() {
        Some(Ok(DownlinkMulticastMsg::McGroupSetupReq(p))) => {
            assert_eq!(p.bytes().len(), 24);
            assert_eq!(p.bytes()[23], 23);
        },
        _ => panic!("expected a group-setup request"),
    }
    assert!(it.next().is_none());
}

#[test]
fn downlink_unknown_command_is_reported_and_skipped() {
    let data: Vec<u8> = vec![0x07, 0x00];
    let mut it = DownlinkMulticastMsgIterator::new(&data);
    match it.next() {
        Some(Err(Error::UnknownCommand)) => {},
        _ => panic!("expected an unknown command"),
    }
    // The identifier byte alone was consumed; the next byte decodes.
    match it.next() {
        Some(Ok(DownlinkMulticastMsg::PackageVersionReq(_))) => {},
        _ => panic!("expected a package-version request"),
    }
}

#[test]
fn downlink_truncated_payload_is_reported() {
    let data: Vec<u8> = vec![0x04, 0x01, 0x02]; // class-C session needs 10 bytes
    let mut it = DownlinkMulticastMsgIterator::new(&data);
    match it.next() {
        Some(Err(Error::BufferTooShort)) => {},
        _ => panic!("expected a truncation error"),
    }
    assert!(it.next().is_none());
}

#[test]
fn uplink_stream_decodes_fixed_sizes() {
    let data: Vec<u8> = vec![0x00, 0x01, 0x02, 0x02, 0x05, 0x04, 0x0A, 0x0B, 0x0C, 0x0D];
    let mut it = UplinkMulticastMsgIterator::new(&data);
    match it.next() {
        Some(Ok(UplinkMulticastMsg::PackageVersionAns(p))) => {
            assert_eq!(p.bytes(), &[0x01, 0x02])
        },
        _ => panic!("expected a package-version answer"),
    }
    match it.next() {
        Some(Ok(UplinkMulticastMsg::McGroupSetupAns(p))) => assert_eq!(p.bytes(), &[0x05]),
        _ => panic!("expected a group-setup answer"),
    }
    match it.next() {
        Some(Ok(UplinkMulticastMsg::McClassCSessionAns(p))) => {
            assert_eq!(p.bytes(), &[0x0A, 0x0B, 0x0C, 0x0D])
        },
        _ => panic!("expected a class-C session answer"),
    }
    assert!(it.next().is_none());
}

#[test]
fn uplink_group_status_answer_is_variable_length() {
    // Status 0x21: two groups reported, five bytes each.
    let data: Vec<u8> = vec![
        0x01, 0x21, 1, 2, 3, 4, 5, 6, 7, 8, 9, 10, 0x03, 0x00,
    ];
    let mut it = UplinkMulticastMsgIterator::new(&data);
    match it.next() {
        Some(Ok(UplinkMulticastMsg::McGroupStatusAns(p))) => {
            assert_eq!(p.len(), 11);
            assert_eq!(p.bytes()[0], 0x21);
            assert_eq!(p.bytes()[10], 10);
        },
        _ => panic!("expected a group-status answer"),
    }
    match it.next() {
        Some(Ok(UplinkMulticastMsg::McGroupDeleteAns(p))) => assert_eq!(p.bytes(), &[0x00]),
        _ => panic!("expected a group-delete answer"),
    }
    assert!(it.next().is_none());
}

#[test]
fn uplink_group_status_missing_status_byte_is_truncation() {
    let data: Vec<u8> = vec![0x01];
    let mut it = UplinkMulticastMsgIterator::new(&data);
    match it.next() {
        Some(Err(Error::BufferTooShort)) => {},
        _ => panic!("expected a truncation error"),
    }
    assert!(it.next().is_none());
}

#[test]
fn uplink_unknown_command_is_reported() {
    let data: Vec<u8> = vec![0x3F];
    let mut it = UplinkMulticastMsgIterator::new(&data);
    match it.next() {
        Some(Err(Error::UnknownCommand)) => {},
        _ => panic!("expected an unknown command"),
    }
    assert!(it.next().is_none());
}

#[test]
fn group_status_answer_required_len_counts_groups() {
    assert_eq!(McGroupStatusAnsPayload::required_len(0x00), 1);
    assert_eq!(McGroupStatusAnsPayload::required_len(0x21), 11);
    assert_eq!(McGroupStatusAnsPayload::required_len(0x71), 36);
    // Only the three group-count bits matter.
    assert_eq!(McGroupStatusAnsPayload::required_len(0x8F), 1);
}

#[test]
fn group_status_answer_new_checks_the_announced_length() {
    let data: Vec<u8> = vec![0x11, 1, 2, 3, 4, 5, 99];
    let p = McGroupStatusAnsPayload::new(&data).unwrap();
    assert_eq!(p.len(), 6); // one group: the trailing byte is not taken
    assert_eq!(p.bytes(), &[0x11, 1, 2, 3, 4, 5]);

    let short: Vec<u8> = vec![0x11, 1, 2];
    assert!(matches!(McGroupStatusAnsPayload::new(&short), Err(Error::BufferTooShort)));
    let empty: Vec<u8> = vec![];
    assert!(matches!(McGroupStatusAnsPayload::new(&empty), Err(Error::BufferTooShort)));
}

#[test]
fn group_status_answer_identity() {
    assert_eq!(McGroupStatusAnsPayload::cid(), 0x01);
    assert!(McGroupStatusAnsPayload::uplink());
    let data: Vec<u8> = vec![0x00];
    let p = McGroupStatusAnsPayload::new_from_raw(&data);
    assert_eq!(p.bytes(), &[0x00]);
}

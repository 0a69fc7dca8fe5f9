use tpmiddle::blocker::{mouse_identifier, tick_distance, wheel_blocker_identifier};
use tpmiddle::devices::{merge_registrations, RIDEV_DEVNOTIFY, RIDEV_INPUTSINK};
use tpmiddle::connection::{
    on_device_arrival, on_device_removal, ArrivalAction, ConnectionState, RemovalAction,
};
use tpmiddle::hid::{
    bt_fn_lock_report, bt_native_middle_button_report, bt_sensitivity_report, contains_device,
    device_infos_notify, device_infos_sink, usb_fn_lock_report, usb_native_middle_button_report,
    usb_sensitivity_report, DeviceInfo, Transport, TransportParseError, PID_BT, PID_USB,
    VID_LENOVO,
};
use tpmiddle::input::{parse_packet, parse_report, Event, EventReader};

#[test]
fn transport_of_product_ids() {
    let usb = DeviceInfo { vendor_id: VID_LENOVO, product_id: PID_USB, usage_page: 1, usage: 2 };
    let bt = DeviceInfo { vendor_id: VID_LENOVO, product_id: PID_BT, usage_page: 1, usage: 2 };
    let other = DeviceInfo { vendor_id: 0x1234, product_id: 0x5678, usage_page: 1, usage: 2 };
    assert_eq!(usb.transport(), Some(Transport::USB));
    assert_eq!(bt.transport(), Some(Transport::BT));
    assert_eq!(other.transport(), None);
}

#[test]
fn transport_parsing() {
    assert_eq!(Transport::from_str("USB"), Ok(Transport::USB));
    assert_eq!(Transport::from_str("usb"), Ok(Transport::USB));
    assert_eq!(Transport::from_str("BT"), Ok(Transport::BT));
    assert_eq!(Transport::from_str("bt"), Ok(Transport::BT));
    assert_eq!(Transport::from_str("bluetooth"), Ok(Transport::BT));
    match Transport::from_str("serial") {
        Err(TransportParseError::InvalidConnectionMethod(m)) => assert_eq!(m, "serial"),
        other => panic!("unexpected: {:?}", other),
    }
    assert_eq!(Transport::USB.name(), "USB");
    assert_eq!(Transport::BT.name(), "Bluetooth");
}

#[test]
fn device_lists_hold_expected_interfaces() {
    let usb = Transport::USB.device_info();
    assert_eq!(usb.len(), 2);
    assert_eq!(usb[0].usage_page, 0xFFA0);
    assert_eq!(usb[1].usage_page, 0xFF10);
    for di in &usb {
        assert_eq!(di.vendor_id, VID_LENOVO);
        assert_eq!(di.product_id, PID_USB);
    }

    let bt = Transport::BT.device_info();
    assert_eq!(bt.len(), 2);
    assert_eq!(bt[0].usage_page, 0xFF00);
    assert_eq!(bt[1].usage_page, 0xFF10);

    assert_eq!(device_infos_notify().len(), 3);
    assert_eq!(device_infos_sink().len(), 5);
    let notify = device_infos_notify();
    assert!(contains_device(&notify, &bt[0]));
    assert!(!contains_device(&notify, &usb[1]));
}

#[test]
fn feature_report_payloads() {
    assert_eq!(usb_sensitivity_report(5), vec![0x13, 0x02, 5, 0, 0, 0, 0, 0]);
    assert_eq!(usb_fn_lock_report(true), vec![0x13, 0x05, 1, 0, 0, 0, 0, 0]);
    assert_eq!(usb_fn_lock_report(false), vec![0x13, 0x05, 0, 0, 0, 0, 0, 0]);
    assert_eq!(
        usb_native_middle_button_report(false),
        vec![0x13, 0x09, 1, 0, 0, 0, 0, 0]
    );
    assert_eq!(bt_sensitivity_report(9), vec![0x18, 0x02, 9]);
    assert_eq!(bt_fn_lock_report(true), vec![0x18, 0x05, 1]);
    assert_eq!(bt_native_middle_button_report(false), vec![0x18, 0x09, 1]);
}

#[test]
fn packet_decoding() {
    assert_eq!(parse_packet(0x15, 0x00, 0x04), Some(Event::ButtonDown));
    assert_eq!(parse_packet(0x15, 0x00, 0x00), Some(Event::ButtonUp));
    assert_eq!(parse_packet(0x22, 0x00, 0x01), Some(Event::Vertical(1)));
    assert_eq!(parse_packet(0x22, 0xFF, 0x00), Some(Event::Horizontal(-1)));
    assert_eq!(parse_packet(0x16, 0x00, 0xFD), Some(Event::Vertical(-3)));
    assert_eq!(parse_packet(0x22, 0x00, 0x00), None, "diagonal-free zero packet");
    assert_eq!(parse_packet(0x99, 0x01, 0x01), None, "unknown packet id");
}

#[test]
fn report_decoding_walks_packets_in_order() {
    let buffer: Vec<u8> = vec![
        0x15, 0x00, 0x04, // button down
        0x22, 0x00, 0x02, // vertical 2
        0x99, 0x00, 0x00, // unknown, dropped
        0x15, 0x00, 0x00, // button up
    ];
    let events = parse_report(&buffer, 3);
    assert_eq!(
        events,
        vec![
            Event::ButtonDown,
            Event::Vertical(2),
            Event::ButtonUp,
        ]
    );

    // A trailing partial packet is ignored.
    let ragged: Vec<u8> = vec![0x22, 0x01, 0x00, 0x15, 0x00];
    assert_eq!(parse_report(&ragged, 3), vec![Event::Horizontal(1)]);
}

#[test]
fn event_reader_filters_by_device() {
    let watched = Transport::BT.device_info();
    let reader = EventReader::new(watched);
    let ours = Transport::BT.device_info()[0];
    let theirs = DeviceInfo { vendor_id: 1, product_id: 2, usage_page: 3, usage: 4 };
    let buffer: Vec<u8> = vec![0x22, 0x00, 0x05];
    assert_eq!(reader.read_report(&ours, &buffer, 3), vec![Event::Vertical(5)]);
    assert_eq!(reader.read_report(&theirs, &buffer, 3), vec![]);
    assert!(reader.accepts_device(&ours));
    assert!(!reader.accepts_device(&theirs));
}

#[test]
fn tick_distance_handles_wraparound() {
    // Plain distances.
    assert_eq!(tick_distance(100, 105), 5);
    assert_eq!(tick_distance(105, 100), -5);
    assert_eq!(tick_distance(100, 100), 0);
    // The counter wrapped between message and event.
    assert_eq!(tick_distance(u32::MAX - 2, 3), 5);
    // The counter wrapped between event and message.
    assert_eq!(tick_distance(3, u32::MAX - 2), -5);
}

#[test]
fn connection_decisions() {
    let usb = DeviceInfo { vendor_id: VID_LENOVO, product_id: PID_USB, usage_page: 1, usage: 2 };
    let bt = DeviceInfo { vendor_id: VID_LENOVO, product_id: PID_BT, usage_page: 1, usage: 2 };

    assert_eq!(
        on_device_arrival(&ConnectionState::Disconnected, &bt, true),
        ArrivalAction::ConnectBtThenUsb
    );
    assert_eq!(
        on_device_arrival(&ConnectionState::Disconnected, &bt, false),
        ArrivalAction::Ignore
    );
    assert_eq!(on_device_arrival(&ConnectionState::USB, &bt, true), ArrivalAction::ConnectBt);
    assert_eq!(on_device_arrival(&ConnectionState::USB, &usb, true), ArrivalAction::Ignore);
    assert_eq!(on_device_arrival(&ConnectionState::BT, &bt, true), ArrivalAction::Ignore);

    assert_eq!(
        on_device_removal(&ConnectionState::BT, Some(Transport::BT)),
        RemovalAction::ReconnectOverUsb
    );
    assert_eq!(
        on_device_removal(&ConnectionState::USB, Some(Transport::USB)),
        RemovalAction::ReconnectOverBt
    );
    assert_eq!(on_device_removal(&ConnectionState::USB, Some(Transport::BT)), RemovalAction::Ignore);
    assert_eq!(on_device_removal(&ConnectionState::BT, None), RemovalAction::Ignore);
    assert_eq!(
        on_device_removal(&ConnectionState::Disconnected, Some(Transport::BT)),
        RemovalAction::Ignore
    );
}

#[test]
fn identifiers_format_vendor_and_product() {
    let id = wheel_blocker_identifier(0x17EF, 0x60E1);
    assert_eq!(String::from_utf8(id).unwrap(), "VID&0217ef_PID&60e1");
    let id = mouse_identifier(0x17EF, 0x60E1);
    assert_eq!(String::from_utf8(id).unwrap(), "VID_17EF&PID_60E1");
    let id = wheel_blocker_identifier(0x00A0, 0xFFFF);
    assert_eq!(String::from_utf8(id).unwrap(), "VID&0200a0_PID&ffff");
}

#[test]
fn registrations_merge_by_usage_pair() {
    let notify = device_infos_notify();
    let sink = device_infos_sink();
    let regs = merge_registrations(&notify, &sink);

    // The sink list's five interfaces share a usage pair (both transports'
    // non-native wheel), and subsume the notify pairs: four registrations.
    assert_eq!(regs.len(), 4);
    for reg in &regs {
        let in_notify = notify
            .iter()
            .any(|d| d.usage_page == reg.usage_page && d.usage == reg.usage);
        let in_sink = sink
            .iter()
            .any(|d| d.usage_page == reg.usage_page && d.usage == reg.usage);
        assert_eq!(reg.notify, in_notify);
        assert_eq!(reg.sink, in_sink);
        let want = if in_notify { RIDEV_DEVNOTIFY } else { 0 } | if in_sink { RIDEV_INPUTSINK } else { 0 };
        assert_eq!(reg.flags(), want);
    }
    // Every pair appears exactly once.
    for (a, ra) in regs.iter().enumerate() {
        for (b, rb) in regs.iter().enumerate() {
            if a != b {
                assert!(!(ra.usage_page == rb.usage_page && ra.usage == rb.usage));
            }
        }
    }
}

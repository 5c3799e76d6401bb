use ch341_i2c::discovery::{find_bulk_endpoints, has_serial, is_adapter, CH341_PID, CH341_VID};
use ch341_i2c::{Direction, EndpointInfo, Error, InterfaceInfo, TransferType};

fn ep(address: u8, direction: Direction, transfer_type: TransferType) -> EndpointInfo {
    EndpointInfo { address, direction, transfer_type }
}

fn adapter_interface() -> InterfaceInfo {
    InterfaceInfo {
        settings: vec![vec![
            ep(0x82, Direction::In, TransferType::Bulk),
            ep(0x02, Direction::Out, TransferType::Bulk),
            ep(0x81, Direction::In, TransferType::Interrupt),
        ]],
    }
}

#[test]
fn adapter_identifiers() {
    assert_eq!(CH341_VID, 0x1A86);
    assert_eq!(CH341_PID, 0x5512);
    assert!(is_adapter(0x1A86, 0x5512));
    assert!(!is_adapter(0x1A86, 0x5523));
    assert!(!is_adapter(0x0403, 0x5512));
    assert!(!is_adapter(0x5512, 0x1A86));
}

#[test]
fn finds_the_adapters_bulk_endpoints() {
    assert_eq!(find_bulk_endpoints(&vec![adapter_interface()]), Ok((0x02, 0x82)));
}

#[test]
fn no_interface_is_not_found() {
    assert_eq!(find_bulk_endpoints(&vec![]), Err(Error::NotFound));
}

#[test]
fn interface_without_settings_is_not_found() {
    let interfaces = vec![InterfaceInfo { settings: vec![] }];
    assert_eq!(find_bulk_endpoints(&interfaces), Err(Error::NotFound));
    let interfaces = vec![InterfaceInfo { settings: vec![vec![], vec![]] }];
    assert_eq!(find_bulk_endpoints(&interfaces), Err(Error::NotFound));
}

#[test]
fn missing_bulk_in_is_not_found() {
    let interfaces = vec![InterfaceInfo {
        settings: vec![vec![
            ep(0x02, Direction::Out, TransferType::Bulk),
            ep(0x81, Direction::In, TransferType::Interrupt),
        ]],
    }];
    assert_eq!(find_bulk_endpoints(&interfaces), Err(Error::NotFound));
}

#[test]
fn missing_bulk_out_is_not_found() {
    let interfaces = vec![InterfaceInfo {
        settings: vec![vec![
            ep(0x82, Direction::In, TransferType::Bulk),
            ep(0x02, Direction::Out, TransferType::Isochronous),
            ep(0x03, Direction::Out, TransferType::Control),
        ]],
    }];
    assert_eq!(find_bulk_endpoints(&interfaces), Err(Error::NotFound));
}

#[test]
fn the_first_endpoint_of_each_direction_wins() {
    let interfaces = vec![InterfaceInfo {
        settings: vec![vec![
            ep(0x81, Direction::In, TransferType::Interrupt),
            ep(0x03, Direction::Out, TransferType::Bulk),
            ep(0x84, Direction::In, TransferType::Bulk),
            ep(0x02, Direction::Out, TransferType::Bulk),
            ep(0x82, Direction::In, TransferType::Bulk),
        ]],
    }];
    assert_eq!(find_bulk_endpoints(&interfaces), Ok((0x03, 0x84)));
}

#[test]
fn endpoints_are_sought_through_all_alternate_settings_in_order() {
    let interfaces = vec![InterfaceInfo {
        settings: vec![
            vec![ep(0x81, Direction::In, TransferType::Interrupt)],
            vec![ep(0x02, Direction::Out, TransferType::Bulk)],
            vec![],
            vec![
                ep(0x05, Direction::Out, TransferType::Bulk),
                ep(0x86, Direction::In, TransferType::Bulk),
            ],
        ],
    }];
    assert_eq!(find_bulk_endpoints(&interfaces), Ok((0x02, 0x86)));
}

#[test]
fn only_the_first_interface_counts() {
    let empty = InterfaceInfo { settings: vec![vec![]] };
    assert_eq!(find_bulk_endpoints(&vec![empty, adapter_interface()]), Err(Error::NotFound));
    let other = InterfaceInfo {
        settings: vec![vec![
            ep(0x07, Direction::Out, TransferType::Bulk),
            ep(0x88, Direction::In, TransferType::Bulk),
        ]],
    };
    assert_eq!(find_bulk_endpoints(&vec![adapter_interface(), other]), Ok((0x02, 0x82)));
}

#[test]
fn serial_number_is_sought_among_all_strings() {
    let serials = vec!["A1".to_string(), "B2".to_string(), "C3".to_string()];
    assert!(has_serial(&serials, &"A1".to_string()));
    assert!(has_serial(&serials, &"B2".to_string()));
    assert!(has_serial(&serials, &"C3".to_string()));
    assert!(!has_serial(&serials, &"D4".to_string()));
}

#[test]
fn serial_number_must_match_exactly() {
    let serials = vec!["CH341-0001".to_string()];
    assert!(has_serial(&serials, &"CH341-0001".to_string()));
    assert!(!has_serial(&serials, &"CH341-000".to_string()));
    assert!(!has_serial(&serials, &"ch341-0001".to_string()));
    assert!(!has_serial(&serials, &"CH341-0001 ".to_string()));
    assert!(!has_serial(&serials, &String::new()));
}

#[test]
fn device_without_serial_strings_matches_nothing() {
    assert!(!has_serial(&vec![], &"A1".to_string()));
    assert!(!has_serial(&vec![], &String::new()));
    assert!(has_serial(&vec![String::new()], &String::new()));
}

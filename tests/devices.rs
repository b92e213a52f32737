use ahoy::device::{
    CheckResponse, PirateMIDIDevice, PirateMIDISerialDevice, PortInfo, UsbPortInfo, PRODUCT_ID,
    USB_BAUD_RATE, USB_TIMEOUT_MS, VENDOR_ID,
};
use ahoy::error::CommandError;
use ahoy::exchange::SerialError;
use ahoy::observer::{device_event, DeviceEvent, DeviceIds, Event, Snapshot, UsbDevice};
use ahoy::device::DeviceDetails;
use ahoy::release::{trim_whitespace, asset_matches, select_asset, select_asset_for, Asset, Filter, Release};

fn ids() -> DeviceIds {
    DeviceIds {
        normal: UsbDevice::new(0x0483, 0x5740),
        upgrade: UsbDevice::new(0x0483, 0xDF11),
    }
}

#[test]
fn second_device_arrival_fires_once() {
    let a = UsbDevice::new(1, 1);
    let b = UsbDevice::new(2, 2);
    let mut snap = Snapshot::new(&vec![a]);
    let events = snap.update(&vec![a, b]);
    assert_eq!(events, vec![Event::Connected(b)]);
    assert_eq!(snap.devices(), vec![a, b]);
}

#[test]
fn second_device_removal_fires_once() {
    let a = UsbDevice::new(1, 1);
    let b = UsbDevice::new(2, 2);
    let mut snap = Snapshot::new(&vec![a]);
    snap.update(&vec![b, a]);
    let events = snap.update(&vec![a]);
    assert_eq!(events, vec![Event::Disconnected(b)]);
}

#[test]
fn removals_come_before_arrivals() {
    let a = UsbDevice::new(1, 1);
    let b = UsbDevice::new(2, 2);
    let c = UsbDevice::new(3, 3);
    let mut snap = Snapshot::new(&vec![a, b]);
    let events = snap.update(&vec![c, a]);
    assert_eq!(events, vec![Event::Disconnected(b), Event::Connected(c)]);
}

#[test]
fn duplicate_identities_collapse() {
    let a = UsbDevice::new(1, 1);
    let b = UsbDevice::new(2, 2);
    let mut snap = Snapshot::new(&vec![a, a]);
    assert_eq!(snap.devices(), vec![a]);
    let events = snap.update(&vec![b, b, a, b]);
    assert_eq!(events, vec![Event::Connected(b)]);
    assert_eq!(snap.devices(), vec![b, a]);
    assert_eq!(snap.update(&vec![]), vec![Event::Disconnected(b), Event::Disconnected(a)]);
    assert_eq!(snap.update(&vec![]), vec![]);
}

#[test]
fn device_modes_by_identity() {
    let ids = ids();
    assert!(UsbDevice::new(0x0483, 0x5740).is_stm_device(&ids));
    assert!(!UsbDevice::new(0x0483, 0x5740).is_dfu_device(&ids));
    assert!(UsbDevice::new(0x0483, 0xDF11).is_dfu_device(&ids));
    assert!(!UsbDevice::new(0x0484, 0x5740).is_stm_device(&ids));
}

#[test]
fn tracker_events_filtered_for_session() {
    let ids = ids();
    let other = UsbDevice::new(9, 9);
    let initial = Event::Initial(vec![other, ids.upgrade, ids.normal]);
    assert_eq!(device_event(&ids, &initial), Some(DeviceEvent::Connect(ids.upgrade)));
    assert_eq!(device_event(&ids, &Event::Initial(vec![other])), None);
    assert_eq!(device_event(&ids, &Event::Initial(vec![])), None);
    assert_eq!(device_event(&ids, &Event::Connected(other)), None);
    assert_eq!(
        device_event(&ids, &Event::Connected(ids.normal)),
        Some(DeviceEvent::Connect(ids.normal))
    );
    assert_eq!(
        device_event(&ids, &Event::Disconnected(other)),
        Some(DeviceEvent::Disconnect(other))
    );
}

#[test]
fn client_settings_builders() {
    let d = PirateMIDIDevice::new();
    assert_eq!(d.vendor_id(), VENDOR_ID);
    assert_eq!(d.product_id(), PRODUCT_ID);
    assert_eq!(d.timeout_ms(), USB_TIMEOUT_MS);
    assert_eq!(d.baud_rate(), USB_BAUD_RATE);
    assert_eq!(d, PirateMIDIDevice::default());
    let e = d.with_vendor_id(1).with_product_id(2).with_baud_rate(115200).with_timeout(250);
    assert_eq!(e.vendor_id(), 1);
    assert_eq!(e.product_id(), 2);
    assert_eq!(e.baud_rate(), 115200);
    assert_eq!(e.timeout_ms(), 250);
    assert_eq!(d.vendor_id(), 0x0483);
}

fn port(name: &str, usb: Option<(u16, u16)>) -> PortInfo {
    PortInfo {
        port_name: name.to_string(),
        usb: usb.map(|(vid, pid)| UsbPortInfo { vid, pid, manufacturer: Some("Pirate MIDI".to_string()) }),
    }
}

#[test]
fn find_device_picks_first_matching_port() {
    let d = PirateMIDIDevice::new();
    let ports = vec![
        port("/dev/ttyS0", None),
        port("/dev/ttyACM0", Some((1, 2))),
        port("/dev/ttyACM1", Some((VENDOR_ID, PRODUCT_ID))),
        port("/dev/ttyACM2", Some((VENDOR_ID, PRODUCT_ID))),
    ];
    assert_eq!(d.find_device(&ports), Ok(2));
    assert_eq!(
        d.with_product_id(7).find_device(&ports),
        Err(SerialError::InterfaceError("unable to locate device".to_string()))
    );
    assert_eq!(
        d.find_device(&vec![]),
        Err(SerialError::InterfaceError("unable to locate device".to_string()))
    );
}

#[test]
fn details_take_manufacturer_from_port() {
    let check = CheckResponse {
        uid: "4d00404d00444d0048".to_string(),
        device_model: "Bridge6".to_string(),
        firmware_version: "1.1.0".to_string(),
        hardware_version: "1.0.1".to_string(),
        device_name: "Bridge 6".to_string(),
        profile_id: "0".to_string(),
    };
    let details = PirateMIDISerialDevice::details_from_check(
        check.clone(),
        &port("/dev/ttyACM0", Some((VENDOR_ID, PRODUCT_ID))),
    );
    assert_eq!(details.manufacturer, "Pirate MIDI");
    assert_eq!(details.uid, "4d00404d00444d0048");
    assert_eq!(details.device_model, "Bridge6");
    assert_eq!(details.firmware_version, "1.1.0");
    assert_eq!(details.hardware_version, "1.0.1");
    assert_eq!(details.device_name, "Bridge 6");
    assert_eq!(details.profile_id, "0");
    let bare = PirateMIDISerialDevice::details_from_check(check, &port("COM3", None));
    assert_eq!(bare.manufacturer, "");
}

fn release(tag: &str, prerelease: bool) -> Release {
    Release {
        url: String::new(),
        html_url: String::new(),
        assets_url: String::new(),
        upload_url: String::new(),
        tarball_url: None,
        zipball_url: None,
        discussion_url: None,
        id: 1,
        node_id: String::new(),
        tag_name: tag.to_string(),
        target_commitish: String::new(),
        name: None,
        body: None,
        draft: false,
        prerelease,
        created_at: String::new(),
        published_at: None,
        assets: vec![],
    }
}

#[test]
fn filter_selects_first_matching_release() {
    let releases = vec![release("v2.0.0-beta", true), release("v1.2.0", false), release("v1.1.0", false)];
    assert_eq!(Filter::default(), Filter::Stable);
    assert!(Filter::Stable.matches(&releases[1]));
    assert!(!Filter::Stable.matches(&releases[0]));
    assert!(Filter::PreRelease.matches(&releases[0]));
    assert_eq!(Filter::Stable.select(&releases), Some(1));
    assert_eq!(Filter::PreRelease.select(&releases), Some(0));
    assert_eq!(Filter::PreRelease.select(&releases[1..].to_vec()), None);
}

#[test]
fn command_error_messages() {
    assert_eq!(CommandError::IO("x".to_string()).message(), "unable to retrieve file: x");
    assert_eq!(CommandError::Dfu("x".to_string()).message(), "unable to perform install: x");
    assert_eq!(
        CommandError::Device("x".to_string()).message(),
        "unable to send command to device: x"
    );
    assert_eq!(CommandError::Retieval("x".to_string()).message(), "unable to fetch releases: x");
    assert_eq!(CommandError::Http("x".to_string()).message(), "failed to make a request: x");
    assert_eq!(CommandError::Update("x".to_string()).message(), "unable to update: x");
    let e = CommandError::Dfu("y".to_string());
    assert_eq!(e.duplicate(), e);
}

fn asset(name: &str) -> Asset {
    Asset {
        url: String::new(),
        browser_download_url: format!("https://example.invalid/{name}"),
        id: 1,
        node_id: String::new(),
        name: name.to_string(),
        label: None,
        state: "uploaded".to_string(),
        content_type: "application/octet-stream".to_string(),
        size: 1024,
        download_count: 0,
        created_at: String::new(),
        updated_at: String::new(),
    }
}

#[test]
fn asset_names_follow_model_and_revision() {
    assert!(asset_matches("bridge6", '1', "bridge6_v1.2.3.1.bin"));
    assert!(asset_matches("bridge6", '1', "bridge6_v1.2.3.1-beta.2.bin"));
    assert!(!asset_matches("bridge6", '2', "bridge6_v1.2.3.1.bin"));
    assert!(!asset_matches("bridge4", '1', "bridge6_v1.2.3.1.bin"));
    assert!(!asset_matches("bridge6", '1', "bridge6_v1.2.3.1"));
    assert!(!asset_matches("bridge6", '1', "bridge6_v1.x.3.1.bin"));
    assert!(!asset_matches("bridge6", '1', "bridge6_v1.2.3.1.b\nin"));
    assert!(!asset_matches("bridge6", '1', ""));
}

#[test]
fn asset_selected_for_device() {
    let mut r = release("v1.2.3", false);
    r.assets = vec![
        asset("bridge4_v1.2.3.1.bin"),
        asset("bridge6_v1.2.3.0.bin"),
        asset("bridge6_v1.2.3.1.bin"),
    ];
    let details = DeviceDetails {
        device_model: "  Bridge6 ".to_string(),
        hardware_version: "1.0.1".to_string(),
        ..Default::default()
    };
    assert_eq!(select_asset(&r, &details), Some(2));
    assert_eq!(select_asset_for(&r, "bridge4", '1'), Some(0));
    assert_eq!(select_asset_for(&r, "clik", '1'), None);
    let no_revision = DeviceDetails { hardware_version: String::new(), ..details };
    assert_eq!(select_asset(&r, &no_revision), None);
}

#[test]
fn trim_removes_surrounding_white_space() {
    assert_eq!(trim_whitespace("  Bridge 6\t\n"), "Bridge 6");
    assert_eq!(trim_whitespace("\u{3000}x\u{a0}"), "x");
    assert_eq!(trim_whitespace("   "), "");
    assert_eq!(trim_whitespace(""), "");
    assert_eq!(trim_whitespace("a b"), "a b");
    for s in ["  x ", "\u{2000}\u{200a}y\u{85}", "\u{1680}z\u{202f}\u{205f}", "\u{b}q\u{2028}\u{2029}"] {
        assert_eq!(trim_whitespace(s), s.trim());
    }
}

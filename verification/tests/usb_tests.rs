use tablet_input::events::{DeviceEvent, PowerSource};
use tablet_input::usb::{parse_status_buffer, parse_status_line};

#[test]
fn plug_add_emits_exactly_one_event() {
    let out = parse_status_buffer(b"usb plug add\n");
    assert_eq!(out, vec![DeviceEvent::Plug(PowerSource::Host)]);
}

#[test]
fn all_known_lines_map() {
    assert_eq!(
        parse_status_line(b"usb plug add"),
        Some(DeviceEvent::Plug(PowerSource::Host))
    );
    assert_eq!(
        parse_status_line(b"usb plug remove"),
        Some(DeviceEvent::Unplug(PowerSource::Host))
    );
    assert_eq!(
        parse_status_line(b"usb ac add"),
        Some(DeviceEvent::Plug(PowerSource::Wall))
    );
    assert_eq!(
        parse_status_line(b"usb ac remove"),
        Some(DeviceEvent::Unplug(PowerSource::Wall))
    );
    assert_eq!(parse_status_line(b"network bound"), Some(DeviceEvent::NetUp));
    assert_eq!(
        parse_status_line(b"network bound eth0 10.0.0.2"),
        Some(DeviceEvent::NetUp)
    );
}

#[test]
fn unknown_lines_are_ignored() {
    assert_eq!(parse_status_line(b"usb plug"), None);
    assert_eq!(parse_status_line(b"usb plug addx"), None);
    assert_eq!(parse_status_line(b"network boun"), None);
    assert_eq!(parse_status_line(b""), None);
    assert_eq!(parse_status_buffer(b"hello world\n"), Vec::new());
}

#[test]
fn buffer_splits_into_lines_in_order() {
    let out = parse_status_buffer(b"usb plug add\nnoise\nusb ac remove\nnetwork bound eth0\n");
    assert_eq!(
        out,
        vec![
            DeviceEvent::Plug(PowerSource::Host),
            DeviceEvent::Unplug(PowerSource::Wall),
            DeviceEvent::NetUp,
        ]
    );
}

#[test]
fn carriage_returns_and_missing_final_newline() {
    assert_eq!(
        parse_status_buffer(b"usb plug add\r\n"),
        vec![DeviceEvent::Plug(PowerSource::Host)]
    );
    // a final segment without a newline still counts as a line
    assert_eq!(
        parse_status_buffer(b"usb ac add"),
        vec![DeviceEvent::Plug(PowerSource::Wall)]
    );
    // a bare trailing carriage return is part of the line and spoils the match
    assert_eq!(parse_status_buffer(b"usb ac add\r"), Vec::new());
}

#[test]
fn empty_buffer_emits_nothing() {
    assert_eq!(parse_status_buffer(b""), Vec::new());
    assert_eq!(parse_status_buffer(b"\n"), Vec::new());
}

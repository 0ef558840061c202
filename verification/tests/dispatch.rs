use gud_gadget::codec::{DisplayMode, ProtocolError, SetBuffer};
use gud_gadget::dispatch::{
    handle_device_to_host, handle_host_to_device, DeviceToHostAction, GetDescriptorRequest,
    GetDisplayModesRequest, HostToDeviceAction,
};
use gud_gadget::proto::{GadgetConfig, PixelFormat};

fn cfg_rgb565() -> GadgetConfig {
    GadgetConfig { format: PixelFormat::Rgb565, lz4: false }
}

fn cfg_xrgb8888_lz4() -> GadgetConfig {
    GadgetConfig { format: PixelFormat::Xrgb8888, lz4: true }
}

fn reply_bytes(a: DeviceToHostAction) -> Vec<u8> {
    match a {
        DeviceToHostAction::Reply(b) => b,
        _ => panic!("expected an immediate reply"),
    }
}

#[test]
fn status_query_answers_single_ok_byte() {
    let a = handle_device_to_host(cfg_rgb565(), 0x00, 64);
    assert_eq!(reply_bytes(a), vec![0u8]);
}

#[test]
fn formats_query_answers_configured_format() {
    let a = handle_device_to_host(cfg_rgb565(), 0x40, 64);
    assert_eq!(reply_bytes(a), vec![0x40u8]);
    let a = handle_device_to_host(cfg_xrgb8888_lz4(), 0x40, 64);
    assert_eq!(reply_bytes(a), vec![0x80u8]);
}

#[test]
fn properties_queries_answer_ten_zero_bytes() {
    let a = handle_device_to_host(cfg_rgb565(), 0x41, 64);
    assert_eq!(reply_bytes(a), vec![0u8; 10]);
    let a = handle_device_to_host(cfg_rgb565(), 0x51, 64);
    assert_eq!(reply_bytes(a), vec![0u8; 10]);
}

#[test]
fn connector_list_answers_one_panel_connector() {
    let a = handle_device_to_host(cfg_rgb565(), 0x50, 64);
    assert_eq!(reply_bytes(a), vec![0u8, 0, 0, 0, 0]);
}

#[test]
fn connector_status_answers_connected() {
    let a = handle_device_to_host(cfg_rgb565(), 0x54, 64);
    assert_eq!(reply_bytes(a), vec![1u8]);
}

#[test]
fn edid_query_answers_one_zero_byte() {
    let a = handle_device_to_host(cfg_rgb565(), 0x56, 64);
    assert_eq!(reply_bytes(a), vec![0u8]);
}

#[test]
fn descriptor_query_yields_pending_request() {
    match handle_device_to_host(cfg_rgb565(), 0x01, 97) {
        DeviceToHostAction::GetDescriptor(req) => assert_eq!(req.capacity, 97),
        _ => panic!("expected a pending descriptor request"),
    }
}

#[test]
fn mode_list_query_yields_pending_request() {
    match handle_device_to_host(cfg_rgb565(), 0x55, 240) {
        DeviceToHostAction::GetDisplayModes(req) => assert_eq!(req.capacity, 240),
        _ => panic!("expected a pending mode-list request"),
    }
}

#[test]
fn unknown_device_to_host_request_is_ignored() {
    assert!(matches!(handle_device_to_host(cfg_rgb565(), 0x7f, 64), DeviceToHostAction::Ignore));
}

#[test]
fn set_buffer_request_surfaces_decoded_header() {
    let h = SetBuffer {
        x: 10,
        y: 5,
        width: 4,
        height: 2,
        length: 16,
        compression: 0,
        compressed_length: 0,
    };
    let payload = h.encode();
    match handle_host_to_device(0x60, &payload).unwrap() {
        HostToDeviceAction::Buffer(got) => assert_eq!(got, h),
        _ => panic!("expected a buffer event"),
    }
}

#[test]
fn short_set_buffer_request_is_rejected() {
    let payload = vec![0u8; 10];
    assert_eq!(handle_host_to_device(0x60, &payload), Err(ProtocolError::Truncated));
}

#[test]
fn state_and_enable_requests_are_accepted_without_effect() {
    let payload: Vec<u8> = Vec::new();
    for code in [0x53u8, 0x61, 0x62, 0x63, 0x64] {
        assert!(matches!(
            handle_host_to_device(code, &payload).unwrap(),
            HostToDeviceAction::Handled
        ));
    }
}

#[test]
fn unknown_host_to_device_request_is_reported() {
    let payload: Vec<u8> = Vec::new();
    assert!(matches!(handle_host_to_device(0x30, &payload).unwrap(), HostToDeviceAction::Unknown));
}

#[test]
fn descriptor_response_layout() {
    let req = GetDescriptorRequest { capacity: 64 };
    let bytes = req.send_descriptor(cfg_rgb565(), 640, 480, 1920, 1080);
    assert_eq!(bytes.len(), 30);
    // magic, little endian
    assert_eq!(&bytes[0..4], &[0x4d, 0x61, 0x50, 0x1d]);
    // version 1, flags 0, no compression advertised
    assert_eq!(bytes[4], 1);
    assert_eq!(&bytes[5..9], &[0, 0, 0, 0]);
    assert_eq!(bytes[9], 0);
    // max buffer size = 1920 * 1080 * 4
    assert_eq!(&bytes[10..14], &(1920u32 * 1080 * 4).to_le_bytes());
    assert_eq!(&bytes[14..18], &640u32.to_le_bytes());
    assert_eq!(&bytes[18..22], &1920u32.to_le_bytes());
    assert_eq!(&bytes[22..26], &480u32.to_le_bytes());
    assert_eq!(&bytes[26..30], &1080u32.to_le_bytes());
}

#[test]
fn descriptor_advertises_lz4_when_configured() {
    let req = GetDescriptorRequest { capacity: 64 };
    let bytes = req.send_descriptor(cfg_xrgb8888_lz4(), 640, 480, 1920, 1080);
    assert_eq!(bytes[9], 1);
}

#[test]
fn mode_response_within_budget_is_encoded() {
    let mode = DisplayMode {
        clock: 60 * 640 * 480 / 1000,
        hdisplay: 640,
        hsync_start: 640,
        hsync_end: 640,
        htotal: 640,
        vdisplay: 480,
        vsync_start: 480,
        vsync_end: 480,
        vtotal: 480,
        flags: 0,
    };
    let req = GetDisplayModesRequest { capacity: 48 };
    let bytes = req.send_modes(&vec![mode, mode]).unwrap();
    assert_eq!(bytes.len(), 48);
    assert_eq!(&bytes[4..6], &640u16.to_le_bytes());
}

#[test]
fn mode_response_over_budget_is_an_error() {
    let mode = DisplayMode {
        clock: 0,
        hdisplay: 0,
        hsync_start: 0,
        hsync_end: 0,
        htotal: 0,
        vdisplay: 0,
        vsync_start: 0,
        vsync_end: 0,
        vtotal: 0,
        flags: 0,
    };
    let req = GetDisplayModesRequest { capacity: 47 };
    assert_eq!(req.send_modes(&vec![mode, mode]), Err(ProtocolError::ResponseTooLong));
}

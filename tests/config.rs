use place_backend::settings::{
    BackendSettings, BackendType, CanvasSettings, Settings, SettingsError, SmoltcpSettings,
    WebSocketSettings,
};
use place_backend::text::str_equal;
use place_backend::utils::{Color, RangedU16};
use place_backend::websocket::{
    frame_delay_nanos, pps_event_message, route_request, Route, ServerConfigInfo, COOLDOWN_NANOS,
    FRAME_INTERVAL_NANOS,
};

fn settings(prefix48: [u16; 8], size: u16) -> Settings {
    Settings {
        backend: BackendSettings {
            prefix48,
            backend_type: BackendType::Smoltcp,
            smoltcp: SmoltcpSettings {
                tun_iface: SmoltcpSettings::default_tun_iface(),
                recv_buffer_size: SmoltcpSettings::default_recv_buffer_size(),
            },
        },
        canvas: CanvasSettings {
            size: RangedU16::new(size).unwrap(),
            background_color: CanvasSettings::default_background_color(),
            filename: CanvasSettings::default_filename(),
        },
        websocket: WebSocketSettings { listen_addr: WebSocketSettings::default_listen_addr() },
    }
}

#[test]
fn config_info_gives_template_and_size() {
    let info = ServerConfigInfo::new(&settings([0x2602, 0xfa9b, 0x42, 0, 0, 0, 0, 0], 512));
    assert_eq!(info.ipv6_prefix, "2602:fa9b:42::SXXX:YYY:RR:GG:BB");
    assert_eq!(info.canvas_size, 512);
    let zero = ServerConfigInfo::new(&settings([0, 0xf, 0x10, 0, 0, 0, 0, 0], 16));
    assert_eq!(zero.ipv6_prefix, "0:f:10::SXXX:YYY:RR:GG:BB");
}

#[test]
fn sanity_check_refuses_low_bits() {
    assert_eq!(settings([0x2602, 0xfa9b, 0x42, 0, 0, 0, 0, 0], 512).sanity_check(), Ok(()));
    assert_eq!(
        settings([0x2602, 0xfa9b, 0x42, 0x1000, 0, 0, 0, 0], 512).sanity_check(),
        Err(SettingsError::PrefixLowBitsSet)
    );
    assert_eq!(
        settings([0x2602, 0xfa9b, 0x42, 0, 0, 0, 0, 1], 512).sanity_check(),
        Err(SettingsError::PrefixLowBitsSet)
    );
}

#[test]
fn defaults() {
    assert_eq!(CanvasSettings::default_size().get(), 512);
    assert_eq!(CanvasSettings::default_background_color(), Color::rgb(255, 255, 255));
    assert_eq!(CanvasSettings::default_filename(), "place.png");
    assert_eq!(SmoltcpSettings::default_tun_iface(), "tun0");
    assert_eq!(SmoltcpSettings::default_recv_buffer_size(), 65536);
    assert_eq!(WebSocketSettings::default_listen_addr(), "[::]:2137");
}

#[test]
fn ranged_size_bounds() {
    assert!(RangedU16::<16, 4096>::new(15).is_none());
    assert_eq!(RangedU16::<16, 4096>::new(16).unwrap().get(), 16);
    assert_eq!(RangedU16::<16, 4096>::new(4096).unwrap().get(), 4096);
    assert!(RangedU16::<16, 4096>::new(4097).is_none());
}

#[test]
fn color_parse_accepts_both_forms() {
    assert_eq!(Color::parse("#ffffff"), Some(Color::rgb(255, 255, 255)));
    assert_eq!(Color::parse("#0a141E"), Some(Color::rgb(10, 20, 30)));
    assert_eq!(Color::parse("#01020380"), Some(Color::new(1, 2, 3, 0x80)));
}

#[test]
fn color_parse_refuses_other_text() {
    assert_eq!(Color::parse(""), None);
    assert_eq!(Color::parse("ffffff"), None);
    assert_eq!(Color::parse("#fffff"), None);
    assert_eq!(Color::parse("#ffffffff0"), None);
    assert_eq!(Color::parse("#fffffg"), None);
    assert_eq!(Color::parse("fffffff"), None);
}

#[test]
fn color_hex_string() {
    assert_eq!(Color::rgb(10, 20, 30).to_hex_string(), "#0a141e");
    assert_eq!(Color::new(255, 0, 171, 0x80).to_hex_string(), "#ff00ab80");
    let c = Color::new(1, 2, 3, 4);
    assert_eq!(Color::parse(&c.to_hex_string()), Some(c));
}

#[test]
fn color_unpacks_rgba32() {
    assert_eq!(Color::rgba32(0x0a141e80), Color::new(10, 20, 30, 0x80));
    assert_eq!(Color::rgba32(0xffffffff), Color::new(255, 255, 255, 255));
    assert_eq!(Color::new(1, 2, 3, 4).into_rgba(), [1, 2, 3, 4]);
}

#[test]
fn event_message_carries_rate() {
    assert_eq!(pps_event_message(0), "{\"evt\":0}");
    assert_eq!(pps_event_message(537), "{\"evt\":537}");
    assert_eq!(pps_event_message(u32::MAX), "{\"evt\":4294967295}");
}

#[test]
fn routes() {
    assert_eq!(route_request(true, "/ws"), Route::WebSocket);
    assert_eq!(route_request(false, "/config.json"), Route::Config);
    assert_eq!(route_request(false, "/ws"), Route::NotFound);
    assert_eq!(route_request(true, "/config.json"), Route::NotFound);
    assert_eq!(route_request(false, "/"), Route::NotFound);
    assert_eq!(route_request(true, "/wss"), Route::NotFound);
}

#[test]
fn frame_pacing() {
    assert_eq!(FRAME_INTERVAL_NANOS, 66_666_666);
    assert_eq!(frame_delay_nanos(0), 66_666_666);
    assert_eq!(frame_delay_nanos(16_666_666), 50_000_000);
    assert_eq!(frame_delay_nanos(66_666_666), COOLDOWN_NANOS);
    assert_eq!(frame_delay_nanos(u64::MAX), 100_000_000);
}

#[test]
fn string_equality() {
    assert!(str_equal("abc", "abc"));
    assert!(!str_equal("abc", "abd"));
    assert!(!str_equal("abc", "ab"));
    assert!(str_equal("", ""));
}

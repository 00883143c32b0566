use led_engine::error::Error;
use led_engine::presets::PresetSettings;
use led_engine::settings::{
    decode_settings, encode_settings, DeviceSettings, SettingsStore, SETTINGS_CAPACITY,
};
use led_engine::wifi::{
    find_channel, link_role, validate_link_credentials, AuthKind, LinkRole, ScanRecord, WiFiMode,
    WiFiSettings,
};
use led_engine::PRESET_COUNT;

fn sample_settings() -> DeviceSettings {
    DeviceSettings {
        wifi_settings: WiFiSettings {
            mode: WiFiMode::Client,
            ssid: b"home-net".to_vec(),
            password: b"hunter2".to_vec(),
        },
        preset_settings: vec![
            PresetSettings { brightness: 10, speed: 20, scale: 30 },
            PresetSettings { brightness: 40, speed: 50, scale: 60 },
        ],
        current_preset_id: 1,
    }
}

fn assert_settings_eq(a: &DeviceSettings, b: &DeviceSettings) {
    assert_eq!(a.wifi_settings.mode, b.wifi_settings.mode);
    assert_eq!(a.wifi_settings.ssid, b.wifi_settings.ssid);
    assert_eq!(a.wifi_settings.password, b.wifi_settings.password);
    assert_eq!(a.preset_settings, b.preset_settings);
    assert_eq!(a.current_preset_id, b.current_preset_id);
}

#[test]
fn default_device_settings() {
    let d = DeviceSettings::default();
    assert_eq!(d.wifi_settings.mode, WiFiMode::Server);
    assert_eq!(d.wifi_settings.ssid, b"esp-32".to_vec());
    assert_eq!(d.wifi_settings.password, b"31415926".to_vec());
    assert_eq!(d.preset_settings.len(), PRESET_COUNT);
    for p in &d.preset_settings {
        assert_eq!(*p, PresetSettings { brightness: 127, speed: 127, scale: 127 });
    }
    assert_eq!(d.current_preset_id, 0);
}

#[test]
fn encode_default_settings_golden_bytes() {
    let d = DeviceSettings::default();
    let encoded = encode_settings(&d);
    let mut expected = vec![1u8, 6, 0];
    expected.extend_from_slice(b"esp-32");
    expected.extend_from_slice(&[8, 0]);
    expected.extend_from_slice(b"31415926");
    expected.extend_from_slice(&[127; 6]);
    expected.extend_from_slice(&[0, 0]);
    assert_eq!(encoded, expected);
    assert!(encoded.len() <= SETTINGS_CAPACITY);
}

#[test]
fn codec_round_trip() {
    let s = sample_settings();
    let encoded = encode_settings(&s);
    let decoded = decode_settings(&encoded).expect("decodes");
    assert_settings_eq(&s, &decoded);
}

#[test]
fn save_then_load_returns_same_settings() {
    let s = sample_settings();
    let mut store = SettingsStore::new();
    s.save(&mut store).expect("fits the reserved capacity");
    let loaded = DeviceSettings::load(&store).expect("no storage error").expect("key present");
    assert_settings_eq(&s, &loaded);
}

#[test]
fn save_then_load_round_trips_defaults() {
    let d = DeviceSettings::default();
    let mut store = SettingsStore::new();
    d.save(&mut store).expect("fits the reserved capacity");
    let loaded = DeviceSettings::load(&store).expect("no storage error").expect("key present");
    assert_settings_eq(&d, &loaded);
}

#[test]
fn oversized_settings_fail_to_save() {
    let mut s = sample_settings();
    s.wifi_settings.password = vec![65u8; SETTINGS_CAPACITY];
    let mut store = SettingsStore::new();
    assert_eq!(s.save(&mut store), Err(Error::EncodedTooLarge));
    // The store is untouched: the key still reads as absent, nothing was
    // truncated into it.
    assert_eq!(DeviceSettings::load(&store).expect("no storage error"), None);
}

#[test]
fn load_on_empty_store_is_none() {
    let store = SettingsStore::new();
    let loaded = DeviceSettings::load(&store).expect("absence is not an error");
    assert!(loaded.is_none());
}

#[test]
fn load_malformed_blob_is_an_error() {
    let store = SettingsStore::from_blob(vec![0xFF; 10]);
    assert_eq!(DeviceSettings::load(&store), Err(Error::MalformedRecord));
}

#[test]
fn decode_rejects_short_input() {
    assert_eq!(decode_settings(&vec![]), Err(Error::MalformedRecord));
    assert_eq!(decode_settings(&vec![1, 0, 0]), Err(Error::MalformedRecord));
}

#[test]
fn decode_rejects_unknown_mode_tag() {
    let d = DeviceSettings::default();
    let mut encoded = encode_settings(&d);
    encoded[0] = 2;
    assert_eq!(decode_settings(&encoded), Err(Error::MalformedRecord));
}

#[test]
fn decode_rejects_truncated_record() {
    let d = DeviceSettings::default();
    let mut encoded = encode_settings(&d);
    encoded.pop();
    assert_eq!(decode_settings(&encoded), Err(Error::MalformedRecord));
}

#[test]
fn decode_rejects_trailing_bytes() {
    let d = DeviceSettings::default();
    let mut encoded = encode_settings(&d);
    encoded.push(0);
    assert_eq!(decode_settings(&encoded), Err(Error::MalformedRecord));
}

#[test]
fn decode_rejects_overlong_length_field() {
    let d = DeviceSettings::default();
    let mut encoded = encode_settings(&d);
    // Claim an SSID longer than the record itself.
    encoded[1] = 0xFF;
    encoded[2] = 0xFF;
    assert_eq!(decode_settings(&encoded), Err(Error::MalformedRecord));
}

#[test]
fn empty_byte_strings_round_trip() {
    let s = DeviceSettings {
        wifi_settings: WiFiSettings {
            mode: WiFiMode::Server,
            ssid: vec![],
            password: vec![],
        },
        preset_settings: vec![PresetSettings::default(); PRESET_COUNT],
        current_preset_id: 0,
    };
    let encoded = encode_settings(&s);
    let decoded = decode_settings(&encoded).expect("decodes");
    assert_settings_eq(&s, &decoded);
}

#[test]
fn default_wifi_settings() {
    let w = WiFiSettings::default();
    assert_eq!(w.mode, WiFiMode::Server);
    assert_eq!(w.ssid, b"esp-32".to_vec());
    assert_eq!(w.password, b"31415926".to_vec());
}

#[test]
fn link_role_per_mode() {
    assert_eq!(link_role(WiFiMode::Client), LinkRole::JoinNetwork);
    assert_eq!(link_role(WiFiMode::Server), LinkRole::HostAccessPoint);
}

#[test]
fn credentials_validation() {
    let empty: Vec<u8> = vec![];
    let ssid = b"home-net".to_vec();
    let password = b"hunter2".to_vec();
    assert_eq!(validate_link_credentials(&empty, &password), Err(Error::MissingSsid));
    assert_eq!(validate_link_credentials(&empty, &empty), Err(Error::MissingSsid));
    assert_eq!(validate_link_credentials(&ssid, &empty), Ok(AuthKind::Open));
    assert_eq!(validate_link_credentials(&ssid, &password), Ok(AuthKind::Wpa2Personal));
}

#[test]
fn find_channel_picks_first_match() {
    let records = vec![
        ScanRecord { ssid: b"other".to_vec(), channel: 3 },
        ScanRecord { ssid: b"home-net".to_vec(), channel: 6 },
        ScanRecord { ssid: b"home-net".to_vec(), channel: 11 },
    ];
    assert_eq!(find_channel(&records, &b"home-net".to_vec()), Some(6));
    assert_eq!(find_channel(&records, &b"other".to_vec()), Some(3));
}

#[test]
fn find_channel_absent_ssid() {
    let records = vec![ScanRecord { ssid: b"other".to_vec(), channel: 3 }];
    assert_eq!(find_channel(&records, &b"home-net".to_vec()), None);
    assert_eq!(find_channel(&vec![], &b"home-net".to_vec()), None);
}

//! The persisted settings record and its fixed-width binary codec. The record
//! is encoded as: one mode tag byte, the SSID (16-bit little-endian length,
//! then the bytes), the password (likewise), three knob bytes per preset slot,
//! and the 16-bit little-endian current preset identifier. A record must
//! decode exactly or not at all: no zero-filling, no partial population, and
//! an encoding that exceeds the reserved capacity is refused, never truncated.

use vstd::prelude::*;

use crate::error::Error;
use crate::presets::PresetSettings;
use crate::wifi::{WiFiMode, WiFiSettings};
use crate::PRESET_COUNT;

verus! {

/// Capacity of the buffer reserved for the encoded settings record in the
/// key/value store.
pub const SETTINGS_CAPACITY: usize = 64;

/// Mathematical model of a wireless configuration.
#[verifier::ext_equal]
pub ghost struct WifiModel {
    pub mode: WiFiMode,
    pub ssid: Seq<u8>,
    pub password: Seq<u8>,
}

/// Mathematical model of the persisted settings record.
#[verifier::ext_equal]
pub ghost struct SettingsModel {
    pub wifi: WifiModel,
    pub presets: Seq<PresetSettings>,
    pub current_preset_id: u16,
}

impl View for WiFiSettings {
    type V = WifiModel;

    open spec fn view(&self) -> WifiModel {
        WifiModel { mode: self.mode, ssid: self.ssid@, password: self.password@ }
    }
}

/// The persisted root record: wireless configuration, one settings slot per
/// statically known preset, and the identifier of the active preset.
#[derive(Clone, Debug, PartialEq, Eq)]
pub struct DeviceSettings {
    pub wifi_settings: WiFiSettings,
    pub preset_settings: Vec<PresetSettings>,
    pub current_preset_id: u16,
}

impl View for DeviceSettings {
    type V = SettingsModel;

    open spec fn view(&self) -> SettingsModel {
        SettingsModel {
            wifi: self.wifi_settings@,
            presets: self.preset_settings@,
            current_preset_id: self.current_preset_id,
        }
    }
}

/// A model the codec can represent: both byte strings fit the 16-bit length
/// fields and there is exactly one settings slot per preset.
pub open spec fn valid_model(m: SettingsModel) -> bool {
    &&& m.wifi.ssid.len() <= 65535
    &&& m.wifi.password.len() <= 65535
    &&& m.presets.len() == PRESET_COUNT
}

impl DeviceSettings {
    /// The codec's precondition, as a property of the record itself.
    pub open spec fn well_formed(&self) -> bool {
        valid_model(self@)
    }
}

impl Default for DeviceSettings {
    /// The record used when no settings were ever persisted: default wireless
    /// configuration, default knobs in every slot, preset 0 active.
    fn default() -> (d: Self)
        ensures
            d.well_formed(),
            d@.wifi.mode == WiFiMode::Server,
            d@.wifi.ssid == crate::wifi::default_ssid(),
            d@.wifi.password == crate::wifi::default_password(),
            forall|k: int|
                0 <= k < PRESET_COUNT ==> d@.presets[k] == (PresetSettings {
                    brightness: 127u8,
                    speed: 127u8,
                    scale: 127u8,
                }),
            d@.current_preset_id == 0,
    {
        let mut preset_settings: Vec<PresetSettings> = Vec::new();
        let mut k: usize = 0;
        while k < PRESET_COUNT
            invariant
                k <= PRESET_COUNT,
                preset_settings@.len() == k,
                forall|m: int|
                    0 <= m < k ==> preset_settings@[m] == (PresetSettings {
                        brightness: 127u8,
                        speed: 127u8,
                        scale: 127u8,
                    }),
            decreases PRESET_COUNT - k,
        {
            preset_settings.push(PresetSettings::default());
            k = k + 1;
        }
        Self {
            wifi_settings: WiFiSettings::default(),
            preset_settings,
            current_preset_id: 0,
        }
    }
}

/// Tag byte of a wireless mode.
pub open spec fn mode_tag(m: WiFiMode) -> u8 {
    match m {
        WiFiMode::Client => 0u8,
        WiFiMode::Server => 1u8,
    }
}

/// Wireless mode of a tag byte; an unknown tag is malformed.
pub open spec fn mode_of_tag(t: u8) -> Option<WiFiMode> {
    if t == 0 {
        Some(WiFiMode::Client)
    } else if t == 1 {
        Some(WiFiMode::Server)
    } else {
        None
    }
}

/// Little-endian bytes of a 16-bit value.
pub open spec fn u16_le(v: u16) -> Seq<u8> {
    seq![(v % 256) as u8, (v / 256) as u8]
}

/// The 16-bit value of two little-endian bytes.
pub open spec fn u16_of_le(lo: u8, hi: u8) -> u16 {
    (lo + hi * 256) as u16
}

/// Byte `t` (0, 1 or 2) of one encoded preset slot.
pub open spec fn preset_byte(p: PresetSettings, t: int) -> u8 {
    if t == 0 {
        p.brightness
    } else if t == 1 {
        p.speed
    } else {
        p.scale
    }
}

/// The encoded preset slots: three bytes per slot, in slot order.
pub open spec fn presets_section(ps: Seq<PresetSettings>) -> Seq<u8> {
    Seq::new((3 * ps.len()) as nat, |t: int| preset_byte(ps[t / 3], t % 3))
}

/// Bytes of one encoded settings record.
pub open spec fn encode_spec(m: SettingsModel) -> Seq<u8> {
    seq![mode_tag(m.wifi.mode)] + u16_le(m.wifi.ssid.len() as u16) + m.wifi.ssid + u16_le(
        m.wifi.password.len() as u16,
    ) + m.wifi.password + presets_section(m.presets) + u16_le(m.current_preset_id)
}

/// The record a byte string encodes, if it is a well-formed encoding that
/// spans the whole string; `None` otherwise.
pub open spec fn decode_spec(b: Seq<u8>) -> Option<SettingsModel> {
    if b.len() < 5 {
        None
    } else if mode_of_tag(b[0]) is None {
        None
    } else {
        let ns = u16_of_le(b[1], b[2]) as int;
        if b.len() < 5 + ns {
            None
        } else {
            let np = u16_of_le(b[3 + ns], b[4 + ns]) as int;
            if b.len() != 5 + ns + np + 3 * (PRESET_COUNT as int) + 2 {
                None
            } else {
                let poff = 5 + ns + np;
                Some(
                    SettingsModel {
                        wifi: WifiModel {
                            mode: mode_of_tag(b[0]).unwrap(),
                            ssid: b.subrange(3, 3 + ns),
                            password: b.subrange(5 + ns, 5 + ns + np),
                        },
                        presets: Seq::new(
                            PRESET_COUNT as nat,
                            |k: int|
                                PresetSettings {
                                    brightness: b[poff + 3 * k],
                                    speed: b[poff + 3 * k + 1],
                                    scale: b[poff + 3 * k + 2],
                                },
                        ),
                        current_preset_id: u16_of_le(
                            b[poff + 3 * (PRESET_COUNT as int)],
                            b[poff + 3 * (PRESET_COUNT as int) + 1],
                        ),
                    },
                )
            }
        }
    }
}

/// Positions of one encoded slot within the preset section.
proof fn lemma_presets_section_index(ps: Seq<PresetSettings>, k: int)
    requires
        0 <= k < ps.len(),
    ensures
        presets_section(ps)[3 * k] == ps[k].brightness,
        presets_section(ps)[3 * k + 1] == ps[k].speed,
        presets_section(ps)[3 * k + 2] == ps[k].scale,
{
    assert((3 * k) / 3 == k && (3 * k) % 3 == 0) by (nonlinear_arith)
        requires
            0 <= k,
    ;
    assert((3 * k + 1) / 3 == k && (3 * k + 1) % 3 == 1) by (nonlinear_arith)
        requires
            0 <= k,
    ;
    assert((3 * k + 2) / 3 == k && (3 * k + 2) % 3 == 2) by (nonlinear_arith)
        requires
            0 <= k,
    ;
}

/// Appends the little-endian bytes of a 16-bit value.
fn push_u16_le(out: &mut Vec<u8>, v: u16)
    ensures
        final (out)@ == old(out)@ + u16_le(v),
{
    out.push((v % 256) as u8);
    out.push((v / 256) as u8);
    assert(out@ =~= old(out)@ + u16_le(v));
}

/// Appends a byte string.
fn push_bytes(out: &mut Vec<u8>, b: &Vec<u8>)
    ensures
        final (out)@ == old(out)@ + b@,
{
    let ghost head = out@;
    assert(out@ =~= head + b@.take(0));
    let mut k: usize = 0;
    while k < b.len()
        invariant
            k <= b@.len(),
            out@ == head + b@.take(k as int),
        decreases b@.len() - k,
    {
        out.push(b[k]);
        assert(out@ =~= head + b@.take(k as int + 1));
        k = k + 1;
    }
    assert(b@.take(b@.len() as int) =~= b@);
}

/// Encodes a settings record into its binary representation.
pub fn encode_settings(s: &DeviceSettings) -> (r: Vec<u8>)
    requires
        s.well_formed(),
    ensures
        r@ == encode_spec(s@),
{
    let mut out: Vec<u8> = Vec::new();
    match s.wifi_settings.mode {
        WiFiMode::Client => out.push(0),
        WiFiMode::Server => out.push(1),
    }
    assert(out@ =~= seq![mode_tag(s@.wifi.mode)]);
    push_u16_le(&mut out, s.wifi_settings.ssid.len() as u16);
    push_bytes(&mut out, &s.wifi_settings.ssid);
    push_u16_le(&mut out, s.wifi_settings.password.len() as u16);
    push_bytes(&mut out, &s.wifi_settings.password);
    let ghost head = out@;
    let mut k: usize = 0;
    while k < s.preset_settings.len()
        invariant
            k <= s.preset_settings@.len(),
            s.preset_settings@.len() == PRESET_COUNT,
            out@ == head + presets_section(s@.presets).take(3 * k as int),
        decreases s.preset_settings@.len() - k,
    {
        let p = s.preset_settings[k];
        out.push(p.brightness);
        out.push(p.speed);
        out.push(p.scale);
        proof {
            lemma_presets_section_index(s@.presets, k as int);
            assert(out@ =~= head + presets_section(s@.presets).take(3 * (k as int + 1)));
        }
        k = k + 1;
    }
    assert(presets_section(s@.presets).take(3 * (PRESET_COUNT as int)) =~= presets_section(
        s@.presets,
    ));
    push_u16_le(&mut out, s.current_preset_id);
    assert(out@ =~= encode_spec(s@));
    out
}

/// Copies `len` bytes starting at `start`.
fn copy_range(bytes: &Vec<u8>, start: usize, len: usize) -> (r: Vec<u8>)
    requires
        start + len <= bytes@.len(),
    ensures
        r@ == bytes@.subrange(start as int, start as int + len as int),
{
    let n = bytes.len();
    let mut r: Vec<u8> = Vec::new();
    assert(r@ =~= bytes@.subrange(start as int, start as int));
    let mut k: usize = 0;
    while k < len
        invariant
            k <= len,
            start + len <= n,
            n == bytes@.len(),
            r@ == bytes@.subrange(start as int, start as int + k as int),
        decreases len - k,
    {
        r.push(bytes[start + k]);
        assert(r@ =~= bytes@.subrange(start as int, start as int + (k as int + 1)));
        k = k + 1;
    }
    r
}

/// Decodes a binary representation back into a settings record. Bytes that
/// are not exactly one well-formed encoding are refused as malformed: the
/// result is never zero-filled and never partially populated.
pub fn decode_settings(bytes: &Vec<u8>) -> (r: Result<DeviceSettings, Error>)
    ensures
        r matches Ok(s) ==> s.well_formed() && decode_spec(bytes@) == Some(s@),
        r is Err ==> r == Err::<DeviceSettings, Error>(Error::MalformedRecord) && decode_spec(
            bytes@,
        ) is None,
{
    let n = bytes.len();
    if n < 5 {
        return Err(Error::MalformedRecord);
    }
    let tag = bytes[0];
    let mode = if tag == 0u8 {
        WiFiMode::Client
    } else if tag == 1u8 {
        WiFiMode::Server
    } else {
        return Err(Error::MalformedRecord);
    };
    assert(mode_of_tag(bytes@[0]) == Some(mode));
    let ns: usize = bytes[1] as usize + bytes[2] as usize * 256;
    assert(ns == u16_of_le(bytes@[1], bytes@[2]) as int);
    if n < 5 + ns {
        return Err(Error::MalformedRecord);
    }
    let np: usize = bytes[3 + ns] as usize + bytes[4 + ns] as usize * 256;
    assert(np == u16_of_le(bytes@[3 + ns as int], bytes@[4 + ns as int]) as int);
    if n != 5 + ns + np + 3 * PRESET_COUNT + 2 {
        return Err(Error::MalformedRecord);
    }
    let ssid = copy_range(bytes, 3, ns);
    let password = copy_range(bytes, 5 + ns, np);
    let poff = 5 + ns + np;
    let mut preset_settings: Vec<PresetSettings> = Vec::new();
    let mut k: usize = 0;
    while k < PRESET_COUNT
        invariant
            k <= PRESET_COUNT,
            n == 5 + ns + np + 3 * PRESET_COUNT + 2,
            poff == 5 + ns + np,
            bytes@.len() == n,
            preset_settings@.len() == k,
            forall|m: int|
                0 <= m < k ==> preset_settings@[m] == (PresetSettings {
                    brightness: bytes@[poff + 3 * m],
                    speed: bytes@[poff + 3 * m + 1],
                    scale: bytes@[poff + 3 * m + 2],
                }),
        decreases PRESET_COUNT - k,
    {
        preset_settings.push(
            PresetSettings {
                brightness: bytes[poff + 3 * k],
                speed: bytes[poff + 3 * k + 1],
                scale: bytes[poff + 3 * k + 2],
            },
        );
        k = k + 1;
    }
    let current_preset_id: u16 = bytes[poff + 3 * PRESET_COUNT] as u16 + bytes[poff + 3
        * PRESET_COUNT + 1] as u16 * 256;
    let s = DeviceSettings {
        wifi_settings: WiFiSettings { mode, ssid, password },
        preset_settings,
        current_preset_id,
    };
    proof {
        let b = bytes@;
        let dm = decode_spec(b).unwrap();
        assert(current_preset_id == u16_of_le(
            b[poff as int + 3 * (PRESET_COUNT as int)],
            b[poff as int + 3 * (PRESET_COUNT as int) + 1],
        ));
        assert(dm.presets =~= s@.presets);
        assert(dm =~= s@);
    }
    Ok(s)
}

/// The single key/value slot that holds the encoded settings record: the
/// persistence policy's view of the non-volatile store. The store's own
/// read/write machinery lives outside this crate and exchanges plain bytes
/// with this model.
pub struct SettingsStore {
    blob: Option<Vec<u8>>,
}

impl View for SettingsStore {
    type V = Option<Seq<u8>>;

    closed spec fn view(&self) -> Option<Seq<u8>> {
        match self.blob {
            Some(b) => Some(b@),
            None => None,
        }
    }
}

impl SettingsStore {
    /// A store whose settings key was never written.
    pub fn new() -> (s: Self)
        ensures
            s@ is None,
    {
        SettingsStore { blob: None }
    }

    /// A store primed with existing contents under the settings key.
    pub fn from_blob(blob: Vec<u8>) -> (s: Self)
        ensures
            s@ == Some(blob@),
    {
        SettingsStore { blob: Some(blob) }
    }
}

impl DeviceSettings {
    /// Encodes the record and writes it under the settings key. An encoding
    /// longer than the reserved capacity is a hard failure that leaves the
    /// store untouched; nothing is ever truncated.
    pub fn save(&self, storage: &mut SettingsStore) -> (r: Result<(), Error>)
        requires
            self.well_formed(),
        ensures
            encode_spec(self@).len() <= SETTINGS_CAPACITY ==> r == Ok::<(), Error>(())
                && final (storage)@ == Some(encode_spec(self@)),
            encode_spec(self@).len() > SETTINGS_CAPACITY ==> r == Err::<(), Error>(
                Error::EncodedTooLarge,
            ) && final (storage)@ == old(storage)@,
    {
        let encoded = encode_settings(self);
        if encoded.len() > SETTINGS_CAPACITY {
            Err(Error::EncodedTooLarge)
        } else {
            storage.blob = Some(encoded);
            Ok(())
        }
    }

    /// Reads the settings key: absent yields `None` (the caller applies
    /// defaults), present bytes either decode into exactly the record they
    /// encode or fail as malformed.
    pub fn load(storage: &SettingsStore) -> (r: Result<Option<DeviceSettings>, Error>)
        ensures
            storage@ is None ==> r == Ok::<Option<DeviceSettings>, Error>(None),
            (storage@ matches Some(b) && decode_spec(b) is Some) ==> (r matches Ok(Some(s))
                && s.well_formed() && Some(s@) == decode_spec(storage@.unwrap())),
            (storage@ matches Some(b) && decode_spec(b) is None) ==> r == Err::<
                Option<DeviceSettings>,
                Error,
            >(Error::MalformedRecord),
    {
        match &storage.blob {
            None => Ok(None),
            Some(b) => match decode_settings(b) {
                Ok(s) => Ok(Some(s)),
                Err(e) => Err(e),
            },
        }
    }
}

/// The round-trip law of the codec: every representable record decodes from
/// its own encoding, exactly. Together with the contracts of `save` and
/// `load`, a record that fits the reserved capacity is read back unchanged
/// from the same store it was saved to.
pub proof fn lemma_settings_round_trip(m: SettingsModel)
    requires
        valid_model(m),
    ensures
        decode_spec(encode_spec(m)) == Some(m),
{
    let e = encode_spec(m);
    let ns = m.wifi.ssid.len() as int;
    let np = m.wifi.password.len() as int;
    let s1 = seq![mode_tag(m.wifi.mode)];
    let s2 = u16_le(m.wifi.ssid.len() as u16);
    let s3 = m.wifi.ssid;
    let s4 = u16_le(m.wifi.password.len() as u16);
    let s5 = m.wifi.password;
    let s6 = presets_section(m.presets);
    let s7 = u16_le(m.current_preset_id);
    assert(e == s1 + s2 + s3 + s4 + s5 + s6 + s7);
    assert(s1.len() == 1 && s2.len() == 2 && s4.len() == 2 && s7.len() == 2);
    assert(s6.len() == 3 * (PRESET_COUNT as int));
    assert(e.len() == 7 + ns + np + 3 * (PRESET_COUNT as int));
    assert(e[0] == mode_tag(m.wifi.mode));
    assert(mode_of_tag(mode_tag(m.wifi.mode)) == Some(m.wifi.mode));
    assert(e[1] == s2[0] && e[2] == s2[1]);
    assert(u16_of_le(e[1], e[2]) as int == ns);
    assert(e.subrange(3, 3 + ns) =~= s3);
    assert(e[3 + ns] == s4[0] && e[4 + ns] == s4[1]);
    assert(u16_of_le(e[3 + ns], e[4 + ns]) as int == np);
    assert(e.subrange(5 + ns, 5 + ns + np) =~= s5);
    let poff = 5 + ns + np;
    assert forall|k: int| 0 <= k < PRESET_COUNT implies (PresetSettings {
        brightness: e[poff + 3 * k],
        speed: e[poff + 3 * k + 1],
        scale: e[poff + 3 * k + 2],
    }) == m.presets[k] by {
        lemma_presets_section_index(m.presets, k);
        assert(e[poff + 3 * k] == s6[3 * k]);
        assert(e[poff + 3 * k + 1] == s6[3 * k + 1]);
        assert(e[poff + 3 * k + 2] == s6[3 * k + 2]);
    }
    assert(e[poff + 3 * (PRESET_COUNT as int)] == s7[0]);
    assert(e[poff + 3 * (PRESET_COUNT as int) + 1] == s7[1]);
    assert(u16_of_le(e[poff + 3 * (PRESET_COUNT as int)], e[poff + 3 * (PRESET_COUNT as int) + 1])
        == m.current_preset_id);
    let dm = decode_spec(e).unwrap();
    assert(dm.presets =~= m.presets);
    assert(dm =~= m);
}

} // verus!

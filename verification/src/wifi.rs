//! Wireless configuration decisions. The association procedure itself —
//! scanning, connecting, hosting an access point, waiting for an address
//! lease — belongs to the wireless stack outside this crate; this module
//! decides what that procedure is asked to do: which role the device takes,
//! whether the credentials are acceptable, which authentication to request,
//! and which channel a scan result selects.

use vstd::prelude::*;

use crate::error::Error;

verus! {

/// Whether the device joins an existing network or hosts its own.
#[derive(Clone, Copy, Debug, PartialEq, Eq, Structural)]
pub enum WiFiMode {
    /// Connect to an existing network.
    Client,
    /// Host an access point.
    Server,
}

/// Persisted wireless configuration. SSID and password are byte strings of
/// arbitrary length in this model; the wireless stack enforces its own
/// maximum field widths at configuration time.
#[derive(Clone, Debug, PartialEq, Eq)]
pub struct WiFiSettings {
    pub mode: WiFiMode,
    pub ssid: Vec<u8>,
    pub password: Vec<u8>,
}

/// The built-in access-point SSID, `esp-32`.
pub open spec fn default_ssid() -> Seq<u8> {
    seq![101u8, 115u8, 112u8, 45u8, 51u8, 50u8]
}

/// The built-in access-point password, `31415926`.
pub open spec fn default_password() -> Seq<u8> {
    seq![51u8, 49u8, 52u8, 49u8, 53u8, 57u8, 50u8, 54u8]
}

impl Default for WiFiSettings {
    /// Access-point mode with the built-in SSID/password pair.
    fn default() -> (d: Self)
        ensures
            d.mode == WiFiMode::Server,
            d.ssid@ == default_ssid(),
            d.password@ == default_password(),
    {
        let mut ssid: Vec<u8> = Vec::new();
        ssid.push(101);
        ssid.push(115);
        ssid.push(112);
        ssid.push(45);
        ssid.push(51);
        ssid.push(50);
        let mut password: Vec<u8> = Vec::new();
        password.push(51);
        password.push(49);
        password.push(52);
        password.push(49);
        password.push(53);
        password.push(57);
        password.push(50);
        password.push(54);
        assert(ssid@ =~= default_ssid());
        assert(password@ =~= default_password());
        Self { mode: WiFiMode::Server, ssid, password }
    }
}

/// Which collaborator routine the bootstrap invokes for a wireless mode.
#[derive(Clone, Copy, Debug, PartialEq, Eq, Structural)]
pub enum LinkRole {
    /// Host an access point.
    HostAccessPoint,
    /// Join an existing network.
    JoinNetwork,
}

/// Selects the wireless routine for a mode: a client joins an existing
/// network, a server hosts its own access point.
pub fn link_role(mode: WiFiMode) -> (r: LinkRole)
    ensures
        mode == WiFiMode::Client ==> r == LinkRole::JoinNetwork,
        mode == WiFiMode::Server ==> r == LinkRole::HostAccessPoint,
{
    match mode {
        WiFiMode::Client => LinkRole::JoinNetwork,
        WiFiMode::Server => LinkRole::HostAccessPoint,
    }
}

/// Authentication the wireless stack is asked to use.
#[derive(Clone, Copy, Debug, PartialEq, Eq, Structural)]
pub enum AuthKind {
    /// WPA2-Personal with the configured password.
    Wpa2Personal,
    /// Open network: chosen exactly when the password is empty.
    Open,
}

/// Validates credentials before any wireless call: an empty SSID is a
/// configuration error; an empty password selects an open network; otherwise
/// WPA2-Personal is requested.
pub fn validate_link_credentials(ssid: &Vec<u8>, password: &Vec<u8>) -> (r: Result<
    AuthKind,
    Error,
>)
    ensures
        ssid@.len() == 0 ==> r == Err::<AuthKind, Error>(Error::MissingSsid),
        ssid@.len() > 0 && password@.len() == 0 ==> r == Ok::<AuthKind, Error>(AuthKind::Open),
        ssid@.len() > 0 && password@.len() > 0 ==> r == Ok::<AuthKind, Error>(
            AuthKind::Wpa2Personal,
        ),
{
    if ssid.len() == 0 {
        Err(Error::MissingSsid)
    } else if password.len() == 0 {
        Ok(AuthKind::Open)
    } else {
        Ok(AuthKind::Wpa2Personal)
    }
}

/// One access point seen during a scan: its SSID and its channel.
#[derive(Clone, Debug)]
pub struct ScanRecord {
    pub ssid: Vec<u8>,
    pub channel: u8,
}

/// Channel of the first scan record whose SSID matches, if any.
pub open spec fn scan_channel(records: Seq<ScanRecord>, ssid: Seq<u8>) -> Option<u8>
    decreases records.len(),
{
    if records.len() == 0 {
        None
    } else if records[0].ssid@ == ssid {
        Some(records[0].channel)
    } else {
        scan_channel(records.drop_first(), ssid)
    }
}

/// Finds the channel of the configured access point among the scan results:
/// the first record whose SSID matches. Absent a match the connection
/// proceeds on an unknown channel.
pub fn find_channel(records: &Vec<ScanRecord>, ssid: &Vec<u8>) -> (r: Option<u8>)
    ensures
        r == scan_channel(records@, ssid@),
{
    let mut k: usize = 0;
    assert(records@.skip(0) =~= records@);
    while k < records.len()
        invariant
            k <= records@.len(),
            scan_channel(records@, ssid@) == scan_channel(records@.skip(k as int), ssid@),
            forall|m: int| 0 <= m < k ==> records@[m].ssid@ != ssid@,
        decreases records@.len() - k,
    {
        let ghost rest = records@.skip(k as int);
        assert(rest[0] == records@[k as int]);
        if eq_bytes(&records[k].ssid, ssid) {
            return Some(records[k].channel);
        }
        assert(rest.drop_first() =~= records@.skip(k as int + 1));
        k = k + 1;
    }
    assert(records@.skip(k as int) =~= Seq::<ScanRecord>::empty());
    None
}

/// Byte-string equality.
pub fn eq_bytes(a: &Vec<u8>, b: &Vec<u8>) -> (r: bool)
    ensures
        r == (a@ == b@),
{
    if a.len() != b.len() {
        assert(a@ != b@);
        return false;
    }
    let mut k: usize = 0;
    while k < a.len()
        invariant
            k <= a@.len(),
            a@.len() == b@.len(),
            forall|m: int| 0 <= m < k ==> a@[m] == b@[m],
        decreases a@.len() - k,
    {
        if a[k] != b[k] {
            assert(a@ != b@);
            return false;
        }
        k = k + 1;
    }
    assert(a@ =~= b@);
    true
}

} // verus!

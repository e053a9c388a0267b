use vstd::prelude::*;

verus! {

/// Longest SSID that an access-point record carries.
pub const SSID_MAX_LEN: usize = 32;

/// Authentication methods, in the order of the radio driver's codes.
#[derive(Clone, Copy, Debug, PartialEq, Eq, Structural)]
pub enum AuthMethod {
    Open,
    WEP,
    WPA,
    WPA2Personal,
    WPAWPA2Personal,
    WPA2Enterprise,
    WPA3Personal,
    WPA2WPA3Personal,
    WAPIPersonal,
}

#[derive(Clone, Copy, Debug, PartialEq, Eq, Structural)]
pub enum SecondaryChannel {
    Absent,
    Above,
    Below,
}

/// One record as the radio driver fills it after a scan.
#[derive(Clone, Debug)]
pub struct ApRecord {
    pub bssid: [u8; 6],
    /// The SSID bytes, ended by a zero byte where shorter than the field.
    pub ssid: Vec<u8>,
    pub primary: u8,
    pub second: u32,
    pub rssi: i8,
    pub authmode: u32,
}

/// An access point found by a scan.
#[derive(Clone, Debug)]
pub struct AccessPointInfo {
    pub ssid: Vec<u8>,
    pub bssid: [u8; 6],
    pub channel: u8,
    pub secondary_channel: SecondaryChannel,
    pub signal_strength: u8,
    pub auth_method: AuthMethod,
}

pub open spec fn auth_method_of(code: u32) -> Option<AuthMethod> {
    if code == 0 {
        Some(AuthMethod::Open)
    } else if code == 1 {
        Some(AuthMethod::WEP)
    } else if code == 2 {
        Some(AuthMethod::WPA)
    } else if code == 3 {
        Some(AuthMethod::WPA2Personal)
    } else if code == 4 {
        Some(AuthMethod::WPAWPA2Personal)
    } else if code == 5 {
        Some(AuthMethod::WPA2Enterprise)
    } else if code == 6 {
        Some(AuthMethod::WPA3Personal)
    } else if code == 7 {
        Some(AuthMethod::WPA2WPA3Personal)
    } else if code == 8 {
        Some(AuthMethod::WAPIPersonal)
    } else {
        None
    }
}

pub open spec fn secondary_channel_of(code: u32) -> Option<SecondaryChannel> {
    if code == 0 {
        Some(SecondaryChannel::Absent)
    } else if code == 1 {
        Some(SecondaryChannel::Above)
    } else if code == 2 {
        Some(SecondaryChannel::Below)
    } else {
        None
    }
}

/// Length of the SSID held in `raw`: the bytes before the first zero byte.
pub open spec fn ssid_len(raw: Seq<u8>) -> int {
    if exists|i: int| 0 <= i < raw.len() && raw[i] == 0 {
        choose|i: int| 0 <= i < raw.len() && raw[i] == 0 && forall|j: int| 0 <= j < i ==> raw[j] != 0
    } else {
        raw.len() as int
    }
}

/// The SSID of a record; one longer than the field allows comes out empty.
pub open spec fn ssid_of(raw: Seq<u8>) -> Seq<u8> {
    if ssid_len(raw) <= SSID_MAX_LEN {
        raw.take(ssid_len(raw))
    } else {
        Seq::empty()
    }
}

/// A record the driver reports with codes that this library knows.
pub open spec fn record_known(r: ApRecord) -> bool {
    auth_method_of(r.authmode) is Some && secondary_channel_of(r.second) is Some
}

pub open spec fn decoded(r: ApRecord, info: AccessPointInfo) -> bool {
    &&& info.ssid@ == ssid_of(r.ssid@)
    &&& info.bssid == r.bssid
    &&& info.channel == r.primary
    &&& Some(info.secondary_channel) == secondary_channel_of(r.second)
    &&& info.signal_strength as int == if r.rssi < 0 { -(r.rssi as int) } else { r.rssi as int }
    &&& Some(info.auth_method) == auth_method_of(r.authmode)
}

/// Number of records a scan returns: what the driver found, at most `capacity`.
pub open spec fn scan_count(capacity: usize, found: usize) -> usize {
    if found > capacity {
        capacity
    } else {
        found
    }
}

/// The authentication method of a driver code; `None` for a code that this
/// library does not know.
pub fn auth_method_from_code(code: u32) -> (r: Option<AuthMethod>)
    ensures
        r == auth_method_of(code),
{
    match code {
        0 => Some(AuthMethod::Open),
        1 => Some(AuthMethod::WEP),
        2 => Some(AuthMethod::WPA),
        3 => Some(AuthMethod::WPA2Personal),
        4 => Some(AuthMethod::WPAWPA2Personal),
        5 => Some(AuthMethod::WPA2Enterprise),
        6 => Some(AuthMethod::WPA3Personal),
        7 => Some(AuthMethod::WPA2WPA3Personal),
        8 => Some(AuthMethod::WAPIPersonal),
        _ => None,
    }
}

/// The secondary channel of a driver code; `None` for an unknown code.
pub fn secondary_channel_from_code(code: u32) -> (r: Option<SecondaryChannel>)
    ensures
        r == secondary_channel_of(code),
{
    match code {
        0 => Some(SecondaryChannel::Absent),
        1 => Some(SecondaryChannel::Above),
        2 => Some(SecondaryChannel::Below),
        _ => None,
    }
}

/// Whether every code of the record is one that this library knows.
pub fn is_known_record(r: &ApRecord) -> (b: bool)
    ensures
        b == record_known(*r),
{
    auth_method_from_code(r.authmode).is_some() && secondary_channel_from_code(r.second).is_some()
}

proof fn lemma_ssid_len(raw: Seq<u8>, i: int)
    requires
        0 <= i <= raw.len(),
        forall|j: int| 0 <= j < i ==> raw[j] != 0,
        i < raw.len() ==> raw[i] == 0,
    ensures
        ssid_len(raw) == i,
{
    if i < raw.len() {
        let k = choose|k: int| 0 <= k < raw.len() && raw[k] == 0 && forall|j: int| 0 <= j < k ==> raw[j] != 0;
        assert(0 <= k < raw.len() && raw[k] == 0 && forall|j: int| 0 <= j < k ==> raw[j] != 0);
        if k < i {
            assert(raw[k] != 0);
        } else if i < k {
            assert(raw[i] != 0);
        }
    }
}

/// Copies the SSID out of a record's field.
pub fn decode_ssid(raw: &Vec<u8>) -> (r: Vec<u8>)
    ensures
        r@ == ssid_of(raw@),
{
    let mut n: usize = 0;
    while n < raw.len() && raw[n] != 0
        invariant
            n <= raw@.len(),
            forall|j: int| 0 <= j < n ==> raw@[j] != 0,
        decreases raw@.len() - n,
    {
        n = n + 1;
    }
    proof {
        lemma_ssid_len(raw@, n as int);
    }
    let mut out: Vec<u8> = Vec::new();
    if n <= SSID_MAX_LEN {
        let mut i: usize = 0;
        while i < n
            invariant
                i <= n,
                n <= raw@.len(),
                out@ == raw@.take(i as int),
            decreases n - i,
        {
            out.push(raw[i]);
            i = i + 1;
            assert(out@ =~= raw@.take(i as int));
        }
    }
    assert(n > SSID_MAX_LEN ==> out@ =~= Seq::<u8>::empty());
    out
}

/// The signal strength of a reading in dBm: its absolute value.
pub fn signal_strength(rssi: i8) -> (r: u8)
    ensures
        r as int == if rssi < 0 { -(rssi as int) } else { rssi as int },
{
    if rssi < 0 {
        (-(rssi as i16)) as u8
    } else {
        rssi as u8
    }
}

/// Decodes one record whose codes are known.
pub fn decode_record(r: &ApRecord) -> (info: AccessPointInfo)
    requires
        record_known(*r),
    ensures
        decoded(*r, info),
{
    let auth_method = auth_method_from_code(r.authmode).unwrap();
    let secondary_channel = secondary_channel_from_code(r.second).unwrap();
    AccessPointInfo {
        ssid: decode_ssid(&r.ssid),
        bssid: r.bssid,
        channel: r.primary,
        secondary_channel,
        signal_strength: signal_strength(r.rssi),
        auth_method,
    }
}

/// Decodes the result of a scan: of the `found` access points that the driver
/// reports, at most `capacity`, from the records it handed back. Returns the
/// records and their number.
pub fn scan_n(capacity: usize, found: usize, records: &Vec<ApRecord>) -> (r: (
    Vec<AccessPointInfo>,
    usize,
))
    requires
        records@.len() >= scan_count(capacity, found),
        forall|i: int| 0 <= i < scan_count(capacity, found) ==> record_known(#[trigger] records@[i]),
    ensures
        r.1 == scan_count(capacity, found),
        r.0@.len() == r.1,
        forall|i: int| 0 <= i < r.1 ==> decoded(records@[i], #[trigger] r.0@[i]),
{
    let count = if found > capacity {
        capacity
    } else {
        found
    };
    let mut scanned: Vec<AccessPointInfo> = Vec::new();
    let mut i: usize = 0;
    while i < count
        invariant
            count == scan_count(capacity, found),
            count <= records@.len(),
            i <= count,
            scanned@.len() == i,
            forall|k: int| 0 <= k < count ==> record_known(#[trigger] records@[k]),
            forall|k: int| 0 <= k < i ==> decoded(records@[k], #[trigger] scanned@[k]),
        decreases count - i,
    {
        let info = decode_record(&records[i]);
        scanned.push(info);
        i = i + 1;
    }
    (scanned, count)
}

} // verus!

//! The records the device persists: the mirrored template, the mTLS client
//! certificate, the tunnel identity and the WiFi settings; and how they are
//! read from URL-encoded forms and from persisted strings.

use vstd::prelude::*;
use crate::heapless::{HeaplessString, TooLong, byte_len, clean};
use crate::matcher::TEMPLATE_SIZE;

verus! {

/// The (name, value) pairs that a URL-encoded form decodes to, or `None`
/// when it cannot be decoded.
pub uninterp spec fn form_pairs(body: Seq<char>) -> Option<Seq<(Seq<char>, Seq<char>)>>;

/// The text of each pair.
pub open spec fn pairs_view(v: Seq<(String, String)>) -> Seq<(Seq<char>, Seq<char>)> {
    v.map_values(|p: (String, String)| (p.0@, p.1@))
}

/// Relies on `serde_urlencoded::from_str` decoding into a `Vec` of
/// `(String, String)`: the pairs, in order, after percent- and
/// plus-decoding; they depend on the body alone.
#[verifier::external_body]
pub(crate) fn decode_form(body: &str) -> (r: Option<Vec<(String, String)>>)
    ensures
        r is Some <==> form_pairs(body@) is Some,
        r is Some ==> pairs_view(r.unwrap()@) == form_pairs(body@).unwrap(),
{
    serde_urlencoded::from_str::<Vec<(String, String)>>(body).ok()
}

/// How many pairs carry `name`.
pub open spec fn key_count(pairs: Seq<(Seq<char>, Seq<char>)>, name: Seq<char>) -> nat
    decreases pairs.len(),
{
    if pairs.len() == 0 {
        0
    } else {
        key_count(pairs.drop_last(), name) + if pairs.last().0 == name { 1nat } else { 0nat }
    }
}

/// The value of the last pair that carries `name` (empty when none does).
pub open spec fn key_value(pairs: Seq<(Seq<char>, Seq<char>)>, name: Seq<char>) -> Seq<char>
    decreases pairs.len(),
{
    if pairs.len() == 0 {
        Seq::empty()
    } else if pairs.last().0 == name {
        pairs.last().1
    } else {
        key_value(pairs.drop_last(), name)
    }
}

/// A field of a record is read from a form when its name occurs exactly
/// once and its value fits the field's capacity.
pub open spec fn field_fits(pairs: Seq<(Seq<char>, Seq<char>)>, name: Seq<char>, cap: nat) -> bool {
    key_count(pairs, name) == 1 && byte_len(key_value(pairs, name)) <= cap
}

/// Reads the field `name` of capacity `N` from decoded pairs.
pub(crate) fn form_field<const N: usize>(pairs: &Vec<(String, String)>, name: &str) -> (r: Option<HeaplessString<N>>)
    ensures
        r is Some <==> field_fits(pairs_view(pairs@), name@, N as nat),
        r is Some ==> r.unwrap()@ == key_value(pairs_view(pairs@), name@),
{
    let key = name.to_owned();
    let mut count: usize = 0;
    let mut found: Option<usize> = None;
    let mut i: usize = 0;
    while i < pairs.len()
        invariant
            i <= pairs@.len(),
            key@ == name@,
            count <= i,
            count == key_count(pairs_view(pairs@.take(i as int)), name@),
            found is None <==> count == 0,
            found is Some ==> found.unwrap() < i && pairs@[found.unwrap() as int].1@
                == key_value(pairs_view(pairs@.take(i as int)), name@),
        decreases pairs.len() - i,
    {
        proof {
            assert(pairs_view(pairs@.take(i + 1)).drop_last() =~= pairs_view(pairs@.take(i as int)));
            assert(pairs_view(pairs@.take(i + 1)).last() == (pairs@[i as int].0@, pairs@[i as int].1@));
        }
        if pairs[i].0 == key {
            count = count + 1;
            found = Some(i);
        }
        i = i + 1;
    }
    proof {
        assert(pairs@.take(pairs@.len() as int) =~= pairs@);
    }
    if count != 1 {
        return None;
    }
    match found {
        Some(at) => match HeaplessString::<N>::from_text(pairs[at].1.as_str()) {
            Ok(v) => Some(v),
            Err(_) => None,
        },
        None => None,
    }
}

/// `s` without the NUL characters that pad it at the end.
pub open spec fn trim_nuls(s: Seq<char>) -> Seq<char>
    decreases s.len(),
{
    if s.len() > 0 && s.last() == '\0' {
        trim_nuls(s.drop_last())
    } else {
        s
    }
}

/// Reads a string out of its persisted slot: the NUL padding is dropped,
/// text beyond the capacity is refused, and what is left is sanitized.
pub fn stored_string<const N: usize>(raw: &str) -> (r: Result<HeaplessString<N>, TooLong>)
    ensures
        byte_len(trim_nuls(raw@)) > N ==> r is Err,
        byte_len(trim_nuls(raw@)) <= N ==> r is Ok && r.unwrap()@ == clean(trim_nuls(raw@)),
{
    let mut end = raw.unicode_len();
    proof {
        assert(raw@.take(end as int) =~= raw@);
    }
    while end > 0 && raw.get_char(end - 1) == '\0'
        invariant
            end <= raw@.len(),
            trim_nuls(raw@) == trim_nuls(raw@.take(end as int)),
        decreases end,
    {
        proof {
            assert(raw@.take(end as int).drop_last() =~= raw@.take(end - 1));
        }
        end = end - 1;
    }
    let text = raw.substring_char(0, end);
    proof {
        assert(text@ =~= raw@.take(end as int));
        assert(trim_nuls(text@) == text@);
    }
    let value = HeaplessString::<N>::from_text(text)?;
    Ok(value.clean_string())
}

/// The mirrored copy of the enrolled template.
pub struct Fingerprint {
    pub template: [u8; TEMPLATE_SIZE],
}

/// The client certificate and key for the mTLS exchange.
pub struct Certificate {
    pub cert: HeaplessString<2048>,
    pub privkey: HeaplessString<2048>,
}

impl Certificate {
    /// Whether the certificate or its key is missing.
    pub fn is_empty(&self) -> (r: bool)
        ensures
            r == (self.cert@.len() == 0 || self.privkey@.len() == 0),
    {
        self.cert.is_empty() || self.privkey.is_empty()
    }

    /// Reads a certificate from a form with the fields `cert` and
    /// `certprivkey`.
    pub fn from_form(body: &str) -> (r: Option<Certificate>)
        ensures
            r is Some <==> form_pairs(body@) is Some && field_fits(form_pairs(body@).unwrap(), "cert"@, 2048)
                && field_fits(form_pairs(body@).unwrap(), "certprivkey"@, 2048),
            r is Some ==> r.unwrap().cert@ == key_value(form_pairs(body@).unwrap(), "cert"@)
                && r.unwrap().privkey@ == key_value(form_pairs(body@).unwrap(), "certprivkey"@),
    {
        let pairs = decode_form(body)?;
        let cert = form_field::<2048>(&pairs, "cert");
        let privkey = form_field::<2048>(&pairs, "certprivkey");
        match (cert, privkey) {
            (Some(cert), Some(privkey)) => Some(Certificate { cert, privkey }),
            _ => None,
        }
    }
}

/// The tunnel identity handed out by the provisioning service.
pub struct WgConfig {
    pub address: HeaplessString<64>,
    pub port: HeaplessString<8>,
    pub cli_priv_key: HeaplessString<64>,
    pub serv_pub_key: HeaplessString<64>,
    pub allowed_ip: HeaplessString<16>,
    pub allowed_mask: HeaplessString<16>,
}

/// The six fields of a tunnel identity are all read from the pairs.
pub open spec fn identity_fits(p: Seq<(Seq<char>, Seq<char>)>) -> bool {
    &&& field_fits(p, "address"@, 64)
    &&& field_fits(p, "port"@, 8)
    &&& field_fits(p, "privkey"@, 64)
    &&& field_fits(p, "pubkey"@, 64)
    &&& field_fits(p, "allowedip"@, 16)
    &&& field_fits(p, "allowedmask"@, 16)
}

/// A tunnel identity holds the values of the pairs.
pub open spec fn identity_from(c: WgConfig, p: Seq<(Seq<char>, Seq<char>)>) -> bool {
    &&& c.address@ == key_value(p, "address"@)
    &&& c.port@ == key_value(p, "port"@)
    &&& c.cli_priv_key@ == key_value(p, "privkey"@)
    &&& c.serv_pub_key@ == key_value(p, "pubkey"@)
    &&& c.allowed_ip@ == key_value(p, "allowedip"@)
    &&& c.allowed_mask@ == key_value(p, "allowedmask"@)
}

impl WgConfig {
    /// Whether the persisted marker says that no identity is stored: only
    /// the text `false` says that one is.
    pub fn is_empty(marker: Option<&str>) -> (r: bool)
        ensures
            r == !(marker is Some && marker.unwrap()@ == "false"@),
    {
        match marker {
            Some(m) => {
                let stored = m.to_owned();
                let unset = "false".to_owned();
                !(stored == unset)
            },
            None => true,
        }
    }

    /// Reads a tunnel identity from a form with the fields `address`,
    /// `port`, `privkey`, `pubkey`, `allowedip` and `allowedmask`.
    pub fn from_form(body: &str) -> (r: Option<WgConfig>)
        ensures
            r is Some <==> form_pairs(body@) is Some && identity_fits(form_pairs(body@).unwrap()),
            r is Some ==> identity_from(r.unwrap(), form_pairs(body@).unwrap()),
    {
        let pairs = decode_form(body)?;
        let address = form_field::<64>(&pairs, "address");
        let port = form_field::<8>(&pairs, "port");
        let cli_priv_key = form_field::<64>(&pairs, "privkey");
        let serv_pub_key = form_field::<64>(&pairs, "pubkey");
        let allowed_ip = form_field::<16>(&pairs, "allowedip");
        let allowed_mask = form_field::<16>(&pairs, "allowedmask");
        match (address, port, cli_priv_key, serv_pub_key, allowed_ip, allowed_mask) {
            (Some(address), Some(port), Some(cli_priv_key), Some(serv_pub_key), Some(allowed_ip), Some(allowed_mask)) => {
                Some(WgConfig { address, port, cli_priv_key, serv_pub_key, allowed_ip, allowed_mask })
            },
            _ => None,
        }
    }
}

/// The WiFi network to join.
pub struct WifiConfig {
    pub ssid: HeaplessString<32>,
    pub password: HeaplessString<64>,
    pub auth_method: HeaplessString<32>,
}

impl WifiConfig {
    /// Reads WiFi settings from a form with the fields `ssid`, `passwd` and
    /// `authmethod`.
    pub fn from_form(body: &str) -> (r: Option<WifiConfig>)
        ensures
            r is Some <==> form_pairs(body@) is Some && field_fits(form_pairs(body@).unwrap(), "ssid"@, 32)
                && field_fits(form_pairs(body@).unwrap(), "passwd"@, 64)
                && field_fits(form_pairs(body@).unwrap(), "authmethod"@, 32),
            r is Some ==> r.unwrap().ssid@ == key_value(form_pairs(body@).unwrap(), "ssid"@)
                && r.unwrap().password@ == key_value(form_pairs(body@).unwrap(), "passwd"@)
                && r.unwrap().auth_method@ == key_value(form_pairs(body@).unwrap(), "authmethod"@),
    {
        let pairs = decode_form(body)?;
        let ssid = form_field::<32>(&pairs, "ssid");
        let password = form_field::<64>(&pairs, "passwd");
        let auth_method = form_field::<32>(&pairs, "authmethod");
        match (ssid, password, auth_method) {
            (Some(ssid), Some(password), Some(auth_method)) => Some(WifiConfig { ssid, password, auth_method }),
            _ => None,
        }
    }
}

} // verus!

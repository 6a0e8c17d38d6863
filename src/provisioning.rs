//! The exchange with the remote provisioning service: the requests sent
//! over mTLS, and how the tunnel identity is taken out of the answer.

use vstd::prelude::*;
use crate::config::{
    Certificate, WgConfig, form_pairs, identity_fits, identity_from, field_fits, key_value, form_field,
    decode_form,
};
use crate::heapless::HeaplessString;
use crate::errors::ProvisioningError;

verus! {

/// The host of the provisioning service.
pub const HOSTNAME: &'static str = "charizhard-otp.duckdns.org";

/// The port of the provisioning service.
pub const PORT: u16 = 443;

/// The request that asks the service to send a one-time password to `email`.
pub open spec fn otp_request_text(host: Seq<char>, email: Seq<char>) -> Seq<char> {
    "GET /gen_otp HTTP/1.1\r\nHost: "@ + host + "\r\nmail: "@ + email + "\r\nConnection: close\r\n\r\n"@
}

/// The request that trades `email` and its one-time password for a tunnel
/// identity.
pub open spec fn verify_request_text(host: Seq<char>, email: Seq<char>, otp: Seq<char>) -> Seq<char> {
    "GET /otp HTTP/1.1\r\nHost: "@ + host + "\r\nmail: "@ + email + "\r\notp: "@ + otp
        + "\r\nConnection: close\r\n\r\n"@
}

/// Refuses to contact the service without a complete client certificate.
pub fn require_certificate(cert: &Certificate) -> (r: Result<(), ProvisioningError>)
    ensures
        cert.cert@.len() == 0 || cert.privkey@.len() == 0 ==> r == Err::<(), ProvisioningError>(
            ProvisioningError::NoCertificate,
        ),
        cert.cert@.len() != 0 && cert.privkey@.len() != 0 ==> r == Ok::<(), ProvisioningError>(()),
{
    if cert.is_empty() {
        Err(ProvisioningError::NoCertificate)
    } else {
        Ok(())
    }
}

/// The request for a one-time password, once a certificate is at hand.
pub fn request_otp(cert: &Certificate, host: &str, email: &str) -> (r: Result<String, ProvisioningError>)
    ensures
        cert.cert@.len() == 0 || cert.privkey@.len() == 0 ==> r == Err::<String, ProvisioningError>(
            ProvisioningError::NoCertificate,
        ),
        cert.cert@.len() != 0 && cert.privkey@.len() != 0 ==> r is Ok && r.unwrap()@
            == otp_request_text(host@, email@),
{
    require_certificate(cert)?;
    let text = String::from_str("GET /gen_otp HTTP/1.1\r\nHost: ");
    let text = text.concat(host);
    let text = text.concat("\r\nmail: ");
    let text = text.concat(email);
    let text = text.concat("\r\nConnection: close\r\n\r\n");
    Ok(text)
}

/// The request that verifies a one-time password, once a certificate is at
/// hand.
pub fn verify_otp(cert: &Certificate, host: &str, email: &str, otp: &str) -> (r: Result<String, ProvisioningError>)
    ensures
        cert.cert@.len() == 0 || cert.privkey@.len() == 0 ==> r == Err::<String, ProvisioningError>(
            ProvisioningError::NoCertificate,
        ),
        cert.cert@.len() != 0 && cert.privkey@.len() != 0 ==> r is Ok && r.unwrap()@
            == verify_request_text(host@, email@, otp@),
{
    require_certificate(cert)?;
    let text = String::from_str("GET /otp HTTP/1.1\r\nHost: ");
    let text = text.concat(host);
    let text = text.concat("\r\nmail: ");
    let text = text.concat(email);
    let text = text.concat("\r\notp: ");
    let text = text.concat(otp);
    let text = text.concat("\r\nConnection: close\r\n\r\n");
    Ok(text)
}

/// Whether a blank line (`\r\n\r\n`) starts at `i`.
pub open spec fn blank_line_at(s: Seq<char>, i: int) -> bool {
    0 <= i && i + 4 <= s.len() && s[i] == '\r' && s[i + 1] == '\n' && s[i + 2] == '\r' && s[i
        + 3] == '\n'
}

/// The first blank line at or after `from`.
pub open spec fn first_blank_line(s: Seq<char>, from: int) -> Option<int>
    decreases s.len() - from,
{
    if from < 0 || from + 4 > s.len() {
        None
    } else if blank_line_at(s, from) {
        Some(from)
    } else {
        first_blank_line(s, from + 1)
    }
}

/// The body of an answer: what follows the first blank line, up to the next
/// blank line; empty when there is no blank line.
pub open spec fn body_of(s: Seq<char>) -> Seq<char> {
    match first_blank_line(s, 0) {
        None => Seq::empty(),
        Some(i) => match first_blank_line(s, i + 4) {
            None => s.subrange(i + 4, s.len() as int),
            Some(j) => s.subrange(i + 4, j),
        },
    }
}

/// Finds the first blank line at or after `from`.
fn find_blank_line(text: &str, n: usize, from: usize) -> (r: Option<usize>)
    requires
        n == text@.len(),
        from <= n,
    ensures
        r is None ==> first_blank_line(text@, from as int) is None,
        r is Some ==> first_blank_line(text@, from as int) == Some(r.unwrap() as int) && from
            <= r.unwrap() && r.unwrap() + 4 <= n,
{
    let mut i: usize = from;
    while n - i >= 4
        invariant
            n == text@.len(),
            from <= i,
            i <= n,
            first_blank_line(text@, from as int) == first_blank_line(text@, i as int),
        decreases n - i,
    {
        if text.get_char(i) == '\r' && text.get_char(i + 1) == '\n' && text.get_char(i + 2) == '\r'
            && text.get_char(i + 3) == '\n' {
            return Some(i);
        }
        i = i + 1;
    }
    None
}

/// The body of an answer of the service.
pub fn response_body(response: &str) -> (r: &str)
    ensures
        r@ == body_of(response@),
{
    let n = response.unicode_len();
    match find_blank_line(response, n, 0) {
        None => {
            proof {
                reveal_strlit("");
            }
            ""
        },
        Some(i) => match find_blank_line(response, n, i + 4) {
            None => response.substring_char(i + 4, n),
            Some(j) => response.substring_char(i + 4, j),
        },
    }
}

/// Takes the tunnel identity out of an answer of the service: its body must
/// decode to a complete identity.
pub fn parse_config_response(response: &str) -> (r: Result<WgConfig, ProvisioningError>)
    ensures
        r is Ok <==> form_pairs(body_of(response@)) is Some && identity_fits(
            form_pairs(body_of(response@)).unwrap(),
        ),
        r is Ok ==> identity_from(r.unwrap(), form_pairs(body_of(response@)).unwrap()),
        r is Err ==> r == Err::<WgConfig, ProvisioningError>(ProvisioningError::ProvisioningFailed),
{
    let body = response_body(response);
    match WgConfig::from_form(body) {
        Some(config) => Ok(config),
        None => Err(ProvisioningError::ProvisioningFailed),
    }
}

/// An e-mail address and the one-time password sent to it, as posted by the
/// user.
pub struct OtpRequest {
    pub email: HeaplessString<256>,
    pub otp: HeaplessString<64>,
}

impl OtpRequest {
    /// Reads the posted form with the fields `email` and `otp`.
    pub fn from_form(body: &str) -> (r: Option<OtpRequest>)
        ensures
            r is Some <==> form_pairs(body@) is Some && field_fits(form_pairs(body@).unwrap(), "email"@, 256)
                && field_fits(form_pairs(body@).unwrap(), "otp"@, 64),
            r is Some ==> r.unwrap().email@ == key_value(form_pairs(body@).unwrap(), "email"@)
                && r.unwrap().otp@ == key_value(form_pairs(body@).unwrap(), "otp"@),
    {
        let pairs = decode_form(body)?;
        let email = form_field::<256>(&pairs, "email");
        let otp = form_field::<64>(&pairs, "otp");
        match (email, otp) {
            (Some(email), Some(otp)) => Some(OtpRequest { email, otp }),
            _ => None,
        }
    }
}

/// Whether a user may be enrolled now: only right after an identity was
/// provisioned, while no user is enrolled yet.
pub fn enrollment_allowed(enrolled: bool, identity_empty: bool) -> (r: bool)
    ensures
        r == (!enrolled && !identity_empty),
{
    !enrolled && !identity_empty
}

} // verus!

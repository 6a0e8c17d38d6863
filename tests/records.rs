use charizhard::config::{stored_string, Certificate, WgConfig, WifiConfig};
use charizhard::errors::ProvisioningError;
use charizhard::heapless::{HeaplessString, TooLong};
use charizhard::provisioning::{
    enrollment_allowed, parse_config_response, request_otp, response_body, verify_otp, OtpRequest, HOSTNAME,
};
use charizhard::tunnel::TunnelConfig;

#[test]
fn bounded_push() {
    let mut s: HeaplessString<5> = HeaplessString::new();
    assert!(s.is_empty());
    assert_eq!(s.push_str("abc"), Ok(()));
    assert_eq!(s.as_str(), "abc");
    assert_eq!(s.push_str("123456"), Err(TooLong));
    assert_eq!(s.as_str(), "abc");
    // fits the capacity alone but not what is left: dropped
    assert_eq!(s.push_str("defg"), Ok(()));
    assert_eq!(s.as_str(), "abc");
    assert_eq!(s.push_str("de"), Ok(()));
    assert_eq!(s.as_bytes(), b"abcde");
    // capacity counts bytes
    let mut t: HeaplessString<3> = HeaplessString::new();
    assert_eq!(t.push_str("éé"), Err(TooLong));
    assert_eq!(t.push_str("é"), Ok(()));
    assert_eq!(t.as_bytes().len(), 2);
}

#[test]
fn sanitizing_keeps_printable_ascii() {
    let s: HeaplessString<32> = HeaplessString::from_text("a b\tc\u{7}d\u{e9}e\r\n~").unwrap();
    assert_eq!(s.clean_string().as_str(), "a b\tcde\r\n~");
    assert!(HeaplessString::<2>::from_text("abc").is_err());
}

#[test]
fn persisted_strings_lose_padding() {
    let v = stored_string::<8>("true\0\0\0\0").unwrap();
    assert_eq!(v.as_str(), "true");
    assert_eq!(stored_string::<4>("abcde\0\0").err(), Some(TooLong));
    assert_eq!(stored_string::<8>("a\u{1}b\0").unwrap().as_str(), "ab");
}

#[test]
fn identity_marker() {
    assert!(!WgConfig::is_empty(Some("false")));
    assert!(WgConfig::is_empty(Some("true")));
    assert!(WgConfig::is_empty(Some("garbage")));
    assert!(WgConfig::is_empty(None));
}

#[test]
fn identity_from_form() {
    let body = "address=vpn.example.org&port=51820&privkey=abc%2Bdef&pubkey=xyz&allowedip=10.0.0.2&allowedmask=255.255.255.0";
    let c = WgConfig::from_form(body).unwrap();
    assert_eq!(c.address.as_str(), "vpn.example.org");
    assert_eq!(c.port.as_str(), "51820");
    // percent-decoded by the form decoder
    assert_eq!(c.cli_priv_key.as_str(), "abc+def");
    assert_eq!(c.serv_pub_key.as_str(), "xyz");
    assert_eq!(c.allowed_ip.as_str(), "10.0.0.2");
    assert_eq!(c.allowed_mask.as_str(), "255.255.255.0");
}

#[test]
fn identity_form_errors() {
    // missing field
    assert!(WgConfig::from_form("address=a&port=1&privkey=k&pubkey=p&allowedip=i").is_none());
    // duplicated field
    assert!(WgConfig::from_form("address=a&address=b&port=1&privkey=k&pubkey=p&allowedip=i&allowedmask=m").is_none());
    // value beyond capacity
    assert!(WgConfig::from_form("address=a&port=123456789&privkey=k&pubkey=p&allowedip=i&allowedmask=m").is_none());
    // unknown fields are ignored
    assert!(WgConfig::from_form("x=1&address=a&port=1&privkey=k&pubkey=p&allowedip=i&allowedmask=m").is_some());
}

#[test]
fn other_forms() {
    let w = WifiConfig::from_form("ssid=home+net&passwd=secret&authmethod=WPA2Personal").unwrap();
    assert_eq!(w.ssid.as_str(), "home net");
    assert_eq!(w.password.as_str(), "secret");
    assert_eq!(w.auth_method.as_str(), "WPA2Personal");
    let c = Certificate::from_form("cert=C&certprivkey=K").unwrap();
    assert!(!c.is_empty());
    assert_eq!(c.cert.as_str(), "C");
    assert!(Certificate::from_form("cert=C").is_none());
}

#[test]
fn answer_body() {
    assert_eq!(response_body("HTTP/1.1 200 OK\r\nA: b\r\n\r\naddress=x"), "address=x");
    assert_eq!(response_body("HTTP/1.1 200 OK\r\n\r\nbody\r\n\r\ntrailer"), "body");
    assert_eq!(response_body("no blank line"), "");
    assert_eq!(response_body("\r\n\r\n"), "");
}

#[test]
fn identity_from_answer() {
    let answer = "HTTP/1.1 200 OK\r\nContent-Type: text/plain\r\n\r\naddress=a&port=1&privkey=k&pubkey=p&allowedip=i&allowedmask=m";
    let c = parse_config_response(answer).unwrap();
    assert_eq!(c.allowed_mask.as_str(), "m");
    assert!(matches!(parse_config_response("HTTP/1.1 500 Oops\r\n\r\n"), Err(ProvisioningError::ProvisioningFailed)));
}

fn certificate(cert: &str, key: &str) -> Certificate {
    Certificate { cert: HeaplessString::from_text(cert).unwrap(), privkey: HeaplessString::from_text(key).unwrap() }
}

#[test]
fn requests_need_a_certificate() {
    let none = certificate("", "");
    assert_eq!(request_otp(&none, HOSTNAME, "a@b.c"), Err(ProvisioningError::NoCertificate));
    assert_eq!(verify_otp(&certificate("c", ""), HOSTNAME, "a@b.c", "1234"), Err(ProvisioningError::NoCertificate));
    let cert = certificate("c", "k");
    assert_eq!(
        request_otp(&cert, "h", "a@b.c").unwrap(),
        "GET /gen_otp HTTP/1.1\r\nHost: h\r\nmail: a@b.c\r\nConnection: close\r\n\r\n"
    );
    assert_eq!(
        verify_otp(&cert, "h", "a@b.c", "1234").unwrap(),
        "GET /otp HTTP/1.1\r\nHost: h\r\nmail: a@b.c\r\notp: 1234\r\nConnection: close\r\n\r\n"
    );
}

#[test]
fn otp_form() {
    let r = OtpRequest::from_form("email=a%40b.c&otp=123456").unwrap();
    assert_eq!(r.email.as_str(), "a@b.c");
    assert_eq!(r.otp.as_str(), "123456");
    assert!(OtpRequest::from_form("email=a%40b.c").is_none());
}

#[test]
fn enrollment_gate() {
    assert!(enrollment_allowed(false, false));
    assert!(!enrollment_allowed(true, false));
    assert!(!enrollment_allowed(false, true));
    assert!(!enrollment_allowed(true, true));
}

#[test]
fn tunnel_config_from_identity() {
    let id = WgConfig::from_form("address=a&port=1&privkey=k&pubkey=p&allowedip=i&allowedmask=m").unwrap();
    let t = TunnelConfig::from_identity(&id);
    assert_eq!(t.private_key, "k");
    assert_eq!(t.public_key, "p");
    assert_eq!(t.allowed_ip, "i");
    assert_eq!(t.allowed_ip_mask, "m");
    assert_eq!(t.endpoint, "a");
}

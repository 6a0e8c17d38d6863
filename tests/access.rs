use charizhard::access::{check_ip, Forbidden};

#[test]
fn only_the_host_after_the_gateway() {
    let gateway = u32::from_be_bytes([192, 168, 1, 1]);
    assert_eq!(check_ip(u32::from_be_bytes([192, 168, 1, 2]), gateway), Ok(()));
    assert_eq!(check_ip(u32::from_be_bytes([192, 168, 1, 3]), gateway), Err(Forbidden));
    assert_eq!(check_ip(gateway, gateway), Err(Forbidden));
    assert_eq!(check_ip(0, u32::MAX), Err(Forbidden));
}

use voice_gateway::close::get_safe_close_code;

#[test]
fn legal_codes_pass_through() {
    assert_eq!(get_safe_close_code(1000), 1000);
    assert_eq!(get_safe_close_code(1001), 1001);
    assert_eq!(get_safe_close_code(1011), 1011);
    assert_eq!(get_safe_close_code(3000), 3000);
    assert_eq!(get_safe_close_code(4000), 4000);
    assert_eq!(get_safe_close_code(4999), 4999);
}

#[test]
fn reserved_codes_become_normal_closure() {
    assert_eq!(get_safe_close_code(1004), 1000);
    assert_eq!(get_safe_close_code(1005), 1000);
    assert_eq!(get_safe_close_code(1006), 1000);
    assert_eq!(get_safe_close_code(1015), 1000);
}

#[test]
fn out_of_range_codes_become_normal_closure() {
    assert_eq!(get_safe_close_code(0), 1000);
    assert_eq!(get_safe_close_code(999), 1000);
    assert_eq!(get_safe_close_code(5000), 1000);
    assert_eq!(get_safe_close_code(65535), 1000);
}

#[test]
fn sanitizing_is_idempotent() {
    let samples: Vec<u16> = vec![0, 999, 1000, 1004, 1005, 1006, 1011, 1015, 2500, 4999, 5000];
    for code in samples {
        let once = get_safe_close_code(code);
        assert_eq!(get_safe_close_code(once), once);
    }
}

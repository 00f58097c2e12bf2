use lpr::control::{generate_control_file_and_name, host_or_default, local_control_file_and_name, user_or_default};
use lpr::decimal::decimal_bytes;

#[test]
fn generate_scenario_printhost_alice_42() {
    let host = b"printhost".to_vec();
    let user = b"alice".to_vec();
    let (cf, name) = generate_control_file_and_name(&host, &user, 42);
    assert_eq!(cf, b"Hprinthost\nPalice\nldfA42printhost\n".to_vec());
    assert_eq!(name, b"fA42printhost".to_vec());
}

#[test]
fn generate_is_pure_across_repetition() {
    let host = b"h".to_vec();
    let user = b"u".to_vec();
    let first = generate_control_file_and_name(&host, &user, 7);
    let second = generate_control_file_and_name(&host, &user, 7);
    assert_eq!(first.0, second.0);
    assert_eq!(first.1, second.1);
}

#[test]
fn generate_reduces_pid_modulo_1000() {
    let host = b"box".to_vec();
    let user = b"me".to_vec();
    let (_, name_small) = generate_control_file_and_name(&host, &user, 42);
    let (_, name_large) = generate_control_file_and_name(&host, &user, 1042);
    assert_eq!(name_small, name_large);
    let (_, name_zero) = generate_control_file_and_name(&host, &user, 1000);
    assert_eq!(name_zero, b"fA0box".to_vec());
}

#[test]
fn generate_with_empty_host_and_user() {
    let host = Vec::new();
    let user = Vec::new();
    let (cf, name) = generate_control_file_and_name(&host, &user, 0);
    assert_eq!(cf, b"H\nP\nldfA0\n".to_vec());
    assert_eq!(name, b"fA0".to_vec());
}

#[test]
fn decimal_rendering_exact() {
    assert_eq!(decimal_bytes(0), b"0".to_vec());
    assert_eq!(decimal_bytes(9), b"9".to_vec());
    assert_eq!(decimal_bytes(10), b"10".to_vec());
    assert_eq!(decimal_bytes(999), b"999".to_vec());
    assert_eq!(decimal_bytes(120034), b"120034".to_vec());
}

#[test]
fn fallbacks_apply_only_when_lookup_fails() {
    assert_eq!(host_or_default(None), b"lpr-host".to_vec());
    assert_eq!(user_or_default(None), b"lpr-user".to_vec());
    assert_eq!(host_or_default(Some(b"a-host".to_vec())), b"a-host".to_vec());
    assert_eq!(user_or_default(Some(b"a-user".to_vec())), b"a-user".to_vec());
}

#[test]
fn local_generation_has_the_documented_shape() {
    let (cf, name, host, user) = local_control_file_and_name(42);
    assert_eq!(cf[0], b'H');
    assert!(name.starts_with(b"fA42"));
    assert!(name.ends_with(&host));
    let mut expected = Vec::new();
    expected.push(b'H');
    expected.extend_from_slice(&host);
    expected.push(b'\n');
    expected.push(b'P');
    expected.extend_from_slice(&user);
    expected.push(b'\n');
    expected.extend_from_slice(b"ld");
    expected.extend_from_slice(&name);
    expected.push(b'\n');
    assert_eq!(cf, expected);
}

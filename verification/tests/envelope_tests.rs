use lpr::envelope::{pjl_trailer, wrap};

const TRAILER: &[u8] = b"\x1b%-12345X@PJL EOJ\r\n\x1b%-12345X";

#[test]
fn trailer_is_the_fixed_28_byte_sequence() {
    assert_eq!(pjl_trailer(), TRAILER.to_vec());
    assert_eq!(TRAILER.len(), 28);
}

#[test]
fn wrap_concatenates_header_body_trailer() {
    let header = b"\x1b%-12345X@PJL\r\n".to_vec();
    let body = b"document bytes".to_vec();
    let wrapped = wrap(&header, &body);
    assert_eq!(wrapped.len(), header.len() + body.len() + TRAILER.len());
    assert_eq!(&wrapped[..header.len()], &header[..]);
    assert_eq!(&wrapped[header.len()..header.len() + body.len()], &body[..]);
    assert_eq!(&wrapped[header.len() + body.len()..], TRAILER);
}

#[test]
fn wrap_of_empty_header_and_body_is_the_trailer_alone() {
    let wrapped = wrap(&Vec::new(), &Vec::new());
    assert_eq!(wrapped, TRAILER.to_vec());
}

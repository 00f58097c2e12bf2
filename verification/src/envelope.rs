use vstd::prelude::*;
use crate::bytes::append_bytes;

verus! {

/// The fixed envelope trailer: the escape byte, the universal-exit
/// directive `"%-12345X"`, the end-of-job directive `"@PJL EOJ\r\n"`,
/// then a second escape byte and universal exit.
pub open spec fn pjl_trailer_seq() -> Seq<u8> {
    seq![
        27u8, 37u8, 45u8, 49u8, 50u8, 51u8, 52u8, 53u8, 88u8,
        64u8, 80u8, 74u8, 76u8, 32u8, 69u8, 79u8, 74u8, 13u8, 10u8,
        27u8, 37u8, 45u8, 49u8, 50u8, 51u8, 52u8, 53u8, 88u8,
    ]
}

/// Builds the fixed envelope trailer.
pub fn pjl_trailer() -> (r: Vec<u8>)
    ensures
        r@ == pjl_trailer_seq(),
{
    let mut v: Vec<u8> = Vec::new();
    v.push(27);
    v.push(37);
    v.push(45);
    v.push(49);
    v.push(50);
    v.push(51);
    v.push(52);
    v.push(53);
    v.push(88);
    v.push(64);
    v.push(80);
    v.push(74);
    v.push(76);
    v.push(32);
    v.push(69);
    v.push(79);
    v.push(74);
    v.push(13);
    v.push(10);
    v.push(27);
    v.push(37);
    v.push(45);
    v.push(49);
    v.push(50);
    v.push(51);
    v.push(52);
    v.push(53);
    v.push(88);
    proof {
        assert(v@ =~= pjl_trailer_seq());
    }
    v
}

/// Wraps a payload in the printer-control envelope: the caller-supplied
/// header, then the body, then the fixed trailer, appended verbatim.
pub fn wrap(header: &Vec<u8>, body: &Vec<u8>) -> (r: Vec<u8>)
    ensures
        r@ == header@ + body@ + pjl_trailer_seq(),
{
    let mut v: Vec<u8> = Vec::new();
    append_bytes(&mut v, header);
    append_bytes(&mut v, body);
    let trailer = pjl_trailer();
    append_bytes(&mut v, &trailer);
    proof {
        assert(v@ =~= header@ + body@ + pjl_trailer_seq());
    }
    v
}

/// Law: wrapping adds exactly the fixed trailer. The wrapped payload is
/// as long as the header and body together plus the trailer's 28 bytes,
/// and its last 28 bytes are exactly the trailer.
pub proof fn lemma_wrap_appends_trailer(header: Seq<u8>, body: Seq<u8>)
    ensures
        pjl_trailer_seq().len() == 28,
        (header + body + pjl_trailer_seq()).len() == header.len() + body.len() + 28,
        (header + body + pjl_trailer_seq()).skip(header.len() + body.len() as int)
            == pjl_trailer_seq(),
{
    assert((header + body + pjl_trailer_seq()).skip(header.len() + body.len() as int)
        =~= pjl_trailer_seq());
}

} // verus!

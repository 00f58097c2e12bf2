use vstd::prelude::*;
use crate::bytes::take_prefix;
use crate::error::LprError;

verus! {

/// The index of the first blank-line separator (two consecutive newline
/// bytes) at or after position `i`, or the length of `s` when there is
/// none.
pub open spec fn first_separator_from(s: Seq<u8>, i: int) -> int
    decreases s.len() - i,
{
    if i + 1 >= s.len() {
        s.len() as int
    } else if s[i] == 10 && s[i + 1] == 10 {
        i
    } else {
        first_separator_from(s, i + 1)
    }
}

/// The status text: everything strictly before the first blank-line
/// separator, or the whole response when it has none.
pub open spec fn status_prefix_seq(s: Seq<u8>) -> Seq<u8> {
    s.take(first_separator_from(s, 0))
}

/// The separator index lies between the starting point and the end.
pub proof fn lemma_first_separator_bounds(s: Seq<u8>, i: int)
    requires
        0 <= i <= s.len(),
    ensures
        i <= first_separator_from(s, i) <= s.len(),
    decreases s.len() - i,
{
    if i + 1 >= s.len() {
    } else if s[i] == 10 && s[i + 1] == 10 {
    } else {
        lemma_first_separator_bounds(s, i + 1);
    }
}

/// The two-byte status-request frame: the command byte `0x04` and a
/// newline, asking the server for its default queue's status.
pub fn status_request_frame() -> (r: Vec<u8>)
    ensures
        r@ == seq![4u8, 10u8],
{
    let mut v: Vec<u8> = Vec::new();
    v.push(4);
    v.push(10);
    proof {
        assert(v@ =~= seq![4u8, 10u8]);
    }
    v
}

/// Judges the transport's report of how many bytes of the two-byte
/// status request went out in one call: anything but exactly two is a
/// fatal incomplete write, never retried.
pub fn validate_status_write(written: usize) -> (r: Result<(), LprError>)
    ensures
        written == 2 <==> r is Ok,
        r is Err ==> r == Err::<(), LprError>(LprError::IncompleteWrite),
{
    if written == 2 {
        Ok(())
    } else {
        Err(LprError::IncompleteWrite)
    }
}

/// Cuts the server's status response at the first blank-line separator
/// and returns the text before it (the whole response when it has none).
pub fn parse_status_response(buf: &Vec<u8>) -> (r: Vec<u8>)
    ensures
        r@ == status_prefix_seq(buf@),
{
    let n = buf.len();
    let mut i: usize = 0;
    while i + 1 < n && !(buf[i] == 10 && buf[i + 1] == 10)
        invariant
            n == buf@.len(),
            i == 0 || i < n,
            first_separator_from(buf@, 0) == first_separator_from(buf@, i as int),
        decreases n - i,
    {
        proof {
            assert(first_separator_from(buf@, i as int)
                == first_separator_from(buf@, i as int + 1));
        }
        i = i + 1;
    }
    let end: usize = if i + 1 < n {
        i
    } else {
        n
    };
    proof {
        assert(first_separator_from(buf@, i as int) == end as int);
        lemma_first_separator_bounds(buf@, 0);
    }
    take_prefix(buf, end)
}

} // verus!

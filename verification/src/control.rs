use vstd::prelude::*;
use crate::bytes::append_bytes;
use crate::decimal::{decimal_bytes, decimal_digits};

verus! {

/// The job name: the literal `"fA"`, the decimal process identifier
/// reduced modulo 1000, then the host name.
pub open spec fn job_name_seq(pid: nat, host: Seq<u8>) -> Seq<u8> {
    seq![102u8, 65u8] + decimal_digits(pid % 1000) + host
}

/// The control-file text: the three newline-terminated lines
/// `H<host>`, `P<user>`, `ld<job name>`, with no trailing blank line.
pub open spec fn control_file_seq(host: Seq<u8>, user: Seq<u8>, pid: nat) -> Seq<u8> {
    seq![72u8] + host + seq![10u8]
        + seq![80u8] + user + seq![10u8]
        + seq![108u8, 100u8] + job_name_seq(pid, host) + seq![10u8]
}

/// The host name used when the system cannot supply one: `"lpr-host"`.
pub open spec fn default_host_seq() -> Seq<u8> {
    seq![108u8, 112u8, 114u8, 45u8, 104u8, 111u8, 115u8, 116u8]
}

/// The user name used when the system cannot supply one: `"lpr-user"`.
pub open spec fn default_user_seq() -> Seq<u8> {
    seq![108u8, 112u8, 114u8, 45u8, 117u8, 115u8, 101u8, 114u8]
}

/// Builds the job name for one submission.
pub fn job_name(host: &Vec<u8>, pid: u32) -> (r: Vec<u8>)
    ensures
        r@ == job_name_seq(pid as nat, host@),
{
    let mut v: Vec<u8> = Vec::new();
    v.push(102);
    v.push(65);
    let digits = decimal_bytes((pid % 1000) as u64);
    append_bytes(&mut v, &digits);
    append_bytes(&mut v, host);
    proof {
        assert(v@ =~= job_name_seq(pid as nat, host@));
    }
    v
}

/// Builds the control-file text and the job name for one submission.
/// Both are pure functions of the three inputs, so repeated calls with
/// the same inputs agree.
pub fn generate_control_file_and_name(host: &Vec<u8>, user: &Vec<u8>, pid: u32) -> (r: (
    Vec<u8>,
    Vec<u8>,
))
    ensures
        r.0@ == control_file_seq(host@, user@, pid as nat),
        r.1@ == job_name_seq(pid as nat, host@),
{
    let name = job_name(host, pid);
    let mut cf: Vec<u8> = Vec::new();
    cf.push(72);
    append_bytes(&mut cf, host);
    cf.push(10);
    cf.push(80);
    append_bytes(&mut cf, user);
    cf.push(10);
    cf.push(108);
    cf.push(100);
    append_bytes(&mut cf, &name);
    cf.push(10);
    proof {
        assert(cf@ =~= control_file_seq(host@, user@, pid as nat));
    }
    (cf, name)
}

/// Relies on `hostname::get_hostname`: the local machine's host name as
/// the system reports it, or `None` when it cannot be read. The result
/// depends on the environment, so nothing is promised of it.
#[verifier::external_body]
fn lookup_hostname() -> Option<Vec<u8>> {
    hostname::get_hostname().map(|s| s.into_bytes())
}

/// Relies on `username::get_user_name`: the name of the user running the
/// current process, or `None` when it cannot be read. The result depends
/// on the environment, so nothing is promised of it.
#[verifier::external_body]
fn lookup_username() -> Option<Vec<u8>> {
    match username::get_user_name() {
        Ok(s) => Some(s.into_bytes()),
        Err(_) => None,
    }
}

/// The looked-up host name, or the documented fallback when the lookup failed.
pub fn host_or_default(looked_up: Option<Vec<u8>>) -> (r: Vec<u8>)
    ensures
        match looked_up {
            Some(h) => r@ == h@,
            None => r@ == default_host_seq(),
        },
{
    match looked_up {
        Some(h) => h,
        None => {
            let mut d: Vec<u8> = Vec::new();
            d.push(108);
            d.push(112);
            d.push(114);
            d.push(45);
            d.push(104);
            d.push(111);
            d.push(115);
            d.push(116);
            proof {
                assert(d@ =~= default_host_seq());
            }
            d
        },
    }
}

/// The looked-up user name, or the documented fallback when the lookup failed.
pub fn user_or_default(looked_up: Option<Vec<u8>>) -> (r: Vec<u8>)
    ensures
        match looked_up {
            Some(u) => r@ == u@,
            None => r@ == default_user_seq(),
        },
{
    match looked_up {
        Some(u) => u,
        None => {
            let mut d: Vec<u8> = Vec::new();
            d.push(108);
            d.push(112);
            d.push(114);
            d.push(45);
            d.push(117);
            d.push(115);
            d.push(101);
            d.push(114);
            proof {
                assert(d@ =~= default_user_seq());
            }
            d
        },
    }
}

/// Resolves the local host and user names through the system (with the
/// documented fallbacks) and returns them beside the control-file text
/// and job name they generate. The caller supplies the process
/// identifier, so the generation itself stays deterministic.
pub fn local_control_file_and_name(pid: u32) -> (r: (Vec<u8>, Vec<u8>, Vec<u8>, Vec<u8>))
    ensures
        r.0@ == control_file_seq(r.2@, r.3@, pid as nat),
        r.1@ == job_name_seq(pid as nat, r.2@),
{
    let host = host_or_default(lookup_hostname());
    let user = user_or_default(lookup_username());
    let (cf, name) = generate_control_file_and_name(&host, &user, pid);
    (cf, name, host, user)
}

} // verus!

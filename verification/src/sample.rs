//! The sample route of a plugin surface, which takes its time to answer.

use crate::routes::path_of;
use crate::text::str_eq;
use vstd::prelude::*;
use vstd::string::StringExecFns;

verus! {

/// `rand::random` for a byte. Nothing is claimed of the byte.
#[verifier::external_body]
fn random_byte() -> u8 {
    rand::random()
}

/// The milliseconds that the sample route waits when it drew `wait`.
pub open spec fn delay_for(wait: u8) -> u64 {
    (100 + wait / 5) as u64
}

/// The milliseconds that the sample route waits when it drew `wait`: a tenth
/// of a second and up to about half as much again.
pub fn sample_delay_ms(wait: u8) -> (delay: u64)
    ensures
        delay == delay_for(wait),
        100 <= delay <= 151,
{
    let part: u8 = wait / 5;
    let total: u8 = 100 + part;
    total as u64
}

/// Draws the wait of one request to the sample route, in milliseconds.
pub fn draw_sample_delay_ms() -> (delay: u64)
    ensures
        100 <= delay <= 151,
{
    sample_delay_ms(random_byte())
}

/// The base path under which the sample surface is served.
pub fn sample_basepath() -> (basepath: &'static str)
    ensures
        basepath@ == "sample"@,
{
    "sample"
}

/// Whether a request is for the sample route under `basepath`: a `GET` for
/// `/basepath/sample1`.
pub fn is_sample_request(basepath: &str, method: &str, path: &str) -> (hit: bool)
    ensures
        hit == (method@ == "GET"@ && path@ == path_of(basepath@, "sample1"@)),
{
    proof {
        reveal_strlit("/");
    }
    let mut wanted = String::from_str("/");
    wanted.append(basepath);
    wanted.append("/");
    wanted.append("sample1");
    assert(wanted@ =~= path_of(basepath@, "sample1"@)) by {
        assert("/"@ =~= seq!['/']);
    }
    str_eq(method, "GET") && str_eq(path, wanted.as_str())
}

/// The body with which the sample route answers.
pub fn sample_body() -> (body: &'static str)
    ensures
        body@ == "Sample"@,
{
    "Sample"
}

} // verus!

//! How the outcome of a sidecar run becomes a result.

use vstd::prelude::*;

verus! {

/// Message used when the sidecar fails without writing to standard error.
pub const SIDECAR_FAILED: &'static str = "Sidecar execution failed";

/// The text `String::from_utf8_lossy` makes of `bytes`.
pub uninterp spec fn utf8_lossy(bytes: Seq<u8>) -> Seq<char>;

/// Relies on `String::from_utf8_lossy`: the bytes decoded as UTF-8, each
/// invalid sequence replaced by U+FFFD; no bytes give no text, and some
/// bytes give some text.
#[verifier::external_body]
fn decode_lossy(bytes: &[u8]) -> (r: String)
    ensures
        r@ == utf8_lossy(bytes@),
        bytes@.len() == 0 ==> r@.len() == 0,
        bytes@.len() > 0 ==> r@.len() > 0,
{
    String::from_utf8_lossy(bytes).into_owned()
}

/// The result of a sidecar run given its decoded output: standard output on
/// success; on failure standard error, or the generic message when that is
/// empty.
pub fn sidecar_result(success: bool, stdout: String, stderr: String) -> (r: Result<String, String>)
    ensures
        success ==> (r matches Ok(o) && o@ == stdout@),
        !success && stderr@.len() == 0 ==> (r matches Err(e) && e@ == SIDECAR_FAILED@),
        !success && stderr@.len() > 0 ==> (r matches Err(e) && e@ == stderr@),
{
    if success {
        Ok(stdout)
    } else if stderr.unicode_len() == 0 {
        Err(String::from_str(SIDECAR_FAILED))
    } else {
        Err(stderr)
    }
}

/// The result of a sidecar run given its exit status and raw output, each
/// stream decoded as lossy UTF-8.
pub fn call_backend(success: bool, stdout: &[u8], stderr: &[u8]) -> (r: Result<String, String>)
    ensures
        success ==> (r matches Ok(o) && o@ == utf8_lossy(stdout@)),
        !success && utf8_lossy(stderr@).len() == 0 ==> (r matches Err(e) && e@ == SIDECAR_FAILED@),
        !success && utf8_lossy(stderr@).len() > 0 ==> (r matches Err(e) && e@ == utf8_lossy(stderr@)),
        !success && stderr@.len() == 0 ==> (r matches Err(e) && e@ == SIDECAR_FAILED@),
        !success && stderr@.len() > 0 ==> (r matches Err(e) && e@ == utf8_lossy(stderr@)),
{
    let out = decode_lossy(stdout);
    let err = decode_lossy(stderr);
    sidecar_result(success, out, err)
}

} // verus!

use vstd::prelude::*;
use vstd::string::StringSliceAdditionalSpecFns;

verus! {

/// The CRC-32 checksum of a byte string.
pub uninterp spec fn crc32_of(b: Seq<u8>) -> u32;

/// Relies on `crc32fast::hash`: the CRC-32 of the bytes, a function of them alone.
#[verifier::external_body]
fn crc32(b: &[u8]) -> (r: u32)
    ensures
        r == crc32_of(b@),
{
    crc32fast::hash(b)
}

/// Hashes at or below this value keep their file in fast mode: about a tenth of
/// the hash space.
pub const FAST_SAMPLE_LIMIT: u32 = 429496729;

/// Whether a file whose path hashes to `h` is kept in fast mode.
pub open spec fn keeps_hash(h: u32) -> bool {
    h <= FAST_SAMPLE_LIMIT
}

/// Whether fast mode keeps the file at path `p` (as UTF-8 text).
pub open spec fn keeps_path(p: Seq<char>) -> bool {
    keeps_hash(crc32_of(vstd::utf8::encode_utf8(p)))
}

/// Fast-mode decision for a file whose path has already been hashed.
pub fn keep_hash(h: u32) -> (r: bool)
    ensures
        r == keeps_hash(h),
{
    h <= FAST_SAMPLE_LIMIT
}

/// Fast-mode decision for the file at `path`: keep it only when the CRC-32 of
/// the path's bytes falls in the lowest tenth of the hash space.
pub fn fast_keep(path: &str) -> (r: bool)
    ensures
        r == keeps_path(path@),
{
    let h = crc32(path.as_bytes());
    keep_hash(h)
}

/// The fast-mode decision depends on the path alone: equal paths get the same
/// decision, whichever implementation is being measured and whenever it is asked.
pub proof fn lemma_fast_keep_deterministic(p: Seq<char>, q: Seq<char>)
    requires
        p == q,
    ensures
        keeps_path(p) == keeps_path(q),
{
}

} // verus!

//! Cache validation: whether an existing local file can be trusted
//! without re-downloading.  The cheap freshness signal is an MD5 digest
//! the remote side exposes as base64-encoded transport metadata; any
//! ambiguity is resolved in favor of re-downloading.

use base64::Engine;
use vstd::prelude::*;

verus! {

/// The MD5 digest of a byte sequence, as computed by the `md5` crate.
pub uninterp spec fn md5_of(bytes: Seq<u8>) -> Seq<u8>;

/// What base64 decoding with the standard alphabet yields: the decoded
/// bytes, or `None` for text that is not valid base64.
pub uninterp spec fn base64_decode_of(text: Seq<u8>) -> Option<Seq<u8>>;

/// A local file is a valid cache entry exactly when the remote digest
/// header is present, the file is present with exactly the expected
/// size, and the base64-decoded header equals the file's MD5 digest.
pub open spec fn spec_is_cached(
    expected_size: nat,
    md5_header: Option<Seq<u8>>,
    local_file: Option<Seq<u8>>,
) -> bool {
    match (md5_header, local_file) {
        (Some(header), Some(file)) => file.len() == expected_size && base64_decode_of(header)
            == Some(md5_of(file)),
        _ => false,
    }
}

/// Decides whether the local copy can be trusted.  `md5_header` is the
/// digest header a metadata probe of the remote object produced, if the
/// probe succeeded and the header was present; `local_file` is the full
/// content of the local file, if it could be read.  Never errs: every
/// failure or mismatch conservatively answers "not cached".
pub fn is_cached(
    expected_size: usize,
    md5_header: Option<Vec<u8>>,
    local_file: Option<Vec<u8>>,
) -> (r: bool)
    ensures
        r == spec_is_cached(expected_size as nat, md5_header.deep_view(), local_file.deep_view()),
{
    match (md5_header, local_file) {
        (Some(header), Some(file)) => {
            proof {
                assert(header.deep_view() =~= header@);
                assert(file.deep_view() =~= file@);
            }
            if file.len() != expected_size {
                return false;
            }
            let digest = md5_digest(&file);
            match base64_decode(&header) {
                Some(decoded) => {
                    let eq = decoded == digest;
                    proof {
                        if eq {
                            assert(decoded@ =~= digest@);
                        }
                    }
                    eq
                },
                None => false,
            }
        },
        _ => false,
    }
}

/// Cache validation is conservative: a failed metadata probe or missing
/// digest header, a missing local file, or a local file of the wrong
/// size can never validate the cache.
pub proof fn lemma_cache_conservative(
    expected_size: nat,
    md5_header: Option<Seq<u8>>,
    local_file: Option<Seq<u8>>,
)
    requires
        md5_header is None || local_file is None || (local_file matches Some(file)
            && file.len() != expected_size),
    ensures
        !spec_is_cached(expected_size, md5_header, local_file),
{
}

/// A local file whose MD5 digest equals the decoded remote digest and
/// whose length equals the expected size validates the cache.
pub proof fn lemma_cache_hit(expected_size: nat, md5_header: Seq<u8>, local_file: Seq<u8>)
    requires
        local_file.len() == expected_size,
        base64_decode_of(md5_header) == Some(md5_of(local_file)),
    ensures
        spec_is_cached(expected_size, Some(md5_header), Some(local_file)),
{
}

/// Relies on `md5::compute`: the MD5 digest of the input, 16 bytes.
#[verifier::external_body]
fn md5_digest(bytes: &Vec<u8>) -> (r: Vec<u8>)
    ensures
        r@ == md5_of(bytes@),
{
    md5::compute(bytes.as_slice()).0.to_vec()
}

/// Relies on the `base64` crate's `GeneralPurpose` engine with the
/// standard alphabet and default configuration (canonical padding
/// required): decodes base64 text, failing exactly on invalid input.
#[verifier::external_body]
fn base64_decode(text: &Vec<u8>) -> (r: Option<Vec<u8>>)
    ensures
        r is Some <==> base64_decode_of(text@) is Some,
        r matches Some(v) ==> base64_decode_of(text@) == Some(v@),
{
    let engine = base64::engine::GeneralPurpose::new(
        &base64::alphabet::STANDARD,
        base64::engine::GeneralPurposeConfig::new(),
    );
    match engine.decode(text.as_slice()) {
        Ok(v) => Some(v),
        Err(_) => None,
    }
}

} // verus!

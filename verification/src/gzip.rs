use vstd::prelude::*;

verus! {

/// What the gzip stream `compressed` inflates to: its decompressed
/// payload, or nothing when the stream is not a well-formed gzip
/// archive. Decompression is a function of the input bytes alone.
pub uninterp spec fn gunzip_of(compressed: Seq<u8>) -> Option<Seq<u8>>;

/// Relies on flate2's `GzDecoder` over an in-memory byte slice,
/// driven by `std::io::Read::read_to_end`: inflating a gzip archive
/// deterministically yields its payload, or an error for a stream
/// that is not well-formed gzip.
#[verifier::external_body]
pub(crate) fn gunzip(compressed: &Vec<u8>) -> (r: Option<Vec<u8>>)
    ensures
        match r {
            Some(v) => gunzip_of(compressed@) == Some(v@),
            None => gunzip_of(compressed@) is None,
        },
{
    let mut gz = flate2::bufread::GzDecoder::new(&compressed[..]);
    let mut bytes = Vec::new();
    match std::io::Read::read_to_end(&mut gz, &mut bytes) {
        Ok(_) => Some(bytes),
        Err(_) => None,
    }
}

} // verus!

//! Raw deflate compression, done by `miniz_oxide`.

use vstd::prelude::*;

verus! {

/// The raw deflate stream that `miniz_oxide` produces for `data` at the
/// effort `level`. The stream is determined by the two arguments alone; what
/// it holds byte for byte is the compressor's business and is not stated here.
pub uninterp spec fn deflated(data: Seq<u8>, level: u8) -> Seq<u8>;

/// `miniz_oxide::deflate::compress_to_vec` compresses `input` into a fresh
/// vector, without a zlib wrapper. It accepts every input and every level
/// (levels above ten count as ten). The contract claims only that the bytes
/// it returns are the stream named [`deflated`] for these arguments, which
/// is not proved: the compressor is not verified.
pub assume_specification[ miniz_oxide::deflate::compress_to_vec ](input: &[u8], level: u8) -> (stream: Vec<u8>)
    ensures
        stream@ == deflated(input@, level),
;

} // verus!

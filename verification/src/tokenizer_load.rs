use vstd::prelude::*;

verus! {

#[verifier::external_type_specification]
#[verifier::external_body]
pub struct ExTokenizer(tokenizers::Tokenizer);

/// Which byte sequences are a well-formed serialized tokenizer definition,
/// exactly those that `tokenizers::Tokenizer::from_bytes` accepts.
pub uninterp spec fn tokenizer_bytes_well_formed(bytes: Seq<u8>) -> bool;

/// Relies on `tokenizers::Tokenizer::from_bytes`: deserializes a tokenizer
/// from the JSON bytes of its definition, and fails exactly on malformed
/// input; the outcome depends on the bytes alone.
#[verifier::external_body]
pub(crate) fn tokenizer_from_bytes(bytes: &Vec<u8>) -> (r: Result<tokenizers::Tokenizer, String>)
    ensures
        r is Ok <==> tokenizer_bytes_well_formed(bytes@),
{
    match tokenizers::Tokenizer::from_bytes(bytes.as_slice()) {
        Ok(t) => Ok(t),
        Err(e) => Err(e.to_string()),
    }
}

} // verus!

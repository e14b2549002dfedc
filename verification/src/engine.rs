use vstd::prelude::*;
use tokenizers::tokenizer::{PaddingDirection, PaddingParams, PaddingStrategy};
use crate::encoding::mask_binary;
use crate::status::{HFTPaddingDirection, HFTPaddingStrategy};

verus! {

// The tokenization engine itself — vocabulary loading, subword
// segmentation, padding of a batch, reconstruction of text from ids — is an
// external collaborator. This module declares the engine types that flow
// through the boundary and wraps each engine call that the boundary makes.
// Everything the rest of the crate proves about a call rests on the
// contract written here.

#[verifier::external_type_specification]
#[verifier::external_body]
pub struct ExTokenizer(tokenizers::Tokenizer);

#[verifier::external_type_specification]
#[verifier::external_body]
pub struct ExEncoding(tokenizers::tokenizer::Encoding);

/// What `str::from_utf8` / `String::from_utf8` decide for a byte sequence:
/// `Some` with the decoded characters when the bytes are well-formed UTF-8,
/// `None` otherwise. The result depends on the bytes alone.
pub uninterp spec fn utf8_decode(bytes: Seq<u8>) -> Option<Seq<char>>;

/// The token ids held by an engine encoding, as `Encoding::get_ids`
/// hands them out.
pub uninterp spec fn enc_ids(e: tokenizers::tokenizer::Encoding) -> Seq<u32>;

/// The type ids held by an engine encoding, as `Encoding::get_type_ids`
/// hands them out.
pub uninterp spec fn enc_type_ids(e: tokenizers::tokenizer::Encoding) -> Seq<u32>;

/// The attention mask held by an engine encoding, as
/// `Encoding::get_attention_mask` hands it out.
pub uninterp spec fn enc_attention_mask(e: tokenizers::tokenizer::Encoding) -> Seq<u32>;

/// What `TokenizerImpl::decode` returns for one id sequence: the
/// reconstructed text as UTF-8 bytes, or `None` where the engine reports
/// an error. The reconstruction is id lookups plus the configured
/// decoder, so the result depends on the engine state and the arguments
/// alone.
pub uninterp spec fn decode_of(
    t: tokenizers::Tokenizer,
    ids: Seq<u32>,
    skip_special_tokens: bool,
) -> Option<Seq<u8>>;

/// The engine state after `TokenizerImpl::with_padding` stores the given
/// padding parameters: a function of the previous state and the
/// parameters alone.
pub uninterp spec fn engine_with_padding(
    t: tokenizers::Tokenizer,
    strategy: HFTPaddingStrategy,
    size: usize,
    direction: HFTPaddingDirection,
    pad_to_multiple_of: Option<usize>,
    pad_id: u32,
    pad_type_id: u32,
    pad_token: Seq<char>,
) -> tokenizers::Tokenizer;

/// The engine state after `TokenizerImpl::add_tokens` registers one added
/// token with the given flags: a function of the previous state, the
/// token and the flags alone.
pub uninterp spec fn engine_with_added_token(
    t: tokenizers::Tokenizer,
    token: Seq<char>,
    single_word: bool,
    lstrip: bool,
    rstrip: bool,
    normalized: bool,
    special: bool,
) -> tokenizers::Tokenizer;

/// An engine encoding as the encode pipeline builds it: the three
/// sequences share one length and the attention mask holds only zeros and
/// ones. Every site in the engine that builds, merges, truncates or pads
/// an encoding keeps these two facts.
pub open spec fn well_formed_encoding(e: tokenizers::tokenizer::Encoding) -> bool {
    &&& enc_type_ids(e).len() == enc_ids(e).len()
    &&& enc_attention_mask(e).len() == enc_ids(e).len()
    &&& mask_binary(enc_attention_mask(e))
}

/// Relies on `String::from_utf8`: it returns `Ok` exactly on well-formed
/// UTF-8 input, and then the returned string holds the decoded characters
/// of those bytes. Both facts depend on the bytes alone.
#[verifier::external_body]
pub fn utf8_to_string(bytes: &Vec<u8>) -> (r: Option<String>)
    ensures
        r is Some <==> utf8_decode(bytes@) is Some,
        r matches Some(s) ==> s@ == utf8_decode(bytes@).unwrap(),
{
    String::from_utf8(bytes.clone()).ok()
}

/// Relies on `tokenizers::Tokenizer::from_file`: it reads the model file at
/// the given path and deserializes an engine from it. Whether it succeeds
/// depends on what is on disk, so nothing is promised of the outcome.
#[verifier::external_body]
pub fn engine_from_file(path: &String) -> Option<tokenizers::Tokenizer> {
    tokenizers::Tokenizer::from_file(path.as_str()).ok()
}

/// Relies on `TokenizerImpl::encode_batch` (reached through
/// `Tokenizer`'s `Deref`): it encodes each input in order and collects the
/// results, so on success it returns exactly one encoding per input, and
/// each is well-formed as the encode pipeline builds it.
#[verifier::external_body]
pub fn engine_encode_batch(
    tokenizer: &tokenizers::Tokenizer,
    inputs: Vec<String>,
    add_special_tokens: bool,
) -> (r: Option<Vec<tokenizers::tokenizer::Encoding>>)
    ensures
        r matches Some(encodings) ==> encodings@.len() == inputs@.len() && forall|i: int|
            0 <= i < encodings@.len() ==> well_formed_encoding(#[trigger] encodings@[i]),
{
    tokenizer.encode_batch(inputs, add_special_tokens).ok()
}

/// Relies on `TokenizerImpl::decode_batch` (reached through
/// `Tokenizer`'s `Deref`): it maps `decode` over the sequences and
/// collects the results, so on success it returns, in order, exactly the
/// decode of each input sequence, and it fails exactly when some decode
/// fails. The strings are handed on as their UTF-8 bytes.
#[verifier::external_body]
pub fn engine_decode_batch(
    tokenizer: &tokenizers::Tokenizer,
    sentences: &Vec<Vec<u32>>,
    skip_special_tokens: bool,
) -> (r: Option<Vec<Vec<u8>>>)
    ensures
        r matches Some(outputs) ==> outputs@.len() == sentences@.len() && forall|i: int|
            0 <= i < outputs@.len() ==> decode_of(*tokenizer, sentences@[i]@, skip_special_tokens)
                is Some && (#[trigger] outputs@[i])@ == decode_of(
                *tokenizer,
                sentences@[i]@,
                skip_special_tokens,
            ).unwrap(),
        r is None ==> exists|i: int|
            0 <= i < sentences@.len() && decode_of(
                *tokenizer,
                (#[trigger] sentences@[i])@,
                skip_special_tokens,
            ) is None,
{
    let refs: Vec<&[u32]> = sentences.iter().map(|s| s.as_slice()).collect();
    match tokenizer.decode_batch(&refs, skip_special_tokens) {
        Ok(decoded) => Some(decoded.into_iter().map(|s| s.into_bytes()).collect()),
        Err(_) => None,
    }
}

/// Relies on `TokenizerImpl::with_padding` (reached through `Tokenizer`'s
/// `Deref`): it stores the given padding parameters on the engine, a
/// deterministic state update named by `engine_with_padding`.
#[verifier::external_body]
pub fn engine_set_padding(
    tokenizer: &mut tokenizers::Tokenizer,
    strategy: HFTPaddingStrategy,
    size: usize,
    direction: HFTPaddingDirection,
    pad_to_multiple_of: Option<usize>,
    pad_id: u32,
    pad_type_id: u32,
    pad_token: String,
)
    ensures
        *final(tokenizer) == engine_with_padding(
            *old(tokenizer),
            strategy,
            size,
            direction,
            pad_to_multiple_of,
            pad_id,
            pad_type_id,
            pad_token@,
        ),
{
    let strategy = match strategy {
        HFTPaddingStrategy::BatchLongest => PaddingStrategy::BatchLongest,
        HFTPaddingStrategy::Fixed => PaddingStrategy::Fixed(size),
    };
    let direction = match direction {
        HFTPaddingDirection::Left => PaddingDirection::Left,
        HFTPaddingDirection::Right => PaddingDirection::Right,
    };
    let params = PaddingParams {
        strategy, direction, pad_to_multiple_of, pad_id, pad_type_id, pad_token,
    };
    tokenizer.with_padding(Some(params));
}

/// Relies on `TokenizerImpl::add_tokens` (reached through `Tokenizer`'s
/// `Deref`): it registers the given token in the engine's added-token
/// table, a deterministic state update named by `engine_with_added_token`.
/// The count it reports is not part of the boundary contract and is
/// discarded.
#[verifier::external_body]
pub fn engine_add_token(
    tokenizer: &mut tokenizers::Tokenizer,
    token: String,
    single_word: bool,
    lstrip: bool,
    rstrip: bool,
    normalized: bool,
    special: bool,
)
    ensures
        *final(tokenizer) == engine_with_added_token(
            *old(tokenizer),
            token@,
            single_word,
            lstrip,
            rstrip,
            normalized,
            special,
        ),
{
    let added = tokenizers::tokenizer::AddedToken::from(token, special)
        .single_word(single_word)
        .lstrip(lstrip)
        .rstrip(rstrip)
        .normalized(normalized);
    let _ = tokenizer.add_tokens(vec![added]);
}

/// Relies on `Encoding::get_ids`: it hands out the token ids the encoding
/// holds, a function of the encoding value alone.
#[verifier::external_body]
pub fn encoding_ids(encoding: &tokenizers::tokenizer::Encoding) -> (r: Vec<u32>)
    ensures
        r@ == enc_ids(*encoding),
{
    encoding.get_ids().to_vec()
}

/// Relies on `Encoding::get_type_ids`: it hands out the type ids the
/// encoding holds, a function of the encoding value alone.
#[verifier::external_body]
pub fn encoding_type_ids(encoding: &tokenizers::tokenizer::Encoding) -> (r: Vec<u32>)
    ensures
        r@ == enc_type_ids(*encoding),
{
    encoding.get_type_ids().to_vec()
}

/// Relies on `Encoding::get_attention_mask`: it hands out the attention
/// mask the encoding holds, a function of the encoding value alone.
#[verifier::external_body]
pub fn encoding_attention_mask(encoding: &tokenizers::tokenizer::Encoding) -> (r: Vec<u32>)
    ensures
        r@ == enc_attention_mask(*encoding),
{
    encoding.get_attention_mask().to_vec()
}

} // verus!

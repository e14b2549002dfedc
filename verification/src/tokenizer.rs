use vstd::prelude::*;
use crate::decoding::HFTDecoding;
use crate::encoding::{mask_binary, HFTEncoding};
use crate::engine::{
    decode_of, engine_add_token, engine_decode_batch, engine_encode_batch, engine_from_file,
    engine_set_padding, engine_with_added_token, engine_with_padding, utf8_decode, utf8_to_string,
    well_formed_encoding,
};
use crate::marshal::{
    all_sequences_valid, all_strings_valid, marshal_sequences, marshal_strings, wrap_decodings,
    wrap_encodings,
};
use crate::status::{HFTPaddingDirection, HFTPaddingStrategy, HFTStatus};

verus! {

/// An owned tokenizer handle: the loaded engine state — vocabulary, merge
/// rules, padding configuration, added-token table. At the boundary the
/// caller holds it as an opaque handle from successful creation until
/// explicit release; configuration calls replace the engine state in
/// place, encode and decode calls read it.
pub struct HFTTokenizer {
    tokenizer: tokenizers::Tokenizer,
}

impl View for HFTTokenizer {
    type V = tokenizers::Tokenizer;

    closed spec fn view(&self) -> tokenizers::Tokenizer {
        self.tokenizer
    }
}

impl HFTTokenizer {
    /// Wraps an already-built engine into a tokenizer handle.
    pub fn new(tokenizer: tokenizers::Tokenizer) -> (r: HFTTokenizer)
        ensures
            r@ == tokenizer,
    {
        HFTTokenizer { tokenizer }
    }
}

/// Creates a tokenizer handle from a model file. The path arrives as the
/// bytes of the caller's string; an absent path or one that is not
/// well-formed UTF-8 is an invalid argument, and an engine failure to
/// load the file — unreadable, malformed — collapses to
/// `InvalidOperation`. A handle is produced exactly when the status is
/// `Success`; on any failure no handle is allocated.
pub fn hft_tokenizer_create_from_file(path: Option<&Vec<u8>>) -> (r: (
    HFTStatus,
    Option<HFTTokenizer>,
))
    ensures
        r.0 == HFTStatus::Success <==> r.1 is Some,
        path is None ==> r.0 == HFTStatus::InvalidArgument,
        path matches Some(p) ==> (utf8_decode(p@) is None ==> r.0 == HFTStatus::InvalidArgument),
        path matches Some(p) ==> (utf8_decode(p@) is Some ==> r.0 == HFTStatus::Success || r.0
            == HFTStatus::InvalidOperation),
        r.0 == HFTStatus::InvalidOperation ==> (path matches Some(p) && utf8_decode(p@) is Some),
        r.0 == HFTStatus::InvalidArgument || r.0 == HFTStatus::Success || r.0
            == HFTStatus::InvalidOperation,
{
    match path {
        Some(p) => {
            match utf8_to_string(p) {
                Some(path_str) => {
                    match engine_from_file(&path_str) {
                        Some(tokenizer) => (
                            HFTStatus::Success,
                            Some(HFTTokenizer { tokenizer }),
                        ),
                        None => (HFTStatus::InvalidOperation, None),
                    }
                }
                None => (HFTStatus::InvalidArgument, None),
            }
        }
        None => (HFTStatus::InvalidArgument, None),
    }
}

/// Releases a tokenizer handle: the handle is consumed and its storage
/// freed. An absent handle is an invalid argument, not a no-op, so that
/// caller bugs surface early.
pub fn hft_tokenizer_release(tokenizer: Option<HFTTokenizer>) -> (r: HFTStatus)
    ensures
        r == HFTStatus::Success <==> tokenizer is Some,
        tokenizer is None ==> r == HFTStatus::InvalidArgument,
{
    match tokenizer {
        Some(_) => HFTStatus::Success,
        None => HFTStatus::InvalidArgument,
    }
}

/// Configures padding on the tokenizer and hands the handle back. The
/// handle is taken and returned so that the configuration is a whole-value
/// update; the caller gets its handle back in every case in which it
/// passed one. An absent handle or pad token, a pad token that is not
/// well-formed UTF-8, or the fixed strategy with a non-positive size, is
/// an invalid argument and the handle is handed back unchanged before any
/// engine interaction. On success the handle holds the engine state after
/// `with_padding` stores exactly the passed parameters: the fixed size
/// where the strategy is fixed, and a stride greater than one as the
/// engine's pad-to-multiple-of setting.
pub fn hft_tokenizer_set_padding(
    tokenizer: Option<HFTTokenizer>,
    strategy: HFTPaddingStrategy,
    size: i32,
    direction: HFTPaddingDirection,
    stride: i32,
    pad_id: u32,
    pad_type_id: u32,
    pad_token: Option<&Vec<u8>>,
) -> (r: (HFTStatus, Option<HFTTokenizer>))
    ensures
        r.1 is Some <==> tokenizer is Some,
        r.0 == HFTStatus::Success || r.0 == HFTStatus::InvalidArgument,
        tokenizer is None || pad_token is None ==> r.0 == HFTStatus::InvalidArgument && r.1
            == tokenizer,
        pad_token matches Some(p) ==> (tokenizer is Some ==> {
            if utf8_decode(p@) is None || (strategy == HFTPaddingStrategy::Fixed && size <= 0) {
                r.0 == HFTStatus::InvalidArgument && r.1 == tokenizer
            } else {
                r.0 == HFTStatus::Success && r.1 is Some && r.1.unwrap()@ == engine_with_padding(
                    tokenizer.unwrap()@,
                    strategy,
                    if strategy == HFTPaddingStrategy::Fixed {
                        size as usize
                    } else {
                        0usize
                    },
                    direction,
                    if stride > 1 {
                        Some(stride as usize)
                    } else {
                        None
                    },
                    pad_id,
                    pad_type_id,
                    utf8_decode(p@).unwrap(),
                )
            }
        }),
{
    match tokenizer {
        Some(mut t) => {
            match pad_token {
                Some(p) => {
                    match utf8_to_string(p) {
                        Some(token_str) => {
                            let fixed = matches!(strategy, HFTPaddingStrategy::Fixed);
                            if fixed && size <= 0 {
                                return (HFTStatus::InvalidArgument, Some(t));
                            }
                            let fixed_size: usize = if fixed {
                                size as usize
                            } else {
                                0
                            };
                            let pad_to_multiple_of: Option<usize> = if stride > 1 {
                                Some(stride as usize)
                            } else {
                                None
                            };
                            engine_set_padding(
                                &mut t.tokenizer,
                                strategy,
                                fixed_size,
                                direction,
                                pad_to_multiple_of,
                                pad_id,
                                pad_type_id,
                                token_str,
                            );
                            (HFTStatus::Success, Some(t))
                        }
                        None => (HFTStatus::InvalidArgument, Some(t)),
                    }
                }
                None => (HFTStatus::InvalidArgument, Some(t)),
            }
        }
        None => (HFTStatus::InvalidArgument, None),
    }
}

/// Registers one added token on the tokenizer and hands the handle back.
/// An absent handle or token string, or a token that is not well-formed
/// UTF-8, is an invalid argument and the handle is handed back unchanged
/// before any engine interaction. On success the handle holds the engine
/// state after `add_tokens` registers the decoded token with exactly the
/// passed flags.
pub fn hft_tokenizer_add_token(
    tokenizer: Option<HFTTokenizer>,
    token: Option<&Vec<u8>>,
    single_word: bool,
    lstrip: bool,
    rstrip: bool,
    normalized: bool,
    special: bool,
) -> (r: (HFTStatus, Option<HFTTokenizer>))
    ensures
        r.1 is Some <==> tokenizer is Some,
        r.0 == HFTStatus::Success || r.0 == HFTStatus::InvalidArgument,
        tokenizer is None || token is None ==> r.0 == HFTStatus::InvalidArgument && r.1
            == tokenizer,
        token matches Some(tk) ==> (tokenizer is Some ==> {
            if utf8_decode(tk@) is None {
                r.0 == HFTStatus::InvalidArgument && r.1 == tokenizer
            } else {
                r.0 == HFTStatus::Success && r.1 is Some && r.1.unwrap()@
                    == engine_with_added_token(
                    tokenizer.unwrap()@,
                    utf8_decode(tk@).unwrap(),
                    single_word,
                    lstrip,
                    rstrip,
                    normalized,
                    special,
                )
            }
        }),
{
    match tokenizer {
        Some(mut t) => {
            match token {
                Some(tk) => {
                    match utf8_to_string(tk) {
                        Some(token_str) => {
                            engine_add_token(
                                &mut t.tokenizer,
                                token_str,
                                single_word,
                                lstrip,
                                rstrip,
                                normalized,
                                special,
                            );
                            (HFTStatus::Success, Some(t))
                        }
                        None => (HFTStatus::InvalidArgument, Some(t)),
                    }
                }
                None => (HFTStatus::InvalidArgument, Some(t)),
            }
        }
        None => (HFTStatus::InvalidArgument, None),
    }
}

/// Encodes a batch of caller strings in one engine call, producing one
/// owned encoding handle per input, in input order, or none at all. Every
/// input is validated before the engine is invoked: an absent handle, an
/// absent or empty input array, or any input that is absent or not
/// well-formed UTF-8, is an invalid argument and no output exists. An
/// engine failure, or a result the boundary's lengths cannot report,
/// collapses to `InvalidOperation`, again with no output. Output handles
/// exist exactly when the status is `Success`, and then there are exactly
/// as many as there were inputs.
pub fn hft_tokenizer_encode_batch(
    tokenizer: Option<&HFTTokenizer>,
    inputs: Option<&Vec<Option<Vec<u8>>>>,
    add_special_tokens: bool,
) -> (r: (HFTStatus, Option<Vec<HFTEncoding>>))
    ensures
        r.0 == HFTStatus::Success <==> r.1 is Some,
        tokenizer is None || inputs is None ==> r.0 == HFTStatus::InvalidArgument,
        inputs matches Some(v) ==> ((v@.len() == 0 || !all_strings_valid(v@)) ==> r.0
            == HFTStatus::InvalidArgument),
        inputs matches Some(v) ==> (tokenizer is Some && v@.len() > 0 && all_strings_valid(v@)
            ==> r.0 != HFTStatus::InvalidArgument),
        r.1 matches Some(out) ==> (inputs is Some && out@.len() == inputs.unwrap()@.len()
            && forall|i: int|
            0 <= i < out@.len() ==> (#[trigger] out@[i])@.type_ids.len() == out@[i]@.ids.len()
                && out@[i]@.attention_mask.len() == out@[i]@.ids.len() && mask_binary(
                out@[i]@.attention_mask,
            )),
        r.0 == HFTStatus::InvalidOperation ==> (tokenizer is Some && inputs is Some
            && inputs.unwrap()@.len() > 0 && all_strings_valid(inputs.unwrap()@)),
        r.0 == HFTStatus::InvalidArgument || r.0 == HFTStatus::Success || r.0
            == HFTStatus::InvalidOperation,
{
    let t = match tokenizer {
        Some(t) => t,
        None => {
            return (HFTStatus::InvalidArgument, None);
        }
    };
    let v = match inputs {
        Some(v) => v,
        None => {
            return (HFTStatus::InvalidArgument, None);
        }
    };
    if v.len() == 0 {
        return (HFTStatus::InvalidArgument, None);
    }
    let marshaled = match marshal_strings(v) {
        Some(m) => m,
        None => {
            return (HFTStatus::InvalidArgument, None);
        }
    };
    let encodings = match engine_encode_batch(&t.tokenizer, marshaled, add_special_tokens) {
        Some(e) => e,
        None => {
            return (HFTStatus::InvalidOperation, None);
        }
    };
    match wrap_encodings(&encodings) {
        Some(out) => {
            proof {
                assert forall|i: int| 0 <= i < out@.len() implies (#[trigger] out@[i])@.type_ids.len()
                    == out@[i]@.ids.len() && out@[i]@.attention_mask.len() == out@[i]@.ids.len()
                    && mask_binary(out@[i]@.attention_mask) by {
                    assert(well_formed_encoding(encodings@[i]));
                }
            }
            (HFTStatus::Success, Some(out))
        }
        None => (HFTStatus::InvalidOperation, None),
    }
}

/// One decoding handle of a batch result holds the engine's decode of
/// its input sequence: the `i`-th handle carries the bytes that `decode`
/// reconstructs from the `i`-th sequence, which also means that decode
/// succeeded.
pub open spec fn decoded_item_matches(
    t: tokenizers::Tokenizer,
    sentences: Seq<Option<Vec<u32>>>,
    skip_special_tokens: bool,
    out: Seq<HFTDecoding>,
    i: int,
) -> bool {
    &&& decode_of(t, sentences[i].unwrap()@, skip_special_tokens) is Some
    &&& out[i]@ == decode_of(t, sentences[i].unwrap()@, skip_special_tokens).unwrap()
}

/// Decodes a batch of caller id sequences in one engine call, producing
/// one owned decoding handle per sequence, in input order, or none at
/// all. Every sequence is validated before the engine is invoked: an
/// absent handle, an absent or empty sequence array, or any sequence that
/// is absent or empty — at the boundary, a null sequence pointer or a
/// non-positive length — is an invalid argument and no output exists. An
/// engine failure, or a result the boundary's lengths cannot report,
/// collapses to `InvalidOperation`, again with no output. Output handles
/// exist exactly when the status is `Success`, and then there are exactly
/// as many as there were input sequences.
pub fn hft_tokenizer_decode_batch(
    tokenizer: Option<&HFTTokenizer>,
    sentences: Option<&Vec<Option<Vec<u32>>>>,
    skip_special_tokens: bool,
) -> (r: (HFTStatus, Option<Vec<HFTDecoding>>))
    ensures
        r.0 == HFTStatus::Success <==> r.1 is Some,
        tokenizer is None || sentences is None ==> r.0 == HFTStatus::InvalidArgument,
        sentences matches Some(v) ==> ((v@.len() == 0 || !all_sequences_valid(v@)) ==> r.0
            == HFTStatus::InvalidArgument),
        sentences matches Some(v) ==> (tokenizer is Some && v@.len() > 0 && all_sequences_valid(
            v@,
        ) ==> r.0 != HFTStatus::InvalidArgument),
        r.1 matches Some(out) ==> (tokenizer is Some && sentences is Some && out@.len()
            == sentences.unwrap()@.len() && forall|i: int|
            0 <= i < out@.len() ==> #[trigger] decoded_item_matches(
                tokenizer.unwrap()@,
                sentences.unwrap()@,
                skip_special_tokens,
                out@,
                i,
            )),
        r.0 == HFTStatus::InvalidOperation ==> (tokenizer is Some && sentences is Some
            && sentences.unwrap()@.len() > 0 && all_sequences_valid(sentences.unwrap()@)),
        r.0 == HFTStatus::InvalidArgument || r.0 == HFTStatus::Success || r.0
            == HFTStatus::InvalidOperation,
{
    let t = match tokenizer {
        Some(t) => t,
        None => {
            return (HFTStatus::InvalidArgument, None);
        }
    };
    let v = match sentences {
        Some(v) => v,
        None => {
            return (HFTStatus::InvalidArgument, None);
        }
    };
    if v.len() == 0 {
        return (HFTStatus::InvalidArgument, None);
    }
    let marshaled = match marshal_sequences(v) {
        Some(m) => m,
        None => {
            return (HFTStatus::InvalidArgument, None);
        }
    };
    let decoded = match engine_decode_batch(&t.tokenizer, &marshaled, skip_special_tokens) {
        Some(d) => d,
        None => {
            return (HFTStatus::InvalidOperation, None);
        }
    };
    let ghost decoded_snapshot = decoded@;
    match wrap_decodings(decoded) {
        Some(out) => {
            proof {
                assert forall|i: int|
                    0 <= i < out@.len() implies #[trigger] decoded_item_matches(
                        t@,
                        v@,
                        skip_special_tokens,
                        out@,
                        i,
                    ) by {
                    assert(marshaled@[i]@ == v@[i].unwrap()@);
                    assert(out@[i]@ == decoded_snapshot[i]@);
                    assert(decode_of(t.tokenizer, marshaled@[i]@, skip_special_tokens) is Some);
                    assert(decoded_snapshot[i]@ == decode_of(
                        t.tokenizer,
                        marshaled@[i]@,
                        skip_special_tokens,
                    ).unwrap());
                }
            }
            (HFTStatus::Success, Some(out))
        }
        None => (HFTStatus::InvalidOperation, None),
    }
}

/// Declared in the interface but intentionally unfinished: a stable,
/// permanent capability gate. The gap check precedes argument validation,
/// so every input — an absent handle included — yields `NotImplemented`
/// and nothing else happens.
pub fn hft_tokenizer_token_to_id(tokenizer: Option<&HFTTokenizer>, id: u32, size: i32) -> (r:
    HFTStatus)
    ensures
        r == HFTStatus::NotImplemented,
{
    HFTStatus::NotImplemented
}

/// Declared in the interface but intentionally unfinished: a stable,
/// permanent capability gate. The gap check precedes argument validation,
/// so every input — an absent handle or token included — yields
/// `NotImplemented` and nothing else happens.
pub fn hft_tokenizer_id_to_token(tokenizer: Option<&HFTTokenizer>, token: Option<&Vec<u8>>) -> (r:
    HFTStatus)
    ensures
        r == HFTStatus::NotImplemented,
{
    HFTStatus::NotImplemented
}

} // verus!

use vstd::prelude::*;
use crate::decoding::HFTDecoding;
use crate::encoding::HFTEncoding;
use crate::engine::{
    enc_attention_mask, enc_ids, enc_type_ids, encoding_attention_mask, encoding_ids,
    encoding_type_ids, utf8_decode, utf8_to_string, well_formed_encoding,
};

verus! {

// Inbound marshaling walks a caller-supplied array eagerly and validates
// every element before a single engine call is made; outbound marshaling
// wraps every element of an engine result into an owned handle, or wraps
// none. Batch operations are built from one inbound pass and one outbound
// pass around exactly one engine call, which keeps their failure surface
// to "before" and "after" that call.

/// Every element of a caller string array is present and well-formed
/// UTF-8. This is the exact condition under which an inbound string batch
/// marshals.
pub open spec fn all_strings_valid(inputs: Seq<Option<Vec<u8>>>) -> bool {
    forall|i: int|
        0 <= i < inputs.len() ==> (#[trigger] inputs[i] matches Some(b) && utf8_decode(b@) is Some)
}

/// Every element of a caller id-sequence array is present and non-empty.
/// At the boundary each sequence arrives as a pointer with an element
/// count, and an absent pointer or a non-positive count is invalid; a
/// non-positive count is exactly what an empty sequence stands for here.
pub open spec fn all_sequences_valid(sentences: Seq<Option<Vec<u32>>>) -> bool {
    forall|i: int|
        0 <= i < sentences.len() ==> (#[trigger] sentences[i] matches Some(s) && s@.len() > 0)
}

/// Validates and converts one caller string array into engine-owned
/// strings: the marshaling succeeds exactly when every element is present
/// and well-formed UTF-8, and then it yields the decoded string of each
/// element, in input order.
pub fn marshal_strings(inputs: &Vec<Option<Vec<u8>>>) -> (r: Option<Vec<String>>)
    ensures
        r is Some <==> all_strings_valid(inputs@),
        r matches Some(v) ==> v@.len() == inputs@.len() && forall|i: int|
            0 <= i < v@.len() ==> #[trigger] v@[i]@ == utf8_decode(inputs@[i].unwrap()@).unwrap(),
{
    let mut out: Vec<String> = Vec::new();
    let n = inputs.len();
    let mut i: usize = 0;
    while i < n
        invariant
            i <= n,
            n == inputs@.len(),
            out@.len() == i as int,
            forall|j: int|
                0 <= j < i as int ==> (#[trigger] inputs@[j] matches Some(b) && utf8_decode(b@)
                    is Some),
            forall|j: int|
                0 <= j < i as int ==> #[trigger] out@[j]@ == utf8_decode(
                    inputs@[j].unwrap()@,
                ).unwrap(),
        decreases n - i,
    {
        match &inputs[i] {
            Some(bytes) => {
                match utf8_to_string(bytes) {
                    Some(s) => {
                        out.push(s);
                    }
                    None => {
                        return None;
                    }
                }
            }
            None => {
                return None;
            }
        }
        i = i + 1;
    }
    Some(out)
}

/// Validates and copies one caller id-sequence array into engine-owned
/// sequences: the marshaling succeeds exactly when every element is
/// present and non-empty, and then it yields each sequence unchanged, in
/// input order.
pub fn marshal_sequences(sentences: &Vec<Option<Vec<u32>>>) -> (r: Option<Vec<Vec<u32>>>)
    ensures
        r is Some <==> all_sequences_valid(sentences@),
        r matches Some(v) ==> v@.len() == sentences@.len() && forall|i: int|
            0 <= i < v@.len() ==> #[trigger] v@[i]@ == sentences@[i].unwrap()@,
{
    let mut out: Vec<Vec<u32>> = Vec::new();
    let n = sentences.len();
    let mut i: usize = 0;
    while i < n
        invariant
            i <= n,
            n == sentences@.len(),
            out@.len() == i as int,
            forall|j: int|
                0 <= j < i as int ==> (#[trigger] sentences@[j] matches Some(s) && s@.len() > 0),
            forall|j: int| 0 <= j < i as int ==> #[trigger] out@[j]@ == sentences@[j].unwrap()@,
        decreases n - i,
    {
        match &sentences[i] {
            Some(sentence) => {
                if sentence.len() == 0 {
                    return None;
                }
                out.push(sentence.clone());
            }
            None => {
                return None;
            }
        }
        i = i + 1;
    }
    Some(out)
}

/// Every encoding of an engine batch result has an id count that the
/// boundary's signed 32-bit lengths can report. This is the exact
/// condition under which an outbound encoding batch wraps.
pub open spec fn all_encodings_fit(encodings: Seq<tokenizers::tokenizer::Encoding>) -> bool {
    forall|i: int| 0 <= i < encodings.len() ==> enc_ids(#[trigger] encodings[i]).len() <= i32::MAX
}

/// Every decoded text of an engine batch result has a byte length that
/// the boundary's signed 32-bit lengths can report. This is the exact
/// condition under which an outbound decoding batch wraps.
pub open spec fn all_decodings_fit(outputs: Seq<Vec<u8>>) -> bool {
    forall|i: int| 0 <= i < outputs.len() ==> (#[trigger] outputs[i])@.len() <= i32::MAX
}

/// Wraps each encoding of one engine batch result into an owned encoding
/// handle, in order, or wraps none: given the well-formed encodings the
/// engine produces, the wrapping succeeds exactly when every id count
/// fits the boundary's lengths, and then the `i`-th handle holds the
/// ids, type ids and attention mask of the `i`-th engine encoding.
pub fn wrap_encodings(encodings: &Vec<tokenizers::tokenizer::Encoding>) -> (r: Option<
    Vec<HFTEncoding>,
>)
    requires
        forall|i: int|
            0 <= i < encodings@.len() ==> well_formed_encoding(#[trigger] encodings@[i]),
    ensures
        r is Some <==> all_encodings_fit(encodings@),
        r matches Some(v) ==> v@.len() == encodings@.len() && forall|i: int|
            0 <= i < v@.len() ==> (#[trigger] v@[i])@.ids == enc_ids(encodings@[i]) && v@[i]@.type_ids
                == enc_type_ids(encodings@[i]) && v@[i]@.attention_mask == enc_attention_mask(
                encodings@[i],
            ),
{
    let mut out: Vec<HFTEncoding> = Vec::new();
    let n = encodings.len();
    let mut i: usize = 0;
    while i < n
        invariant
            i <= n,
            n == encodings@.len(),
            forall|j: int|
                0 <= j < encodings@.len() ==> well_formed_encoding(#[trigger] encodings@[j]),
            out@.len() == i as int,
            forall|j: int| 0 <= j < i as int ==> enc_ids(#[trigger] encodings@[j]).len() <= i32::MAX,
            forall|j: int|
                0 <= j < i as int ==> (#[trigger] out@[j])@.ids == enc_ids(encodings@[j])
                    && out@[j]@.type_ids == enc_type_ids(encodings@[j]) && out@[j]@.attention_mask
                    == enc_attention_mask(encodings@[j]),
        decreases n - i,
    {
        let ids = encoding_ids(&encodings[i]);
        let type_ids = encoding_type_ids(&encodings[i]);
        let attention_mask = encoding_attention_mask(&encodings[i]);
        match HFTEncoding::new(ids, type_ids, attention_mask) {
            Some(e) => {
                out.push(e);
            }
            None => {
                proof {
                    assert(well_formed_encoding(encodings@[i as int]));
                    assert(enc_ids(encodings@[i as int]).len() > i32::MAX);
                }
                return None;
            }
        }
        i = i + 1;
    }
    Some(out)
}

/// Wraps each decoded text of one engine batch result into an owned
/// decoding handle, in order, or wraps none: the wrapping succeeds
/// exactly when every byte length fits the boundary's lengths, and then
/// the `i`-th handle holds the bytes of the `i`-th engine output.
pub fn wrap_decodings(outputs: Vec<Vec<u8>>) -> (r: Option<Vec<HFTDecoding>>)
    ensures
        r is Some <==> all_decodings_fit(outputs@),
        r matches Some(v) ==> v@.len() == outputs@.len() && forall|i: int|
            0 <= i < v@.len() ==> (#[trigger] v@[i])@ == outputs@[i]@,
{
    let mut out: Vec<HFTDecoding> = Vec::new();
    let n = outputs.len();
    let mut i: usize = 0;
    let mut rest = outputs;
    // Consume the outputs front to back so each byte vector moves into
    // its handle without a copy.
    while i < n
        invariant
            i <= n,
            n == outputs@.len(),
            n == rest@.len() + i as int,
            out@.len() == i as int,
            forall|j: int| 0 <= j < rest@.len() ==> #[trigger] rest@[j] == outputs@[j + i as int],
            forall|j: int| 0 <= j < i as int ==> (#[trigger] outputs@[j])@.len() <= i32::MAX,
            forall|j: int| 0 <= j < i as int ==> (#[trigger] out@[j])@ == outputs@[j]@,
        decreases n - i,
    {
        proof {
            assert(rest@[0] == outputs@[i as int]);
        }
        let bytes = rest.remove(0);
        match HFTDecoding::new(bytes) {
            Some(d) => {
                out.push(d);
            }
            None => {
                proof {
                    assert(outputs@[i as int]@.len() > i32::MAX);
                    assert(!all_decodings_fit(outputs@));
                }
                return None;
            }
        }
        i = i + 1;
    }
    Some(out)
}

} // verus!

use libtokenizers::decoding::{
    hft_decoding_get_length, hft_decoding_get_string, hft_decoding_release, HFTDecoding,
};
use libtokenizers::encoding::{
    hft_encoding_get_attention_mask, hft_encoding_get_ids, hft_encoding_get_length,
    hft_encoding_get_type_ids, hft_encoding_release, HFTEncoding,
};
use libtokenizers::status::{HFTPaddingDirection, HFTPaddingStrategy, HFTStatus};
use libtokenizers::tokenizer::{
    hft_tokenizer_add_token, hft_tokenizer_create_from_file, hft_tokenizer_decode_batch,
    hft_tokenizer_encode_batch, hft_tokenizer_id_to_token, hft_tokenizer_release,
    hft_tokenizer_set_padding, hft_tokenizer_token_to_id,
};

fn sample_decoding() -> HFTDecoding {
    HFTDecoding::new(b"hey".to_vec()).expect("short text must wrap")
}

fn sample_encoding() -> HFTEncoding {
    HFTEncoding::new(vec![10, 20, 30], vec![0, 0, 0], vec![1, 1, 1]).expect("short ids must wrap")
}

#[test]
fn decoding_release_accepts_handle() {
    assert_eq!(hft_decoding_release(Some(sample_decoding())), HFTStatus::Success);
}

#[test]
fn decoding_release_rejects_null() {
    assert_eq!(hft_decoding_release(None), HFTStatus::InvalidArgument);
}

#[test]
fn decoding_get_length_reports_byte_count() {
    let d = sample_decoding();
    assert_eq!(hft_decoding_get_length(Some(&d)), (HFTStatus::Success, 3));
}

#[test]
fn decoding_get_length_rejects_null() {
    assert_eq!(hft_decoding_get_length(None), (HFTStatus::InvalidArgument, 0));
}

#[test]
fn get_string_exact_capacity_fails_and_leaves_buffer() {
    let d = sample_decoding();
    let mut buffer = vec![7u8; 3];
    let status = hft_decoding_get_string(Some(&d), &mut buffer, 3);
    assert_eq!(status, HFTStatus::InvalidArgument);
    assert_eq!(buffer, vec![7u8, 7, 7]);
}

#[test]
fn get_string_one_spare_byte_succeeds_with_terminator() {
    let d = sample_decoding();
    let mut buffer = vec![7u8; 4];
    let status = hft_decoding_get_string(Some(&d), &mut buffer, 4);
    assert_eq!(status, HFTStatus::Success);
    assert_eq!(buffer, vec![b'h', b'e', b'y', 0]);
}

#[test]
fn get_string_keeps_bytes_past_terminator() {
    let d = sample_decoding();
    let mut buffer = vec![9u8; 6];
    let status = hft_decoding_get_string(Some(&d), &mut buffer, 6);
    assert_eq!(status, HFTStatus::Success);
    assert_eq!(buffer, vec![b'h', b'e', b'y', 0, 9, 9]);
}

#[test]
fn get_string_rejects_null_handle() {
    let mut buffer = vec![5u8; 4];
    let status = hft_decoding_get_string(None, &mut buffer, 4);
    assert_eq!(status, HFTStatus::InvalidArgument);
    assert_eq!(buffer, vec![5u8; 4]);
}

#[test]
fn get_string_rejects_non_positive_size() {
    let d = sample_decoding();
    let mut buffer: Vec<u8> = Vec::new();
    assert_eq!(hft_decoding_get_string(Some(&d), &mut buffer, 0), HFTStatus::InvalidArgument);
    assert_eq!(hft_decoding_get_string(Some(&d), &mut buffer, -2), HFTStatus::InvalidArgument);
}

#[test]
fn encoding_release_accepts_handle() {
    assert_eq!(hft_encoding_release(Some(sample_encoding())), HFTStatus::Success);
}

#[test]
fn encoding_release_rejects_null() {
    assert_eq!(hft_encoding_release(None), HFTStatus::InvalidArgument);
}

#[test]
fn encoding_get_length_reports_id_count() {
    let e = sample_encoding();
    assert_eq!(hft_encoding_get_length(Some(&e)), (HFTStatus::Success, 3));
}

#[test]
fn encoding_get_length_rejects_null() {
    assert_eq!(hft_encoding_get_length(None), (HFTStatus::InvalidArgument, 0));
}

#[test]
fn get_ids_copies_full_count() {
    let e = sample_encoding();
    let mut buffer = vec![0u32; 3];
    assert_eq!(hft_encoding_get_ids(Some(&e), &mut buffer, 3), HFTStatus::Success);
    assert_eq!(buffer, vec![10, 20, 30]);
}

#[test]
fn get_ids_smaller_count_truncates() {
    let e = sample_encoding();
    let mut buffer = vec![99u32; 3];
    assert_eq!(hft_encoding_get_ids(Some(&e), &mut buffer, 2), HFTStatus::Success);
    assert_eq!(buffer, vec![10, 20, 99]);
}

#[test]
fn get_ids_rejects_non_positive_count() {
    let e = sample_encoding();
    let mut buffer = vec![4u32; 3];
    assert_eq!(hft_encoding_get_ids(Some(&e), &mut buffer, 0), HFTStatus::InvalidArgument);
    assert_eq!(hft_encoding_get_ids(Some(&e), &mut buffer, -1), HFTStatus::InvalidArgument);
    assert_eq!(buffer, vec![4u32; 3]);
}

#[test]
fn get_ids_rejects_count_beyond_length() {
    let e = sample_encoding();
    let mut buffer = vec![4u32; 5];
    assert_eq!(hft_encoding_get_ids(Some(&e), &mut buffer, 4), HFTStatus::InvalidArgument);
    assert_eq!(buffer, vec![4u32; 5]);
}

#[test]
fn get_ids_rejects_null_handle() {
    let mut buffer = vec![0u32; 3];
    assert_eq!(hft_encoding_get_ids(None, &mut buffer, 3), HFTStatus::InvalidArgument);
}

#[test]
fn get_attention_mask_copies_elements() {
    let e = sample_encoding();
    let mut buffer = vec![0u32; 3];
    assert_eq!(hft_encoding_get_attention_mask(Some(&e), &mut buffer, 3), HFTStatus::Success);
    assert_eq!(buffer, vec![1, 1, 1]);
}

#[test]
fn get_attention_mask_rejects_null_handle() {
    let mut buffer = vec![0u32; 1];
    assert_eq!(hft_encoding_get_attention_mask(None, &mut buffer, 1), HFTStatus::InvalidArgument);
}

#[test]
fn get_type_ids_copies_elements() {
    let e = sample_encoding();
    let mut buffer = vec![7u32; 3];
    assert_eq!(hft_encoding_get_type_ids(Some(&e), &mut buffer, 3), HFTStatus::Success);
    assert_eq!(buffer, vec![0, 0, 0]);
}

#[test]
fn get_type_ids_rejects_null_handle() {
    let mut buffer = vec![0u32; 1];
    assert_eq!(hft_encoding_get_type_ids(None, &mut buffer, 1), HFTStatus::InvalidArgument);
}

#[test]
fn create_rejects_null_path() {
    let (status, handle) = hft_tokenizer_create_from_file(None);
    assert_eq!(status, HFTStatus::InvalidArgument);
    assert!(handle.is_none());
}

#[test]
fn tokenizer_release_rejects_null() {
    assert_eq!(hft_tokenizer_release(None), HFTStatus::InvalidArgument);
}

#[test]
fn set_padding_rejects_null_handle() {
    let pad_token = b"[PAD]".to_vec();
    let (status, handle) = hft_tokenizer_set_padding(
        None,
        HFTPaddingStrategy::Fixed,
        4,
        HFTPaddingDirection::Right,
        0,
        0,
        0,
        Some(&pad_token),
    );
    assert_eq!(status, HFTStatus::InvalidArgument);
    assert!(handle.is_none());
}

#[test]
fn add_token_rejects_null_handle() {
    let token = b"d".to_vec();
    let (status, handle) =
        hft_tokenizer_add_token(None, Some(&token), false, false, false, true, false);
    assert_eq!(status, HFTStatus::InvalidArgument);
    assert!(handle.is_none());
}

#[test]
fn encode_batch_rejects_null_handle() {
    let inputs = vec![Some(b"ab".to_vec())];
    let (status, out) = hft_tokenizer_encode_batch(None, Some(&inputs), true);
    assert_eq!(status, HFTStatus::InvalidArgument);
    assert!(out.is_none());
}

#[test]
fn decode_batch_rejects_null_handle() {
    let sentences = vec![Some(vec![0u32, 1])];
    let (status, out) = hft_tokenizer_decode_batch(None, Some(&sentences), true);
    assert_eq!(status, HFTStatus::InvalidArgument);
    assert!(out.is_none());
}

#[test]
fn token_to_id_is_not_implemented_even_for_null() {
    assert_eq!(hft_tokenizer_token_to_id(None, 17, 8), HFTStatus::NotImplemented);
}

#[test]
fn id_to_token_is_not_implemented_even_for_null() {
    assert_eq!(hft_tokenizer_id_to_token(None, None), HFTStatus::NotImplemented);
}

#[test]
fn encoding_new_rejects_mismatched_lengths() {
    assert!(HFTEncoding::new(vec![1, 2, 3], vec![0, 0], vec![1, 1, 1]).is_none());
    assert!(HFTEncoding::new(vec![1, 2, 3], vec![0, 0, 0], vec![1]).is_none());
    assert!(HFTEncoding::new(vec![1, 2, 3], vec![0, 0, 0], vec![1, 1, 1]).is_some());
}

use wasmer_engine_native::error::DeserializeError;
use wasmer_engine_native::metadata::{
    frame_metadata, read_metadata_length, FunctionBodyLengths, ModuleMetadata,
    LENGTH_PREFIX_SIZE,
};

fn corrupted_message(error: DeserializeError) -> String {
    match error {
        DeserializeError::CorruptedBinary(message) => message,
        other => panic!("not a corrupted binary: {:?}", other),
    }
}

#[test]
fn the_length_prefix_has_ten_bytes() {
    assert_eq!(LENGTH_PREFIX_SIZE, 10);
    assert_eq!(frame_metadata(&[]).len(), 10);
    assert_eq!(frame_metadata(&[1, 2, 3]).len(), 13);
}

#[test]
fn empty_metadata_is_framed_with_a_zero_length() {
    assert_eq!(frame_metadata(&[]), vec![0, 0, 0, 0, 0, 0, 0, 0, 0, 0]);
}

#[test]
fn short_metadata_is_framed_with_a_one_byte_length() {
    assert_eq!(
        frame_metadata(&[9, 8, 7, 6, 5]),
        vec![5, 0, 0, 0, 0, 0, 0, 0, 0, 0, 9, 8, 7, 6, 5]
    );
}

#[test]
fn longer_metadata_is_framed_with_a_padded_leb128_length() {
    let data = vec![0xaau8; 300];
    let blob = frame_metadata(&data);
    assert_eq!(&blob[..10], &[0xac, 0x02, 0, 0, 0, 0, 0, 0, 0, 0]);
    assert_eq!(&blob[10..], &data[..]);
    let data = vec![1u8; 128];
    let blob = frame_metadata(&data);
    assert_eq!(&blob[..10], &[0x80, 0x01, 0, 0, 0, 0, 0, 0, 0, 0]);
    let data = vec![1u8; 127];
    let blob = frame_metadata(&data);
    assert_eq!(&blob[..10], &[0x7f, 0, 0, 0, 0, 0, 0, 0, 0, 0]);
}

#[test]
fn the_framed_length_is_read_back() {
    for length in [0usize, 1, 5, 127, 128, 255, 300, 16383, 16384, 70000] {
        let data = vec![0x5au8; length];
        let blob = frame_metadata(&data);
        let read = read_metadata_length(&blob[..10]).unwrap();
        assert_eq!(read, length as u64);
        assert_eq!(&blob[10..10 + read as usize], &data[..]);
        assert_eq!(read_metadata_length(&blob).unwrap(), length as u64);
    }
}

#[test]
fn lengths_are_read_as_unsigned_leb128() {
    assert_eq!(read_metadata_length(&[0]).unwrap(), 0);
    assert_eq!(read_metadata_length(&[0x7f, 0xff]).unwrap(), 127);
    assert_eq!(read_metadata_length(&[0xe5, 0x8e, 0x26]).unwrap(), 624485);
    assert_eq!(read_metadata_length(&[0x80, 0x80, 0x00]).unwrap(), 0);
    assert_eq!(
        read_metadata_length(&[0xff, 0xff, 0xff, 0xff, 0xff, 0xff, 0xff, 0xff, 0xff, 0x01])
            .unwrap(),
        u64::MAX
    );
    assert_eq!(
        read_metadata_length(&[0x80, 0x80, 0x80, 0x80, 0x80, 0x80, 0x80, 0x80, 0x80, 0x01, 0xff])
            .unwrap(),
        1u64 << 63
    );
}

#[test]
fn a_length_of_ten_ff_bytes_is_a_corrupted_binary() {
    let error = read_metadata_length(&[0xff; 10]).unwrap_err();
    assert_eq!(corrupted_message(error), "Can't read metadata size");
}

#[test]
fn a_length_that_overflows_is_a_corrupted_binary() {
    let bytes = [0x80, 0x80, 0x80, 0x80, 0x80, 0x80, 0x80, 0x80, 0x80, 0x02, 0, 0];
    let error = read_metadata_length(&bytes).unwrap_err();
    assert_eq!(corrupted_message(error), "Can't read metadata size");
}

#[test]
fn a_length_that_does_not_end_is_a_corrupted_binary() {
    assert_eq!(
        corrupted_message(read_metadata_length(&[]).unwrap_err()),
        "Can't read metadata size"
    );
    assert_eq!(
        corrupted_message(read_metadata_length(&[0x80]).unwrap_err()),
        "Can't read metadata size"
    );
    assert_eq!(
        corrupted_message(read_metadata_length(&[0xff, 0xff, 0xff]).unwrap_err()),
        "Can't read metadata size"
    );
}

#[test]
fn dynamic_trampolines_are_counted_among_the_functions() {
    let mut metadata = ModuleMetadata {
        prefix: String::new(),
        function_body_lengths: FunctionBodyLengths::from_vec(vec![]),
        signatures: vec![],
        num_functions: 5,
        num_imported_funcs: 2,
    };
    assert_eq!(metadata.num_dynamic_trampolines(), 2);
    metadata.num_imported_funcs = 5;
    assert_eq!(metadata.num_dynamic_trampolines(), 5);
    metadata.num_imported_funcs = 7;
    assert_eq!(metadata.num_dynamic_trampolines(), 5);
    metadata.num_functions = 0;
    assert_eq!(metadata.num_dynamic_trampolines(), 0);
}

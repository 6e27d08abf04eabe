use rfhe_numeric::CreateFrom;
use rfhe_numeric::DummyCreateFrom;
use rfhe_numeric::NoMetadata;

#[test]
fn dummy_create_from_an_immutable_buffer() {
    let data: [u32; 3] = [1, 2, 3];
    let _built: DummyCreateFrom = DummyCreateFrom::create_from(&data[..], NoMetadata);
    let empty: [u32; 0] = [];
    let _built_from_nothing: DummyCreateFrom = DummyCreateFrom::create_from(&empty[..], NoMetadata);
}

#[test]
fn dummy_create_from_a_mutable_buffer() {
    let mut data: [u8; 4] = [9, 9, 9, 9];
    let _built: DummyCreateFrom = DummyCreateFrom::create_from(&mut data[..], NoMetadata);
    assert_eq!(data, [9, 9, 9, 9]);
}

#[test]
fn metadata_is_copyable() {
    let meta = NoMetadata;
    let first = meta;
    let second = meta;
    let _a: DummyCreateFrom = DummyCreateFrom::create_from(&[0u8; 2][..], first);
    let _b: DummyCreateFrom = DummyCreateFrom::create_from(&[0u8; 2][..], second);
}

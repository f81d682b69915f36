use bee_node::message::error::Error;
use bee_node::message::indexation::{validate_length, IndexationFeatureBlock};
use bee_node::message::reader::ByteReader;

#[test]
fn tag_of_valid_length_is_accepted() {
    let block = IndexationFeatureBlock::new(b"bee").unwrap();
    assert_eq!(block.tag(), b"bee");
    assert_eq!(IndexationFeatureBlock::new(&[7]).unwrap().tag(), &[7]);
    assert_eq!(IndexationFeatureBlock::new(&[7; 64]).unwrap().tag(), &[7; 64]);
}

#[test]
fn tag_of_invalid_length_is_refused() {
    assert_eq!(IndexationFeatureBlock::new(&[]), Err(Error::InvalidIndexationIndexLength(0)));
    assert_eq!(IndexationFeatureBlock::new(&[0; 65]), Err(Error::InvalidIndexationIndexLength(65)));
    assert_eq!(IndexationFeatureBlock::try_from(&[0u8; 300][..]), Err(Error::InvalidIndexationIndexLength(300)));
}

#[test]
fn lengths_are_validated() {
    assert_eq!(validate_length(0), Err(Error::InvalidIndexationIndexLength(0)));
    assert_eq!(validate_length(1), Ok(()));
    assert_eq!(validate_length(64), Ok(()));
    assert_eq!(validate_length(65), Err(Error::InvalidIndexationIndexLength(65)));
    assert_eq!(IndexationFeatureBlock::length_range(), 1..=64);
    assert_eq!(IndexationFeatureBlock::KIND, 8);
}

#[test]
fn block_is_packed_behind_what_was_written() {
    let block = IndexationFeatureBlock::new(&[10, 20, 30]).unwrap();
    let mut bytes = vec![1, 2];
    assert_eq!(block.pack(&mut bytes), Ok(()));
    assert_eq!(bytes, vec![1, 2, 3, 10, 20, 30]);
    assert_eq!(block.packed_len(), 4);
}

#[test]
fn unpacking_gives_back_the_packed_block() {
    let block = IndexationFeatureBlock::new(&[9; 64]).unwrap();
    let mut bytes = Vec::new();
    block.pack(&mut bytes).unwrap();
    bytes.push(99);
    let mut reader = ByteReader::new(&bytes);
    assert_eq!(IndexationFeatureBlock::unpack_inner::<true>(&mut reader), Ok(block.clone()));
    assert_eq!(reader.remaining(), 1);
    let mut reader = ByteReader::new(&bytes);
    assert_eq!(IndexationFeatureBlock::unpack_inner::<false>(&mut reader), Ok(block));
}

#[test]
fn invalid_lengths_are_unpacked_without_checks_only() {
    let bytes = [0u8, 5];
    let mut reader = ByteReader::new(&bytes);
    assert_eq!(
        IndexationFeatureBlock::unpack_inner::<true>(&mut reader),
        Err(Error::InvalidIndexationIndexLength(0))
    );
    assert_eq!(reader.remaining(), 1);
    let mut reader = ByteReader::new(&bytes);
    assert_eq!(IndexationFeatureBlock::unpack_inner::<false>(&mut reader).unwrap().tag(), &[] as &[u8]);

    let mut bytes = vec![255u8];
    bytes.extend_from_slice(&[3; 255]);
    let mut reader = ByteReader::new(&bytes);
    let block = IndexationFeatureBlock::unpack_inner::<false>(&mut reader).unwrap();
    assert_eq!(block.packed_len(), 256);
    let mut packed = Vec::new();
    block.pack(&mut packed).unwrap();
    assert_eq!(packed, bytes);
    let mut reader = ByteReader::new(&bytes);
    assert_eq!(
        IndexationFeatureBlock::unpack_inner::<true>(&mut reader),
        Err(Error::InvalidIndexationIndexLength(255))
    );
}

#[test]
fn truncated_bytes_are_refused() {
    let mut reader = ByteReader::new(&[]);
    assert_eq!(IndexationFeatureBlock::unpack_inner::<true>(&mut reader), Err(Error::UnexpectedEof));
    let mut reader = ByteReader::new(&[3, 1, 2]);
    assert_eq!(IndexationFeatureBlock::unpack_inner::<true>(&mut reader), Err(Error::UnexpectedEof));
    // The length is checked before the tag is read.
    let mut reader = ByteReader::new(&[65, 1, 2]);
    assert_eq!(
        IndexationFeatureBlock::unpack_inner::<true>(&mut reader),
        Err(Error::InvalidIndexationIndexLength(65))
    );
}

use mutenix::chunks::{Chunk, ChunkType, Completed, FileChunk, FileDelete, FileEnd, FileStart};
use mutenix::constants::{HEADER_SIZE, MAX_CHUNK_SIZE, PACKET_SIZE};

#[test]
fn test_file_chunk_packet() {
    let chunk = FileChunk::new(1, 2, 3, b"content".to_vec());
    let packet = chunk.inner().packet();

    // Check type (FileChunk = 2)
    assert_eq!(&packet[0..2], &(2u16).to_le_bytes());
    // Check id
    assert_eq!(&packet[2..4], &(1u16).to_le_bytes());
    // Check total_packages
    assert_eq!(&packet[4..6], &(3u16).to_le_bytes());
    // Check package
    assert_eq!(&packet[6..8], &(2u16).to_le_bytes());
    // Check content starts correctly
    assert_eq!(&packet[8..15], b"content");
}

#[test]
fn test_file_start_packet() {
    let start = FileStart::new(1, 0, 3, "test.py", 100);
    let packet = start.inner().packet();

    // Check type (FileStart = 1)
    assert_eq!(&packet[0..2], &(1u16).to_le_bytes());
    // Check id
    assert_eq!(&packet[2..4], &(1u16).to_le_bytes());
    // Check total_packages
    assert_eq!(&packet[4..6], &(3u16).to_le_bytes());
    // Check package
    assert_eq!(&packet[6..8], &(0u16).to_le_bytes());
    // Check filename length
    assert_eq!(packet[8], 7);
    // Check filename and size
    assert_eq!(
        &packet[9..19],
        &[b't', b'e', b's', b't', b'.', b'p', b'y', 2, 100, 0]
    );
}

#[test]
fn test_file_end_packet() {
    let end = FileEnd::new(1);
    let packet = end.inner().packet();

    // Check type (FileEnd = 3)
    assert_eq!(&packet[0..2], &(3u16).to_le_bytes());
    // Check id
    assert_eq!(&packet[2..4], &(1u16).to_le_bytes());
    // Rest should be zeros
    assert_eq!(&packet[4..], &vec![0u8; MAX_CHUNK_SIZE + 4][..]);
}

#[test]
fn test_file_delete_packet() {
    let delete = FileDelete::new(1, "test.py");
    let packet = delete.inner().packet();

    // Check type (FileDelete = 5)
    assert_eq!(&packet[0..2], &(5u16).to_le_bytes());
    // Check id
    assert_eq!(&packet[2..4], &(1u16).to_le_bytes());
    // Check filename length
    assert_eq!(packet[8], 7);
    // Check filename
    assert_eq!(&packet[9..16], b"test.py");
}

#[test]
fn test_chunk_acked() {
    let mut chunk = Chunk::new(ChunkType::FileChunk, 1, 2, 3);

    assert_eq!(chunk.is_acked(), false);

    chunk.set_acked(true);
    assert_eq!(chunk.is_acked(), true);

    chunk.set_acked(false);
    assert_eq!(chunk.is_acked(), false);
}

#[test]
fn test_completed_packet() {
    let completed = Completed::new();
    let packet = completed.inner().packet();

    // Check type (Complete = 4)
    assert_eq!(&packet[0..2], &(4u16).to_le_bytes());
    // Check id is 0
    assert_eq!(&packet[2..4], &(0u16).to_le_bytes());
}

#[test]
fn test_packet_is_sixty_bytes() {
    assert_eq!(HEADER_SIZE, 8);
    assert_eq!(MAX_CHUNK_SIZE, 52);
    assert_eq!(PACKET_SIZE, 60);
    assert_eq!(FileChunk::new(1, 0, 1, Vec::new()).inner().packet().len(), 60);
    assert_eq!(FileChunk::new(1, 0, 1, vec![7u8; 52]).inner().packet().len(), 60);
    assert_eq!(FileStart::new(1, 0, 1, "a.py", 3).inner().packet().len(), 60);
    assert_eq!(FileEnd::new(9).inner().packet().len(), 60);
    assert_eq!(Completed::default().inner().packet().len(), 60);
}

#[test]
fn test_packet_exact_bytes() {
    let chunk = FileChunk::new(0x0102, 0x0304, 0x0506, vec![0xAA, 0xBB]);
    let packet = chunk.inner().packet();
    let mut expected = vec![2u8, 0, 0x02, 0x01, 0x06, 0x05, 0x04, 0x03, 0xAA, 0xBB];
    expected.extend(vec![0u8; 50]);
    assert_eq!(packet, expected);
}

#[test]
fn test_oversized_content_is_not_padded() {
    let chunk = FileChunk::new(1, 0, 1, vec![1u8; 60]);
    let packet = chunk.inner().packet();
    assert_eq!(packet.len(), 68);
    assert_eq!(&packet[8..], &vec![1u8; 60][..]);
}

#[test]
fn test_chunk_type_codes() {
    assert_eq!(ChunkType::FileStart.code(), 1);
    assert_eq!(ChunkType::FileChunk.code(), 2);
    assert_eq!(ChunkType::FileEnd.code(), 3);
    assert_eq!(ChunkType::Complete.code(), 4);
    assert_eq!(ChunkType::FileDelete.code(), 5);
    assert_eq!(u16::from(ChunkType::FileDelete), 5);
}

#[test]
fn test_inner_mut_changes_the_chunk() {
    let mut chunk = FileChunk::new(1, 2, 3, vec![1, 2, 3]);
    chunk.inner_mut().set_acked(true);
    assert!(chunk.inner().is_acked());
    let mut end = FileEnd::new(4);
    end.inner_mut().total_packages = 9;
    assert_eq!(end.inner().total_packages, 9);
    assert_eq!(end.into_inner().id, 4);
}

#[test]
fn test_long_filename_length_wraps() {
    let name = "a".repeat(300);
    let delete = FileDelete::new(1, &name);
    assert_eq!(delete.inner().content[0], 44);
    assert_eq!(delete.inner().content.len(), 301);
}

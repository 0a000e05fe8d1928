use mutenix::chunks::ChunkType;
use mutenix::device_messages::ChunkAck;
use mutenix::device_update::{TransferFile, UpdateError};

fn ack_for(id: u16, package: u16, chunk_type: u8) -> ChunkAck {
    let mut data = b"AK".to_vec();
    data.extend(&id.to_le_bytes());
    data.extend(&package.to_le_bytes());
    data.push(chunk_type);
    data.extend(&[0u8; 2]);
    ChunkAck::from_bytes(&data)
}

#[test]
fn test_transfer_file_chunks() {
    let content = b"fake content".repeat(10);

    let transfer_file = TransferFile::new(1, "test_file.py", content.clone());

    assert!(transfer_file.size >= content.len());
    assert!(transfer_file.total_chunks() > 0);
}

#[test]
fn test_transfer_file_get_next_chunk() {
    let content = b"fake content".repeat(10);

    let transfer_file = TransferFile::new(1, "test_file.py", content);
    let chunk = transfer_file.get_next_chunk();

    assert!(chunk.is_some());
    assert!(!chunk.unwrap().is_acked());
}

#[test]
fn test_transfer_file_is_complete() {
    let content = b"fake content".repeat(10);

    let mut transfer_file = TransferFile::new(1, "test_file.py", content);

    assert!(!transfer_file.is_complete());

    // Acknowledge all chunks
    while let Some(chunk) = transfer_file.get_next_chunk() {
        let chunk_type = chunk.type_.code() as u8;
        let chunk_package = chunk.package;

        let mut data = b"AK".to_vec();
        data.extend(&chunk.id.to_le_bytes());
        data.extend(&chunk_package.to_le_bytes());
        data.push(chunk_type);
        data.extend(&[0u8; 2]);

        let ack = ChunkAck::from_bytes(&data);
        transfer_file.acknowledge_chunk(&ack);
    }

    assert!(transfer_file.is_complete());
}

#[test]
fn test_transfer_file_from_path() {
    let content = b"fake content".repeat(10);

    let transfer_file = TransferFile::new(1, "test_file.py", content.clone());

    assert_eq!(transfer_file.filename, "test_file.py");
    assert!(transfer_file.size >= content.len());
}

#[test]
fn test_transfer_file_init() {
    let content = b"fake content".repeat(10);

    let transfer_file = TransferFile::new(1, "test_file.py", content.clone());

    assert_eq!(transfer_file.id, 1);
    assert_eq!(transfer_file.filename, "test_file.py");
    assert!(transfer_file.size >= content.len());
    assert!(transfer_file.total_chunks() > 0);
}

#[test]
fn test_transfer_file_init_delete() {
    let content = b"fake content".repeat(10);

    let transfer_file = TransferFile::new(1, "test_file.py.delete", content);

    assert_eq!(transfer_file.id, 1);
    assert_eq!(transfer_file.filename, "test_file.py");
    assert_eq!(transfer_file.total_chunks(), 1);

    // Check that the first chunk is a FileDelete
    let chunk = transfer_file.get_next_chunk().unwrap();
    assert_eq!(chunk.type_, ChunkType::FileDelete);
}

#[test]
fn test_transfer_file_acknowledge_chunk() {
    let content = b"fake content";

    let mut transfer_file = TransferFile::new(1, "test.py", content.to_vec());

    let chunk = transfer_file.get_next_chunk().unwrap();
    assert!(!chunk.is_acked());

    let chunk_type = chunk.type_.code() as u8;
    let chunk_package = chunk.package;

    let mut data = b"AK".to_vec();
    data.extend(&chunk.id.to_le_bytes());
    data.extend(&chunk_package.to_le_bytes());
    data.push(chunk_type);
    data.extend(&[0u8; 2]);

    let ack = ChunkAck::from_bytes(&data);
    transfer_file.acknowledge_chunk(&ack);

    let chunk = transfer_file.get_next_chunk().unwrap();
    // Should move to next chunk since first is now acked
    assert!(!chunk.is_acked());
}

#[test]
fn test_transfer_file_acknowledge_wrong_id() {
    let content = b"fake content";

    let mut transfer_file = TransferFile::new(1, "test.py", content.to_vec());

    let chunk = transfer_file.get_next_chunk().unwrap();
    let chunk_type = chunk.type_.code() as u8;
    let chunk_package = chunk.package;

    // Create ack with wrong id
    let mut data = b"AK".to_vec();
    data.extend(&(999u16).to_le_bytes()); // Wrong id
    data.extend(&chunk_package.to_le_bytes());
    data.push(chunk_type);
    data.extend(&[0u8; 2]);

    let ack = ChunkAck::from_bytes(&data);
    transfer_file.acknowledge_chunk(&ack);

    // Chunk should not be acknowledged
    let chunk = transfer_file.get_next_chunk().unwrap();
    assert_eq!(chunk.type_.code() as u8, chunk_type);
    assert_eq!(chunk.package, chunk_package);
}

#[test]
fn test_transfer_file_total_chunks() {
    let content = b"x";

    let transfer_file = TransferFile::new(1, "small.py", content.to_vec());

    // Should have at least: FileStart, FileChunk(s), FileEnd
    assert!(transfer_file.total_chunks() >= 3);
}

fn all_chunks(file: &mut TransferFile) -> Vec<mutenix::chunks::Chunk> {
    let mut chunks = Vec::new();
    while let Some(chunk) = file.get_next_chunk() {
        chunks.push(chunk.clone());
        let ack = ack_for(chunk.id, chunk.package, chunk.type_.code() as u8);
        let before = file.get_next_chunk().map(|c| (c.type_, c.package));
        file.acknowledge_chunk(&ack);
        let after = file.get_next_chunk().map(|c| (c.type_, c.package));
        assert_ne!(before, after);
    }
    chunks
}

#[test]
fn test_content_comes_back_from_the_chunks() {
    for len in [0usize, 1, 51, 52, 53, 104, 120, 1000] {
        let content: Vec<u8> = (0..len).map(|i| (i * 7 % 251) as u8).collect();
        let mut file = TransferFile::new(3, "data.bin", content.clone());
        assert_eq!(file.size, len);
        assert_eq!(file.content.len() % 52, 0);
        assert_eq!(&file.content[..len], &content[..]);
        assert!(file.content[len..].iter().all(|b| *b == 0x20));
        let chunks = all_chunks(&mut file);
        let total = (len + 51) / 52;
        assert_eq!(chunks.len(), total + 2);
        assert_eq!(chunks[0].type_, ChunkType::FileStart);
        assert_eq!(chunks[total + 1].type_, ChunkType::FileEnd);
        let mut data: Vec<u8> = Vec::new();
        for (k, chunk) in chunks[1..=total].iter().enumerate() {
            assert_eq!(chunk.type_, ChunkType::FileChunk);
            assert_eq!(chunk.package as usize, k);
            assert_eq!(chunk.content.len(), 52);
            data.extend(&chunk.content);
        }
        let start = &chunks[0].content;
        let declared =
            u16::from_le_bytes([start[start.len() - 2], start[start.len() - 1]]) as usize;
        assert_eq!(declared, len);
        data.truncate(declared);
        assert_eq!(data, content);
        for chunk in &chunks {
            assert_eq!(chunk.total_packages as usize, total);
            assert_eq!(chunk.id, 3);
        }
    }
}

#[test]
fn test_start_chunk_content() {
    let file = TransferFile::new(2, "main.py", vec![b'x'; 300]);
    let start = file.get_next_chunk().unwrap();
    assert_eq!(start.type_, ChunkType::FileStart);
    assert_eq!(start.package, 0);
    assert_eq!(start.total_packages, 6);
    let mut expected = vec![7u8];
    expected.extend(b"main.py");
    expected.extend([2u8, 0x2C, 0x01]);
    assert_eq!(start.content, expected);
}

#[test]
fn test_total_packages_is_a_ceiling() {
    for (len, total) in [(0usize, 0u16), (1, 1), (52, 1), (53, 2), (104, 2), (105, 3)] {
        let file = TransferFile::new(1, "f", vec![0u8; len]);
        assert_eq!(file.get_next_chunk().unwrap().total_packages, total);
        assert_eq!(file.total_chunks(), total as usize + 2);
    }
}

#[test]
fn test_foreign_ack_changes_nothing() {
    let mut file = TransferFile::new(1, "test.py", b"fake content".to_vec());
    file.acknowledge_chunk(&ack_for(2, 0, 1));
    file.acknowledge_chunk(&ack_for(999, 0, 2));
    file.acknowledge_chunk(&ack_for(0, 0, 3));
    let chunks = all_chunks(&mut file);
    assert_eq!(chunks.len(), 3);
    assert!(chunks.iter().all(|c| !c.is_acked()));
}

#[test]
fn test_acks_may_come_in_any_order_and_twice() {
    let mut file = TransferFile::new(1, "test.py", vec![1u8; 60]);
    assert_eq!(file.total_chunks(), 4);
    // The end first, then the second data chunk.
    file.acknowledge_chunk(&ack_for(1, 0, 3));
    file.acknowledge_chunk(&ack_for(1, 1, 2));
    file.acknowledge_chunk(&ack_for(1, 1, 2));
    assert!(!file.is_complete());
    assert_eq!(file.get_next_chunk().unwrap().type_, ChunkType::FileStart);
    file.acknowledge_chunk(&ack_for(1, 0, 1));
    let next = file.get_next_chunk().unwrap();
    assert_eq!((next.type_, next.package), (ChunkType::FileChunk, 0));
    // An acknowledgment that matches no chunk changes nothing.
    file.acknowledge_chunk(&ack_for(1, 7, 2));
    file.acknowledge_chunk(&ack_for(1, 0, 9));
    assert!(!file.is_complete());
    file.acknowledge_chunk(&ack_for(1, 0, 2));
    assert!(file.is_complete());
    assert!(file.get_next_chunk().is_none());
}

#[test]
fn test_delete_session_completes_after_one_ack() {
    let mut file = TransferFile::new(4, "old.py.delete", Vec::new());
    assert_eq!(file.total_chunks(), 1);
    assert!(!file.is_complete());
    let chunk = file.get_next_chunk().unwrap();
    assert_eq!(chunk.content, b"\x06old.py".to_vec());
    assert_eq!((chunk.package, chunk.total_packages), (0, 0));
    file.acknowledge_chunk(&ack_for(4, 0, 5));
    assert!(file.is_complete());
    assert_eq!(file.total_chunks(), 1);
}

#[test]
fn test_delete_suffix_is_taken_as_often_as_it_stands() {
    let file = TransferFile::new(1, "old.py.delete.delete", vec![1, 2, 3]);
    assert_eq!(file.filename, "old.py");
    assert_eq!(file.size, 0);
    assert!(file.content.is_empty());
    assert!(!TransferFile::needs_content("a.delete"));
    assert!(TransferFile::needs_content("a.deleted"));
    assert!(TransferFile::needs_content("delete"));
    let file = TransferFile::new(1, ".delete", Vec::new());
    assert_eq!(file.filename, "");
}

#[test]
fn test_get_next_chunk_mut() {
    let mut file = TransferFile::new(1, "test.py", b"abc".to_vec());
    file.get_next_chunk_mut().unwrap().set_acked(true);
    assert_eq!(file.get_next_chunk().unwrap().type_, ChunkType::FileChunk);
    file.get_next_chunk_mut().unwrap().set_acked(true);
    file.get_next_chunk_mut().unwrap().set_acked(true);
    assert!(file.get_next_chunk_mut().is_none());
    assert!(file.is_complete());
}

#[test]
fn test_update_error_texts() {
    assert_eq!(UpdateError::NotConnected.to_string(), "Device not connected");
    assert_eq!(UpdateError::IoError("gone".to_string()).to_string(), "IO error: gone");
    assert_eq!(
        UpdateError::DeviceError("full".to_string()).to_string(),
        "Device error: full"
    );
    assert_eq!(
        UpdateError::WriteFailed("busy".to_string()).to_string(),
        "Write failed: busy"
    );
    assert_eq!(
        UpdateError::FileError("Invalid filename".to_string()).to_string(),
        "File error: Invalid filename"
    );
}

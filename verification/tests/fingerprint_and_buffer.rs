use std::collections::hash_map::DefaultHasher;
use std::hash::{Hash, Hasher};
use trinity_server::chunk_buffer::ChunkBuffer;
use trinity_server::fingerprint::hash_vecu8;
use trinity_server::stream::Stream;

fn std_hash(bytes: &Vec<u8>) -> u64 {
    let mut hasher = DefaultHasher::new();
    bytes.hash(&mut hasher);
    hasher.finish()
}

#[test]
fn fingerprint_is_the_default_hash_of_the_vector() {
    for bytes in [vec![], vec![0u8], vec![1, 2, 3], vec![4, 5, 6], vec![255; 1000]] {
        assert_eq!(hash_vecu8(&bytes), std_hash(&bytes));
    }
}

#[test]
fn fingerprint_depends_on_the_bytes() {
    assert_eq!(hash_vecu8(&vec![1, 2, 3]), hash_vecu8(&vec![1, 2, 3]));
    assert_ne!(hash_vecu8(&vec![1, 2, 3]), hash_vecu8(&vec![4, 5, 6]));
    assert_ne!(hash_vecu8(&vec![1, 2, 3]), hash_vecu8(&vec![]));
    // A hasher that was fed nothing gives another digest than one fed a vector.
    assert_ne!(hash_vecu8(&vec![]), DefaultHasher::new().finish());
    assert_ne!(hash_vecu8(&vec![1, 2, 3]), DefaultHasher::new().finish());
}

#[test]
fn new_buffer_is_empty() {
    let buf = ChunkBuffer::new();
    let (bytes, fingerprint) = buf.read();
    assert_eq!(bytes, Vec::<u8>::new());
    assert_eq!(fingerprint, hash_vecu8(&vec![]));
    assert_eq!(buf.len(), 0);
}

#[test]
fn write_replaces_payload_and_fingerprint_together() {
    let mut buf = ChunkBuffer::new();
    buf.write(vec![1, 2, 3]);
    assert_eq!(buf.read(), (vec![1, 2, 3], hash_vecu8(&vec![1, 2, 3])));
    assert_eq!(buf.fingerprint(), hash_vecu8(&vec![1, 2, 3]));
    buf.write(vec![9]);
    assert_eq!(buf.read(), (vec![9], hash_vecu8(&vec![9])));
    assert_eq!(buf.len(), 1);
    let copy = buf.clone();
    assert_eq!(copy.into_parts(), (vec![9], hash_vecu8(&vec![9])));
}

#[test]
fn buffer_holding_bytes_reads_them_back() {
    let buf = ChunkBuffer::holding(vec![7, 7]);
    assert_eq!(buf.read().0, vec![7, 7]);
    assert_eq!(buf.fingerprint(), std_hash(&vec![7, 7]));
}

#[test]
fn stream_starts_empty_and_keeps_the_last_chunk() {
    let mut stream = Stream::new(3, "radio1".to_string(), Some(11));
    assert_eq!(stream.streamer_id(), 3);
    assert_eq!(stream.stream_name(), "radio1");
    assert_eq!(stream.connection(), Some(11));
    assert_eq!(stream.get_chunk(), Vec::<u8>::new());
    stream.load_chunk(vec![1, 2, 3]);
    assert_eq!(stream.get_chunk(), vec![1, 2, 3]);
    stream.load_chunk(vec![4, 5, 6]);
    assert_eq!(stream.get_chunk(), vec![4, 5, 6]);
    assert_eq!(stream.read_chunk(), (vec![4, 5, 6], hash_vecu8(&vec![4, 5, 6])));
    let copy = stream.clone();
    assert_eq!(copy.stream_name(), "radio1");
    assert_eq!(copy.streamer_id(), 3);
    assert_eq!(copy.connection(), Some(11));
    let replaced = copy.with_chunk(vec![8]);
    assert_eq!(replaced.into_chunk(), (vec![8], hash_vecu8(&vec![8])));
    assert_eq!(stream.get_chunk(), vec![4, 5, 6]);
}

#[test]
fn producer_and_session_can_be_attached_later() {
    let mut stream = Stream::new(0, "radio1".to_string(), None);
    stream.load_chunk(vec![1]);
    stream.set_streamer_id(42);
    stream.attach_connection(7);
    assert_eq!(stream.streamer_id(), 42);
    assert_eq!(stream.connection(), Some(7));
    assert_eq!(stream.stream_name(), "radio1");
    assert_eq!(stream.get_chunk(), vec![1]);
}

//! The loader chain: reference tags, stream bounds, the enumerator cursor,
//! and the shared reference-counted object runtime.

use font_renderer::ComError;
use font_renderer::enumerator::FontFileEnumerator;
use font_renderer::loader::{
    FontCollectionLoader, FontFileLoader, memory_collection_tag_bytes, memory_file_tag_bytes,
};
use font_renderer::object::{InterfaceId, ObjectControl};
use font_renderer::stream::FontFileStream;

#[test]
fn tags_spell_the_reserved_names() {
    assert_eq!(memory_file_tag_bytes(), b"MEMORY_FILE".to_vec());
    assert_eq!(memory_collection_tag_bytes(), b"MEMORY_COLLECTION".to_vec());
}

#[test]
fn file_loader_accepts_only_the_file_tag() {
    let loader = FontFileLoader::new(vec![1, 2, 3]);
    let stream = loader
        .create_stream_from_key(b"MEMORY_FILE", 42)
        .expect("the reserved tag must yield a stream");
    assert_eq!(stream.get_file_size(), 3);
    assert_eq!(stream.get_last_write_time(), 42);
    let err = loader.create_stream_from_key(b"MEMORY_COLLECTION", 42);
    assert!(matches!(err, Err(ComError::InvalidArgument)));
    let err = loader.create_stream_from_key(b"MEMORY_FILE2", 42);
    assert!(matches!(err, Err(ComError::InvalidArgument)));
}

#[test]
fn collection_loader_accepts_only_the_collection_tag() {
    let loader = FontCollectionLoader::new(7);
    let mut enumerator = loader
        .create_enumerator_from_key(b"MEMORY_COLLECTION")
        .expect("the reserved tag must yield an enumerator");
    assert!(enumerator.move_next());
    assert_eq!(enumerator.get_current_font_file(), Ok(7));
    let err = loader.create_enumerator_from_key(b"MEMORY_FILE");
    assert!(matches!(err, Err(ComError::InvalidArgument)));
}

#[test]
fn empty_read_at_end_succeeds_one_past_fails() {
    let mut stream = FontFileStream::new(vec![0u8; 16], 0);
    let fragment = stream.read_file_fragment(16, 0);
    assert!(fragment.is_ok());
    stream.release_file_fragment(fragment.unwrap());
    let err = stream.read_file_fragment(17, 0);
    assert!(matches!(err, Err(ComError::OutOfBounds)));
}

#[test]
fn read_past_the_end_fails_with_out_of_bounds() {
    let mut stream = FontFileStream::new(vec![1, 2, 3, 4], 0);
    assert!(matches!(
        stream.read_file_fragment(2, 3),
        Err(ComError::OutOfBounds)
    ));
    assert!(stream.read_file_fragment(2, 2).is_ok());
}

#[test]
fn fragment_read_pins_and_release_unpins() {
    let mut stream = FontFileStream::new(vec![9, 8, 7], 5);
    assert_eq!(stream.control.ref_count, 1);
    let fragment = stream.read_file_fragment(1, 2).unwrap();
    assert_eq!(stream.control.ref_count, 2);
    assert_eq!(stream.fragment_bytes(&fragment), vec![8, 7]);
    let remaining = stream.release_file_fragment(fragment);
    assert_eq!(remaining, 1);
    assert_eq!(stream.control.ref_count, 1);
}

#[test]
fn enumerator_walks_start_at_file_end() {
    let mut enumerator = FontFileEnumerator::new(99);
    assert_eq!(
        enumerator.get_current_font_file(),
        Err(ComError::OutOfBounds)
    );
    assert!(enumerator.move_next());
    assert_eq!(enumerator.get_current_font_file(), Ok(99));
    assert!(!enumerator.move_next());
    assert_eq!(
        enumerator.get_current_font_file(),
        Err(ComError::OutOfBounds)
    );
    assert!(!enumerator.move_next());
    assert_eq!(
        enumerator.get_current_font_file(),
        Err(ComError::OutOfBounds)
    );
}

#[test]
fn reference_counts_start_at_one_and_move_by_one() {
    let mut control = ObjectControl::new();
    assert_eq!(control.ref_count, 1);
    assert_eq!(control.add_ref(), 2);
    assert_eq!(control.release(), 1);
    assert_eq!(control.release(), 0);
}

#[test]
fn query_interface_increments_only_on_supported_interfaces() {
    let mut stream = FontFileStream::new(vec![], 0);
    assert!(stream.query_interface(InterfaceId::Unknown).is_ok());
    assert!(stream.query_interface(InterfaceId::FontFileStream).is_ok());
    assert_eq!(stream.control.ref_count, 3);
    let err = stream.query_interface(InterfaceId::GeometrySink);
    assert!(matches!(err, Err(ComError::NoInterface)));
    assert_eq!(stream.control.ref_count, 3);

    let mut loader = FontFileLoader::new(vec![]);
    assert!(loader.query_interface(InterfaceId::FontFileLoader).is_ok());
    assert!(matches!(
        loader.query_interface(InterfaceId::FontFileStream),
        Err(ComError::NoInterface)
    ));

    let mut collection = FontCollectionLoader::new(0);
    assert!(collection
        .query_interface(InterfaceId::FontCollectionLoader)
        .is_ok());
    assert!(matches!(
        collection.query_interface(InterfaceId::FontFileEnumerator),
        Err(ComError::NoInterface)
    ));

    let mut enumerator = FontFileEnumerator::new(0);
    assert!(enumerator
        .query_interface(InterfaceId::FontFileEnumerator)
        .is_ok());
    assert!(matches!(
        enumerator.query_interface(InterfaceId::FontCollectionLoader),
        Err(ComError::NoInterface)
    ));
}

#[test]
fn stream_serves_the_loaders_bytes() {
    let loader = FontFileLoader::new(vec![10, 11, 12]);
    let mut stream = loader.create_stream_from_key(b"MEMORY_FILE", 1).unwrap();
    let fragment = stream.read_file_fragment(0, 3).unwrap();
    assert_eq!(stream.fragment_bytes(&fragment), vec![10, 11, 12]);
    stream.release_file_fragment(fragment);
}

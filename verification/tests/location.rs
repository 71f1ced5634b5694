use hdf5_location::error::H5Error;
use hdf5_location::location::{check_status, File, Location};
use hdf5_location::marshal::{buffer_size, c_buffer_text, comment_c_bytes, payload_bytes, to_c_bytes};

#[test]
fn test_to_c_bytes_plain() {
    assert_eq!(to_c_bytes(b"foo"), Ok(vec![b'f', b'o', b'o', 0]));
}

#[test]
fn test_to_c_bytes_empty() {
    assert_eq!(to_c_bytes(b""), Ok(vec![0]));
}

#[test]
fn test_to_c_bytes_embedded_terminator() {
    assert_eq!(to_c_bytes(b"fo\0o"), Err(H5Error::StringEncoding));
}

#[test]
fn test_comment_c_bytes_plain() {
    assert_eq!(comment_c_bytes("foo"), Ok(vec![b'f', b'o', b'o', 0]));
}

#[test]
fn test_comment_c_bytes_embedded_terminator() {
    assert_eq!(comment_c_bytes("fo\0o"), Err(H5Error::StringEncoding));
}

#[test]
fn test_payload_bytes_stops_at_terminator() {
    assert_eq!(payload_bytes(&[b'f', b'o', b'o', 0, b'x', b'y']), vec![b'f', b'o', b'o']);
}

#[test]
fn test_payload_bytes_without_terminator() {
    assert_eq!(payload_bytes(b"abc"), vec![b'a', b'b', b'c']);
}

#[test]
fn test_c_buffer_text_plain() {
    assert_eq!(c_buffer_text(&[b'/', 0]), Ok("/".to_string()));
}

#[test]
fn test_c_buffer_text_invalid_utf8() {
    assert_eq!(c_buffer_text(&[0xff, 0xfe, 0]), Err(H5Error::StringEncoding));
}

#[test]
fn test_comment_round_trip() {
    let text = "grid spacing in micrometres";
    let c = comment_c_bytes(text).unwrap();
    assert_eq!(c_buffer_text(&c), Ok(text.to_string()));
}

#[test]
fn test_buffer_size() {
    assert_eq!(buffer_size(3), Ok(4));
    assert_eq!(buffer_size(0), Ok(1));
    assert_eq!(buffer_size(-1), Err(H5Error::LibraryFailure));
}

#[test]
fn test_name_text_masks_failure() {
    assert_eq!(Location::name_text(Err(H5Error::LibraryFailure)), "");
}

#[test]
fn test_name_text_root() {
    assert_eq!(Location::name_text(Ok("/".to_string())), "/");
}

#[test]
fn test_comment_text_present() {
    assert_eq!(Location::comment_text(Ok("foo".to_string())), Some("foo".to_string()));
}

#[test]
fn test_comment_text_absent() {
    assert_eq!(Location::comment_text(Ok(String::new())), None);
    assert_eq!(Location::comment_text(Err(H5Error::LibraryFailure)), None);
}

#[test]
fn test_repr_root() {
    assert_eq!(Location::repr("/"), "\"/\"");
}

#[test]
fn test_repr_anonymous() {
    assert_eq!(Location::repr(""), "\"\"");
}

#[test]
fn test_location_from_id() {
    let loc = Location::from_id(42).unwrap();
    assert_eq!(loc.id(), 42);
    assert_eq!(Location::from_id(-1).err(), Some(H5Error::LibraryFailure));
}

#[test]
fn test_file_from_id_keeps_identifier() {
    let file = File::from_id(7).unwrap();
    assert_eq!(file.id(), 7);
    assert_eq!(File::from_id(-1).err(), Some(H5Error::LibraryFailure));
}

#[test]
fn test_check_status() {
    assert_eq!(check_status(0), Ok(()));
    assert_eq!(check_status(1), Ok(()));
    assert_eq!(check_status(-1), Err(H5Error::LibraryFailure));
}

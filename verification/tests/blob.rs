use klaver_wintertc::blob::{Blob, BlobInit, File};

fn part(x: &str) -> BlobInit {
    BlobInit::Text(x.to_string())
}

#[test]
fn size_and_type() {
    let blob = Blob::new(&vec![part("hello "), part("world")], Some("text/plain".to_string()));
    assert_eq!(blob.size(), 11);
    assert_eq!(blob.content_type(), "text/plain");
}

#[test]
fn default_type_is_empty_string() {
    let blob = Blob::new(&vec![part("hi")], None);
    assert_eq!(blob.content_type(), "");
}

#[test]
fn empty_blob() {
    let blob = Blob::new(&vec![], None);
    assert_eq!(blob.size(), 0);
}

#[test]
fn text() {
    let blob = Blob::new(&vec![part("hello "), part("world")], None);
    assert_eq!(blob.text(), Some("hello world".to_string()));
}

#[test]
fn array_buffer_and_bytes() {
    let blob = Blob::new(&vec![part("abc")], None);
    let bytes = blob.bytes();
    assert_eq!(bytes.len(), 3);
    assert_eq!(bytes, vec![97, 98, 99]);
}

#[test]
fn slice_with_positive_indices() {
    let blob = Blob::new(&vec![part("hello world")], None);
    let sliced = blob.slice(Some(0), Some(5), Some("text/plain".to_string()));
    assert_eq!(sliced.size(), 5);
    assert_eq!(sliced.content_type(), "text/plain");
    assert_eq!(sliced.text(), Some("hello".to_string()));
}

#[test]
fn slice_with_negative_indices() {
    let blob = Blob::new(&vec![part("hello world")], None);
    assert_eq!(blob.slice(Some(-5), None, None).text(), Some("world".to_string()));
}

#[test]
fn slice_clamps_out_of_range_indices() {
    let blob = Blob::new(&vec![part("hello")], None);
    assert_eq!(blob.slice(Some(-100), Some(100), None).text(), Some("hello".to_string()));
}

#[test]
fn blob_part_can_be_another_blob() {
    let a = Blob::new(&vec![part("foo")], None);
    let b = Blob::new(&vec![BlobInit::Blob(a), part("bar")], None);
    assert_eq!(b.text(), Some("foobar".to_string()));
}

#[test]
fn blob_part_can_be_an_array_buffer() {
    let blob = Blob::new(&vec![BlobInit::Bytes(vec![104, 105])], None);
    assert_eq!(blob.text(), Some("hi".to_string()));
}

#[test]
fn blob_slice_end_before_start_is_empty() {
    let blob = Blob::new(&vec![part("hello")], Some("a/b".to_string()));
    let s = blob.slice(Some(3), Some(1), None);
    assert_eq!(s.size(), 0);
    assert_eq!(s.content_type(), "");
    assert_eq!(blob.slice(Some(1), Some(-1), None).text(), Some("ell".to_string()));
    assert_eq!(blob.slice(None, None, None).bytes(), b"hello".to_vec());
    assert_eq!(blob.slice(Some(i64::MIN), Some(i64::MAX), None).size(), 5);
}

#[test]
fn blob_text_rejects_invalid_utf8_and_encodes_multibyte() {
    let bad = Blob::new(&vec![BlobInit::Bytes(vec![0xff, 0x41])], None);
    assert_eq!(bad.text(), None);
    let good = Blob::new(&vec![part("é")], None);
    assert_eq!(good.bytes(), vec![0xc3, 0xa9]);
}

#[test]
fn file_keeps_name_and_contents() {
    let f = File::new(&vec![part("hi")], "a.txt".to_string(), Some("text/plain".to_string()));
    assert_eq!(f.name(), "a.txt");
    assert_eq!(f.blob().size(), 2);
    assert_eq!(f.blob().content_type(), "text/plain");
    let g = f.duplicate();
    assert_eq!(g.name(), "a.txt");
    assert_eq!(g.blob().bytes(), b"hi".to_vec());
}

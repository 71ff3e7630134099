use klaver_wintertc::blob::{Blob, BlobInit, File};
use klaver_wintertc::fetch::form_data::{boundary_from, escape_field, FormDataEntryValue, FormData, FormDataValue};

fn s(x: &str) -> String {
    x.to_string()
}

fn text_of(v: &FormDataValue) -> String {
    match v {
        FormDataValue::Text(t) => t.clone(),
        FormDataValue::File(_) => panic!("expected a string value"),
    }
}

fn file_of(v: &FormDataValue) -> &File {
    match v {
        FormDataValue::File(f) => f,
        FormDataValue::Text(_) => panic!("expected a file value"),
    }
}

#[test]
fn append_and_get_string() {
    let mut fd = FormData::new();
    fd.append(s("a"), FormDataEntryValue::Text(s("1")), None);
    fd.append(s("b"), FormDataEntryValue::Text(2.to_string()), None);
    assert_eq!(text_of(&fd.get("a").unwrap()), "1");
    assert_eq!(text_of(&fd.get("b").unwrap()), "2");
    assert!(fd.get("missing").is_none());
}

#[test]
fn appending_a_blob_wraps_it_as_a_file_named_blob() {
    let mut fd = FormData::new();
    fd.append(s("file"), FormDataEntryValue::Blob(Blob::new(&vec![BlobInit::Text(s("hi"))], None)), None);
    let value = fd.get("file").unwrap();
    let f = file_of(&value);
    assert_eq!(f.name(), "blob");
    assert_eq!(f.blob().size(), 2);
}

#[test]
fn appending_a_blob_with_a_filename_uses_it_as_the_name() {
    let mut fd = FormData::new();
    let blob = Blob::new(&vec![BlobInit::Text(s("hi"))], Some(s("text/plain")));
    fd.append(s("file"), FormDataEntryValue::Blob(blob), Some(s("hi.txt")));
    let value = fd.get("file").unwrap();
    let f = file_of(&value);
    assert_eq!(f.name(), "hi.txt");
    assert_eq!(f.blob().content_type(), "text/plain");
}

#[test]
fn appending_a_file_preserves_its_own_name_when_no_filename_is_given() {
    let mut fd = FormData::new();
    let file = File::new(&vec![BlobInit::Text(s("hi"))], s("original.txt"), None);
    fd.append(s("file"), FormDataEntryValue::File(file), None);
    assert_eq!(file_of(&fd.get("file").unwrap()).name(), "original.txt");
}

#[test]
fn appending_a_file_with_a_filename_overrides_its_name() {
    let mut fd = FormData::new();
    let file = File::new(&vec![BlobInit::Text(s("hi"))], s("original.txt"), None);
    fd.append(s("file"), FormDataEntryValue::File(file), Some(s("renamed.txt")));
    assert_eq!(file_of(&fd.get("file").unwrap()).name(), "renamed.txt");
}

#[test]
fn get_all_returns_every_matching_value() {
    let mut fd = FormData::new();
    fd.append(s("a"), FormDataEntryValue::Text(s("1")), None);
    fd.append(s("a"), FormDataEntryValue::Text(s("2")), None);
    let all: Vec<String> = fd.get_all("a").iter().map(text_of).collect();
    assert_eq!(all, vec![s("1"), s("2")]);
}

#[test]
fn has_and_delete() {
    let mut fd = FormData::new();
    fd.append(s("a"), FormDataEntryValue::Text(s("1")), None);
    assert!(fd.has("a"));
    fd.delete("a");
    assert!(!fd.has("a"));
}

#[test]
fn set_collapses_duplicates_keeping_first_position() {
    let mut fd = FormData::new();
    fd.append(s("a"), FormDataEntryValue::Text(s("1")), None);
    fd.append(s("b"), FormDataEntryValue::Text(s("2")), None);
    fd.append(s("a"), FormDataEntryValue::Text(s("3")), None);
    fd.set(s("a"), FormDataEntryValue::Text(s("new")), None);
    let entries: Vec<String> =
        fd.entries().iter().map(|(k, v)| format!("{}={}", k, text_of(v))).collect();
    assert_eq!(entries.join(","), "a=new,b=2");
}

#[test]
fn iteration_and_for_each() {
    let mut fd = FormData::new();
    fd.append(s("a"), FormDataEntryValue::Text(s("1")), None);
    fd.append(s("b"), FormDataEntryValue::Text(s("2")), None);
    assert_eq!(fd.keys().join(","), "a,b");
    let values: Vec<String> = fd.values().iter().map(text_of).collect();
    assert_eq!(values.join(","), "1,2");
    let mut seen = Vec::new();
    for (key, value) in fd.entries() {
        seen.push(format!("{}={}", key, text_of(&value)));
    }
    assert_eq!(seen.join(","), "a=1,b=2");
}

#[test]
fn form_data_set_appends_when_absent_and_delete_keeps_others() {
    let mut fd = FormData::new();
    fd.append(s("x"), FormDataEntryValue::Text(s("1")), None);
    fd.append(s("y"), FormDataEntryValue::Text(s("2")), None);
    fd.append(s("x"), FormDataEntryValue::Text(s("3")), None);
    fd.set(s("z"), FormDataEntryValue::Text(s("4")), None);
    assert_eq!(fd.keys(), vec![s("x"), s("y"), s("x"), s("z")]);
    fd.delete("x");
    assert_eq!(fd.keys(), vec![s("y"), s("z")]);
}

#[test]
fn escape_field_escapes_cr_lf_and_quote_only() {
    assert_eq!(escape_field("a\r\nb\"c\\d"), "a%0D%0Ab%22c\\d");
    assert_eq!(escape_field(""), "");
}

#[test]
fn boundary_has_prefix_and_hex_digits() {
    assert_eq!(
        boundary_from(0x0123456789abcdef, 255),
        "----KlaverFormBoundary0123456789abcdef00000000000000ff"
    );
}

#[test]
fn multipart_encoding_of_text_and_file_entries() {
    let mut fd = FormData::new();
    fd.append(s("na\"me"), FormDataEntryValue::Text(s("v")), None);
    let file = File::new(&vec![BlobInit::Bytes(vec![1, 2])], s("f.bin"), None);
    fd.append(s("f"), FormDataEntryValue::File(file), None);
    let body = fd.encode_multipart_with("B");
    let mut expected = Vec::new();
    expected.extend_from_slice(b"--B\r\nContent-Disposition: form-data; name=\"na%22me\"\r\n\r\nv\r\n");
    expected.extend_from_slice(
        b"--B\r\nContent-Disposition: form-data; name=\"f\"; filename=\"f.bin\"\r\nContent-Type: application/octet-stream\r\n\r\n",
    );
    expected.extend_from_slice(&[1, 2]);
    expected.extend_from_slice(b"\r\n--B--");
    assert_eq!(body, expected);

    let (boundary, random_body) = fd.encode_multipart();
    assert!(boundary.starts_with("----KlaverFormBoundary"));
    assert_eq!(boundary.len(), 54);
    assert_eq!(random_body, fd.encode_multipart_with(&boundary));
    assert_eq!(FormData::new().encode_multipart_with("x"), b"--x--".to_vec());
}

#[test]
fn pushed_entries_keep_their_order() {
    let mut fd = FormData::new();
    fd.push_string(s("k"), s("v"));
    fd.push_file(s("k"), File::new(&vec![BlobInit::Text(s("xyz"))], s("n.txt"), None));
    let all = fd.get_all("k");
    assert_eq!(all.len(), 2);
    assert_eq!(text_of(&all[0]), "v");
    assert_eq!(file_of(&all[1]).name(), "n.txt");
    assert_eq!(file_of(&all[1]).blob().size(), 3);
}

use base64::Engine;
use queue_playlist_maker::embedded_image::{
    encode_base64, encode_base64_file, image_subtype, make_data_uri, resolve_image,
};

#[test]
fn png_data_uri_of_bytes() {
    assert_eq!(encode_base64(b"hello".to_vec()), "data:image/png;base64,aGVsbG8=");
    assert_eq!(encode_base64(Vec::new()), "data:image/png;base64,");
    assert_eq!(encode_base64(vec![0xff, 0xfe, 0xfd]), "data:image/png;base64,//79");
    assert_eq!(encode_base64(vec![0]), "data:image/png;base64,AA==");
}

#[test]
fn data_uri_decodes_to_the_bytes() {
    let bytes: Vec<u8> = (0..=255u8).collect();
    let uri = encode_base64(bytes.clone());
    let encoded = uri.strip_prefix("data:image/png;base64,").unwrap();
    assert_eq!(base64::engine::general_purpose::STANDARD.decode(encoded).unwrap(), bytes);
}

#[test]
fn data_uri_parts() {
    assert_eq!(make_data_uri("jpeg", "QUJD"), "data:image/jpeg;base64,QUJD");
    assert_eq!(make_data_uri("", ""), "data:image/;base64,");
}

#[test]
fn file_that_could_not_be_read_gives_empty_image() {
    assert_eq!(encode_base64_file("cover.png", None), "");
    assert_eq!(encode_base64_file("no extension", None), "");
}

#[test]
fn file_image_has_the_extension_as_subtype() {
    assert_eq!(encode_base64_file("cover.png", Some(b"hello".to_vec())), "data:image/png;base64,aGVsbG8=");
    assert_eq!(encode_base64_file("cover.jpg", Some(b"hi".to_vec())), "data:image/jpg;base64,aGk=");
    assert_eq!(encode_base64_file("./pics/my.cover.gif", Some(Vec::new())), "data:image/gif;base64,");
    assert_eq!(encode_base64_file("ends.", Some(vec![1])), "data:image/;base64,AQ==");
}

#[test]
fn file_without_extension_gives_empty_image() {
    assert_eq!(encode_base64_file("cover", Some(b"hello".to_vec())), "");
    assert_eq!(encode_base64_file("", Some(b"hello".to_vec())), "");
    assert_eq!(encode_base64_file("dir/cover", Some(Vec::new())), "");
    assert_eq!(resolve_image("cover", b"hello".to_vec(), Some(b"hi".to_vec())), "");
}

#[test]
fn subtype_is_what_follows_the_last_dot() {
    assert_eq!(image_subtype("cover.png"), Some("png".to_string()));
    assert_eq!(image_subtype("a.b.c"), Some("c".to_string()));
    assert_eq!(image_subtype(".hidden"), Some("hidden".to_string()));
    assert_eq!(image_subtype("dot."), Some("".to_string()));
    assert_eq!(image_subtype("ü.é"), Some("é".to_string()));
    assert_eq!(image_subtype("nodot"), None);
    assert_eq!(image_subtype(""), None);
}

#[test]
fn no_image_path_means_the_bundled_image() {
    assert_eq!(resolve_image("", b"hello".to_vec(), None), "data:image/png;base64,aGVsbG8=");
    assert_eq!(resolve_image("", b"hello".to_vec(), Some(vec![1, 2, 3])), "data:image/png;base64,aGVsbG8=");
}

#[test]
fn image_path_means_the_file() {
    assert_eq!(resolve_image("x.webp", b"hello".to_vec(), Some(b"hi".to_vec())), "data:image/webp;base64,aGk=");
    assert_eq!(resolve_image("x.webp", b"hello".to_vec(), None), "");
}

use rusty_bedrock_lib::file::{
    get_extension_from_filename, get_file_stem, get_lowercase_extension, Base64Encoding,
    FileReference, Location, Type, UnsupportedKind,
};

#[test]
fn extension() {
    let file = "/tmp/foo.bar";
    assert_eq!("bar", get_extension_from_filename(file));
    assert_eq!("foo", get_file_stem(file));

    let file = "/tmp/foo";
    assert_eq!("", get_extension_from_filename(file));
    assert_eq!("foo", get_file_stem(file));

    let file = "s3://bucket/file.baz";
    assert_eq!("baz", get_extension_from_filename(file));
    assert_eq!("file", get_file_stem(file));

    let file = "s3://bucket/file";
    assert_eq!("", get_extension_from_filename(file));
    assert_eq!("file", get_file_stem(file));
}

#[test]
fn extension_is_what_follows_the_last_dot() {
    assert_eq!("gz", get_extension_from_filename("/tmp/archive.tar.gz"));
    assert_eq!("archive.tar", get_file_stem("/tmp/archive.tar.gz"));
}

#[test]
fn every_image_extension_is_an_image() {
    for ext in ["png", "jpg", "jpeg", "gif", "webp"] {
        assert_eq!(Type::Image, Type::of_extension(ext), "{}", ext);
    }
}

#[test]
fn every_video_extension_is_a_video() {
    for ext in ["mp4", "mov", "mkv", "webm", "flv", "mpeg", "mpg", "wmv", "3gp"] {
        assert_eq!(Type::Video, Type::of_extension(ext), "{}", ext);
    }
}

#[test]
fn every_document_extension_is_a_document() {
    for ext in ["csv", "doc", "docx", "html", "md", "pdf", "txt", "xls", "xlsx"] {
        assert_eq!(Type::Document, Type::of_extension(ext), "{}", ext);
    }
}

#[test]
fn unknown_extensions_are_unsupported() {
    for ext in ["", "xyz", "exe", "pn", "pngg", "m4v", "avi", "PNG"] {
        assert_eq!(Type::Unsupported, Type::of_extension(ext), "{}", ext);
    }
}

#[test]
fn kind_ignores_case() {
    for path in ["a.png", "a.PNG", "a.Png", "a.pNg"] {
        assert_eq!(Type::Image, FileReference::from(path.to_string()).file_type);
    }
    assert_eq!(Type::Video, FileReference::from("clip.WebM".to_string()).file_type);
    assert_eq!(Type::Document, FileReference::from("notes.PDF".to_string()).file_type);
}

#[test]
fn classification_of_a_local_image() {
    let reference = FileReference::from("/tmp/Cat.PNG".to_string());
    assert_eq!(Type::Image, reference.file_type);
    assert_eq!(Location::Local, reference.location);
    assert_eq!("/tmp/Cat.PNG", reference.path);
    assert_eq!("Cat", reference.stem.0);
    assert_eq!("png", reference.extension.0);
    assert!(reference.needs_contents());
}

#[test]
fn classification_of_a_remote_video() {
    let reference = FileReference::from("s3://bucket/movie.webm".to_string());
    assert_eq!(Type::Video, reference.file_type);
    assert_eq!(Location::S3, reference.location);
    assert_eq!("movie", reference.stem.0);
    assert_eq!("webm", reference.extension.0);
    assert!(!reference.needs_contents());
}

#[test]
fn scheme_must_lead() {
    assert_eq!(Location::Local, FileReference::from("/data/s3://x.png".to_string()).location);
    assert_eq!(Location::Local, FileReference::from("S3://bucket/x.png".to_string()).location);
    assert_eq!(Location::Local, FileReference::from("s3:/x.png".to_string()).location);
}

#[test]
fn no_extension_is_unsupported_not_an_error() {
    let reference = FileReference::from("/tmp/README".to_string());
    assert_eq!("", reference.extension.0);
    assert_eq!(Type::Unsupported, reference.file_type);
    assert!(!reference.needs_contents());
}

#[test]
fn classify_refuses_unsupported_kinds_with_the_path() {
    assert_eq!(
        Err(UnsupportedKind("notes.xyz".to_string())),
        FileReference::classify("notes.xyz".to_string())
    );
    let accepted = FileReference::classify("notes.md".to_string()).unwrap();
    assert_eq!(Type::Document, accepted.file_type);
    assert_eq!("notes.md", accepted.path);
}

#[test]
fn base64_of_known_bytes() {
    assert_eq!("aGVsbG8=", Base64Encoding::encode(b"hello".to_vec()).unwrap());
    assert_eq!("", Base64Encoding::encode(Vec::new()).unwrap());
    assert_eq!("AAEC/w==", Base64Encoding::encode(vec![0, 1, 2, 255]).unwrap());
}

#[test]
fn base64_round_trip() {
    let samples: Vec<Vec<u8>> = vec![
        vec![],
        vec![0],
        vec![255, 254],
        b"The quick brown fox".to_vec(),
        (0..=255).collect(),
    ];
    for data in samples {
        let text = Base64Encoding::encode(data.clone());
        assert_eq!(Some(data), text.decode());
    }
}

#[test]
fn base64_decode_of_received_text() {
    assert_eq!(Some(b"hello".to_vec()), Base64Encoding::new("aGVsbG8=".to_string()).decode());
    assert_eq!(None, Base64Encoding::new("not base64!".to_string()).decode());
    assert_eq!(None, Base64Encoding::new("aGVsbG8".to_string()).decode());
}

#[test]
fn new_keeps_the_text() {
    assert_eq!("abc", Base64Encoding::new("abc".to_string()).unwrap());
}

#[test]
fn the_extension_is_held_in_lower_case_and_the_stem_as_written() {
    let reference = FileReference::from("photo.PNG".to_string());
    assert_eq!(Type::Image, reference.file_type);
    assert_eq!(Location::Local, reference.location);
    assert_eq!("photo.PNG", reference.path);
    assert_eq!("photo", reference.stem.0);
    assert_eq!("png", reference.extension.0);

    let reference = FileReference::from("/tmp/Report.PdF".to_string());
    assert_eq!(Type::Document, reference.file_type);
    assert_eq!("Report", reference.stem.0);
    assert_eq!("pdf", reference.extension.0);
}

#[test]
fn the_plain_extension_keeps_its_case() {
    assert_eq!("PNG", get_extension_from_filename("photo.PNG"));
    assert_eq!("png", get_lowercase_extension("photo.PNG"));
    assert_eq!("", get_lowercase_extension("/tmp/README"));
    assert_eq!("Photo", get_file_stem("Photo.PNG"));
}

#[test]
fn a_leading_dot_starts_no_extension() {
    assert_eq!("", get_extension_from_filename("/home/me/.bashrc"));
    assert_eq!(".bashrc", get_file_stem("/home/me/.bashrc"));
    assert_eq!("", get_extension_from_filename("/tmp/name."));
    assert_eq!("name", get_file_stem("/tmp/name."));
}

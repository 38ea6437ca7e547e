use sonify::errors::RunError;
use sonify::paths::{bytes_eq, classify, derive_output_path, validate_config, PathClass};

fn bytes(s: &str) -> Vec<u8> {
    s.as_bytes().to_vec()
}

#[test]
fn output_path_mirrors_stem_under_root() {
    let out = derive_output_path(&bytes("/in/song.bin"), &bytes("/out"));
    assert_eq!(out, bytes("/out/song.wav"));
}

#[test]
fn output_path_without_extension_keeps_whole_name() {
    let out = derive_output_path(&bytes("/in/data"), &bytes("/out"));
    assert_eq!(out, bytes("/out/data.wav"));
}

#[test]
fn output_path_for_leading_dot_name_keeps_whole_name() {
    let out = derive_output_path(&bytes("/in/.config"), &bytes("/out"));
    assert_eq!(out, bytes("/out/.config.wav"));
}

#[test]
fn output_path_strips_only_the_last_extension() {
    let out = derive_output_path(&bytes("/in/archive.tar.gz"), &bytes("/out"));
    assert_eq!(out, bytes("/out/archive.tar.wav"));
}

#[test]
fn output_path_for_trailing_dot_name() {
    let out = derive_output_path(&bytes("/in/noted."), &bytes("/out"));
    assert_eq!(out, bytes("/out/noted.wav"));
}

#[test]
fn output_path_does_not_double_the_separator() {
    let out = derive_output_path(&bytes("/in/song.bin"), &bytes("/out/"));
    assert_eq!(out, bytes("/out/song.wav"));
}

#[test]
fn output_path_under_empty_root_is_relative() {
    let out = derive_output_path(&bytes("/in/song.bin"), &bytes(""));
    assert_eq!(out, bytes("song.wav"));
}

#[test]
fn output_path_for_bare_file_name() {
    let out = derive_output_path(&bytes("song.bin"), &bytes("converted"));
    assert_eq!(out, bytes("converted/song.wav"));
}

#[test]
fn identical_paths_are_an_invalid_configuration() {
    let p = bytes("/same/path");
    assert_eq!(
        validate_config(&p, &p, true, true, false),
        Err(RunError::InvalidConfiguration)
    );
    assert_eq!(
        validate_config(&p, &p, false, false, true),
        Err(RunError::InvalidConfiguration)
    );
}

#[test]
fn type_mismatch_is_an_invalid_configuration() {
    let dir_in = bytes("/in");
    let file_out = bytes("/out.wav");
    assert_eq!(
        validate_config(&dir_in, &file_out, true, false, true),
        Err(RunError::InvalidConfiguration)
    );
    let file_in = bytes("/in.bin");
    let dir_out = bytes("/out");
    assert_eq!(
        validate_config(&file_in, &dir_out, false, true, false),
        Err(RunError::InvalidConfiguration)
    );
}

#[test]
fn consistent_pairs_are_accepted() {
    assert_eq!(
        validate_config(&bytes("/in"), &bytes("/out"), true, true, false),
        Ok(PathClass::Directory)
    );
    assert_eq!(
        validate_config(&bytes("/in.bin"), &bytes("/out.wav"), false, false, true),
        Ok(PathClass::File)
    );
    // An output that does not exist yet reports neither directory nor file.
    assert_eq!(
        validate_config(&bytes("/in"), &bytes("/fresh"), true, false, false),
        Ok(PathClass::Directory)
    );
    assert_eq!(
        validate_config(&bytes("/in.bin"), &bytes("/fresh.wav"), false, false, false),
        Ok(PathClass::File)
    );
}

#[test]
fn classify_names_each_case() {
    let p = bytes("/p");
    let q = bytes("/q");
    assert_eq!(classify(&p, &p, true, true, false), PathClass::Identical);
    assert_eq!(classify(&p, &q, true, false, true), PathClass::TypeMismatch);
    assert_eq!(classify(&p, &q, false, true, false), PathClass::TypeMismatch);
    assert_eq!(classify(&p, &q, true, true, false), PathClass::Directory);
    assert_eq!(classify(&p, &q, false, false, true), PathClass::File);
}

#[test]
fn byte_string_equality() {
    assert!(bytes_eq(&bytes("/a/b"), &bytes("/a/b")));
    assert!(!bytes_eq(&bytes("/a/b"), &bytes("/a/c")));
    assert!(!bytes_eq(&bytes("/a/b"), &bytes("/a/b/")));
    assert!(bytes_eq(&bytes(""), &bytes("")));
}

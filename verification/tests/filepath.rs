use atranscoder::filepath::{has_staging_extension, in_file_path, out_file_path, EXT};

#[test]
fn input_path_joins_directory_and_name() {
    assert_eq!(
        in_file_path("/tmp/work", "abc".to_string()),
        "/tmp/work/abc.in.atranscoder"
    );
}

#[test]
fn output_path_joins_directory_and_name() {
    assert_eq!(
        out_file_path("/tmp/work", "abc".to_string()),
        "/tmp/work/abc.out.atranscoder"
    );
}

#[test]
fn directory_with_trailing_slash_gets_no_second_one() {
    assert_eq!(in_file_path("/tmp/", "x".to_string()), "/tmp/x.in.atranscoder");
    assert_eq!(out_file_path("/", "x".to_string()), "/x.out.atranscoder");
}

#[test]
fn empty_directory_gives_bare_file_name() {
    assert_eq!(in_file_path("", "x".to_string()), "x.in.atranscoder");
    assert_eq!(out_file_path("", "x".to_string()), "x.out.atranscoder");
}

#[test]
fn paths_agree_with_std_path_join() {
    let joined = std::path::Path::new("/var/tmp").join("id.in.atranscoder");
    assert_eq!(
        in_file_path("/var/tmp", "id".to_string()),
        joined.to_str().unwrap()
    );
}

#[test]
fn input_and_output_of_one_job_differ() {
    assert_ne!(
        in_file_path("/w", "id".to_string()),
        out_file_path("/w", "id".to_string())
    );
}

#[test]
fn staging_extension_is_atranscoder() {
    assert_eq!(EXT, "atranscoder");
}

#[test]
fn staging_names_are_recognised() {
    assert!(has_staging_extension("foo.atranscoder"));
    assert!(has_staging_extension("id.in.atranscoder"));
    assert!(has_staging_extension("id.out.atranscoder"));
}

#[test]
fn staging_extension_matches_in_any_case() {
    assert!(has_staging_extension("foo.ATRANSCODER"));
    assert!(has_staging_extension("foo.AtransCoder"));
}

#[test]
fn other_names_are_not_staging_names() {
    assert!(!has_staging_extension("bar.txt"));
    assert!(!has_staging_extension("atranscoder"));
    assert!(!has_staging_extension(".atranscoder"));
    assert!(!has_staging_extension("foo.atranscoder.bak"));
    assert!(!has_staging_extension("foo.atranscoderx"));
    assert!(!has_staging_extension("foo.atranscode"));
    assert!(!has_staging_extension("foo."));
    assert!(!has_staging_extension(""));
}

#[test]
fn staging_check_agrees_with_std_extension() {
    for name in ["a.atranscoder", ".atranscoder", "x.y.ATRANSCODER", "plain", "a.b"] {
        let expected = std::path::Path::new(name)
            .extension()
            .and_then(|e| e.to_str())
            .map(|e| e.to_lowercase() == EXT)
            .unwrap_or(false);
        assert_eq!(has_staging_extension(name), expected);
    }
}

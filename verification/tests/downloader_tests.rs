use downloader::{assemble, assemble_into, DownloadError, Downloader, Step};

const URL: &str = "https://www.rust-lang.org/logos/rust-logo-512x512.png";

#[test]
fn derives_name_from_last_url_segment() {
    assert_eq!(downloader::last_segment(URL), "rust-logo-512x512.png");
    assert_eq!(downloader::last_segment("a/b/c"), "c");
    assert_eq!(downloader::last_segment("no-slash-at-all"), "no-slash-at-all");
    assert_eq!(downloader::last_segment("https://example.org/"), "");
    assert_eq!(downloader::last_segment(""), "");
}

#[test]
fn join_path_puts_one_separator_between() {
    assert_eq!(downloader::join_path("temp", "rust.zip"), "temp/rust.zip");
    assert_eq!(downloader::join_path(".", "rust-logo.png"), "./rust-logo.png");
}

#[test]
fn explicit_file_name_wins_over_url_name() {
    let d = Downloader::new().file_name("rust-logo.png");
    let session = d.begin(URL).unwrap();
    assert_eq!(session.output_path().as_str(), "./rust-logo.png");
}

#[test]
fn default_name_comes_from_url() {
    let d = Downloader::new();
    let session = d.begin(URL).unwrap();
    assert_eq!(session.output_path().as_str(), "./rust-logo-512x512.png");
    let bare = d.begin("no-slash-at-all").unwrap();
    assert_eq!(bare.output_path().as_str(), "./no-slash-at-all");
}

#[test]
fn url_without_final_segment_is_a_naming_error() {
    let d = Downloader::new();
    let err = match d.begin("https://example.org/") {
        Err(e) => e,
        Ok(_) => panic!("a URL ending in a slash must not resolve to a name"),
    };
    assert_eq!(err, DownloadError::NamingError);
    // An explicit name saves the same URL.
    let d = d.file_name("fallback.bin");
    assert!(d.begin("https://example.org/").is_ok());
}

#[test]
fn same_config_targets_the_same_path_twice() {
    let d = Downloader::new()
        .set_output_dir("temp")
        .file_name("rust.zip");
    let first = d.begin(URL).unwrap();
    let second = d.begin(URL).unwrap();
    assert_eq!(first.output_path().as_str(), "temp/rust.zip");
    assert_eq!(first.output_path(), second.output_path());
    assert_eq!(first.dir(), second.dir());
}

#[test]
fn missing_dir_is_created_before_the_file_is_opened() {
    let d = Downloader::new()
        .set_output_dir("temp/some/dir")
        .file_name("rust-logo.png");
    let mut s = d.begin(URL).unwrap();
    assert_eq!(s.current_step(), Step::EnsureDir);
    assert_eq!(s.output_path().as_str(), "temp/some/dir/rust-logo.png");
    s.on_dir_checked(false);
    assert_eq!(s.current_step(), Step::CreatingDir);
    s.on_dir_created(true);
    assert_eq!(s.current_step(), Step::OpenFile);
}

#[test]
fn existing_dir_is_not_created_again() {
    let d = Downloader::new().file_name("rust-logo.png");
    let mut s = d.begin(URL).unwrap();
    s.on_dir_checked(true);
    assert_eq!(s.current_step(), Step::OpenFile);
}

#[test]
fn full_transfer_runs_the_steps_in_order() {
    let d = Downloader::new().set_output_dir("temp").file_name("rust.zip");
    let mut s = d.begin(URL).unwrap();
    assert!(s.outcome().is_none());
    s.on_dir_checked(true);
    s.on_file_opened(true);
    assert_eq!(s.current_step(), Step::Fetch);
    s.on_response(true);
    assert_eq!(s.current_step(), Step::Streaming);
    s.on_chunk_written(&[1, 2, 3], true);
    s.on_chunk_written(&[4, 5], true);
    assert_eq!(s.current_step(), Step::Streaming);
    s.on_body_end();
    assert_eq!(s.current_step(), Step::Flush);
    s.on_flushed(true);
    assert_eq!(s.current_step(), Step::Done);
    assert_eq!(s.outcome(), Some(Ok(())));
}

#[test]
fn unreachable_host_fails_with_network_error() {
    let d = Downloader::new().file_name("rust-logo.png");
    let mut s = d.begin(URL).unwrap();
    s.on_dir_checked(true);
    s.on_file_opened(true);
    s.on_response(false);
    assert_eq!(s.current_step(), Step::Failed(DownloadError::NetworkError));
    assert_eq!(s.outcome(), Some(Err(DownloadError::NetworkError)));
}

#[test]
fn dropped_connection_mid_stream_is_a_network_error() {
    let d = Downloader::new().file_name("a.bin");
    let mut s = d.begin(URL).unwrap();
    s.on_dir_checked(true);
    s.on_file_opened(true);
    s.on_response(true);
    s.on_chunk_written(&[9], true);
    s.on_chunk_failed();
    assert_eq!(s.outcome(), Some(Err(DownloadError::NetworkError)));
}

#[test]
fn filesystem_failures_surface_as_filesystem_errors() {
    let d = Downloader::new().file_name("a.bin");

    let mut s = d.begin(URL).unwrap();
    s.on_dir_checked(false);
    s.on_dir_created(false);
    assert_eq!(s.outcome(), Some(Err(DownloadError::FilesystemError)));

    let mut s = d.begin(URL).unwrap();
    s.on_dir_checked(true);
    s.on_file_opened(false);
    assert_eq!(s.outcome(), Some(Err(DownloadError::FilesystemError)));

    let mut s = d.begin(URL).unwrap();
    s.on_dir_checked(true);
    s.on_file_opened(true);
    s.on_response(true);
    s.on_chunk_written(&[1], false);
    assert_eq!(s.outcome(), Some(Err(DownloadError::FilesystemError)));

    let mut s = d.begin(URL).unwrap();
    s.on_dir_checked(true);
    s.on_file_opened(true);
    s.on_response(true);
    s.on_body_end();
    s.on_flushed(false);
    assert_eq!(s.outcome(), Some(Err(DownloadError::FilesystemError)));
}

#[test]
fn reassembly_is_exact_whatever_the_chunk_boundaries() {
    let payload: Vec<u8> = (0u16..600).map(|i| (i % 251) as u8).collect();

    let one_piece: Vec<Vec<u8>> = vec![payload.clone()];
    let mut in_sevens: Vec<Vec<u8>> = Vec::new();
    for chunk in payload.chunks(7) {
        in_sevens.push(chunk.to_vec());
    }
    let mut uneven: Vec<Vec<u8>> = Vec::new();
    uneven.push(payload[..1].to_vec());
    uneven.push(Vec::new());
    uneven.push(payload[1..300].to_vec());
    uneven.push(payload[300..].to_vec());

    assert_eq!(assemble(&one_piece), payload);
    assert_eq!(assemble(&in_sevens), payload);
    assert_eq!(assemble(&uneven), payload);
}

#[test]
fn assemble_into_appends_after_what_is_there() {
    let mut out: Vec<u8> = vec![1, 2];
    let chunks: Vec<Vec<u8>> = vec![vec![3], vec![4, 5]];
    assemble_into(&mut out, &chunks);
    assert_eq!(out, vec![1, 2, 3, 4, 5]);
}

#[test]
fn headers_start_empty_and_store_lower_cased() {
    let d = Downloader::new();
    assert_eq!(d.header_count(), 0);
    let d = d.insert_header("Content-Type", "text/html");
    assert_eq!(d.header_count(), 1);
    assert_eq!(d.header_value("content-type").as_deref(), Some("text/html"));
    assert_eq!(d.header_value("Content-Type").as_deref(), Some("text/html"));
    assert_eq!(d.header_value("accept"), None);
}

#[test]
fn inserting_the_same_header_again_replaces_its_value() {
    let d = Downloader::new()
        .insert_header("x-token", "first")
        .insert_header("X-Token", "second");
    assert_eq!(d.header_count(), 1);
    assert_eq!(d.header_value("x-token").as_deref(), Some("second"));
}

#[test]
fn distinct_headers_are_kept_apart() {
    let d = Downloader::new()
        .insert_header("accept", "*/*")
        .insert_header("x-trace", "on");
    assert_eq!(d.header_count(), 2);
    assert_eq!(d.header_value("accept").as_deref(), Some("*/*"));
    assert_eq!(d.header_value("x-trace").as_deref(), Some("on"));
}

#[test]
fn unprintable_value_is_stored_but_not_read_back() {
    let d = Downloader::new().insert_header("x-note", "caf\u{e9}");
    assert_eq!(d.header_count(), 1);
    assert_eq!(d.header_value("x-note"), None);
}

#[test]
fn invalid_name_is_never_found() {
    let d = Downloader::new().insert_header("x-a", "1");
    assert_eq!(d.header_value("not a name"), None);
    assert_eq!(d.header_value(""), None);
}

#[test]
fn replace_header_swaps_the_whole_collection() {
    let mut fresh = reqwest::header::HeaderMap::new();
    fresh.insert(
        reqwest::header::HeaderName::from_bytes(b"x-new").unwrap(),
        reqwest::header::HeaderValue::from_str("yes").unwrap(),
    );
    let d = Downloader::new()
        .insert_header("x-old", "gone")
        .replace_header(fresh);
    assert_eq!(d.header_count(), 1);
    assert_eq!(d.header_value("x-new").as_deref(), Some("yes"));
    assert_eq!(d.header_value("x-old"), None);
}

#[test]
fn builder_chain_keeps_every_setting() {
    let d = Downloader::new()
        .file_name("rust.zip")
        .set_output_dir("temp")
        .verbose();
    assert!(d.is_verbose());
    assert_eq!(d.output_dir().as_str(), "temp");
    let s = d.begin(URL).unwrap();
    assert!(s.is_verbose());
    assert_eq!(s.output_path().as_str(), "temp/rust.zip");
}

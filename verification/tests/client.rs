use repo_client::client::fetch_package_outcome;
use repo_client::client::put_package_request;
use repo_client::client::show_response_outcome;
use repo_client::errors::ClientError;
use repo_client::ident::Package;
use repo_client::ident::PackageIdent;
use repo_client::progress::from_char;
use repo_client::progress::progress_render;
use repo_client::progress::progress_text;
use repo_client::strutil::file_name_of;
use repo_client::strutil::u64_to_dec;
use repo_client::transfer::begin_download;
use repo_client::transfer::plan_upload;
use repo_client::transfer::run_body;
use repo_client::transfer::upload_outcome;
use repo_client::urls::download_url;
use repo_client::urls::key_url;
use repo_client::urls::put_key_url;
use repo_client::urls::url_show_package;

fn ident(origin: &str, name: &str, version: Option<&str>, release: Option<&str>) -> PackageIdent {
    PackageIdent::new(
        origin.to_string(),
        name.to_string(),
        version.map(|v| v.to_string()),
        release.map(|r| r.to_string()),
    )
}

#[test]
fn from_char_returns_the_correct_string() {
    assert_eq!("xxxx", from_char(4, 'x'));
}

#[test]
fn from_char_of_zero_is_empty() {
    assert_eq!("", from_char(0, 'x'));
}

#[test]
fn show_url_fully_qualified() {
    let i = ident("core", "foo", Some("1.0.0"), Some("20160101000000"));
    assert_eq!(
        "http://repo.example/pkgs/core/foo/1.0.0/20160101000000",
        url_show_package("http://repo.example", &i)
    );
}

#[test]
fn show_url_version_only_gets_latest() {
    let i = ident("core", "foo", Some("1.0.0"), None);
    assert_eq!(
        "http://repo.example/pkgs/core/foo/1.0.0/latest",
        url_show_package("http://repo.example", &i)
    );
}

#[test]
fn show_url_name_only_gets_latest() {
    let i = ident("core", "foo", None, None);
    assert_eq!(
        "http://repo.example/pkgs/core/foo/latest",
        url_show_package("http://repo.example", &i)
    );
}

#[test]
fn download_url_appends_download_segment() {
    let i = ident("core", "foo", Some("1.0.0"), Some("20160101000000"));
    assert_eq!(
        "http://repo.example/pkgs/core/foo/1.0.0/20160101000000/download",
        download_url("http://repo.example", &i)
    );
}

#[test]
fn key_url_names_the_key() {
    assert_eq!(
        "http://repo.example/keys/chef-public",
        key_url("http://repo.example", "chef-public")
    );
}

#[test]
fn put_key_url_uses_the_file_name() {
    let r = put_key_url("http://repo.example", "/tmp/keys/chef-public.asc");
    assert_eq!(Ok("http://repo.example/keys/chef-public.asc".to_string()), r);
}

#[test]
fn put_key_url_without_file_name_fails() {
    let r = put_key_url("http://repo.example", "/tmp/keys/");
    assert_eq!(Err(ClientError::NoFilePart), r);
}

#[test]
fn file_name_of_takes_the_last_component() {
    assert_eq!(Some("c.key".to_string()), file_name_of("a/b/c.key"));
    assert_eq!(Some("plain".to_string()), file_name_of("plain"));
    assert_eq!(None, file_name_of(""));
    assert_eq!(None, file_name_of("dir/"));
}

#[test]
fn u64_to_dec_renders_decimal() {
    assert_eq!("0", u64_to_dec(0));
    assert_eq!("7", u64_to_dec(7));
    assert_eq!("500", u64_to_dec(500));
    assert_eq!("1234567890", u64_to_dec(1234567890));
    assert_eq!("18446744073709551615", u64_to_dec(u64::MAX));
}

#[test]
fn progress_text_renders_written_over_total() {
    assert_eq!("foo 500/1000", progress_text("foo", 500, "1000"));
}

#[test]
fn progress_render_erases_then_prints() {
    let r = progress_render("foo", 5, "10", false);
    assert_eq!(format!("{}foo 5/10", "\u{8}".repeat(8)), r);
    assert!(!r.ends_with('\n'));
}

#[test]
fn progress_render_final_ends_the_line() {
    let r = progress_render("foo", 10, "10", true);
    assert!(r.ends_with('\n'));
    assert_eq!(format!("{}foo 10/10\n", "\u{8}".repeat(9)), r);
}

#[test]
fn begin_download_rejects_bad_status() {
    let r = begin_download(500, Some("a.tar".to_string()), None, "/store");
    assert_eq!(Err(ClientError::Http(500)), r.map(|_| ()));
    let r = begin_download(404, Some("a.tar".to_string()), None, "/store");
    assert_eq!(Err(ClientError::Http(404)), r.map(|_| ()));
}

#[test]
fn begin_download_requires_file_name_header() {
    let r = begin_download(200, None, Some(10), "/store");
    assert_eq!(Err(ClientError::NoXFilename), r.map(|_| ()));
}

#[test]
fn begin_download_stages_a_temp_file() {
    let t = begin_download(200, Some("a.tar".to_string()), Some(1000), "/store").unwrap();
    assert_eq!("/store/a.tar.tmp", t.temp_path);
    assert_eq!("/store/a.tar", t.final_path);
    assert_eq!("1000", t.total_text);
    assert_eq!(0, t.written);
    assert!(!t.finished);
}

#[test]
fn begin_download_without_length_reports_unknown() {
    let t = begin_download(200, Some("a.tar".to_string()), None, "/store").unwrap();
    assert_eq!("Unknown", t.total_text);
}

#[test]
fn record_chunk_counts_accepted_bytes() {
    let mut t = begin_download(200, Some("a.tar".to_string()), None, "/store").unwrap();
    assert_eq!(Ok(()), t.record_chunk(&vec![1, 2, 3], 3));
    assert_eq!(Ok(()), t.record_chunk(&vec![4, 5], 2));
    assert_eq!(5, t.written);
}

#[test]
fn record_chunk_detects_a_write_stall() {
    let mut t = begin_download(200, Some("a.tar".to_string()), None, "/store").unwrap();
    assert_eq!(Err(ClientError::WriteSyncFailed), t.record_chunk(&vec![1, 2, 3], 0));
    assert_eq!(0, t.written);
}

#[test]
fn record_chunk_counts_only_the_accepted_prefix() {
    let mut t = begin_download(200, Some("a.tar".to_string()), None, "/store").unwrap();
    assert_eq!(Ok(()), t.record_chunk(&vec![1, 2, 3], 2));
    assert_eq!(2, t.written);
}

#[test]
fn record_chunk_of_an_empty_chunk_is_not_a_stall() {
    let mut t = begin_download(200, Some("a.tar".to_string()), None, "/store").unwrap();
    assert_eq!(Ok(()), t.record_chunk(&Vec::new(), 0));
    assert_eq!(0, t.written);
}

#[test]
fn run_body_is_independent_of_chunking() {
    let body: Vec<u8> = (0..=255u16).map(|b| b as u8).collect();
    let coarse = vec![body.clone()];
    let fine: Vec<Vec<u8>> = body.chunks(7).map(|c| c.to_vec()).collect();

    let mut a = begin_download(200, Some("a.tar".to_string()), None, "/store").unwrap();
    assert_eq!(Ok(()), run_body(&mut a, &coarse));
    let mut b = begin_download(200, Some("a.tar".to_string()), None, "/store").unwrap();
    assert_eq!(Ok(()), run_body(&mut b, &fine));

    assert_eq!(body.len() as u64, a.written);
    assert_eq!(a.written, b.written);
    assert!(a.finished && b.finished);
}

#[test]
fn commit_comes_only_after_the_whole_body() {
    let mut t = begin_download(200, Some("a.tar".to_string()), None, "/store").unwrap();
    assert!(!t.finished);
    assert_eq!(Ok(()), run_body(&mut t, &vec![vec![9u8; 10]]));
    assert!(t.finished);
    let (temp, final_path) = t.commit_instruction();
    assert_eq!("/store/a.tar.tmp", temp);
    assert_eq!("/store/a.tar", final_path);
}

#[test]
fn upload_always_starts_from_the_file_start() {
    let first = plan_upload(4096);
    let second = plan_upload(4096);
    assert_eq!(0, first.seek_to);
    assert_eq!(4096, first.body_len);
    assert_eq!(first, second);
}

#[test]
fn upload_outcome_accepts_any_success_status() {
    assert_eq!(Ok(()), upload_outcome(200));
    assert_eq!(Ok(()), upload_outcome(201));
    assert_eq!(Ok(()), upload_outcome(299));
    assert_eq!(Err(ClientError::Http(300)), upload_outcome(300));
    assert_eq!(Err(ClientError::Http(404)), upload_outcome(404));
    assert_eq!(Err(ClientError::Http(500)), upload_outcome(500));
}

#[test]
fn fetch_not_found_names_the_package() {
    let i = ident("core", "foo", Some("1.0.0"), None);
    let r = fetch_package_outcome(Err(ClientError::Http(404)), &i);
    assert_eq!(Err(ClientError::RemotePackageNotFound(i)), r);
}

#[test]
fn fetch_other_failures_pass_through() {
    let i = ident("core", "foo", None, None);
    assert_eq!(
        Err(ClientError::Http(500)),
        fetch_package_outcome(Err(ClientError::Http(500)), &i)
    );
    assert_eq!(
        Err(ClientError::NoXFilename),
        fetch_package_outcome(Err(ClientError::NoXFilename), &i)
    );
    assert_eq!(
        Err(ClientError::WriteSyncFailed),
        fetch_package_outcome(Err(ClientError::WriteSyncFailed), &i)
    );
    assert_eq!(
        Err(ClientError::Io("disk full".to_string())),
        fetch_package_outcome(Err(ClientError::Io("disk full".to_string())), &i)
    );
}

#[test]
fn fetch_success_wraps_the_archive() {
    let i = ident("core", "foo", None, None);
    let r = fetch_package_outcome(Ok("/store/foo.tar".to_string()), &i).unwrap();
    assert_eq!("/store/foo.tar", r.path);
}

#[test]
fn show_not_found_names_the_package() {
    let i = ident("core", "foo", None, None);
    let r = show_response_outcome(404, "".to_string(), &i);
    assert_eq!(Err(ClientError::RemotePackageNotFound(i)), r);
}

#[test]
fn show_other_failures_keep_the_status() {
    let i = ident("core", "foo", None, None);
    let r = show_response_outcome(503, "".to_string(), &i);
    assert_eq!(Err(ClientError::Http(503)), r);
}

#[test]
fn show_success_hands_the_body_on() {
    let i = ident("core", "foo", None, None);
    let r = show_response_outcome(200, "{\"origin\":\"core\"}".to_string(), &i);
    assert_eq!(Ok("{\"origin\":\"core\"}".to_string()), r);
}

#[test]
fn put_package_request_attaches_the_checksum() {
    let package = Package {
        origin: "core".to_string(),
        name: "foo".to_string(),
        version: "1.0.0".to_string(),
        release: "20160101000000".to_string(),
    };
    let data: Vec<u8> = b"abc".to_vec();
    assert_eq!(
        "http://repo.example/pkgs/core/foo/1.0.0/20160101000000?checksum=\
         ba7816bf8f01cfea414140de5dae2223b00361a396177a9cb410ff61f20015ad",
        put_package_request("http://repo.example", &package, &data)
    );
}

#[test]
fn put_package_checksum_of_empty_data() {
    let package = Package {
        origin: "core".to_string(),
        name: "foo".to_string(),
        version: "1.0.0".to_string(),
        release: "20160101000000".to_string(),
    };
    let data: Vec<u8> = Vec::new();
    assert_eq!(
        "http://repo.example/pkgs/core/foo/1.0.0/20160101000000?checksum=\
         e3b0c44298fc1c149afbf4c8996fb92427ae41e4649b934ca495991b7852b855",
        put_package_request("http://repo.example", &package, &data)
    );
}

#[test]
fn ident_text_forms() {
    assert_eq!("core/foo", ident("core", "foo", None, None).to_text());
    assert_eq!("core/foo/1.0.0", ident("core", "foo", Some("1.0.0"), None).to_text());
    assert_eq!(
        "core/foo/1.0.0/20160101000000",
        ident("core", "foo", Some("1.0.0"), Some("20160101000000")).to_text()
    );
    assert!(ident("core", "foo", Some("1.0.0"), Some("20160101000000")).fully_qualified());
    assert!(!ident("core", "foo", Some("1.0.0"), None).fully_qualified());
}

use ufbt::net::{
    file_name_from_segment, file_name_from_url, join_file_name, with_part_suffix, FetchError,
    USER_AGENT,
};
use ufbt::paths::Platform;

fn name_of(url: &str) -> String {
    file_name_from_url(url).expect("a valid url")
}

#[test]
fn the_user_agent_is_the_one_the_sdk_loader_announces() {
    assert_eq!(USER_AGENT, "uFBT SDKLoader/0.2");
}

#[test]
fn a_file_name_comes_from_the_last_path_segment() {
    assert_eq!(name_of("http://host/dir/file.bin"), "file.bin");
    assert_eq!(name_of("http://host/dir/file.bin?v=1#frag"), "file.bin");
}

#[test]
fn a_file_name_is_percent_decoded() {
    assert_eq!(name_of("http://host/dir/my%20file.bin"), "my file.bin");
    assert_eq!(name_of("http://host/%D1%84%D0%B0%D0%B9%D0%BB"), "файл");
}

#[test]
fn a_file_name_is_percent_decoded_twice() {
    assert_eq!(name_of("http://host/a%2520b.bin"), "a b.bin");
}

#[test]
fn a_url_without_path_segments_yields_an_empty_file_name() {
    assert_eq!(name_of("http://host"), "");
    assert_eq!(name_of("http://host/"), "");
    assert_eq!(name_of("http://host/dir/"), "");
}

#[test]
fn an_unparsable_url_yields_no_file_name() {
    assert_eq!(file_name_from_url("not a url"), None);
}

#[test]
fn a_segment_is_decoded_twice_and_kept_when_it_is_not_utf8() {
    assert_eq!(file_name_from_segment(Some("a%2520b.bin")), "a b.bin");
    assert_eq!(file_name_from_segment(Some("plain.bin")), "plain.bin");
    assert_eq!(file_name_from_segment(Some("bad%FF.bin")), "bad%FF.bin");
    assert_eq!(file_name_from_segment(None), "");
}

#[test]
fn a_download_goes_into_its_directory_through_a_part_file() {
    assert_eq!(
        join_file_name("/tmp/dl", "file.bin", Platform::Unix),
        "/tmp/dl/file.bin"
    );
    assert_eq!(
        join_file_name(r"C:\dl", "file.bin", Platform::Windows),
        r"C:\dl\file.bin"
    );
    assert_eq!(with_part_suffix("/tmp/dl/file.bin"), "/tmp/dl/file.bin.part");
}

#[test]
fn fetch_errors_read_as_their_fields() {
    assert_eq!(
        FetchError::InvalidUrl {
            url: "not a url".to_owned()
        }
        .message(),
        "Invalid URL: not a url"
    );
    assert_eq!(
        FetchError::Tls("no provider".to_owned()).message(),
        "TLS initialization failed: no provider"
    );
}

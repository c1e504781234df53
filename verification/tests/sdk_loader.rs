use serde_json::Value;

use ufbt::json::{JsonNumber, JsonValue};
use ufbt::sdk::{
    BranchLoader, DirectoryIndex, LocalLoader, SdkError, UpdateChannel, UpdateChannelLoader,
    UrlLoader, VERSION_UNKNOWN,
};
use ufbt::state::ALWAYS_UPDATE_VERSIONS;

fn to_json(value: &Value) -> JsonValue {
    match value {
        Value::Null => JsonValue::Null,
        Value::Bool(flag) => JsonValue::Bool(*flag),
        Value::Number(number) => JsonValue::Number(if let Some(n) = number.as_u64() {
            JsonNumber::PosInt(n)
        } else if let Some(n) = number.as_i64() {
            JsonNumber::NegInt(n)
        } else {
            JsonNumber::Float(number.to_string())
        }),
        Value::String(text) => JsonValue::String(text.clone()),
        Value::Array(items) => JsonValue::Array(items.iter().map(to_json).collect()),
        Value::Object(fields) => JsonValue::Object(
            fields
                .iter()
                .map(|(key, value)| (key.clone(), to_json(value)))
                .collect(),
        ),
    }
}

fn index_of(text: &str) -> DirectoryIndex {
    let value: Value = serde_json::from_str(text).expect("valid JSON");
    DirectoryIndex::from_value(&to_json(&value))
}

fn pairs_of(map: &indexmap::IndexMap<String, String>) -> Vec<(String, String)> {
    map.iter()
        .map(|(key, value)| (key.clone(), value.clone()))
        .collect()
}

fn pairs(pairs: &[(&str, &str)]) -> Vec<(String, String)> {
    pairs
        .iter()
        .map(|(key, value)| ((*key).to_string(), (*value).to_string()))
        .collect()
}

const RELEASE_INDEX: &str = r#"{
    "channels": [
        {
            "id": "release",
            "versions": [
                {
                    "version": "0.104.0",
                    "changelog": "Newest",
                    "files": [
                        { "url": "https://example.test/sdk.zip", "target": "f7", "type": "sdk_zip" }
                    ]
                },
                { "version": "0.103.0", "files": [] }
            ]
        }
    ]
}"#;

const APACHE_LISTING: &str = r#"
<html><head><title>Index of /builds/firmware/dev</title></head>
<body><h1>Index of /builds/firmware/dev</h1><pre>
<a href="../">../</a>
<A HREF='flipper-z-f7-sdk-1.3.4.zip'>flipper-z-f7-sdk-1.3.4.zip</A>
<a HrEf="flipper-z-f7-update-1.3.4.tgz">flipper-z-f7-update-1.3.4.tgz</a>
<a href="flipper-z-f7-firmware-1.3.4.elf.map">map</a>
<a href="flipper-z-f7-full-1.3.4.bin">bin</a>
<a href="flipper-z-f7-mystery-1.3.4.xyz">unknown</a>
<a href="flipper-z-f18-sdk-1.3.4.zip">f18 sdk</a>
<a href='some-other-file.txt'>other</a>
<a href="flipper-z-f7-resources-1.3.4.tgz">res</a>
</pre></body></html>
"#;

#[test]
fn version_unknown_is_the_first_always_updated_version() {
    assert_eq!(VERSION_UNKNOWN, "unknown");
    assert_eq!(ALWAYS_UPDATE_VERSIONS, ["unknown", "local"]);
    assert_eq!(ALWAYS_UPDATE_VERSIONS[0], VERSION_UNKNOWN);
}

#[test]
fn the_mode_keys_name_the_deploy_task_modes() {
    assert_eq!(UrlLoader::MODE_KEY, "url");
    assert_eq!(LocalLoader::MODE_KEY, "local");
    assert_eq!(UpdateChannelLoader::MODE_KEY, "channel");
    assert_eq!(BranchLoader::MODE_KEY, "branch");
}

#[test]
fn url_and_local_loaders_describe_themselves_with_an_unknown_version() {
    let url = UrlLoader::new("downloads", "https://example.test/sdk.zip");
    assert_eq!(
        pairs_of(&url.metadata()),
        pairs(&[
            ("mode", "url"),
            ("url", "https://example.test/sdk.zip"),
            ("version", "unknown"),
        ])
    );
    let local = LocalLoader::new("bundles/sdk.zip");
    assert_eq!(local.file_path(), "bundles/sdk.zip");
    assert_eq!(
        pairs_of(&local.metadata()),
        pairs(&[
            ("mode", "local"),
            ("file_path", "bundles/sdk.zip"),
            ("version", "unknown"),
        ])
    );
}

#[test]
fn a_channel_loader_reads_the_official_index_unless_told_otherwise() {
    assert_eq!(
        UpdateChannelLoader::OFFICIAL_INDEX_URL,
        "https://update.flipperzero.one/firmware/directory.json"
    );
    let loader = UpdateChannelLoader::new("downloads", UpdateChannel::Dev);
    assert_eq!(loader.json_index_url(), UpdateChannelLoader::OFFICIAL_INDEX_URL);
    let custom = loader.with_index_url("https://example.test/directory.json");
    assert_eq!(custom.json_index_url(), "https://example.test/directory.json");
    assert_eq!(custom.channel(), UpdateChannel::Dev);
}

#[test]
fn loading_an_index_settles_on_the_first_version_of_the_channel() {
    let mut loader = UpdateChannelLoader::new("downloads", UpdateChannel::Release)
        .with_index_url("https://example.test/directory.json");
    assert!(matches!(loader.version_info(), Err(SdkError::LoaderNotInitialized)));
    assert_eq!(
        pairs_of(&loader.metadata()),
        pairs(&[
            ("mode", "channel"),
            ("channel", "release"),
            ("json_index", "https://example.test/directory.json"),
            ("version", "unknown"),
        ])
    );

    loader.load_index(index_of(RELEASE_INDEX)).unwrap();

    assert_eq!(loader.version_info().unwrap().version(), "0.104.0");
    assert_eq!(loader.version_info().unwrap().changelog(), Some("Newest"));
    assert_eq!(loader.metadata()["version"], "0.104.0");
    assert_eq!(
        loader.sdk_component_url("f7").unwrap(),
        "https://example.test/sdk.zip"
    );
}

#[test]
fn an_index_without_the_channel_or_its_versions_is_reported() {
    let mut loader = UpdateChannelLoader::new("downloads", UpdateChannel::Release);
    let error = loader.load_index(index_of(r#"{ "channels": [] }"#)).unwrap_err();
    assert_eq!(error.message(), "Invalid channel: UpdateChannel.RELEASE");
    assert!(loader.version_info().is_err());
    assert_eq!(loader.metadata()["version"], "unknown");

    let mut dev = UpdateChannelLoader::new("downloads", UpdateChannel::Dev);
    let error = dev.load_index(index_of(RELEASE_INDEX)).unwrap_err();
    assert_eq!(error.message(), "Invalid channel: UpdateChannel.DEV");

    let mut rc = UpdateChannelLoader::new("downloads", UpdateChannel::Rc);
    let error = rc
        .load_index(index_of(
            r#"{ "channels": [{ "id": "release-candidate", "versions": [] }] }"#,
        ))
        .unwrap_err();
    assert!(matches!(error, SdkError::EmptyChannel { .. }));
    assert_eq!(error.message(), "Empty channel: UpdateChannel.RC");

    let mut from_text = UpdateChannelLoader::new("downloads", UpdateChannel::Release);
    assert_eq!(
        from_text.load_index(index_of(r#""release""#)).unwrap_err().message(),
        "Invalid channel: UpdateChannel.RELEASE"
    );
}

#[test]
fn the_sdk_component_of_a_channel_is_checked_before_it_is_handed_out() {
    let loader = UpdateChannelLoader::new("downloads", UpdateChannel::Release);
    assert!(matches!(
        loader.sdk_component_url("f7"),
        Err(SdkError::LoaderNotInitialized)
    ));

    let mut empty = UpdateChannelLoader::new("downloads", UpdateChannel::Release);
    empty
        .load_index(index_of(
            r#"{ "channels": [{ "id": "release", "versions": [{ "version": "0.104.0", "files": [] }] }] }"#,
        ))
        .unwrap();
    assert_eq!(empty.sdk_component_url("f7").unwrap_err().message(), "Empty files list");

    let mut loaded = UpdateChannelLoader::new("downloads", UpdateChannel::Release);
    loaded.load_index(index_of(RELEASE_INDEX)).unwrap();
    assert_eq!(
        loaded.sdk_component_url("f18").unwrap_err().message(),
        "Invalid file type: FileType.SDK_ZIP"
    );

    let mut no_address = UpdateChannelLoader::new("downloads", UpdateChannel::Release);
    no_address
        .load_index(index_of(&RELEASE_INDEX.replace("https://example.test/sdk.zip", "")))
        .unwrap();
    assert_eq!(
        no_address.sdk_component_url("f7").unwrap_err().message(),
        "Invalid file url"
    );
}

#[test]
fn the_branch_url_is_the_root_the_branch_and_a_trailing_separator() {
    let loader = BranchLoader::new("downloads", "feature/x");

    assert_eq!(loader.branch(), "feature/x");
    assert_eq!(loader.branch_root(), BranchLoader::UPDATE_SERVER_BRANCH_ROOT);
    assert_eq!(
        BranchLoader::UPDATE_SERVER_BRANCH_ROOT,
        "https://update.flipperzero.one/builds/firmware"
    );
    assert_eq!(
        loader.branch_url(),
        "https://update.flipperzero.one/builds/firmware/feature/x/"
    );
    assert_eq!(loader.mode_key(), "branch");
}

#[test]
fn a_typical_listing_settles_the_version_and_the_bundles() {
    let mut loader = BranchLoader::new("downloads", "dev").with_branch_root("http://host");
    assert_eq!(
        pairs_of(&loader.metadata()),
        pairs(&[
            ("mode", "branch"),
            ("branch", "dev"),
            ("version", "unknown"),
            ("branch_root", "http://host"),
        ])
    );

    loader.record_listing(APACHE_LISTING).unwrap();

    assert_eq!(loader.version(), Some("1.3.4"));
    assert_eq!(
        loader.sdk_component_url("f7").unwrap(),
        "http://host/dev/flipper-z-f7-sdk-1.3.4.zip"
    );
    assert_eq!(
        loader.sdk_component_url("f18").unwrap(),
        "http://host/dev/flipper-z-f18-sdk-1.3.4.zip"
    );
    assert_eq!(
        loader.sdk_component_url("f42").unwrap_err().message(),
        "SDK bundle not found for f42"
    );
    assert_eq!(loader.metadata()["version"], "1.3.4");
}

#[test]
fn map_files_and_unrecognised_names_are_passed_over() {
    let mut map_only = BranchLoader::new("downloads", "dev");
    map_only
        .record_listing(r#"<a href="flipper-z-f7-firmware-1.3.4.elf.map">map</a>"#)
        .unwrap();
    assert_eq!(map_only.version(), None);
    assert_eq!(map_only.metadata()["version"], "unknown");

    let mut unrecognised = BranchLoader::new("downloads", "dev");
    unrecognised
        .record_listing(
            r#"<a href="../">up</a><a href="readme.txt">readme</a>
           <a href="prefixed-flipper-z-f7-sdk-1.3.4.zip">not a prefix match</a>"#,
        )
        .unwrap();
    assert_eq!(unrecognised.version(), None);

    let mut mystery = BranchLoader::new("downloads", "dev");
    mystery
        .record_listing(r#"<a href="flipper-z-f7-mystery-1.3.4.xyz">x</a>"#)
        .unwrap();
    assert_eq!(mystery.version(), Some("1.3.4"));
    assert!(matches!(
        mystery.sdk_component_url("f7"),
        Err(SdkError::SdkBundleNotFound { .. })
    ));
}

#[test]
fn a_listing_of_two_versions_is_rejected_unless_the_second_extends_the_first() {
    let mut two = BranchLoader::new("downloads", "dev");
    let error = two
        .record_listing(
            r#"<a href="flipper-z-f7-sdk-1.3.4.zip">a</a>
           <a href="flipper-z-f7-update-1.4.0.tgz">b</a>"#,
        )
        .unwrap_err();
    assert_eq!(error.message(), "Found multiple versions: 1.3.4 and 1.4.0");

    let mut extended = BranchLoader::new("downloads", "dev");
    extended
        .record_listing(
            r#"<a href="flipper-z-f7-sdk-1.0.zip">a</a>
           <a href="flipper-z-f7-update-1.0.1.tgz">b</a>"#,
        )
        .unwrap();
    assert_eq!(extended.version(), Some("1.0"));

    let mut shortened = BranchLoader::new("downloads", "dev");
    let error = shortened
        .record_listing(
            r#"<a href="flipper-z-f7-sdk-1.0.1.zip">a</a>
           <a href="flipper-z-f7-update-1.0.tgz">b</a>"#,
        )
        .unwrap_err();
    assert_eq!(error.message(), "Found multiple versions: 1.0.1 and 1.0");
}

#[test]
fn a_recognised_file_is_recorded_from_its_parts() {
    let mut loader = BranchLoader::new("downloads", "dev").with_branch_root("http://host");
    loader
        .record_file("flipper-z-f7-sdk-2.0.zip", "f7", "SDK", "2.0", "ZIP")
        .unwrap();
    assert_eq!(loader.version(), Some("2.0"));
    assert_eq!(
        loader.sdk_component_url("f7").unwrap(),
        "http://host/dev/flipper-z-f7-sdk-2.0.zip"
    );
    let error = loader
        .record_file("flipper-z-f7-full-3.0.bin", "f7", "full", "3.0", "bin")
        .unwrap_err();
    assert!(matches!(error, SdkError::MultipleVersions { .. }));

    let mut links = BranchLoader::new("downloads", "dev");
    links
        .record_links(&vec![None, Some("flipper-z-f18-sdk-1.0.zip".to_owned())])
        .unwrap();
    assert_eq!(links.version(), Some("1.0"));
}

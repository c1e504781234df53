use vstd::prelude::*;
use vstd::string::*;
use indexmap::IndexMap;
use crate::foreign::{
    captures, group_matches, index_map_entries, index_map_insert, index_map_new, lemma_key_position,
    pairs_get, pairs_insert, pairs_view,
    regex_captures, regex_group_matches, spec_key_position, spec_map_get, spec_map_insert,
};
use crate::text::{
    chars_occur_at, chars_of, concat, is_ascii_text, lowercase, occurs_at, spec_starts_with, starts_with, str_eq,
    to_lowercase, to_uppercase,
};
use super::deploy_task::{BRANCH_MODE_KEY, CHANNEL_MODE_KEY, LOCAL_MODE_KEY, URL_MODE_KEY};
use super::directory_index::{
    lemma_find_channel, spec_find_channel, spec_find_file, DirectoryIndex, IndexChannelView, IndexFileView, IndexVersion,
    IndexVersionView,
};
use super::file_type::{spec_channel_id, spec_channel_key, spec_file_type_id, spec_python_name, FileType, UpdateChannel};
use super::SdkError;

verus! {

/// Version recorded for an SDK whose real version could not be determined.
///
/// It is the first entry of
/// [`state::ALWAYS_UPDATE_VERSIONS`](crate::state::ALWAYS_UPDATE_VERSIONS), so a deployment
/// carrying it is always replaced rather than compared.
pub const VERSION_UNKNOWN: &'static str = "unknown";

/// Metadata key of the loader mode.
pub const MODE_METADATA_KEY: &'static str = "mode";

/// Metadata key of the SDK version.
pub const VERSION_METADATA_KEY: &'static str = "version";

/// Metadata key of the bundle address.
pub const URL_METADATA_KEY: &'static str = "url";

/// Metadata key of the local bundle location.
pub const FILE_PATH_METADATA_KEY: &'static str = "file_path";

/// A string map holding `(k0, v0), (k1, v1), (k2, v2)` in that order.
pub open spec fn triple(k0: Seq<char>, v0: Seq<char>, k1: Seq<char>, v1: Seq<char>, k2: Seq<char>, v2: Seq<char>) -> Seq<(Seq<char>, Seq<char>)> {
    seq![(k0, v0), (k1, v1), (k2, v2)]
}

/// Builds a string map from entries whose keys are pairwise different.
pub(crate) fn map_of(entries: Vec<(&str, String)>) -> (m: IndexMap<String, String>)
    requires
        forall|i: int, j: int| 0 <= i < j < entries@.len() ==> entries@[i].0@ != entries@[j].0@,
    ensures
        index_map_entries(m) == entries@.map_values(|e: (&str, String)| (e.0@, e.1@)),
{
    let mut m = index_map_new();
    let mut i: usize = 0;
    let n = entries.len();
    let mut rest = entries;
    let ghost all = rest@;
    let mut taken: Vec<(&str, String)> = Vec::new();
    while i < n
        invariant
            i <= n,
            n == all.len(),
            forall|a: int, b: int| 0 <= a < b < all.len() ==> all[a].0@ != all[b].0@,
            rest@ == all.subrange(i as int, n as int),
            index_map_entries(m) == all.subrange(0, i as int).map_values(|e: (&str, String)| (e.0@, e.1@)),
        decreases n - i,
    {
        let e = rest.remove(0);
        let ghost prev = index_map_entries(m);
        proof {
            crate::foreign::lemma_key_position(prev, e.0@);
            assert forall|j: int| 0 <= j < prev.len() implies prev[j].0 != e.0@ by {
                assert(prev[j].0 == all[j].0@);
                assert(all[i as int] == e);
            }
        }
        index_map_insert(&mut m, e.0.to_owned(), e.1);
        i += 1;
        assert(index_map_entries(m) =~= all.subrange(0, i as int).map_values(|e: (&str, String)| (e.0@, e.1@)));
    }
    assert(all.subrange(0, n as int) =~= all);
    m
}

/// Loads an SDK bundle from an explicit address.
///
/// The address names the bundle directly, so there is nothing to resolve and the version is
/// always [`VERSION_UNKNOWN`].
#[derive(Debug, Clone, PartialEq, Eq)]
pub struct UrlLoader {
    download_dir: String,
    url: String,
}

impl View for UrlLoader {
    type V = (Seq<char>, Seq<char>);

    closed spec fn view(&self) -> (Seq<char>, Seq<char>) {
        (self.download_dir@, self.url@)
    }
}

impl UrlLoader {
    /// Key of the deploy task mode this loader serves.
    pub const MODE_KEY: &'static str = URL_MODE_KEY;

    /// Creates a loader that downloads the bundle at `url` into `download_dir`.
    pub fn new(download_dir: &str, url: &str) -> (l: UrlLoader)
        ensures
            l@ == (download_dir@, url@),
    {
        UrlLoader { download_dir: download_dir.to_owned(), url: url.to_owned() }
    }

    /// Key of the deploy task mode this loader serves.
    pub fn mode_key(&self) -> (k: &'static str)
        ensures
            k@ == "url"@,
    {
        Self::MODE_KEY
    }

    /// Address the bundle is downloaded from.
    pub fn url(&self) -> (r: &str)
        ensures
            r@ == self@.1,
    {
        self.url.as_str()
    }

    /// Directory the bundle is downloaded into.
    pub fn download_dir(&self) -> (r: &str)
        ensures
            r@ == self@.0,
    {
        self.download_dir.as_str()
    }

    /// Description of the deployment this loader performs: the mode, the address and an
    /// unknown version.
    pub fn metadata(&self) -> (m: IndexMap<String, String>)
        ensures
            index_map_entries(m) == triple("mode"@, "url"@, "url"@, self@.1, "version"@, "unknown"@),
    {
        proof {
            reveal_strlit("mode");
            reveal_strlit("url");
            reveal_strlit("version");
        }
        let entries = vec![
            (MODE_METADATA_KEY, Self::MODE_KEY.to_owned()),
            (URL_METADATA_KEY, self.url.clone()),
            (VERSION_METADATA_KEY, VERSION_UNKNOWN.to_owned()),
        ];
        proof {
            assert(entries@.len() == 3);
            assert(entries@[0].0@ == "mode"@);
            assert(entries@[1].0@ == "url"@);
            assert(entries@[2].0@ == "version"@);
            assert("mode"@.len() != "url"@.len());
            assert("mode"@.len() != "version"@.len());
            assert("url"@.len() != "version"@.len());
        }
        let m = map_of(entries);
        assert(index_map_entries(m) =~= triple("mode"@, "url"@, "url"@, self@.1, "version"@, "unknown"@));
        m
    }
}


/// Loads an SDK bundle already present on this machine.
///
/// The file is used where it lies — nothing is downloaded and nothing is copied — and the
/// version is always [`VERSION_UNKNOWN`].
#[derive(Debug, Clone, PartialEq, Eq)]
pub struct LocalLoader {
    file_path: String,
}

impl View for LocalLoader {
    type V = Seq<char>;

    closed spec fn view(&self) -> Seq<char> {
        self.file_path@
    }
}

impl LocalLoader {
    /// Key of the deploy task mode this loader serves.
    pub const MODE_KEY: &'static str = LOCAL_MODE_KEY;

    /// Creates a loader that hands out the bundle stored at `file_path`.
    pub fn new(file_path: &str) -> (l: LocalLoader)
        ensures
            l@ == file_path@,
    {
        LocalLoader { file_path: file_path.to_owned() }
    }

    /// Key of the deploy task mode this loader serves.
    pub fn mode_key(&self) -> (k: &'static str)
        ensures
            k@ == "local"@,
    {
        Self::MODE_KEY
    }

    /// Location of the bundle, which is also the component it hands out for every target.
    pub fn file_path(&self) -> (r: &str)
        ensures
            r@ == self@,
    {
        self.file_path.as_str()
    }

    /// Description of the deployment this loader performs: the mode, the location and an
    /// unknown version.
    pub fn metadata(&self) -> (m: IndexMap<String, String>)
        ensures
            index_map_entries(m) == triple("mode"@, "local"@, "file_path"@, self@, "version"@, "unknown"@),
    {
        proof {
            reveal_strlit("mode");
            reveal_strlit("file_path");
            reveal_strlit("version");
        }
        let entries = vec![
            (MODE_METADATA_KEY, Self::MODE_KEY.to_owned()),
            (FILE_PATH_METADATA_KEY, self.file_path.clone()),
            (VERSION_METADATA_KEY, VERSION_UNKNOWN.to_owned()),
        ];
        proof {
            assert(entries@.len() == 3);
            assert(entries@[0].0@ == "mode"@);
            assert(entries@[1].0@ == "file_path"@);
            assert(entries@[2].0@ == "version"@);
            assert("mode"@.len() != "file_path"@.len());
            assert("mode"@.len() != "version"@.len());
            assert("file_path"@.len() != "version"@.len());
        }
        let m = map_of(entries);
        assert(index_map_entries(m) =~= triple("mode"@, "local"@, "file_path"@, self@, "version"@, "unknown"@));
        m
    }
}

/// Spec-level picture of an [`UpdateChannelLoader`].
pub struct UpdateChannelLoaderView {
    /// Directory the bundle is downloaded into.
    pub download_dir: Seq<char>,
    /// Channel the SDK is taken from.
    pub channel: UpdateChannel,
    /// Address the directory index is read from.
    pub json_index_url: Seq<char>,
    /// Version the loader settled on, once it has been loaded.
    pub version_info: Option<IndexVersionView>,
}

/// Loads an SDK bundle from an update channel of the directory index.
///
/// Loading reads the index and picks the **first** version the channel lists, which is the
/// newest one the update server publishes. Until then,
/// [`version_info`](UpdateChannelLoader::version_info) and
/// [`sdk_component_url`](UpdateChannelLoader::sdk_component_url) report
/// [`SdkError::LoaderNotInitialized`].
#[derive(Debug, Clone, PartialEq, Eq)]
pub struct UpdateChannelLoader {
    download_dir: String,
    channel: UpdateChannel,
    json_index_url: String,
    version_info: Option<IndexVersion>,
}

impl View for UpdateChannelLoader {
    type V = UpdateChannelLoaderView;

    closed spec fn view(&self) -> UpdateChannelLoaderView {
        UpdateChannelLoaderView {
            download_dir: self.download_dir@,
            channel: self.channel,
            json_index_url: self.json_index_url@,
            version_info: match self.version_info {
                Some(v) => Some(v@),
                None => None,
            },
        }
    }
}

/// How a channel is named in messages: `UpdateChannel.` followed by its upper-case name.
pub open spec fn spec_channel_repr(channel: UpdateChannel) -> Seq<char> {
    "UpdateChannel."@ + spec_python_name(channel)
}

/// Outcome of settling on a version of `channel` from an index: the first version of the
/// first channel carrying the channel's identifier, or the reason there is none.
pub enum VersionChoice {
    /// The version chosen.
    Chosen(IndexVersionView),
    /// The index has no channels at all, or not the one asked for.
    InvalidChannel,
    /// The channel lists no versions.
    EmptyChannel,
}

/// The version a channel loader settles on, given the channels of an index.
pub open spec fn spec_choose_version(index: Seq<IndexChannelView>, channel: UpdateChannel) -> VersionChoice {
    if index.len() == 0 {
        VersionChoice::InvalidChannel
    } else {
        match spec_find_channel(index, spec_channel_id(channel)) {
            None => VersionChoice::InvalidChannel,
            Some(i) => if index[i].versions.len() == 0 {
                VersionChoice::EmptyChannel
            } else {
                VersionChoice::Chosen(index[i].versions[0])
            },
        }
    }
}

/// Whether `i` is the position of the first channel of `index` whose identifier is `id`.
pub open spec fn is_first_channel(index: Seq<IndexChannelView>, id: Seq<char>, i: int) -> bool {
    &&& 0 <= i < index.len()
    &&& index[i].id == id
    &&& forall|j: int| 0 <= j < i ==> index[j].id != id
}

/// A channel loader settles on the first version of the first channel of the index that
/// carries its channel's identifier, wherever that channel stands in the index; that
/// channel listing no versions makes the channel empty, and an index where no channel
/// carries the identifier has no such channel.
pub proof fn lemma_version_choice(index: Seq<IndexChannelView>, channel: UpdateChannel)
    ensures
        forall|i: int| #[trigger] is_first_channel(index, spec_channel_id(channel), i) ==> {
            if index[i].versions.len() == 0 {
                spec_choose_version(index, channel) is EmptyChannel
            } else {
                spec_choose_version(index, channel) matches VersionChoice::Chosen(v) && v == index[i].versions[0]
            }
        },
        (forall|i: int| 0 <= i < index.len() ==> index[i].id != spec_channel_id(channel))
            ==> spec_choose_version(index, channel) is InvalidChannel,
        spec_choose_version(index, channel) matches VersionChoice::Chosen(v) ==> exists|i: int|
            #[trigger] is_first_channel(index, spec_channel_id(channel), i) && index[i].versions.len() > 0
                && v == index[i].versions[0],
{
    let id = spec_channel_id(channel);
    lemma_find_channel(index, id);
    assert forall|i: int| #[trigger] is_first_channel(index, id, i) implies spec_find_channel(index, id) == Some(i) by {
        match spec_find_channel(index, id) {
            Some(k) => {
                if k < i {
                    assert(index[k].id != id);
                } else if k > i {
                    assert(index[i].id != id);
                }
            },
            None => {
                assert(index[i].id != id);
            },
        }
    }
    if let Some(k) = spec_find_channel(index, id) {
        assert(is_first_channel(index, id, k));
    }
}

/// Outcome of choosing the SDK bundle of a loaded channel loader for a target.
pub enum ComponentChoice {
    /// The address of the bundle.
    Url(Seq<char>),
    /// The loader has not been loaded.
    NotInitialized,
    /// The chosen version has no files.
    EmptyFilesList,
    /// The chosen version has no SDK bundle for the target.
    InvalidFileType,
    /// The bundle carries no address.
    InvalidFileUrl,
}

/// The SDK bundle a channel loader downloads for `target`.
pub open spec fn spec_choose_component(version: Option<IndexVersionView>, target: Seq<char>) -> ComponentChoice {
    match version {
        None => ComponentChoice::NotInitialized,
        Some(v) => if v.files.len() == 0 {
            ComponentChoice::EmptyFilesList
        } else {
            match spec_find_file(v.files, spec_file_type_id(FileType::SdkZip), target) {
                None => ComponentChoice::InvalidFileType,
                Some(f) => if f.url.len() == 0 {
                    ComponentChoice::InvalidFileUrl
                } else {
                    ComponentChoice::Url(f.url)
                },
            }
        },
    }
}

impl UpdateChannelLoader {
    /// Key of the deploy task mode this loader serves.
    pub const MODE_KEY: &'static str = CHANNEL_MODE_KEY;

    /// Address of the directory index published by the official update server.
    pub const OFFICIAL_INDEX_URL: &'static str = "https://update.flipperzero.one/firmware/directory.json";

    /// Creates a loader that reads
    /// [`OFFICIAL_INDEX_URL`](UpdateChannelLoader::OFFICIAL_INDEX_URL).
    pub fn new(download_dir: &str, channel: UpdateChannel) -> (l: UpdateChannelLoader)
        ensures
            l@ == (UpdateChannelLoaderView {
                download_dir: download_dir@,
                channel,
                json_index_url: "https://update.flipperzero.one/firmware/directory.json"@,
                version_info: None,
            }),
    {
        UpdateChannelLoader {
            download_dir: download_dir.to_owned(),
            channel,
            json_index_url: Self::OFFICIAL_INDEX_URL.to_owned(),
            version_info: None,
        }
    }

    /// Reads the index from the given address instead of the official update server.
    pub fn with_index_url(self, json_index_url: &str) -> (l: UpdateChannelLoader)
        ensures
            l@ == (UpdateChannelLoaderView { json_index_url: json_index_url@, ..self@ }),
    {
        let mut l = self;
        l.json_index_url = json_index_url.to_owned();
        l
    }

    /// Key of the deploy task mode this loader serves.
    pub fn mode_key(&self) -> (k: &'static str)
        ensures
            k@ == "channel"@,
    {
        Self::MODE_KEY
    }

    /// Channel the SDK is taken from.
    pub fn channel(&self) -> (c: UpdateChannel)
        ensures
            c == self@.channel,
    {
        self.channel
    }

    /// Address the directory index is read from.
    pub fn json_index_url(&self) -> (r: &str)
        ensures
            r@ == self@.json_index_url,
    {
        self.json_index_url.as_str()
    }

    /// Directory the bundle is downloaded into.
    pub fn download_dir(&self) -> (r: &str)
        ensures
            r@ == self@.download_dir,
    {
        self.download_dir.as_str()
    }

    /// Version loading settled on.
    ///
    /// Returns [`SdkError::LoaderNotInitialized`] when the loader has not been loaded yet.
    pub fn version_info(&self) -> (r: Result<&IndexVersion, SdkError>)
        ensures
            match r {
                Ok(v) => self@.version_info == Some(v@),
                Err(e) => self@.version_info is None && e is LoaderNotInitialized,
            },
    {
        match &self.version_info {
            Some(v) => Ok(v),
            None => Err(SdkError::LoaderNotInitialized),
        }
    }

    /// How the channel is named in messages, such as `UpdateChannel.RELEASE`.
    pub fn channel_repr(&self) -> (r: String)
        ensures
            r@ == spec_channel_repr(self@.channel),
    {
        concat("UpdateChannel.", self.channel.python_name())
    }

    /// Settles on the first version the loader's channel lists in `index`.
    ///
    /// Returns [`SdkError::InvalidChannel`] when the index has no channels or not the
    /// loader's, and [`SdkError::EmptyChannel`] when that channel lists no versions; both
    /// name the channel as [`channel_repr`](UpdateChannelLoader::channel_repr) does.
    pub fn choose_version(&self, index: DirectoryIndex) -> (r: Result<IndexVersion, SdkError>)
        ensures
            match spec_choose_version(index@, self@.channel) {
                VersionChoice::Chosen(v) => r matches Ok(version) && version@ == v,
                VersionChoice::InvalidChannel => r matches Err(SdkError::InvalidChannel { channel })
                    && channel@ == spec_channel_repr(self@.channel),
                VersionChoice::EmptyChannel => r matches Err(SdkError::EmptyChannel { channel })
                    && channel@ == spec_channel_repr(self@.channel),
            },
    {
        if index.channels().len() == 0 {
            return Err(SdkError::InvalidChannel { channel: self.channel_repr() });
        }
        let position = index.position_of_channel(self.channel.id());
        match position {
            None => Err(SdkError::InvalidChannel { channel: self.channel_repr() }),
            Some(i) => {
                let ghost view = index@;
                let mut channels = index.into_channels();
                assert(channels@.map_values(|c: super::IndexChannel| c@)[i as int] == channels@[i as int]@);
                let channel = channels.remove(i);
                let mut versions = channel.into_versions();
                if versions.len() == 0 {
                    Err(SdkError::EmptyChannel { channel: self.channel_repr() })
                } else {
                    assert(versions@.map_values(|v: IndexVersion| v@)[0] == versions@[0]@);
                    Ok(versions.remove(0))
                }
            },
        }
    }

    /// Completes loading with the version read from the directory index, or leaves the
    /// loader unloaded and reports why the index offers none.
    pub fn load_index(&mut self, index: DirectoryIndex) -> (r: Result<(), SdkError>)
        ensures
            final(self)@.download_dir == old(self)@.download_dir,
            final(self)@.channel == old(self)@.channel,
            final(self)@.json_index_url == old(self)@.json_index_url,
            match spec_choose_version(index@, old(self)@.channel) {
                VersionChoice::Chosen(v) => r is Ok && final(self)@.version_info == Some(v),
                VersionChoice::InvalidChannel => {
                    &&& final(self)@ == old(self)@
                    &&& r matches Err(SdkError::InvalidChannel { channel }) && channel@
                        == spec_channel_repr(old(self)@.channel)
                },
                VersionChoice::EmptyChannel => {
                    &&& final(self)@ == old(self)@
                    &&& r matches Err(SdkError::EmptyChannel { channel }) && channel@
                        == spec_channel_repr(old(self)@.channel)
                },
            },
    {
        let version = self.choose_version(index)?;
        self.version_info = Some(version);
        Ok(())
    }

    /// Address of the SDK bundle of the chosen version built for `target`.
    ///
    /// Returns [`SdkError::LoaderNotInitialized`] before loading,
    /// [`SdkError::EmptyFilesList`] when the version has no files,
    /// [`SdkError::InvalidFileType`] naming `SDK_ZIP` when it has no SDK bundle for `target`,
    /// and [`SdkError::InvalidFileUrl`] when that bundle carries no address.
    pub fn sdk_component_url(&self, target: &str) -> (r: Result<String, SdkError>)
        ensures
            match spec_choose_component(self@.version_info, target@) {
                ComponentChoice::Url(u) => r matches Ok(url) && url@ == u,
                ComponentChoice::NotInitialized => r matches Err(SdkError::LoaderNotInitialized),
                ComponentChoice::EmptyFilesList => r matches Err(SdkError::EmptyFilesList),
                ComponentChoice::InvalidFileType => r matches Err(SdkError::InvalidFileType { file_type })
                    && file_type@ == "SDK_ZIP"@,
                ComponentChoice::InvalidFileUrl => r matches Err(SdkError::InvalidFileUrl),
            },
    {
        let version = self.version_info()?;
        if version.files().len() == 0 {
            return Err(SdkError::EmptyFilesList);
        }
        match version.find_file(FileType::SdkZip, target) {
            None => {
                let id = FileType::SdkZip.id();
                proof {
                    reveal_strlit("sdk_zip");
                    reveal_strlit("SDK_ZIP");
                    assert(is_ascii_text(id@));
                }
                let file_type = to_uppercase(id);
                assert(file_type@ =~= "SDK_ZIP"@);
                Err(SdkError::InvalidFileType { file_type })
            },
            Some(file) => {
                if file.url().is_empty() {
                    Err(SdkError::InvalidFileUrl)
                } else {
                    Ok(file.url().to_owned())
                }
            },
        }
    }

    /// Description of the deployment this loader performs: the mode, the short channel key,
    /// the index address and the version, which is [`VERSION_UNKNOWN`] until the loader has
    /// been loaded.
    pub fn metadata(&self) -> (m: IndexMap<String, String>)
        ensures
            index_map_entries(m) == seq![
                ("mode"@, "channel"@),
                ("channel"@, spec_channel_key(self@.channel)),
                ("json_index"@, self@.json_index_url),
                ("version"@, match self@.version_info {
                    Some(v) => v.version,
                    None => "unknown"@,
                }),
            ],
    {
        proof {
            reveal_strlit("mode");
            reveal_strlit("channel");
            reveal_strlit("json_index");
            reveal_strlit("version");
        }
        let version = match &self.version_info {
            Some(v) => v.version().to_owned(),
            None => VERSION_UNKNOWN.to_owned(),
        };
        let entries = vec![
            (MODE_METADATA_KEY, Self::MODE_KEY.to_owned()),
            ("channel", self.channel.key().to_owned()),
            ("json_index", self.json_index_url.clone()),
            (VERSION_METADATA_KEY, version),
        ];
        proof {
            assert(entries@.len() == 4);
            assert(entries@[0].0@ == "mode"@);
            assert(entries@[1].0@ == "channel"@);
            assert(entries@[2].0@ == "json_index"@);
            assert(entries@[3].0@ == "version"@);
            assert("mode"@.len() != "channel"@.len());
            assert("mode"@.len() != "json_index"@.len());
            assert("mode"@.len() != "version"@.len());
            assert("channel"@.len() != "json_index"@.len());
            assert("channel"@[0] != "version"@[0]);
            assert("json_index"@.len() != "version"@.len());
        }
        let m = map_of(entries);
        m
    }
}


/// Pattern of a link in a branch listing; group 1 is the link target.
pub const HREF_PATTERN: &'static str = r#"(?i)<a[^>]+href=["']([^"']+)["']"#;

/// Pattern of a published file name: target, file type, version and extension.
pub const FILE_NAME_PATTERN: &'static str = r"^flipper-z-([0-9A-Za-z_]+)-([0-9A-Za-z_]+)-(.+)\.([0-9A-Za-z_]+)";

/// Files found in a branch listing, keyed `type|target`, and the version found there.
pub struct BranchFiles {
    /// Link of each recognised file, keyed by file type identifier and target.
    pub files: Seq<(Seq<char>, Seq<char>)>,
    /// Version the first recognised file name announced.
    pub version: Option<Seq<char>>,
}

/// Spec-level picture of a [`BranchLoader`].
pub struct BranchLoaderView {
    /// Directory the bundle is downloaded into.
    pub download_dir: Seq<char>,
    /// Branch the SDK is taken from.
    pub branch: Seq<char>,
    /// Address branch listings are served under.
    pub branch_root: Seq<char>,
    /// What loading found in the listing.
    pub found: BranchFiles,
}

/// Whether a link names a source map, which a listing lists but loading ignores.
pub open spec fn is_map_link(href: Seq<char>) -> bool {
    exists|i: int| occurs_at(href, ".map"@, i)
}

/// Target, file type, version and extension of a published file name, when the name has
/// the shape [`FILE_NAME_PATTERN`] describes.
pub open spec fn spec_file_name_parts(href: Seq<char>) -> Option<(Seq<char>, Seq<char>, Seq<char>, Seq<char>)> {
    match regex_captures(FILE_NAME_PATTERN@, href) {
        Some(groups) => if groups.len() >= 5 && groups[1] is Some && groups[2] is Some
            && groups[3] is Some && groups[4] is Some {
            Some((groups[1]->0, groups[2]->0, groups[3]->0, groups[4]->0))
        } else {
            None
        },
        None => None,
    }
}

/// Target, file type, version and extension of a published file name, when the name has
/// the shape [`FILE_NAME_PATTERN`] describes.
fn file_name_parts(href: &str) -> (r: Option<(String, String, String, String)>)
    ensures
        match r {
            Some((t, f, v, e)) => spec_file_name_parts(href@) == Some((t@, f@, v@, e@)),
            None => spec_file_name_parts(href@) is None,
        },
{
    let groups = match captures(FILE_NAME_PATTERN, href) {
        Some(groups) => groups,
        None => return None,
    };
    let ghost gv = groups@.map_values(|g: Option<String>| match g {
        Some(s) => Some(s@),
        None => None,
    });
    if groups.len() < 5 {
        return None;
    }
    assert(gv[1] == match groups@[1] { Some(s) => Some(s@), None => None::<Seq<char>> });
    assert(gv[2] == match groups@[2] { Some(s) => Some(s@), None => None::<Seq<char>> });
    assert(gv[3] == match groups@[3] { Some(s) => Some(s@), None => None::<Seq<char>> });
    assert(gv[4] == match groups@[4] { Some(s) => Some(s@), None => None::<Seq<char>> });
    match (&groups[1], &groups[2], &groups[3], &groups[4]) {
        (Some(t), Some(f), Some(v), Some(e)) => Some((t.clone(), f.clone(), v.clone(), e.clone())),
        _ => None,
    }
}

/// What recording a recognised file name does: a name of a known file type, given by its
/// `file_type` and `extension`, is filed under `type|target`; the first recognised name
/// settles the version, and a later one whose version does not start with it is a
/// contradiction, reported as the pair of versions.
pub open spec fn spec_record_file(
    found: BranchFiles,
    href: Seq<char>,
    target: Seq<char>,
    file_type: Seq<char>,
    version: Seq<char>,
    extension: Seq<char>,
) -> (BranchFiles, Option<(Seq<char>, Seq<char>)>) {
    let type_id = lowercase(file_type + "_"@ + extension);
    let files = if exists|t: FileType| spec_file_type_id(t) == type_id {
        spec_map_insert(found.files, type_id + "|"@ + target, href)
    } else {
        found.files
    };
    match found.version {
        None => (BranchFiles { files, version: Some(version) }, None),
        Some(first) => if spec_starts_with(version, first) {
            (BranchFiles { files, version: found.version }, None)
        } else {
            (BranchFiles { files, version: found.version }, Some((first, version)))
        },
    }
}

/// What recording one link does: a source map or an unrecognised name changes nothing,
/// and a recognised one is recorded as [`spec_record_file`] says.
pub open spec fn spec_record(found: BranchFiles, href: Seq<char>) -> (BranchFiles, Option<(Seq<char>, Seq<char>)>) {
    if is_map_link(href) {
        (found, None)
    } else {
        match spec_file_name_parts(href) {
            None => (found, None),
            Some((target, file_type, version, extension)) => spec_record_file(
                found,
                href,
                target,
                file_type,
                version,
                extension,
            ),
        }
    }
}

/// The text of each optional string, in order.
pub open spec fn opt_texts(items: Seq<Option<String>>) -> Seq<Option<Seq<char>>> {
    items.map_values(|item: Option<String>| match item {
        Some(s) => Some(s@),
        None => None,
    })
}

/// Recording every link of a listing in turn, stopping at the first contradiction.
pub open spec fn spec_record_all(found: BranchFiles, hrefs: Seq<Option<Seq<char>>>) -> (BranchFiles, Option<(Seq<char>, Seq<char>)>)
    decreases hrefs.len(),
{
    if hrefs.len() == 0 {
        (found, None)
    } else {
        let (before, error) = spec_record_all(found, hrefs.drop_last());
        if error is Some {
            (before, error)
        } else {
            match hrefs.last() {
                Some(href) => spec_record(before, href),
                None => (before, None),
            }
        }
    }
}

proof fn lemma_record_all_stops(found: BranchFiles, hrefs: Seq<Option<Seq<char>>>, k: int)
    requires
        0 <= k <= hrefs.len(),
        spec_record_all(found, hrefs.subrange(0, k)).1 is Some,
    ensures
        spec_record_all(found, hrefs) == spec_record_all(found, hrefs.subrange(0, k)),
    decreases hrefs.len() - k,
{
    if k == hrefs.len() {
        assert(hrefs.subrange(0, k) =~= hrefs);
    } else {
        let shorter = hrefs.drop_last();
        assert(shorter.subrange(0, k) =~= hrefs.subrange(0, k));
        lemma_record_all_stops(found, shorter, k);
    }
}

/// Loads an SDK bundle from the directory listing of a firmware branch.
///
/// Loading reads the listing served at [`branch_url`](BranchLoader::branch_url) and
/// recognises the published bundles by their file names. All of them are expected to belong
/// to one version; a file name announcing a different one makes the load fail with
/// [`SdkError::MultipleVersions`].
#[derive(Debug, Clone, PartialEq, Eq)]
pub struct BranchLoader {
    download_dir: String,
    branch: String,
    branch_root: String,
    /// Link of each recognised file, keyed `type|target`, no key twice. A list rather than
    /// a `HashMap`, because vstd specifies what a `HashMap` keyed by `String` holds too
    /// weakly for the contracts here, which speak of every link.
    branch_files: Vec<(String, String)>,
    version: Option<String>,
}

/// Whether `text` contains `part`.
pub fn contains(text: &str, part: &str) -> (b: bool)
    ensures
        b == exists|i: int| occurs_at(text@, part@, i),
{
    let t = chars_of(text);
    let p = chars_of(part);
    if p.len() == 0 {
        assert(occurs_at(text@, part@, 0)) by {
            assert(text@.subrange(0, 0) =~= part@);
        }
        return true;
    }
    if p.len() > t.len() {
        assert forall|j: int| !occurs_at(t@, p@, j) by {}
        return false;
    }
    let mut i: usize = 0;
    while i <= t.len() - p.len()
        invariant
            t@ == text@,
            p@ == part@,
            p@.len() >= 1,
            p@.len() <= t@.len(),
            i <= t@.len() - p@.len() + 1,
            forall|j: int| 0 <= j < i ==> !occurs_at(t@, p@, j),
        decreases t@.len() + 1 - i,
    {
        if chars_occur_at(&t, &p, i) {
            return true;
        }
        i += 1;
    }
    assert forall|j: int| !occurs_at(t@, p@, j) by {
        if 0 <= j && j < i {
        } else {
        }
    }
    false
}

impl View for BranchLoader {
    type V = BranchLoaderView;

    closed spec fn view(&self) -> BranchLoaderView {
        BranchLoaderView {
            download_dir: self.download_dir@,
            branch: self.branch@,
            branch_root: self.branch_root@,
            found: BranchFiles {
                files: pairs_view(self.branch_files@),
                version: match self.version {
                    Some(v) => Some(v@),
                    None => None,
                },
            },
        }
    }
}

/// Address of a branch's listing: the root, the branch and a trailing `/`.
pub open spec fn spec_branch_url(root: Seq<char>, branch: Seq<char>) -> Seq<char> {
    root + "/"@ + branch + "/"@
}

impl BranchLoader {
    /// Key of the deploy task mode this loader serves.
    pub const MODE_KEY: &'static str = BRANCH_MODE_KEY;

    /// Address the branch listings of the official update server are served under.
    pub const UPDATE_SERVER_BRANCH_ROOT: &'static str = "https://update.flipperzero.one/builds/firmware";

    /// Creates a loader that reads the branch listings of the official update server.
    pub fn new(download_dir: &str, branch: &str) -> (l: BranchLoader)
        ensures
            l@ == (BranchLoaderView {
                download_dir: download_dir@,
                branch: branch@,
                branch_root: "https://update.flipperzero.one/builds/firmware"@,
                found: BranchFiles { files: Seq::empty(), version: None },
            }),
    {
        let l = BranchLoader {
            download_dir: download_dir.to_owned(),
            branch: branch.to_owned(),
            branch_root: Self::UPDATE_SERVER_BRANCH_ROOT.to_owned(),
            branch_files: Vec::new(),
            version: None,
        };
        assert(pairs_view(l.branch_files@) =~= Seq::<(Seq<char>, Seq<char>)>::empty());
        l
    }

    /// Reads the branch listings from the given address instead of the official update
    /// server.
    pub fn with_branch_root(self, branch_root: &str) -> (l: BranchLoader)
        ensures
            l@ == (BranchLoaderView { branch_root: branch_root@, ..self@ }),
    {
        let mut l = self;
        l.branch_root = branch_root.to_owned();
        l
    }

    /// Key of the deploy task mode this loader serves.
    pub fn mode_key(&self) -> (k: &'static str)
        ensures
            k@ == "branch"@,
    {
        Self::MODE_KEY
    }

    /// Branch the SDK is taken from.
    pub fn branch(&self) -> (r: &str)
        ensures
            r@ == self@.branch,
    {
        self.branch.as_str()
    }

    /// Address the branch listings are served under.
    pub fn branch_root(&self) -> (r: &str)
        ensures
            r@ == self@.branch_root,
    {
        self.branch_root.as_str()
    }

    /// Directory the bundle is downloaded into.
    pub fn download_dir(&self) -> (r: &str)
        ensures
            r@ == self@.download_dir,
    {
        self.download_dir.as_str()
    }

    /// Address of this branch's listing, which is also the base every published file name is
    /// resolved against.
    pub fn branch_url(&self) -> (r: String)
        ensures
            r@ == spec_branch_url(self@.branch_root, self@.branch),
    {
        let mut r = concat(self.branch_root.as_str(), "/");
        r.append(self.branch.as_str());
        r.append("/");
        r
    }

    /// Version loading found in the listing.
    pub fn version(&self) -> (r: Option<&str>)
        ensures
            match r {
                Some(v) => self@.found.version == Some(v@),
                None => self@.found.version is None,
            },
    {
        match &self.version {
            Some(v) => Some(v.as_str()),
            None => None,
        }
    }

    /// Records one link of the listing, as [`spec_record`] describes.
    pub fn record(&mut self, href: &str) -> (r: Result<(), SdkError>)
        ensures
            final(self)@.download_dir == old(self)@.download_dir,
            final(self)@.branch == old(self)@.branch,
            final(self)@.branch_root == old(self)@.branch_root,
            final(self)@.found == spec_record(old(self)@.found, href@).0,
            match spec_record(old(self)@.found, href@).1 {
                None => r is Ok,
                Some((first, second)) => r matches Err(SdkError::MultipleVersions { first: f, second: s })
                    && f@ == first && s@ == second,
            },
    {
        if contains(href, ".map") {
            return Ok(());
        }
        match file_name_parts(href) {
            None => Ok(()),
            Some((target, file_type, version, extension)) => self.record_file(
                href,
                target.as_str(),
                file_type.as_str(),
                version.as_str(),
                extension.as_str(),
            ),
        }
    }

    /// Records the link `href` to a published file whose name reads as `target`,
    /// `file_type`, `version` and `extension`, as [`spec_record_file`] describes.
    pub fn record_file(
        &mut self,
        href: &str,
        target: &str,
        file_type: &str,
        version: &str,
        extension: &str,
    ) -> (r: Result<(), SdkError>)
        ensures
            final(self)@.download_dir == old(self)@.download_dir,
            final(self)@.branch == old(self)@.branch,
            final(self)@.branch_root == old(self)@.branch_root,
            final(self)@.found == spec_record_file(old(self)@.found, href@, target@, file_type@, version@, extension@).0,
            match spec_record_file(old(self)@.found, href@, target@, file_type@, version@, extension@).1 {
                None => r is Ok,
                Some((first, second)) => r matches Err(SdkError::MultipleVersions { first: f, second: s })
                    && f@ == first && s@ == second,
            },
    {
        let mut joined = concat(file_type, "_");
        joined.append(extension);
        let type_id = to_lowercase(joined.as_str());
        if let Some(known) = FileType::by_id(type_id.as_str()) {
            let mut key = concat(known.id(), "|");
            key.append(target);
            pairs_insert(&mut self.branch_files, key, href.to_owned());
        }
        match &self.version {
            None => {
                self.version = Some(version.to_owned());
                Ok(())
            },
            Some(first) => {
                if !starts_with(version, first.as_str()) {
                    Err(SdkError::MultipleVersions { first: first.clone(), second: version.to_owned() })
                } else {
                    Ok(())
                }
            },
        }
    }

    /// Records every link of the listing `html`, in document order, stopping at the first
    /// contradicting version.
    pub fn record_listing(&mut self, html: &str) -> (r: Result<(), SdkError>)
        ensures
            final(self)@.download_dir == old(self)@.download_dir,
            final(self)@.branch == old(self)@.branch,
            final(self)@.branch_root == old(self)@.branch_root,
            final(self)@.found == spec_record_all(old(self)@.found, regex_group_matches(HREF_PATTERN@, html@, 1)).0,
            match spec_record_all(old(self)@.found, regex_group_matches(HREF_PATTERN@, html@, 1)).1 {
                None => r is Ok,
                Some((first, second)) => r matches Err(SdkError::MultipleVersions { first: f, second: s })
                    && f@ == first && s@ == second,
            },
    {
        let hrefs = group_matches(HREF_PATTERN, html, 1);
        self.record_links(&hrefs)
    }

    /// Records the links `hrefs` found in a listing, in order, skipping the matches that
    /// carry no link and stopping at the first contradicting version.
    pub fn record_links(&mut self, hrefs: &Vec<Option<String>>) -> (r: Result<(), SdkError>)
        ensures
            final(self)@.download_dir == old(self)@.download_dir,
            final(self)@.branch == old(self)@.branch,
            final(self)@.branch_root == old(self)@.branch_root,
            final(self)@.found == spec_record_all(old(self)@.found, opt_texts(hrefs@)).0,
            match spec_record_all(old(self)@.found, opt_texts(hrefs@)).1 {
                None => r is Ok,
                Some((first, second)) => r matches Err(SdkError::MultipleVersions { first: f, second: s })
                    && f@ == first && s@ == second,
            },
    {
        let ghost all = opt_texts(hrefs@);
        let ghost start = self@.found;
        let mut i: usize = 0;
        assert(all.subrange(0, 0) =~= Seq::<Option<Seq<char>>>::empty());
        while i < hrefs.len()
            invariant
                i <= hrefs@.len(),
                all.len() == hrefs@.len(),
                all == opt_texts(hrefs@),
                self@.download_dir == old(self)@.download_dir,
                self@.branch == old(self)@.branch,
                self@.branch_root == old(self)@.branch_root,
                start == old(self)@.found,
                spec_record_all(start, all.subrange(0, i as int)).1 is None,
                self@.found == spec_record_all(start, all.subrange(0, i as int)).0,
            decreases hrefs@.len() - i,
        {
            assert(all.subrange(0, i + 1).drop_last() =~= all.subrange(0, i as int));
            assert(all[i as int] == match hrefs@[i as int] {
                Some(s) => Some(s@),
                None => None::<Seq<char>>,
            });
            if let Some(href) = &hrefs[i] {
                let ghost before = self@.found;
                let r = self.record(href.as_str());
                if r.is_err() {
                    proof {
                        assert(all.subrange(0, i + 1).last() == Some(href@));
                        assert(spec_record(before, href@).1 is Some);
                        assert(spec_record_all(start, all.subrange(0, i + 1)) == spec_record(before, href@));
                        lemma_record_all_stops(start, all, i + 1);
                    }
                    return r;
                }
            }
            i += 1;
        }
        assert(all.subrange(0, hrefs@.len() as int) =~= all);
        Ok(())
    }
}

impl BranchLoader {
    /// Address of the SDK bundle the listing publishes for `target`: the listing address
    /// followed by the recorded link.
    ///
    /// Returns [`SdkError::SdkBundleNotFound`] naming `target` when the listing carries no
    /// SDK bundle for it, which is always the case before loading.
    pub fn sdk_component_url(&self, target: &str) -> (r: Result<String, SdkError>)
        ensures
            match spec_map_get(self@.found.files, spec_file_type_id(FileType::SdkZip) + "|"@ + target@) {
                Some(link) => r matches Ok(url) && url@ == spec_branch_url(self@.branch_root, self@.branch) + link,
                None => r matches Err(SdkError::SdkBundleNotFound { target: t }) && t@ == target@,
            },
    {
        let mut key = concat(FileType::SdkZip.id(), "|");
        key.append(target);
        match pairs_get(&self.branch_files, key.as_str()) {
            None => Err(SdkError::SdkBundleNotFound { target: target.to_owned() }),
            Some(link) => {
                let mut url = self.branch_url();
                url.append(link.as_str());
                Ok(url)
            },
        }
    }

    /// Description of the deployment this loader performs: the mode, the branch, the
    /// version found, which is [`VERSION_UNKNOWN`] until one is, and the listing root.
    pub fn metadata(&self) -> (m: IndexMap<String, String>)
        ensures
            index_map_entries(m) == seq![
                ("mode"@, "branch"@),
                ("branch"@, self@.branch),
                ("version"@, match self@.found.version {
                    Some(v) => v,
                    None => "unknown"@,
                }),
                ("branch_root"@, self@.branch_root),
            ],
    {
        proof {
            reveal_strlit("mode");
            reveal_strlit("branch");
            reveal_strlit("branch_root");
            reveal_strlit("version");
        }
        let version = match &self.version {
            Some(v) => v.clone(),
            None => VERSION_UNKNOWN.to_owned(),
        };
        let entries = vec![
            (MODE_METADATA_KEY, Self::MODE_KEY.to_owned()),
            ("branch", self.branch.clone()),
            (VERSION_METADATA_KEY, version),
            ("branch_root", self.branch_root.clone()),
        ];
        proof {
            assert(entries@.len() == 4);
            assert(entries@[0].0@ == "mode"@);
            assert(entries@[1].0@ == "branch"@);
            assert(entries@[2].0@ == "version"@);
            assert(entries@[3].0@ == "branch_root"@);
            assert("mode"@.len() != "branch"@.len());
            assert("mode"@.len() != "version"@.len());
            assert("mode"@.len() != "branch_root"@.len());
            assert("branch"@[0] != "version"@[0]);
            assert("branch"@.len() != "branch_root"@.len());
            assert("version"@.len() != "branch_root"@.len());
        }
        map_of(entries)
    }
}

} // verus!

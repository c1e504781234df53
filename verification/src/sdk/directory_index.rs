use vstd::prelude::*;
use crate::json::{member, spec_as_i64, spec_member, spec_member_str, JsonValue};
use crate::text::str_eq;
use super::file_type::{spec_file_type_id, FileType};

verus! {

/// Text of the member `key` of `fields`, or an empty string when it is absent or not a
/// string.
pub open spec fn spec_string_field(fields: Seq<(String, JsonValue)>, key: Seq<char>) -> Seq<char> {
    match spec_member_str(fields, key) {
        Some(s) => s,
        None => Seq::<char>::empty(),
    }
}

/// Value of the member `key` of `fields`, when it is an integer that fits into `i64`.
pub open spec fn spec_int_field(fields: Seq<(String, JsonValue)>, key: Seq<char>) -> Option<i64> {
    match spec_member(fields, key) {
        Some(v) => spec_as_i64(v),
        None => None,
    }
}

/// Elements of the member `key` of `fields`, or none when it is absent or not an array.
pub open spec fn spec_array_items(fields: Seq<(String, JsonValue)>, key: Seq<char>) -> Seq<JsonValue> {
    match spec_member(fields, key) {
        Some(JsonValue::Array(items)) => items@,
        _ => Seq::empty(),
    }
}

fn string_field(fields: &Vec<(String, JsonValue)>, key: &str) -> (s: String)
    ensures
        s@ == spec_string_field(fields@, key@),
{
    match crate::json::member_str(fields, key) {
        Some(s) => s.to_owned(),
        None => String::new(),
    }
}

fn optional_string_field(fields: &Vec<(String, JsonValue)>, key: &str) -> (s: Option<String>)
    ensures
        match s {
            Some(s) => spec_member_str(fields@, key@) == Some(s@),
            None => spec_member_str(fields@, key@) is None,
        },
{
    match crate::json::member_str(fields, key) {
        Some(s) => Some(s.to_owned()),
        None => None,
    }
}

fn optional_int_field(fields: &Vec<(String, JsonValue)>, key: &str) -> (i: Option<i64>)
    ensures
        i == spec_int_field(fields@, key@),
{
    match member(fields, key) {
        Some(v) => v.as_i64(),
        None => None,
    }
}

fn array_items<'a>(fields: &'a Vec<(String, JsonValue)>, key: &str) -> (items: Option<&'a Vec<JsonValue>>)
    ensures
        match items {
            Some(items) => spec_array_items(fields@, key@) == items@,
            None => spec_array_items(fields@, key@) == Seq::<JsonValue>::empty(),
        },
{
    match member(fields, key) {
        Some(JsonValue::Array(items)) => Some(items),
        _ => None,
    }
}

/// Spec-level picture of an [`IndexFile`].
pub struct IndexFileView {
    /// Download address, empty when the index carries none.
    pub url: Seq<char>,
    /// Hardware target.
    pub target: Seq<char>,
    /// Kind of the file.
    pub file_type: Seq<char>,
    /// Published checksum.
    pub sha256: Option<Seq<char>>,
}

/// Spec-level picture of an [`IndexVersion`].
pub struct IndexVersionView {
    /// Version string, empty when the index carries none.
    pub version: Seq<char>,
    /// Published changelog.
    pub changelog: Option<Seq<char>>,
    /// Published build timestamp.
    pub timestamp: Option<i64>,
    /// Published files, in index order.
    pub files: Seq<IndexFileView>,
}

/// Spec-level picture of an [`IndexChannel`].
pub struct IndexChannelView {
    /// Identifier, empty when the index carries none.
    pub id: Seq<char>,
    /// Published title.
    pub title: Option<Seq<char>>,
    /// Published description.
    pub description: Option<Seq<char>>,
    /// Published versions, in index order.
    pub versions: Seq<IndexVersionView>,
}

/// One downloadable file of a firmware version listed in the directory index.
#[derive(Debug, Clone, Default, PartialEq, Eq)]
pub struct IndexFile {
    url: String,
    target: String,
    file_type: String,
    sha256: Option<String>,
}

/// Spec-level picture of an optional string.
pub open spec fn opt_view(s: Option<String>) -> Option<Seq<char>> {
    match s {
        Some(s) => Some(s@),
        None => None,
    }
}

impl View for IndexFile {
    type V = IndexFileView;

    closed spec fn view(&self) -> IndexFileView {
        IndexFileView {
            url: self.url@,
            target: self.target@,
            file_type: self.file_type@,
            sha256: opt_view(self.sha256),
        }
    }
}

/// The file an index object describes: every field is read by name, a missing or
/// mistyped string reads as empty, a missing or mistyped checksum as absent.
pub open spec fn spec_index_file(fields: Seq<(String, JsonValue)>) -> IndexFileView {
    IndexFileView {
        url: spec_string_field(fields, "url"@),
        target: spec_string_field(fields, "target"@),
        file_type: spec_string_field(fields, "type"@),
        sha256: spec_member_str(fields, "sha256"@),
    }
}

/// The files an array of index values describes; elements that are not objects are
/// skipped.
pub open spec fn spec_index_files(items: Seq<JsonValue>) -> Seq<IndexFileView>
    decreases items.len(),
{
    if items.len() == 0 {
        Seq::empty()
    } else {
        let prev = spec_index_files(items.drop_last());
        match items.last() {
            JsonValue::Object(fields) => prev.push(spec_index_file(fields@)),
            _ => prev,
        }
    }
}

impl IndexFile {
    /// Address the file is downloaded from, or an empty string when the index carries none.
    pub fn url(&self) -> (r: &str)
        ensures
            r@ == self@.url,
    {
        self.url.as_str()
    }

    /// Hardware target the file was built for, such as `f7`.
    pub fn target(&self) -> (r: &str)
        ensures
            r@ == self@.target,
    {
        self.target.as_str()
    }

    /// Kind of the file, matching [`FileType::id`] for the types this crate knows.
    pub fn file_type(&self) -> (r: &str)
        ensures
            r@ == self@.file_type,
    {
        self.file_type.as_str()
    }

    /// SHA-256 checksum published alongside the file, if any.
    pub fn sha256(&self) -> (r: Option<&str>)
        ensures
            match r {
                Some(s) => self@.sha256 == Some(s@),
                None => self@.sha256 is None,
            },
    {
        match &self.sha256 {
            Some(s) => Some(s.as_str()),
            None => None,
        }
    }

    /// The file described by the members of an index object.
    pub fn from_fields(fields: &Vec<(String, JsonValue)>) -> (f: IndexFile)
        ensures
            f@ == spec_index_file(fields@),
    {
        IndexFile {
            url: string_field(fields, "url"),
            target: string_field(fields, "target"),
            file_type: string_field(fields, "type"),
            sha256: optional_string_field(fields, "sha256"),
        }
    }

    /// The file described by an index value; a value that is not an object describes a
    /// file whose fields are all empty or absent.
    pub fn from_value(value: &JsonValue) -> (f: IndexFile)
        ensures
            f@ == match *value {
                JsonValue::Object(fields) => spec_index_file(fields@),
                _ => spec_index_file(Seq::empty()),
            },
    {
        match value {
            JsonValue::Object(fields) => Self::from_fields(fields),
            _ => Self::from_fields(&Vec::new()),
        }
    }
}

fn index_files(items: &Vec<JsonValue>) -> (files: Vec<IndexFile>)
    ensures
        files@.map_values(|f: IndexFile| f@) == spec_index_files(items@),
{
    let mut files: Vec<IndexFile> = Vec::new();
    let mut i: usize = 0;
    while i < items.len()
        invariant
            i <= items@.len(),
            files@.map_values(|f: IndexFile| f@) == spec_index_files(items@.subrange(0, i as int)),
        decreases items@.len() - i,
    {
        assert(items@.subrange(0, i + 1).drop_last() =~= items@.subrange(0, i as int));
        if let JsonValue::Object(fields) = &items[i] {
            files.push(IndexFile::from_fields(fields));
        }
        i += 1;
        assert(files@.map_values(|f: IndexFile| f@) =~= spec_index_files(items@.subrange(0, i as int)));
    }
    assert(items@.subrange(0, items@.len() as int) =~= items@);
    files
}

/// One firmware version of an update channel, together with its downloadable files.
#[derive(Debug, Clone, Default, PartialEq, Eq)]
pub struct IndexVersion {
    version: String,
    changelog: Option<String>,
    timestamp: Option<i64>,
    files: Vec<IndexFile>,
}

impl View for IndexVersion {
    type V = IndexVersionView;

    closed spec fn view(&self) -> IndexVersionView {
        IndexVersionView {
            version: self.version@,
            changelog: opt_view(self.changelog),
            timestamp: self.timestamp,
            files: self.files@.map_values(|f: IndexFile| f@),
        }
    }
}

/// The version an index object describes.
pub open spec fn spec_index_version(fields: Seq<(String, JsonValue)>) -> IndexVersionView {
    IndexVersionView {
        version: spec_string_field(fields, "version"@),
        changelog: spec_member_str(fields, "changelog"@),
        timestamp: spec_int_field(fields, "timestamp"@),
        files: spec_index_files(spec_array_items(fields, "files"@)),
    }
}

/// The versions an array of index values describes; elements that are not objects are
/// skipped.
pub open spec fn spec_index_versions(items: Seq<JsonValue>) -> Seq<IndexVersionView>
    decreases items.len(),
{
    if items.len() == 0 {
        Seq::empty()
    } else {
        let prev = spec_index_versions(items.drop_last());
        match items.last() {
            JsonValue::Object(fields) => prev.push(spec_index_version(fields@)),
            _ => prev,
        }
    }
}

/// The first of `files` of the given type identifier built for the given target.
pub open spec fn spec_find_file(files: Seq<IndexFileView>, type_id: Seq<char>, target: Seq<char>) -> Option<IndexFileView>
    decreases files.len(),
{
    if files.len() == 0 {
        None
    } else if files[0].file_type == type_id && files[0].target == target {
        Some(files[0])
    } else {
        spec_find_file(files.drop_first(), type_id, target)
    }
}

impl IndexVersion {
    /// Version string, or an empty string when the index carries none.
    pub fn version(&self) -> (r: &str)
        ensures
            r@ == self@.version,
    {
        self.version.as_str()
    }

    /// Changelog published for the version, if any.
    pub fn changelog(&self) -> (r: Option<&str>)
        ensures
            match r {
                Some(s) => self@.changelog == Some(s@),
                None => self@.changelog is None,
            },
    {
        match &self.changelog {
            Some(s) => Some(s.as_str()),
            None => None,
        }
    }

    /// Build timestamp published for the version, if any.
    pub fn timestamp(&self) -> (r: Option<i64>)
        ensures
            r == self@.timestamp,
    {
        self.timestamp
    }

    /// Files published for the version.
    pub fn files(&self) -> (r: &Vec<IndexFile>)
        ensures
            r@.map_values(|f: IndexFile| f@) == self@.files,
    {
        &self.files
    }

    /// Finds the first file of the given type built for the given hardware target.
    pub fn find_file(&self, file_type: FileType, target: &str) -> (r: Option<&IndexFile>)
        ensures
            match r {
                Some(f) => spec_find_file(self@.files, spec_file_type_id(file_type), target@) == Some(f@),
                None => spec_find_file(self@.files, spec_file_type_id(file_type), target@) is None,
            },
    {
        let id = file_type.id();
        let ghost files = self@.files;
        let mut i: usize = 0;
        assert(files.subrange(0, files.len() as int) =~= files);
        while i < self.files.len()
            invariant
                i <= self.files@.len(),
                files == self.files@.map_values(|f: IndexFile| f@),
                id@ == spec_file_type_id(file_type),
                spec_find_file(files, id@, target@) == spec_find_file(files.subrange(i as int, files.len() as int), id@, target@),
            decreases self.files@.len() - i,
        {
            let f = &self.files[i];
            assert(files.subrange(i as int, files.len() as int).drop_first() =~= files.subrange(i + 1, files.len() as int));
            assert(files[i as int] == f@);
            if str_eq(f.file_type.as_str(), id) && str_eq(f.target.as_str(), target) {
                return Some(f);
            }
            i += 1;
        }
        None
    }

    /// The version described by the members of an index object.
    pub fn from_fields(fields: &Vec<(String, JsonValue)>) -> (v: IndexVersion)
        ensures
            v@ == spec_index_version(fields@),
    {
        let files = match array_items(fields, "files") {
            Some(items) => index_files(items),
            None => {
                let empty: Vec<JsonValue> = Vec::new();
                index_files(&empty)
            },
        };
        IndexVersion {
            version: string_field(fields, "version"),
            changelog: optional_string_field(fields, "changelog"),
            timestamp: optional_int_field(fields, "timestamp"),
            files,
        }
    }
}

fn index_versions(items: &Vec<JsonValue>) -> (versions: Vec<IndexVersion>)
    ensures
        versions@.map_values(|v: IndexVersion| v@) == spec_index_versions(items@),
{
    let mut versions: Vec<IndexVersion> = Vec::new();
    let mut i: usize = 0;
    while i < items.len()
        invariant
            i <= items@.len(),
            versions@.map_values(|v: IndexVersion| v@) == spec_index_versions(items@.subrange(0, i as int)),
        decreases items@.len() - i,
    {
        assert(items@.subrange(0, i + 1).drop_last() =~= items@.subrange(0, i as int));
        if let JsonValue::Object(fields) = &items[i] {
            versions.push(IndexVersion::from_fields(fields));
        }
        i += 1;
        assert(versions@.map_values(|v: IndexVersion| v@) =~= spec_index_versions(items@.subrange(0, i as int)));
    }
    assert(items@.subrange(0, items@.len() as int) =~= items@);
    versions
}

/// One update channel of the directory index, holding its versions newest first.
#[derive(Debug, Clone, Default, PartialEq, Eq)]
pub struct IndexChannel {
    id: String,
    title: Option<String>,
    description: Option<String>,
    versions: Vec<IndexVersion>,
}

impl View for IndexChannel {
    type V = IndexChannelView;

    closed spec fn view(&self) -> IndexChannelView {
        IndexChannelView {
            id: self.id@,
            title: opt_view(self.title),
            description: opt_view(self.description),
            versions: self.versions@.map_values(|v: IndexVersion| v@),
        }
    }
}

/// The channel an index object describes.
pub open spec fn spec_index_channel(fields: Seq<(String, JsonValue)>) -> IndexChannelView {
    IndexChannelView {
        id: spec_string_field(fields, "id"@),
        title: spec_member_str(fields, "title"@),
        description: spec_member_str(fields, "description"@),
        versions: spec_index_versions(spec_array_items(fields, "versions"@)),
    }
}

/// The channels an array of index values describes; elements that are not objects are
/// skipped.
pub open spec fn spec_index_channels(items: Seq<JsonValue>) -> Seq<IndexChannelView>
    decreases items.len(),
{
    if items.len() == 0 {
        Seq::empty()
    } else {
        let prev = spec_index_channels(items.drop_last());
        match items.last() {
            JsonValue::Object(fields) => prev.push(spec_index_channel(fields@)),
            _ => prev,
        }
    }
}

impl IndexChannel {
    /// Identifier of the channel, matching [`UpdateChannel::id`](super::UpdateChannel::id).
    pub fn id(&self) -> (r: &str)
        ensures
            r@ == self@.id,
    {
        self.id.as_str()
    }

    /// Human-readable title of the channel, if any.
    pub fn title(&self) -> (r: Option<&str>)
        ensures
            match r {
                Some(s) => self@.title == Some(s@),
                None => self@.title is None,
            },
    {
        match &self.title {
            Some(s) => Some(s.as_str()),
            None => None,
        }
    }

    /// Human-readable description of the channel, if any.
    pub fn description(&self) -> (r: Option<&str>)
        ensures
            match r {
                Some(s) => self@.description == Some(s@),
                None => self@.description is None,
            },
    {
        match &self.description {
            Some(s) => Some(s.as_str()),
            None => None,
        }
    }

    /// Versions published in the channel, in the order the index lists them.
    pub fn versions(&self) -> (r: &Vec<IndexVersion>)
        ensures
            r@.map_values(|v: IndexVersion| v@) == self@.versions,
    {
        &self.versions
    }

    /// The versions of the channel, handed over.
    pub fn into_versions(self) -> (r: Vec<IndexVersion>)
        ensures
            r@.map_values(|v: IndexVersion| v@) == self@.versions,
    {
        self.versions
    }

    /// The channel described by the members of an index object.
    pub fn from_fields(fields: &Vec<(String, JsonValue)>) -> (c: IndexChannel)
        ensures
            c@ == spec_index_channel(fields@),
    {
        let versions = match array_items(fields, "versions") {
            Some(items) => index_versions(items),
            None => {
                let empty: Vec<JsonValue> = Vec::new();
                index_versions(&empty)
            },
        };
        IndexChannel {
            id: string_field(fields, "id"),
            title: optional_string_field(fields, "title"),
            description: optional_string_field(fields, "description"),
            versions,
        }
    }
}

fn index_channels(items: &Vec<JsonValue>) -> (channels: Vec<IndexChannel>)
    ensures
        channels@.map_values(|c: IndexChannel| c@) == spec_index_channels(items@),
{
    let mut channels: Vec<IndexChannel> = Vec::new();
    let mut i: usize = 0;
    while i < items.len()
        invariant
            i <= items@.len(),
            channels@.map_values(|c: IndexChannel| c@) == spec_index_channels(items@.subrange(0, i as int)),
        decreases items@.len() - i,
    {
        assert(items@.subrange(0, i + 1).drop_last() =~= items@.subrange(0, i as int));
        if let JsonValue::Object(fields) = &items[i] {
            channels.push(IndexChannel::from_fields(fields));
        }
        i += 1;
        assert(channels@.map_values(|c: IndexChannel| c@) =~= spec_index_channels(items@.subrange(0, i as int)));
    }
    assert(items@.subrange(0, items@.len() as int) =~= items@);
    channels
}

/// Contents of the `directory.json` index published by the update server.
///
/// Reading never fails on unexpected shapes: a field of the wrong type, or a missing field,
/// reads as absent, and an array element that is not an object is skipped. Whatever the
/// index turns out to hold, the result is a well-formed value that the loader inspects.
#[derive(Debug, Clone, Default, PartialEq, Eq)]
pub struct DirectoryIndex {
    channels: Vec<IndexChannel>,
}

impl View for DirectoryIndex {
    type V = Seq<IndexChannelView>;

    closed spec fn view(&self) -> Seq<IndexChannelView> {
        self.channels@.map_values(|c: IndexChannel| c@)
    }
}

/// The channels a whole index document describes: those of its `channels` array, or none
/// when the document is not an object.
pub open spec fn spec_directory_index(value: JsonValue) -> Seq<IndexChannelView> {
    match value {
        JsonValue::Object(fields) => spec_index_channels(spec_array_items(fields@, "channels"@)),
        _ => Seq::empty(),
    }
}

/// The first of `channels` whose identifier is `id`.
pub open spec fn spec_find_channel(channels: Seq<IndexChannelView>, id: Seq<char>) -> Option<int>
    decreases channels.len(),
{
    if channels.len() == 0 {
        None
    } else if channels[0].id == id {
        Some(0)
    } else {
        match spec_find_channel(channels.drop_first(), id) {
            Some(i) => Some(i + 1),
            None => None,
        }
    }
}

/// What [`spec_find_channel`] finds is the first channel carrying the identifier, and it
/// finds nothing only when no channel carries it.
pub proof fn lemma_find_channel(channels: Seq<IndexChannelView>, id: Seq<char>)
    ensures
        match spec_find_channel(channels, id) {
            Some(i) => 0 <= i < channels.len() && channels[i].id == id && forall|j: int| 0 <= j < i ==> channels[j].id != id,
            None => forall|j: int| 0 <= j < channels.len() ==> channels[j].id != id,
        },
    decreases channels.len(),
{
    if channels.len() > 0 {
        lemma_find_channel(channels.drop_first(), id);
        if channels[0].id != id {
            assert forall|j: int| 1 <= j < channels.len() implies channels[j] == channels.drop_first()[j - 1] by {}
        }
    }
}

impl DirectoryIndex {
    /// Channels published in the index.
    pub fn channels(&self) -> (r: &Vec<IndexChannel>)
        ensures
            r@.map_values(|c: IndexChannel| c@) == self@,
    {
        &self.channels
    }

    /// The channels of the index, handed over.
    pub fn into_channels(self) -> (r: Vec<IndexChannel>)
        ensures
            r@.map_values(|c: IndexChannel| c@) == self@,
    {
        self.channels
    }

    /// Position of the first channel carrying the given identifier.
    pub fn position_of_channel(&self, id: &str) -> (r: Option<usize>)
        ensures
            match r {
                Some(i) => spec_find_channel(self@, id@) == Some(i as int) && i < self@.len()
                    && self@[i as int].id == id@,
                None => spec_find_channel(self@, id@) is None,
            },
    {
        let ghost cs = self@;
        let mut i: usize = 0;
        proof {
            lemma_find_channel(cs, id@);
        }
        while i < self.channels.len()
            invariant
                i <= self.channels@.len(),
                cs == self.channels@.map_values(|c: IndexChannel| c@),
                forall|j: int| 0 <= j < i ==> cs[j].id != id@,
                match spec_find_channel(cs, id@) {
                    Some(k) => 0 <= k < cs.len() && cs[k].id == id@ && forall|j: int| 0 <= j < k ==> cs[j].id != id@,
                    None => forall|j: int| 0 <= j < cs.len() ==> cs[j].id != id@,
                },
            decreases self.channels@.len() - i,
        {
            assert(cs[i as int] == self.channels@[i as int]@);
            if str_eq(self.channels[i].id.as_str(), id) {
                return Some(i);
            }
            i += 1;
        }
        None
    }

    /// Finds the channel carrying the given identifier.
    pub fn find_channel(&self, id: &str) -> (r: Option<&IndexChannel>)
        ensures
            match r {
                Some(c) => spec_find_channel(self@, id@) matches Some(i) && self@[i] == c@,
                None => spec_find_channel(self@, id@) is None,
            },
    {
        match self.position_of_channel(id) {
            Some(i) => Some(&self.channels[i]),
            None => None,
        }
    }

    /// The index described by the members of its top-level object.
    pub fn from_fields(fields: &Vec<(String, JsonValue)>) -> (d: DirectoryIndex)
        ensures
            d@ == spec_index_channels(spec_array_items(fields@, "channels"@)),
    {
        let channels = match array_items(fields, "channels") {
            Some(items) => index_channels(items),
            None => {
                let empty: Vec<JsonValue> = Vec::new();
                index_channels(&empty)
            },
        };
        DirectoryIndex { channels }
    }

    /// The index a whole document describes; a document that is not an object describes an
    /// index without channels.
    pub fn from_value(value: &JsonValue) -> (d: DirectoryIndex)
        ensures
            d@ == spec_directory_index(*value),
    {
        match value {
            JsonValue::Object(fields) => Self::from_fields(fields),
            _ => {
                let d = DirectoryIndex { channels: Vec::new() };
                assert(d@ =~= Seq::<IndexChannelView>::empty());
                d
            },
        }
    }
}

} // verus!

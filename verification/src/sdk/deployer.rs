use vstd::prelude::*;
use vstd::string::*;
use indexmap::IndexMap;
use crate::foreign::{index_map_entries, index_map_get, index_map_get_index, index_map_len, spec_map_get};
use crate::json::{spec_member_str, JsonNumber, JsonValue};
use crate::paths::{spec_join, Paths};
use crate::state::{always_updates, is_always_update_version, State};
use crate::text::{push_signed_decimal, push_decimal, spec_decimal, spec_signed_decimal, str_eq};
use super::deploy_task::{spec_or_null, DeployTask};
use super::file_type::{spec_channel_key, UpdateChannel};
use super::loader::{
    BranchFiles, BranchLoader, BranchLoaderView, LocalLoader, UpdateChannelLoader,
    UpdateChannelLoaderView, UrlLoader,
};
use crate::text::lowercase;
use super::SdkError;

verus! {

/// The loader serving a deploy task, one variant per mode.
#[derive(Debug, Clone, PartialEq, Eq)]
pub enum Loader {
    /// Reads a firmware branch listing.
    Branch(BranchLoader),
    /// Reads an update channel of the directory index.
    Channel(UpdateChannelLoader),
    /// Downloads a bundle from an explicit address.
    Url(UrlLoader),
    /// Uses a bundle already on this machine.
    Local(LocalLoader),
}

impl Loader {
    /// Key of the deploy task mode the loader serves.
    pub fn mode_key(&self) -> (k: &'static str)
        ensures
            k@ == match *self {
                Loader::Branch(_) => "branch"@,
                Loader::Channel(_) => "channel"@,
                Loader::Url(_) => "url"@,
                Loader::Local(_) => "local"@,
            },
    {
        match self {
            Loader::Branch(l) => l.mode_key(),
            Loader::Channel(l) => l.mode_key(),
            Loader::Url(l) => l.mode_key(),
            Loader::Local(l) => l.mode_key(),
        }
    }

    /// Description of the deployment the loader performs, as its own `metadata` gives it.
    pub fn metadata(&self) -> (m: IndexMap<String, String>)
        ensures
            match *self {
                Loader::Branch(l) => index_map_entries(m) == seq![
                    ("mode"@, "branch"@),
                    ("branch"@, l@.branch),
                    ("version"@, match l@.found.version {
                        Some(v) => v,
                        None => "unknown"@,
                    }),
                    ("branch_root"@, l@.branch_root),
                ],
                Loader::Channel(l) => index_map_entries(m) == seq![
                    ("mode"@, "channel"@),
                    ("channel"@, spec_channel_key(l@.channel)),
                    ("json_index"@, l@.json_index_url),
                    ("version"@, match l@.version_info {
                        Some(v) => v.version,
                        None => "unknown"@,
                    }),
                ],
                Loader::Url(l) => index_map_entries(m) == seq![
                    ("mode"@, "url"@),
                    ("url"@, l@.1),
                    ("version"@, "unknown"@),
                ],
                Loader::Local(l) => index_map_entries(m) == seq![
                    ("mode"@, "local"@),
                    ("file_path"@, l@),
                    ("version"@, "unknown"@),
                ],
            },
    {
        match self {
            Loader::Branch(l) => l.metadata(),
            Loader::Channel(l) => l.metadata(),
            Loader::Url(l) => l.metadata(),
            Loader::Local(l) => l.metadata(),
        }
    }
}

/// `value`, or `null` when it is absent.
pub fn or_null(value: Option<&str>) -> (r: &str)
    ensures
        r@ == spec_or_null(
            match value {
                Some(v) => Some(v@),
                None => None,
            },
        ),
{
    match value {
        Some(v) => v,
        None => "null",
    }
}

/// The parameter `param` of `task`, or [`SdkError::MissingParam`] naming `mode` and `param`.
pub fn required_param<'a>(task: &'a DeployTask, mode: &str, param: &str) -> (r: Result<&'a str, SdkError>)
    ensures
        match spec_map_get(task@.params, param@) {
            Some(v) => r matches Ok(s) && s@ == v,
            None => r matches Err(SdkError::MissingParam { mode: m, param: p }) && m@ == mode@ && p@
                == param@,
        },
{
    match task.param(param) {
        Some(v) => Ok(v),
        None => Err(SdkError::MissingParam { mode: mode.to_owned(), param: param.to_owned() }),
    }
}

/// Deploys a Flipper Zero SDK into the uFBT home directory: the decisions of a deployment,
/// made against the layout of that directory.
#[derive(Debug, Clone, PartialEq, Eq)]
pub struct SdkDeployer {
    paths: Paths,
}

impl View for SdkDeployer {
    type V = crate::paths::PathsView;

    closed spec fn view(&self) -> crate::paths::PathsView {
        self.paths@
    }
}

/// Whether a deploy task has the given mode.
pub open spec fn has_mode(task: super::deploy_task::DeployTaskView, mode: Seq<char>) -> bool {
    task.mode == Some(mode)
}

impl SdkDeployer {
    /// Creates a deployer working in the given uFBT home directory.
    pub fn new(paths: Paths) -> (d: SdkDeployer)
        ensures
            d@ == paths@,
    {
        SdkDeployer { paths }
    }

    /// Layout of the uFBT home directory the deployer works in.
    pub fn paths(&self) -> (p: &Paths)
        ensures
            p@ == self@,
    {
        &self.paths
    }

    /// Builds the loader that serves the mode of `task`, downloading into the download
    /// directory of the layout.
    ///
    /// Returns [`SdkError::InvalidMode`] when no loader implements the mode (an absent mode
    /// reads as `null`), [`SdkError::MissingParam`] when the task does not carry the
    /// parameter the mode needs, and [`SdkError::InvalidChannel`] when a channel task names
    /// a channel that does not exist.
    pub fn create_loader(&self, task: &DeployTask) -> (r: Result<Loader, SdkError>)
        ensures
            ({
                let params = task@.params;
                let dir = spec_join(self@.state_dir, "download"@, self@.platform);
                if has_mode(task@, "branch"@) {
                    match spec_map_get(params, "branch"@) {
                        None => r matches Err(SdkError::MissingParam { mode, param }) && mode@ == "branch"@
                            && param@ == "branch"@,
                        Some(branch) => r matches Ok(Loader::Branch(l)) && l@ == (BranchLoaderView {
                            download_dir: dir,
                            branch,
                            branch_root: match spec_map_get(params, "branch_root"@) {
                                Some(root) => root,
                                None => "https://update.flipperzero.one/builds/firmware"@,
                            },
                            found: BranchFiles { files: Seq::empty(), version: None },
                        }),
                    }
                } else if has_mode(task@, "channel"@) {
                    match spec_map_get(params, "channel"@) {
                        None => r matches Err(SdkError::MissingParam { mode, param }) && mode@ == "channel"@
                            && param@ == "channel"@,
                        Some(key) => if exists|c: UpdateChannel| spec_channel_key(c) == lowercase(key) {
                            r matches Ok(Loader::Channel(l)) && spec_channel_key(l@.channel) == lowercase(key)
                                && l@.download_dir == dir && l@.version_info is None
                                && l@.json_index_url == match spec_map_get(params, "json_index"@) {
                                    Some(url) => url,
                                    None => "https://update.flipperzero.one/firmware/directory.json"@,
                                }
                        } else {
                            r matches Err(SdkError::InvalidChannel { channel }) && channel@ == key
                        },
                    }
                } else if has_mode(task@, "url"@) {
                    match spec_map_get(params, "url"@) {
                        None => r matches Err(SdkError::MissingParam { mode, param }) && mode@ == "url"@
                            && param@ == "url"@,
                        Some(url) => r matches Ok(Loader::Url(l)) && l@ == (dir, url),
                    }
                } else if has_mode(task@, "local"@) {
                    match spec_map_get(params, "file_path"@) {
                        None => r matches Err(SdkError::MissingParam { mode, param }) && mode@ == "local"@
                            && param@ == "file_path"@,
                        Some(path) => r matches Ok(Loader::Local(l)) && l@ == path,
                    }
                } else {
                    r matches Err(SdkError::InvalidMode { mode }) && mode@ == spec_or_null(task@.mode)
                }
            }),
    {
        let download_dir = self.paths.download_dir();
        let mode = match task.mode() {
            Some(m) => m,
            None => "",
        };
        if task.mode().is_some() && str_eq(mode, BranchLoader::MODE_KEY) {
            let branch = required_param(task, BranchLoader::MODE_KEY, "branch")?;
            let mut loader = BranchLoader::new(download_dir.as_str(), branch);
            if let Some(root) = task.param("branch_root") {
                loader = loader.with_branch_root(root);
            }
            Ok(Loader::Branch(loader))
        } else if task.mode().is_some() && str_eq(mode, UpdateChannelLoader::MODE_KEY) {
            let key = required_param(task, UpdateChannelLoader::MODE_KEY, "channel")?;
            let channel = UpdateChannel::by_key(key)?;
            let mut loader = UpdateChannelLoader::new(download_dir.as_str(), channel);
            if let Some(index) = task.param("json_index") {
                loader = loader.with_index_url(index);
            }
            Ok(Loader::Channel(loader))
        } else if task.mode().is_some() && str_eq(mode, UrlLoader::MODE_KEY) {
            let url = required_param(task, UrlLoader::MODE_KEY, "url")?;
            Ok(Loader::Url(UrlLoader::new(download_dir.as_str(), url)))
        } else if task.mode().is_some() && str_eq(mode, LocalLoader::MODE_KEY) {
            let path = required_param(task, LocalLoader::MODE_KEY, "file_path")?;
            Ok(Loader::Local(LocalLoader::new(path)))
        } else {
            Err(SdkError::InvalidMode { mode: or_null(task.mode()).to_owned() })
        }
    }
}


/// Position of the first entry whose key is `key`.
pub open spec fn spec_entry_position<V>(entries: Seq<(Seq<char>, V)>, key: Seq<char>) -> Option<int>
    decreases entries.len(),
{
    if entries.len() == 0 {
        None
    } else if entries[0].0 == key {
        Some(0)
    } else {
        match spec_entry_position(entries.drop_first(), key) {
            Some(i) => Some(i + 1),
            None => None,
        }
    }
}

proof fn lemma_entry_position<V>(entries: Seq<(Seq<char>, V)>, key: Seq<char>)
    ensures
        match spec_entry_position(entries, key) {
            Some(i) => 0 <= i < entries.len() && entries[i].0 == key && forall|j: int|
                0 <= j < i ==> entries[j].0 != key,
            None => forall|j: int| 0 <= j < entries.len() ==> entries[j].0 != key,
        },
    decreases entries.len(),
{
    if entries.len() > 0 {
        lemma_entry_position(entries.drop_first(), key);
        assert forall|j: int| 1 <= j < entries.len() implies entries[j] == entries.drop_first()[j
            - 1] by {}
    }
}

/// State values as text: each key with the text of a string value, or `None` for any
/// other value.
pub open spec fn text_entries(values: Seq<(String, JsonValue)>) -> Seq<(Seq<char>, Option<Seq<char>>)> {
    values.map_values(|e: (String, JsonValue)| (e.0@, match e.1 {
        JsonValue::String(s) => Some(s@),
        _ => None,
    }))
}

/// A JSON object after setting `key`: an existing member keeps its place and takes the new
/// value, a new one is appended last.
pub open spec fn spec_text_insert(entries: Seq<(Seq<char>, Option<Seq<char>>)>, key: Seq<char>, value: Option<Seq<char>>) -> Seq<(Seq<char>, Option<Seq<char>>)> {
    match spec_entry_position(entries, key) {
        Some(i) => entries.update(i, (key, value)),
        None => entries.push((key, value)),
    }
}

/// `base` with every metadata entry set on it, in order, as a string.
pub open spec fn spec_with_metadata(base: Seq<(Seq<char>, Option<Seq<char>>)>, metadata: Seq<(Seq<char>, Seq<char>)>) -> Seq<(Seq<char>, Option<Seq<char>>)>
    decreases metadata.len(),
{
    if metadata.len() == 0 {
        base
    } else {
        spec_text_insert(spec_with_metadata(base, metadata.drop_last()), metadata.last().0, Some(metadata.last().1))
    }
}

/// The state recorded for a deployment: the task's hardware target (null when it has
/// none), then every metadata entry of the loader, as strings.
pub open spec fn spec_deployed_state(hw_target: Option<Seq<char>>, metadata: Seq<(Seq<char>, Seq<char>)>) -> Seq<(Seq<char>, Option<Seq<char>>)> {
    spec_with_metadata(seq![("hw_target"@, hw_target)], metadata)
}

fn set_string_member(values: &mut Vec<(String, JsonValue)>, key: String, value: String)
    requires
        forall|i: int| 0 <= i < old(values)@.len() ==> (old(values)@[i].1 is String || old(values)@[i].1 is Null),
    ensures
        forall|i: int| 0 <= i < final(values)@.len() ==> (final(values)@[i].1 is String || final(values)@[i].1 is Null),
        text_entries(final(values)@) == spec_text_insert(text_entries(old(values)@), key@, Some(value@)),
{
    let ghost entries = text_entries(values@);
    proof {
        lemma_entry_position(entries, key@);
    }
    let mut i: usize = 0;
    while i < values.len()
        invariant
            i <= values@.len(),
            values@ == old(values)@,
            forall|j: int| 0 <= j < values@.len() ==> (values@[j].1 is String || values@[j].1 is Null),
            entries == text_entries(values@),
            forall|j: int| 0 <= j < i ==> entries[j].0 != key@,
            match spec_entry_position(entries, key@) {
                Some(p) => 0 <= p < entries.len() && entries[p].0 == key@ && forall|j: int|
                    0 <= j < p ==> entries[j].0 != key@,
                None => forall|j: int| 0 <= j < entries.len() ==> entries[j].0 != key@,
            },
        decreases values@.len() - i,
    {
        assert(entries[i as int].0 == values@[i as int].0@);
        if str_eq(values[i].0.as_str(), key.as_str()) {
            values.set(i, (key, JsonValue::String(value)));
            assert(text_entries(values@) =~= entries.update(i as int, (key@, Some(value@))));
            return;
        }
        i += 1;
    }
    values.push((key, JsonValue::String(value)));
    assert(text_entries(values@) =~= entries.push((key@, Some(value@))));
}

/// The state recorded next to an SDK deployed for `task` by a loader describing itself
/// with `metadata`: the task's hardware target, `null` when it has none, followed by every
/// metadata entry as a string.
pub fn deployed_state(task: &DeployTask, metadata: &IndexMap<String, String>) -> (state: State)
    ensures
        forall|i: int| 0 <= i < state@.len() ==> (state@[i].1 is String || state@[i].1 is Null),
        text_entries(state@) == spec_deployed_state(task@.hw_target, index_map_entries(*metadata)),
{
    let mut values: Vec<(String, JsonValue)> = Vec::new();
    let hw = match task.hw_target() {
        Some(t) => JsonValue::String(t.to_owned()),
        None => JsonValue::Null,
    };
    values.push(("hw_target".to_owned(), hw));
    let ghost md = index_map_entries(*metadata);
    assert(text_entries(values@) =~= seq![("hw_target"@, task@.hw_target)]);
    assert(md.subrange(0, 0) =~= Seq::<(Seq<char>, Seq<char>)>::empty());
    let n = index_map_len(metadata);
    let mut i: usize = 0;
    while i < n
        invariant
            i <= n,
            n == md.len(),
            md == index_map_entries(*metadata),
            forall|j: int| 0 <= j < values@.len() ==> (values@[j].1 is String || values@[j].1 is Null),
            text_entries(values@) == spec_with_metadata(seq![("hw_target"@, task@.hw_target)], md.subrange(0, i as int)),
        decreases n - i,
    {
        assert(md.subrange(0, i + 1).drop_last() =~= md.subrange(0, i as int));
        if let Some((key, value)) = index_map_get_index(metadata, i) {
            set_string_member(&mut values, key.clone(), value.clone());
        }
        i += 1;
    }
    assert(md.subrange(0, n as int) =~= md);
    State::new(values)
}

/// What a look at the deployed SDK finds.
#[derive(Debug, Clone, Copy, PartialEq, Eq, Structural)]
pub enum SdkCheck {
    /// No state was read, or the version it records says nothing about what is deployed.
    Undeterminable,
    /// The deployed SDK is the version the loader offers, for the task's hardware target.
    UpToDate,
    /// Another version or another target is deployed.
    Outdated,
}

/// What a look at the deployed SDK finds, given the state read next to it, the task and the
/// loader's metadata.
pub open spec fn spec_check_sdk(state: Option<Seq<(String, JsonValue)>>, hw_target: Option<Seq<char>>, metadata: Seq<(Seq<char>, Seq<char>)>) -> SdkCheck {
    match state {
        None => SdkCheck::Undeterminable,
        Some(s) => {
            let version = spec_member_str(s, "version"@);
            if version matches Some(v) && is_always_update_version(v) {
                SdkCheck::Undeterminable
            } else if version == spec_map_get(metadata, "version"@) && spec_member_str(s, "hw_target"@)
                == hw_target {
                SdkCheck::UpToDate
            } else {
                SdkCheck::Outdated
            }
        },
    }
}

/// A deployed SDK counts as up to date only when a state was read next to it, the version
/// it records is not one that always updates, and both the recorded version and the
/// recorded hardware target are the ones offered now: the loader's `version` metadata and
/// the task's target. A missing state, or a version that always updates, makes it
/// undeterminable; any other difference, of version or of target, makes it outdated.
pub proof fn lemma_check_sdk_compares_version_and_target(
    state: Option<Seq<(String, JsonValue)>>,
    hw_target: Option<Seq<char>>,
    metadata: Seq<(Seq<char>, Seq<char>)>,
)
    ensures
        spec_check_sdk(state, hw_target, metadata) is UpToDate <==> (state matches Some(s) && {
            let version = spec_member_str(s, "version"@);
            &&& !(version matches Some(v) && is_always_update_version(v))
            &&& version == spec_map_get(metadata, "version"@)
            &&& spec_member_str(s, "hw_target"@) == hw_target
        }),
        spec_check_sdk(state, hw_target, metadata) is Undeterminable <==> (state matches Some(s) ==> (
            spec_member_str(s, "version"@) matches Some(v) && is_always_update_version(v))),
        spec_check_sdk(state, hw_target, metadata) is UpToDate <==> spec_skips_deployment(
            false,
            true,
            state,
            hw_target,
            metadata,
        ),
{
}

/// Whether a deployment leaves the SDK alone: it is not forced, the SDK directory exists,
/// a state was read there, the version it records is not one that always updates, and that
/// version and the recorded hardware target match the loader's `version` metadata and the
/// task's target.
pub open spec fn spec_skips_deployment(
    force: bool,
    sdk_dir_exists: bool,
    state: Option<Seq<(String, JsonValue)>>,
    hw_target: Option<Seq<char>>,
    metadata: Seq<(Seq<char>, Seq<char>)>,
) -> bool {
    !force && sdk_dir_exists && match state {
        None => false,
        Some(s) => {
            let version = spec_member_str(s, "version"@);
            &&& !(version matches Some(v) && is_always_update_version(v))
            &&& version == spec_map_get(metadata, "version"@)
            &&& spec_member_str(s, "hw_target"@) == hw_target
        },
    }
}

impl SdkDeployer {
    /// Looks at the deployed SDK: [`SdkCheck::Undeterminable`] when no state was read or
    /// its version is one of [`ALWAYS_UPDATE_VERSIONS`](crate::state::ALWAYS_UPDATE_VERSIONS),
    /// [`SdkCheck::UpToDate`] when its version and hardware target match the loader's
    /// `version` metadata and the task's target, [`SdkCheck::Outdated`] otherwise.
    pub fn check_sdk(&self, state: Option<&State>, task: &DeployTask, metadata: &IndexMap<String, String>) -> (c: SdkCheck)
        ensures
            c == spec_check_sdk(
                match state {
                    Some(s) => Some(s@),
                    None => None,
                },
                task@.hw_target,
                index_map_entries(*metadata),
            ),
    {
        let state = match state {
            None => return SdkCheck::Undeterminable,
            Some(s) => s,
        };
        let version = state.version();
        if let Some(v) = version {
            if always_updates(v) {
                return SdkCheck::Undeterminable;
            }
        }
        let offered = index_map_get(metadata, "version");
        let same_version = match (version, offered) {
            (None, None) => true,
            (Some(v), Some(o)) => str_eq(v, o.as_str()),
            _ => false,
        };
        let same_target = match (state.hw_target(), task.hw_target()) {
            (None, None) => true,
            (Some(a), Some(b)) => str_eq(a, b),
            _ => false,
        };
        if same_version && same_target {
            SdkCheck::UpToDate
        } else {
            SdkCheck::Outdated
        }
    }

    /// Whether the deployed SDK already is what the loader offers: a state was read, its
    /// version is not one of [`ALWAYS_UPDATE_VERSIONS`](crate::state::ALWAYS_UPDATE_VERSIONS),
    /// and its version and hardware target match the loader's `version` metadata and the
    /// task's target.
    pub fn is_up_to_date(&self, state: Option<&State>, task: &DeployTask, metadata: &IndexMap<String, String>) -> (b: bool)
        ensures
            b == match state {
                None => false,
                Some(s) => {
                    let version = spec_member_str(s@, "version"@);
                    &&& !(version matches Some(v) && is_always_update_version(v))
                    &&& version == spec_map_get(index_map_entries(*metadata), "version"@)
                    &&& spec_member_str(s@, "hw_target"@) == task@.hw_target
                },
            },
    {
        match self.check_sdk(state, task, metadata) {
            SdkCheck::UpToDate => true,
            _ => false,
        }
    }

    /// Whether a deployment of `task` leaves the SDK alone: the task does not force one, the
    /// SDK directory exists and [`is_up_to_date`](SdkDeployer::is_up_to_date) holds.
    pub fn skips_deployment(&self, task: &DeployTask, sdk_dir_exists: bool, state: Option<&State>, metadata: &IndexMap<String, String>) -> (b: bool)
        ensures
            b == spec_skips_deployment(
                task@.force,
                sdk_dir_exists,
                match state {
                    Some(s) => Some(s@),
                    None => None,
                },
                task@.hw_target,
                index_map_entries(*metadata),
            ),
    {
        !task.force() && sdk_dir_exists && self.is_up_to_date(state, task, metadata)
    }
}


/// Text of a JSON number: the integer in decimal, or the text a float was rendered as.
pub open spec fn spec_number_text(n: JsonNumber) -> Seq<char> {
    match n {
        JsonNumber::PosInt(u) => spec_decimal(u as nat),
        JsonNumber::NegInt(i) => spec_signed_decimal(i as int),
        JsonNumber::Float(text) => text@,
    }
}

/// A JSON value rendered for the debug log: `null`, `true` and `false` as such, a number by
/// its text, a string as it is, without quotes, an array as `[a, b]` and an object as
/// `{key: value, …}`.
pub open spec fn spec_render_value(value: JsonValue) -> Seq<char>
    decreases value, 0int,
{
    match value {
        JsonValue::Null => "null"@,
        JsonValue::Bool(flag) => if flag { "true"@ } else { "false"@ },
        JsonValue::Number(n) => spec_number_text(n),
        JsonValue::String(text) => text@,
        JsonValue::Array(items) => "["@ + spec_render_items(items@) + "]"@,
        JsonValue::Object(fields) => "{"@ + spec_render_fields(fields@) + "}"@,
    }
}

/// Array elements rendered and separated by `, `.
pub open spec fn spec_render_items(items: Seq<JsonValue>) -> Seq<char>
    decreases items, 1int,
{
    if items.len() == 0 {
        Seq::empty()
    } else if items.len() == 1 {
        spec_render_value(items[0])
    } else {
        spec_render_items(items.drop_last()) + ", "@ + spec_render_value(items.last())
    }
}

/// Object members rendered as `key: value` and separated by `, `.
pub open spec fn spec_render_fields(fields: Seq<(String, JsonValue)>) -> Seq<char>
    decreases fields, 1int,
{
    if fields.len() == 0 {
        Seq::empty()
    } else if fields.len() == 1 {
        fields[0].0@ + ": "@ + spec_render_value(fields[0].1)
    } else {
        spec_render_fields(fields.drop_last()) + ", "@ + fields.last().0@ + ": "@ + spec_render_value(fields.last().1)
    }
}


fn render_items_into(items: &Vec<JsonValue>, out: &mut String)
    ensures
        final(out)@ == old(out)@ + spec_render_items(items@),
    decreases items@, 1int,
{
    let ghost start = out@;
    let mut i: usize = 0;
    assert(items@.subrange(0, 0) =~= Seq::<JsonValue>::empty());
    while i < items.len()
        invariant
            i <= items@.len(),
            out@ == start + spec_render_items(items@.subrange(0, i as int)),
        decreases items@.len() - i,
    {
        if i > 0 {
            out.append(", ");
        }
        assert(decreases_to!(items@ => items@[i as int]));
        render_value_into(&items[i], out);
        proof {
            let next = items@.subrange(0, i + 1);
            assert(next.drop_last() =~= items@.subrange(0, i as int));
            assert(next.last() == items@[i as int]);
            if i == 0 {
                assert(next.len() == 1);
                assert(next[0] == items@[0]);
            }
        }
        i += 1;
        assert(out@ =~= start + spec_render_items(items@.subrange(0, i as int)));
    }
    assert(items@.subrange(0, items@.len() as int) =~= items@);
}

fn render_fields_into(fields: &Vec<(String, JsonValue)>, out: &mut String)
    ensures
        final(out)@ == old(out)@ + spec_render_fields(fields@),
    decreases fields@, 1int,
{
    let ghost start = out@;
    let mut i: usize = 0;
    assert(fields@.subrange(0, 0) =~= Seq::<(String, JsonValue)>::empty());
    while i < fields.len()
        invariant
            i <= fields@.len(),
            out@ == start + spec_render_fields(fields@.subrange(0, i as int)),
        decreases fields@.len() - i,
    {
        if i > 0 {
            out.append(", ");
        }
        out.append(fields[i].0.as_str());
        out.append(": ");
        assert(decreases_to!(fields@ => fields@[i as int].1));
        render_value_into(&fields[i].1, out);
        proof {
            let next = fields@.subrange(0, i + 1);
            assert(next.drop_last() =~= fields@.subrange(0, i as int));
            assert(next.last() == fields@[i as int]);
            if i == 0 {
                assert(next.len() == 1);
                assert(next[0] == fields@[0]);
            }
        }
        i += 1;
        assert(out@ =~= start + spec_render_fields(fields@.subrange(0, i as int)));
    }
    assert(fields@.subrange(0, fields@.len() as int) =~= fields@);
}

/// Appends `value` rendered as [`spec_render_value`] describes.
pub fn render_value_into(value: &JsonValue, out: &mut String)
    ensures
        final(out)@ == old(out)@ + spec_render_value(*value),
    decreases *value, 0int,
{
    match value {
        JsonValue::Null => out.append("null"),
        JsonValue::Bool(flag) => out.append(if *flag { "true" } else { "false" }),
        JsonValue::Number(n) => match n {
            JsonNumber::PosInt(u) => push_decimal(out, *u),
            JsonNumber::NegInt(i) => push_signed_decimal(out, *i),
            JsonNumber::Float(text) => out.append(text.as_str()),
        },
        JsonValue::String(text) => out.append(text.as_str()),
        JsonValue::Array(items) => {
            out.append("[");
            render_items_into(items, out);
            out.append("]");
        },
        JsonValue::Object(fields) => {
            out.append("{");
            render_fields_into(fields, out);
            out.append("}");
        },
    }
}

/// State values rendered for the debug log as `{key: value, …}`, each value as
/// [`spec_render_value`] describes.
pub fn render_values(values: &Vec<(String, JsonValue)>) -> (r: String)
    ensures
        r@ == "{"@ + spec_render_fields(values@) + "}"@,
{
    let mut r = "{".to_owned();
    render_fields_into(values, &mut r);
    r.append("}");
    r
}

} // verus!

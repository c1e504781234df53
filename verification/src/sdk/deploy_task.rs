use vstd::prelude::*;
use vstd::string::*;
use indexmap::IndexMap;
use crate::foreign::{lemma_key_position, spec_key_position, 
    index_map_entries, index_map_get, index_map_get_index, index_map_insert, index_map_len,
    index_map_new, spec_map_get, spec_map_insert,
};
use crate::json::JsonValue;
use crate::state::State;
use super::file_type::{spec_channel_key, UpdateChannel};

verus! {

/// Mode of the loader that reads a firmware branch listing.
pub const BRANCH_MODE_KEY: &'static str = "branch";

/// Mode of the loader that reads an update channel of the directory index.
pub const CHANNEL_MODE_KEY: &'static str = "channel";

/// Mode of the loader that downloads a bundle from an explicit address.
pub const URL_MODE_KEY: &'static str = "url";

/// Mode of the loader that uses a bundle already on this machine.
pub const LOCAL_MODE_KEY: &'static str = "local";

/// Parameter naming the firmware branch.
pub const BRANCH_PARAM: &'static str = "branch";

/// Parameter naming the address branch listings are served under.
pub const BRANCH_ROOT_PARAM: &'static str = "branch_root";

/// Parameter naming the update channel.
pub const CHANNEL_PARAM: &'static str = "channel";

/// Parameter naming the address of the directory index.
pub const JSON_INDEX_PARAM: &'static str = "json_index";

/// Parameter naming the address of the bundle.
pub const URL_PARAM: &'static str = "url";

/// Parameter naming the location of a local bundle.
pub const FILE_PATH_PARAM: &'static str = "file_path";

/// Spec-level picture of a [`DeployTask`].
pub struct DeployTaskView {
    /// Hardware target.
    pub hw_target: Option<Seq<char>>,
    /// Whether the deployment is forced.
    pub force: bool,
    /// Loader mode.
    pub mode: Option<Seq<char>>,
    /// Loader parameters, in order.
    pub params: Seq<(Seq<char>, Seq<char>)>,
}

/// Description of an SDK deployment: where the SDK comes from and which hardware target it
/// is built for.
///
/// A task is built through one of the constructors — [`defaults`](DeployTask::defaults),
/// [`channel`](DeployTask::channel), [`branch`](DeployTask::branch),
/// [`url`](DeployTask::url), [`local`](DeployTask::local) or
/// [`from_state`](DeployTask::from_state) — each of which fills in
/// [`mode`](DeployTask::mode) and the [`params`](DeployTask::params) the matching loader
/// reads.
#[derive(Debug, Default, PartialEq, Eq)]
pub struct DeployTask {
    hw_target: Option<String>,
    force: bool,
    mode: Option<String>,
    params: IndexMap<String, String>,
}

/// Spec-level picture of an optional string.
pub open spec fn opt_seq(s: Option<String>) -> Option<Seq<char>> {
    match s {
        Some(s) => Some(s@),
        None => None,
    }
}

impl View for DeployTask {
    type V = DeployTaskView;

    closed spec fn view(&self) -> DeployTaskView {
        DeployTaskView {
            hw_target: opt_seq(self.hw_target),
            force: self.force,
            mode: opt_seq(self.mode),
            params: index_map_entries(self.params),
        }
    }
}

/// The parameters a deployment state records: every value that is a string, in order,
/// a later key replacing the value of an earlier one.
pub open spec fn spec_state_params(values: Seq<(String, JsonValue)>) -> Seq<(Seq<char>, Seq<char>)>
    decreases values.len(),
{
    if values.len() == 0 {
        Seq::empty()
    } else {
        let prev = spec_state_params(values.drop_last());
        match values.last().1 {
            JsonValue::String(s) => spec_map_insert(prev, values.last().0@, s@),
            _ => prev,
        }
    }
}

/// `base` with the parameters of `over` merged in, in order: each one with a non-empty value
/// is inserted, and an empty value is ignored.
pub open spec fn spec_merge_params(base: Seq<(Seq<char>, Seq<char>)>, over: Seq<(Seq<char>, Seq<char>)>) -> Seq<(Seq<char>, Seq<char>)>
    decreases over.len(),
{
    if over.len() == 0 {
        base
    } else {
        let prev = spec_merge_params(base, over.drop_last());
        if over.last().1.len() == 0 {
            prev
        } else {
            spec_map_insert(prev, over.last().0, over.last().1)
        }
    }
}

/// The task `task` becomes when `other` is overlaid onto it.
pub open spec fn spec_update_from(task: DeployTaskView, other: DeployTaskView) -> DeployTaskView {
    DeployTaskView {
        hw_target: if other.hw_target is Some { other.hw_target } else { task.hw_target },
        force: other.force,
        mode: if other.mode is Some { other.mode } else { task.mode },
        params: spec_merge_params(task.params, other.params),
    }
}

/// `value`, or `null` when it is absent.
pub open spec fn spec_or_null(value: Option<Seq<char>>) -> Seq<char> {
    match value {
        Some(v) => v,
        None => "null"@,
    }
}

/// The parameters of a task rendered as `key: value` pairs separated by `, `.
pub open spec fn spec_render_params(params: Seq<(Seq<char>, Seq<char>)>) -> Seq<char>
    decreases params.len(),
{
    if params.len() == 0 {
        Seq::empty()
    } else if params.len() == 1 {
        params[0].0 + ": "@ + params[0].1
    } else {
        spec_render_params(params.drop_last()) + ", "@ + params.last().0 + ": "@ + params.last().1
    }
}

/// The text form of a task, as uFBT words it in its messages.
pub open spec fn spec_render_task(task: DeployTaskView) -> Seq<char> {
    "SdkDeployTask(hw_target: "@ + spec_or_null(task.hw_target) + ", mode: "@ + spec_or_null(task.mode)
        + ", force: "@ + (if task.force { "true"@ } else { "false"@ }) + ", params: {"@
        + spec_render_params(task.params) + "})"@
}

fn task_with(mode: &str, param: &str, value: String, hw_target: String) -> (t: DeployTask)
    ensures
        t@ == (DeployTaskView {
            hw_target: Some(hw_target@),
            force: false,
            mode: Some(mode@),
            params: seq![(param@, value@)],
        }),
{
    let mut params = index_map_new();
    index_map_insert(&mut params, param.to_owned(), value);
    assert(index_map_entries(params) =~= seq![(param@, value@)]);
    DeployTask {
        hw_target: Some(hw_target),
        force: false,
        mode: Some(mode.to_owned()),
        params,
    }
}

impl DeployTask {
    /// Hardware target assumed when none is given.
    pub const DEFAULT_HW_TARGET: &'static str = "f7";

    /// A task that deploys the latest release for the default hardware target.
    pub fn defaults() -> (t: DeployTask)
        ensures
            t@ == (DeployTaskView {
                hw_target: Some("f7"@),
                force: false,
                mode: Some("channel"@),
                params: seq![("channel"@, "release"@)],
            }),
    {
        task_with(
            CHANNEL_MODE_KEY,
            CHANNEL_PARAM,
            UpdateChannel::Release.key().to_owned(),
            Self::DEFAULT_HW_TARGET.to_owned(),
        )
    }

    /// Starts a task that deploys the newest version of an update channel.
    ///
    /// The hardware target defaults to [`DEFAULT_HW_TARGET`](DeployTask::DEFAULT_HW_TARGET)
    /// and the index is read from the official update server unless
    /// [`index_url`](DeployTaskBuilder::index_url) says otherwise.
    pub fn channel(channel: UpdateChannel) -> (b: DeployTaskBuilder)
        ensures
            b@.0 == (DeployTaskView {
                hw_target: Some("f7"@),
                force: false,
                mode: Some("channel"@),
                params: seq![("channel"@, spec_channel_key(channel))],
            }),
            b@.1 == "json_index"@,
    {
        DeployTaskBuilder {
            task: task_with(
                CHANNEL_MODE_KEY,
                CHANNEL_PARAM,
                channel.key().to_owned(),
                Self::DEFAULT_HW_TARGET.to_owned(),
            ),
            index_url_param: JSON_INDEX_PARAM,
        }
    }

    /// Starts a task that deploys the newest build of a firmware branch.
    ///
    /// The hardware target defaults to [`DEFAULT_HW_TARGET`](DeployTask::DEFAULT_HW_TARGET)
    /// and the branch listing is read from the official update server unless
    /// [`index_url`](DeployTaskBuilder::index_url) says otherwise.
    pub fn branch(branch: &str) -> (b: DeployTaskBuilder)
        ensures
            b@.0 == (DeployTaskView {
                hw_target: Some("f7"@),
                force: false,
                mode: Some("branch"@),
                params: seq![("branch"@, branch@)],
            }),
            b@.1 == "branch_root"@,
    {
        DeployTaskBuilder {
            task: task_with(
                BRANCH_MODE_KEY,
                BRANCH_PARAM,
                branch.to_owned(),
                Self::DEFAULT_HW_TARGET.to_owned(),
            ),
            index_url_param: BRANCH_ROOT_PARAM,
        }
    }

    /// Starts a task that deploys an SDK bundle downloaded from an explicit address.
    pub fn url(url: &str, hw_target: &str) -> (b: BundleTaskBuilder)
        ensures
            b@ == (DeployTaskView {
                hw_target: Some(hw_target@),
                force: false,
                mode: Some("url"@),
                params: seq![("url"@, url@)],
            }),
    {
        BundleTaskBuilder {
            task: task_with(URL_MODE_KEY, URL_PARAM, url.to_owned(), hw_target.to_owned()),
        }
    }

    /// Starts a task that deploys an SDK bundle already present on this machine.
    pub fn local(path: &str, hw_target: &str) -> (b: BundleTaskBuilder)
        ensures
            b@ == (DeployTaskView {
                hw_target: Some(hw_target@),
                force: false,
                mode: Some("local"@),
                params: seq![("file_path"@, path@)],
            }),
    {
        BundleTaskBuilder {
            task: task_with(LOCAL_MODE_KEY, FILE_PATH_PARAM, path.to_owned(), hw_target.to_owned()),
        }
    }

    /// Reconstructs the task that produced a persisted deployment state.
    ///
    /// Every string value of the state becomes a parameter, including `hw_target` and
    /// `mode`, which are therefore both read into their own fields and repeated in
    /// [`params`](DeployTask::params). Values that are not strings are left out, and
    /// [`force`](DeployTask::force) is never recorded in the state, so it reads as `false`.
    pub fn from_state(state: &State) -> (t: DeployTask)
        ensures
            t@ == (DeployTaskView {
                hw_target: crate::json::spec_member_str(state@, "hw_target"@),
                force: false,
                mode: crate::json::spec_member_str(state@, "mode"@),
                params: spec_state_params(state@),
            }),
    {
        let values = state.values();
        let mut params = index_map_new();
        let mut i: usize = 0;
        assert(spec_state_params(values@.subrange(0, 0)) =~= Seq::<(Seq<char>, Seq<char>)>::empty());
        while i < values.len()
            invariant
                i <= values@.len(),
                values@ == state@,
                index_map_entries(params) == spec_state_params(values@.subrange(0, i as int)),
            decreases values@.len() - i,
        {
            assert(values@.subrange(0, i + 1).drop_last() =~= values@.subrange(0, i as int));
            let entry = &values[i];
            if let JsonValue::String(s) = &entry.1 {
                index_map_insert(&mut params, entry.0.clone(), s.clone());
            }
            i += 1;
        }
        assert(values@.subrange(0, values@.len() as int) =~= values@);
        let hw_target = match state.hw_target() {
            Some(h) => Some(h.to_owned()),
            None => None,
        };
        let mode = match state.mode() {
            Some(m) => Some(m.to_owned()),
            None => None,
        };
        DeployTask { hw_target, force: false, mode, params }
    }

    /// Hardware target the SDK is deployed for.
    pub fn hw_target(&self) -> (r: Option<&str>)
        ensures
            match r {
                Some(s) => self@.hw_target == Some(s@),
                None => self@.hw_target is None,
            },
    {
        match &self.hw_target {
            Some(s) => Some(s.as_str()),
            None => None,
        }
    }

    /// Whether the SDK is redeployed even when the deployed version already matches.
    pub fn force(&self) -> (r: bool)
        ensures
            r == self@.force,
    {
        self.force
    }

    /// Loader mode of the task: `branch`, `channel`, `url` or `local`.
    pub fn mode(&self) -> (r: Option<&str>)
        ensures
            match r {
                Some(s) => self@.mode == Some(s@),
                None => self@.mode is None,
            },
    {
        match &self.mode {
            Some(s) => Some(s.as_str()),
            None => None,
        }
    }

    /// Parameters the loader reads, in the order they were set.
    pub fn params(&self) -> (r: &IndexMap<String, String>)
        ensures
            index_map_entries(*r) == self@.params,
    {
        &self.params
    }

    /// Value of a single parameter.
    pub fn param(&self, key: &str) -> (r: Option<&str>)
        ensures
            match r {
                Some(s) => spec_map_get(self@.params, key@) == Some(s@),
                None => spec_map_get(self@.params, key@) is None,
            },
    {
        match index_map_get(&self.params, key) {
            Some(s) => Some(s.as_str()),
            None => None,
        }
    }

    /// Overlays another task onto this one.
    ///
    /// The hardware target and the mode are taken over only when the other task carries
    /// them, and parameters are merged with empty values ignored — so an incomplete request
    /// refines a task read back from the deployment state instead of erasing it.
    /// [`force`](DeployTask::force) is the exception: it is always taken over, because a
    /// request that does not ask for a forced deployment means the deployment is not forced.
    pub fn update_from(&mut self, other: &DeployTask)
        ensures
            final(self)@ == spec_update_from(old(self)@, other@),
    {
        if let Some(h) = &other.hw_target {
            self.hw_target = Some(h.clone());
        }
        if let Some(m) = &other.mode {
            self.mode = Some(m.clone());
        }
        self.force = other.force;
        let ghost base = index_map_entries(self.params);
        let ghost over = index_map_entries(other.params);
        let ghost hw = self.hw_target;
        let ghost mode = self.mode;
        let n = index_map_len(&other.params);
        let mut i: usize = 0;
        assert(over.subrange(0, 0) =~= Seq::<(Seq<char>, Seq<char>)>::empty());
        while i < n
            invariant
                i <= n,
                n == over.len(),
                over == index_map_entries(other.params),
                index_map_entries(self.params) == spec_merge_params(base, over.subrange(0, i as int)),
                self.hw_target == hw,
                self.mode == mode,
                self.force == other.force,
            decreases n - i,
        {
            assert(over.subrange(0, i + 1).drop_last() =~= over.subrange(0, i as int));
            match index_map_get_index(&other.params, i) {
                Some((key, value)) => {
                    if !value.as_str().is_empty() {
                        index_map_insert(&mut self.params, key.clone(), value.clone());
                    }
                },
                None => {},
            }
            i += 1;
        }
        assert(over.subrange(0, n as int) =~= over);
    }

    /// The task as text, as uFBT words it in its messages:
    /// `SdkDeployTask(hw_target: …, mode: …, force: …, params: {key: value, …})`, an absent
    /// target or mode reading as `null`.
    pub fn render(&self) -> (r: String)
        ensures
            r@ == spec_render_task(self@),
    {
        let mut r = "SdkDeployTask(hw_target: ".to_owned();
        write_optional(&mut r, self.hw_target());
        r.append(", mode: ");
        write_optional(&mut r, self.mode());
        r.append(", force: ");
        r.append(if self.force { "true" } else { "false" });
        r.append(", params: {");
        let ghost entries = self@.params;
        let n = index_map_len(&self.params);
        let ghost prefix = r@;
        let mut i: usize = 0;
        assert(entries.subrange(0, 0) =~= Seq::<(Seq<char>, Seq<char>)>::empty());
        while i < n
            invariant
                i <= n,
                n == entries.len(),
                entries == index_map_entries(self.params),
                r@ == prefix + spec_render_params(entries.subrange(0, i as int)),
            decreases n - i,
        {
            assert(entries.subrange(0, i + 1).drop_last() =~= entries.subrange(0, i as int));
            if let Some((key, value)) = index_map_get_index(&self.params, i) {
                if i > 0 {
                    r.append(", ");
                }
                r.append(key.as_str());
                r.append(": ");
                r.append(value.as_str());
            }
            i += 1;
            assert(r@ =~= prefix + spec_render_params(entries.subrange(0, i as int)));
        }
        r.append("})");
        assert(entries.subrange(0, n as int) =~= entries);
        assert(r@ =~= spec_render_task(self@));
        r
    }
}

/// Appends `value`, or `null` when it is absent.
pub fn write_optional(out: &mut String, value: Option<&str>)
    ensures
        final(out)@ == old(out)@ + spec_or_null(
            match value {
                Some(v) => Some(v@),
                None => None,
            },
        ),
{
    match value {
        Some(v) => out.append(v),
        None => out.append("null"),
    }
}

/// Builder of a [`DeployTask`] that resolves the SDK through an index on the update server.
///
/// Returned by [`DeployTask::channel`] and [`DeployTask::branch`].
#[derive(Debug)]
pub struct DeployTaskBuilder {
    task: DeployTask,
    index_url_param: &'static str,
}

impl View for DeployTaskBuilder {
    type V = (DeployTaskView, Seq<char>);

    closed spec fn view(&self) -> (DeployTaskView, Seq<char>) {
        (self.task@, self.index_url_param@)
    }
}

impl DeployTaskBuilder {
    /// Sets the hardware target, replacing
    /// [`DeployTask::DEFAULT_HW_TARGET`](DeployTask::DEFAULT_HW_TARGET).
    pub fn hw_target(self, hw_target: &str) -> (b: DeployTaskBuilder)
        ensures
            b@.0 == (DeployTaskView { hw_target: Some(hw_target@), ..self@.0 }),
            b@.1 == self@.1,
    {
        let mut b = self;
        b.task.hw_target = Some(hw_target.to_owned());
        b
    }

    /// Reads the index from the given address instead of the official update server.
    pub fn index_url(self, index_url: &str) -> (b: DeployTaskBuilder)
        ensures
            b@.0 == (DeployTaskView {
                params: spec_map_insert(self@.0.params, self@.1, index_url@),
                ..self@.0
            }),
            b@.1 == self@.1,
    {
        let mut b = self;
        index_map_insert(&mut b.task.params, b.index_url_param.to_owned(), index_url.to_owned());
        b
    }

    /// Redeploys the SDK even when the deployed version already matches.
    pub fn force(self, force: bool) -> (b: DeployTaskBuilder)
        ensures
            b@.0 == (DeployTaskView { force, ..self@.0 }),
            b@.1 == self@.1,
    {
        let mut b = self;
        b.task.force = force;
        b
    }

    /// Finishes the task.
    pub fn build(self) -> (t: DeployTask)
        ensures
            t@ == self@.0,
    {
        self.task
    }
}

/// Builder of a [`DeployTask`] that names the SDK bundle directly.
///
/// Returned by [`DeployTask::url`] and [`DeployTask::local`], both of which already take the
/// hardware target, so only [`force`](BundleTaskBuilder::force) is left to set.
#[derive(Debug)]
pub struct BundleTaskBuilder {
    task: DeployTask,
}

impl View for BundleTaskBuilder {
    type V = DeployTaskView;

    closed spec fn view(&self) -> DeployTaskView {
        self.task@
    }
}

impl BundleTaskBuilder {
    /// Redeploys the SDK even when the deployed version already matches.
    pub fn force(self, force: bool) -> (b: BundleTaskBuilder)
        ensures
            b@ == (DeployTaskView { force, ..self@ }),
    {
        let mut b = self;
        b.task.force = force;
        b
    }

    /// Finishes the task.
    pub fn build(self) -> (t: DeployTask)
        ensures
            t@ == self@,
    {
        self.task
    }
}


proof fn lemma_position_same_keys(a: Seq<(Seq<char>, Seq<char>)>, b: Seq<(Seq<char>, Seq<char>)>, q: Seq<char>)
    requires
        a.len() == b.len(),
        forall|i: int| 0 <= i < a.len() ==> a[i].0 == b[i].0,
    ensures
        spec_key_position(a, q) == spec_key_position(b, q),
    decreases a.len(),
{
    if a.len() > 0 {
        lemma_position_same_keys(a.drop_first(), b.drop_first(), q);
    }
}

proof fn lemma_position_push(e: Seq<(Seq<char>, Seq<char>)>, k: Seq<char>, v: Seq<char>, q: Seq<char>)
    ensures
        spec_key_position(e.push((k, v)), q) == match spec_key_position(e, q) {
            Some(i) => Some(i),
            None => if q == k { Some(e.len() as int) } else { None },
        },
    decreases e.len(),
{
    if e.len() > 0 {
        assert(e.push((k, v)).drop_first() =~= e.drop_first().push((k, v)));
        assert(e.push((k, v))[0] == e[0]);
        lemma_position_push(e.drop_first(), k, v, q);
    } else {
        let empty = Seq::<(Seq<char>, Seq<char>)>::empty();
        assert(e.push((k, v)).drop_first() =~= empty);
        assert(e.push((k, v))[0] == (k, v));
        assert(spec_key_position(empty, q) is None);
        assert(spec_key_position(e, q) is None);
    }
}

/// Reading a key back from a map after an insertion: the inserted key reads as the
/// inserted value, every other key as before.
pub proof fn lemma_map_insert_get(e: Seq<(Seq<char>, Seq<char>)>, k: Seq<char>, v: Seq<char>, q: Seq<char>)
    ensures
        spec_map_get(spec_map_insert(e, k, v), q) == if q == k {
            Some(v)
        } else {
            spec_map_get(e, q)
        },
{
    lemma_key_position(e, k);
    lemma_key_position(e, q);
    match spec_key_position(e, k) {
        Some(i) => {
            let u = e.update(i, (k, v));
            lemma_position_same_keys(u, e, q);
        },
        None => {
            lemma_position_push(e, k, v, q);
        },
    }
}

/// Value the parameters of `over` give `key` when merged: the last non-empty value `over`
/// carries for it.
pub open spec fn spec_overlay_value(over: Seq<(Seq<char>, Seq<char>)>, key: Seq<char>) -> Option<Seq<char>>
    decreases over.len(),
{
    if over.len() == 0 {
        None
    } else if over.last().0 == key && over.last().1.len() > 0 {
        Some(over.last().1)
    } else {
        spec_overlay_value(over.drop_last(), key)
    }
}

/// Merging parameters in: a key the merged parameters carry with a non-empty value reads
/// as that value afterwards, and every other key keeps the value it had.
pub proof fn lemma_merge_params_get(base: Seq<(Seq<char>, Seq<char>)>, over: Seq<(Seq<char>, Seq<char>)>, key: Seq<char>)
    ensures
        spec_map_get(spec_merge_params(base, over), key) == match spec_overlay_value(over, key) {
            Some(v) => Some(v),
            None => spec_map_get(base, key),
        },
    decreases over.len(),
{
    if over.len() > 0 {
        lemma_merge_params_get(base, over.drop_last(), key);
        if over.last().1.len() > 0 {
            lemma_map_insert_get(spec_merge_params(base, over.drop_last()), over.last().0, over.last().1, key);
        }
    }
}

/// Overlaying a task: the target and the mode are replaced only when the other task
/// carries them, the forced flag is always taken over, and every parameter reads as the
/// non-empty value the other task gives it, or else as before.
pub proof fn lemma_update_from(task: DeployTaskView, other: DeployTaskView, key: Seq<char>)
    ensures
        other.hw_target is None ==> spec_update_from(task, other).hw_target == task.hw_target,
        other.hw_target is Some ==> spec_update_from(task, other).hw_target == other.hw_target,
        other.mode is None ==> spec_update_from(task, other).mode == task.mode,
        other.mode is Some ==> spec_update_from(task, other).mode == other.mode,
        spec_update_from(task, other).force == other.force,
        spec_map_get(spec_update_from(task, other).params, key) == match spec_overlay_value(other.params, key) {
            Some(v) => Some(v),
            None => spec_map_get(task.params, key),
        },
{
    lemma_merge_params_get(task.params, other.params, key);
}

/// Overlaying the same task twice reads exactly like overlaying it once.
pub proof fn lemma_update_from_twice(task: DeployTaskView, other: DeployTaskView, key: Seq<char>)
    ensures
        spec_update_from(spec_update_from(task, other), other).hw_target == spec_update_from(task, other).hw_target,
        spec_update_from(spec_update_from(task, other), other).mode == spec_update_from(task, other).mode,
        spec_update_from(spec_update_from(task, other), other).force == spec_update_from(task, other).force,
        spec_map_get(spec_update_from(spec_update_from(task, other), other).params, key)
            == spec_map_get(spec_update_from(task, other).params, key),
{
    lemma_merge_params_get(task.params, other.params, key);
    lemma_merge_params_get(spec_merge_params(task.params, other.params), other.params, key);
}

} // verus!

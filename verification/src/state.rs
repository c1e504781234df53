//! Persisted SDK deployment state.
use vstd::prelude::*;
use crate::json::{member_str, spec_member_str, JsonValue};
use crate::text::str_eq;

verus! {

/// Versions that carry no usable version information, so a deployment holding one of them
/// is always replaced rather than compared.
pub const ALWAYS_UPDATE_VERSIONS: [&'static str; 2] = ["unknown", "local"];

/// Whether `version` is one of [`ALWAYS_UPDATE_VERSIONS`].
pub open spec fn is_always_update_version(version: Seq<char>) -> bool {
    version == "unknown"@ || version == "local"@
}

/// Whether `version` is one of [`ALWAYS_UPDATE_VERSIONS`].
pub fn always_updates(version: &str) -> (b: bool)
    ensures
        b == is_always_update_version(version@),
{
    str_eq(version, "unknown") || str_eq(version, "local")
}

/// Contents of the `ufbt_state.json` file written next to a deployed SDK.
///
/// The state is a free-form JSON object: the well-known keys are exposed as getters, and
/// everything the SDK loader recorded alongside them is preserved as written, in order.
#[derive(Debug, PartialEq, Eq)]
pub struct State {
    values: Vec<(String, JsonValue)>,
}

impl View for State {
    type V = Seq<(String, JsonValue)>;

    closed spec fn view(&self) -> Seq<(String, JsonValue)> {
        self.values@
    }
}

impl State {
    /// Wraps a set of state values, the members of a JSON object in order.
    pub fn new(values: Vec<(String, JsonValue)>) -> (state: State)
        ensures
            state@ == values@,
    {
        State { values }
    }

    /// The state a decoded `ufbt_state.json` holds: the members of a JSON object, and
    /// nothing for a document that is not an object.
    pub fn from_json(value: JsonValue) -> (state: Option<State>)
        ensures
            match value {
                JsonValue::Object(values) => state matches Some(s) && s@ == values@,
                _ => state is None,
            },
    {
        match value {
            JsonValue::Object(values) => Some(State { values }),
            _ => None,
        }
    }

    /// All state values, in the order they were inserted.
    pub fn values(&self) -> (v: &Vec<(String, JsonValue)>)
        ensures
            v@ == self@,
    {
        &self.values
    }

    /// The well-known string value `key`, when it is present and a string.
    pub fn string(&self, key: &str) -> (s: Option<&str>)
        ensures
            match s {
                Some(s) => spec_member_str(self@, key@) == Some(s@),
                None => spec_member_str(self@, key@) is None,
            },
    {
        member_str(&self.values, key)
    }

    /// Hardware target the deployed SDK was built for.
    pub fn hw_target(&self) -> (s: Option<&str>)
        ensures
            match s {
                Some(s) => spec_member_str(self@, "hw_target"@) == Some(s@),
                None => spec_member_str(self@, "hw_target"@) is None,
            },
    {
        self.string("hw_target")
    }

    /// Loader mode the SDK was deployed with.
    pub fn mode(&self) -> (s: Option<&str>)
        ensures
            match s {
                Some(s) => spec_member_str(self@, "mode"@) == Some(s@),
                None => spec_member_str(self@, "mode"@) is None,
            },
    {
        self.string("mode")
    }

    /// Version of the deployed SDK.
    pub fn version(&self) -> (s: Option<&str>)
        ensures
            match s {
                Some(s) => spec_member_str(self@, "version"@) == Some(s@),
                None => spec_member_str(self@, "version"@) is None,
            },
    {
        self.string("version")
    }

    /// URL of the directory index the SDK was resolved through.
    pub fn json_index(&self) -> (s: Option<&str>)
        ensures
            match s {
                Some(s) => spec_member_str(self@, "json_index"@) == Some(s@),
                None => spec_member_str(self@, "json_index"@) is None,
            },
    {
        self.string("json_index")
    }

    /// Update channel the SDK was taken from.
    pub fn channel(&self) -> (s: Option<&str>)
        ensures
            match s {
                Some(s) => spec_member_str(self@, "channel"@) == Some(s@),
                None => spec_member_str(self@, "channel"@) is None,
            },
    {
        self.string("channel")
    }

    /// Whether the recorded version says nothing about what is actually deployed, which is
    /// the case when it is missing, not a string, or one of [`ALWAYS_UPDATE_VERSIONS`].
    pub fn is_version_unknown(&self) -> (b: bool)
        ensures
            b == match spec_member_str(self@, "version"@) {
                None => true,
                Some(v) => is_always_update_version(v),
            },
    {
        match self.version() {
            None => true,
            Some(v) => always_updates(v),
        }
    }
}

} // verus!

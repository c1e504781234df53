use vstd::prelude::*;
use vstd::string::*;
use crate::foreign::{captures, regex_captures};
use crate::paths::{spec_join, Paths, Platform, TOOLCHAIN_SUBDIR};
use crate::text::{
    ascii_lowercase, chars_of, concat, is_ascii_text, lowercase, replace_all, spec_ends_with, spec_replace, spec_trim, string_of_range,
    to_lowercase, trim, ends_with, push_signed_decimal, spec_signed_decimal,
};
use super::info::{ToolchainInfo, ToolchainInfoView};

verus! {

/// Pattern the Windows toolchain script names the toolchain version with; group 1 is the
/// version.
pub const WINDOWS_VERSION_PATTERN: &'static str = r"FLIPPER_TOOLCHAIN_VERSION=([0-9]+)";

/// Pattern the shell toolchain script names the toolchain version with; group 1 is the
/// version.
pub const UNIX_VERSION_PATTERN: &'static str = r#"FBT_TOOLCHAIN_VERSION=[^\n]*?"([0-9]+)""#;

/// The pattern the toolchain script of the platform names the version with.
pub open spec fn spec_version_pattern(platform: Platform) -> Seq<char> {
    match platform {
        Platform::Windows => WINDOWS_VERSION_PATTERN@,
        Platform::Unix => UNIX_VERSION_PATTERN@,
    }
}

/// The toolchain version the SDK asks for, given what the version pattern captured in the
/// toolchain script: a non-empty environment override, else capture group 1, else the
/// fallback `39`.
pub open spec fn spec_requested_version(env_value: Option<Seq<char>>, captured: Option<Seq<Option<Seq<char>>>>) -> Seq<char> {
    if env_value matches Some(v) && v.len() > 0 {
        env_value->0
    } else {
        match captured {
            Some(groups) => if groups.len() >= 2 && groups[1] is Some {
                groups[1]->0
            } else {
                "39"@
            },
            None => "39"@,
        }
    }
}

/// The toolchain version the SDK asks for: a non-empty environment override, else the
/// version the toolchain script names, else the fallback `39`.
pub open spec fn spec_toolchain_version(env_value: Option<Seq<char>>, script: Option<Seq<char>>, platform: Platform) -> Seq<char> {
    spec_requested_version(
        env_value,
        match script {
            Some(contents) => regex_captures(spec_version_pattern(platform), contents),
            None => None,
        },
    )
}

/// The toolchain version the SDK asks for, given the value of `FBT_TOOLCHAIN_VERSION` and
/// the capture groups the version pattern matched in the toolchain script, if it matched:
/// a non-empty environment value, else group 1, else
/// [`FALLBACK_VERSION`](ToolchainDeployer::FALLBACK_VERSION).
pub fn requested_version(env_value: Option<&str>, captured: Option<&Vec<Option<String>>>) -> (r: String)
    ensures
        r@ == spec_requested_version(
            match env_value {
                Some(v) => Some(v@),
                None => None,
            },
            match captured {
                Some(groups) => Some(
                    groups@.map_values(|g: Option<String>| match g {
                        Some(s) => Some(s@),
                        None => None,
                    }),
                ),
                None => None,
            },
        ),
{
    if let Some(v) = env_value {
        if !v.is_empty() {
            return v.to_owned();
        }
    }
    if let Some(groups) = captured {
        if groups.len() >= 2 {
            if let Some(version) = &groups[1] {
                return version.clone();
            }
        }
    }
    ToolchainDeployer::FALLBACK_VERSION.to_owned()
}

/// Address a toolchain version is published under.
pub open spec fn spec_toolchain_url(arch_dir_name: Seq<char>, version: Seq<char>, platform: Platform) -> Seq<char> {
    "https://update.flipperzero.one/builds/toolchain"@ + "/gcc-arm-none-eabi-12.3-"@ + arch_dir_name + "-flipper-"@ + version
        + match platform {
        Platform::Windows => ".zip"@,
        Platform::Unix => ".tar.gz"@,
    }
}

/// Address the given toolchain version is downloaded from, for the given architecture
/// directory name.
pub fn toolchain_url(arch_dir_name: &str, version: &str, platform: Platform) -> (r: String)
    ensures
        r@ == spec_toolchain_url(arch_dir_name@, version@, platform),
{
    let mut r = concat(ToolchainDeployer::URL_ROOT, "/gcc-arm-none-eabi-12.3-");
    r.append(arch_dir_name);
    r.append("-flipper-");
    r.append(version);
    match platform {
        Platform::Windows => r.append(".zip"),
        Platform::Unix => r.append(".tar.gz"),
    }
    r
}

/// Name of the directory the toolchain of a machine is deployed into.
pub open spec fn spec_arch_dir_name(machine: Seq<char>, system: Seq<char>, platform: Platform) -> Seq<char> {
    match platform {
        Platform::Windows => "x86_64-windows"@,
        Platform::Unix => spec_trim(machine) + "-"@ + lowercase(spec_trim(system)),
    }
}

/// Name of the directory the toolchain of this machine is deployed into.
///
/// On Windows this is always `x86_64-windows`. Everywhere else it is the machine name and
/// the lowercased system name, as `uname -m` and `uname -s` print them with surrounding
/// whitespace trimmed, joined with `-`, such as `x86_64-linux` or `arm64-darwin`.
pub fn arch_dir_name(machine: &str, system: &str, platform: Platform) -> (r: String)
    ensures
        r@ == spec_arch_dir_name(machine@, system@, platform),
        platform is Unix && is_ascii_text(spec_trim(system@)) ==> r@ == spec_trim(machine@) + "-"@
            + ascii_lowercase(spec_trim(system@)),
{
    match platform {
        Platform::Windows => "x86_64-windows".to_owned(),
        Platform::Unix => {
            let m = trim(machine);
            let s = trim(system);
            let mut r = concat(m.as_str(), "-");
            r.append(to_lowercase(s.as_str()).as_str());
            r
        },
    }
}

/// Part of a URL after its last `/`, or the whole URL when it has none.
pub open spec fn spec_archive_name(url: Seq<char>) -> Seq<char>
    decreases url.len(),
{
    if url.len() == 0 {
        url
    } else if url.last() == '/' {
        Seq::empty()
    } else {
        spec_archive_name(url.drop_last()).push(url.last())
    }
}

/// File name a toolchain archive is stored under: the part of its URL after the last `/`.
pub fn archive_name(url: &str) -> (r: String)
    ensures
        r@ == spec_archive_name(url@),
{
    let v = chars_of(url);
    let mut start: usize = v.len();
    while start > 0 && v[start - 1] != '/'
        invariant
            start <= v@.len(),
            v@ == url@,
            forall|j: int| start <= j < v@.len() ==> v@[j] != '/',
        decreases start,
    {
        start -= 1;
    }
    proof {
        lemma_archive_name(v@, start as int);
    }
    string_of_range(&v, start, v.len())
}

proof fn lemma_archive_name(s: Seq<char>, start: int)
    requires
        0 <= start <= s.len(),
        forall|j: int| start <= j < s.len() ==> s[j] != '/',
        start == 0 || s[start - 1] == '/',
    ensures
        spec_archive_name(s) == s.subrange(start, s.len() as int),
    decreases s.len(),
{
    if s.len() == 0 {
    } else if start == s.len() {
        assert(s.subrange(start, s.len() as int) =~= Seq::<char>::empty());
    } else {
        lemma_archive_name(s.drop_last(), start);
        assert(s.drop_last().subrange(start, s.len() - 1).push(s.last()) =~= s.subrange(start, s.len() as int));
    }
}

/// Suffix the archive of a version carries: the version and the archive format.
pub open spec fn spec_version_suffix(version: Seq<char>, platform: Platform) -> Seq<char> {
    "-"@ + version + match platform {
        Platform::Windows => ".zip"@,
        Platform::Unix => ".tar.gz"@,
    }
}

/// Name of the directory an archive unpacks into: the archive name with every occurrence
/// of `-<version>.tar.gz`, or `-<version>.zip` on Windows, removed.
pub fn dist_dir_name(archive_name: &str, version: &str, platform: Platform) -> (r: String)
    ensures
        r@ == spec_replace(archive_name@, spec_version_suffix(version@, platform), Seq::empty()),
{
    let mut suffix = concat("-", version);
    match platform {
        Platform::Windows => suffix.append(".zip"),
        Platform::Unix => suffix.append(".tar.gz"),
    }
    proof {
        reveal_strlit("");
        reveal_strlit("-");
        assert(suffix@ == spec_version_suffix(version@, platform));
        assert(suffix@.len() > 0);
        assert(""@ =~= Seq::<char>::empty());
    }
    replace_all(archive_name, suffix.as_str(), "")
}

/// Whether cleaning up after unpacking removes a file of the toolchain directory: partial
/// downloads always, archives unless preserving them was asked for.
pub fn removed_by_cleanup(file_name: &str, preserve: &str) -> (b: bool)
    ensures
        b == (spec_ends_with(file_name@, ".part"@) || (preserve@.len() == 0 && spec_ends_with(file_name@, ".tar.gz"@))),
{
    ends_with(file_name, ".part") || (preserve.is_empty() && ends_with(file_name, ".tar.gz"))
}

/// The exit code a finished process is reported with: its status code, else the negated
/// number of the signal that ended it, else `-1`.
pub open spec fn spec_exit_code(code: Option<i32>, signal: Option<i32>) -> int {
    match code {
        Some(c) => c as int,
        None => match signal {
            Some(s) => -s,
            None => -1,
        },
    }
}

/// The exit code a finished process is reported with: its status code, else the negated
/// number of the signal that ended it, else `-1`.
pub fn exit_code(code: Option<i32>, signal: Option<i32>) -> (r: i32)
    requires
        code is None ==> (signal matches Some(s) ==> s != i32::MIN),
    ensures
        r == spec_exit_code(code, signal),
{
    match code {
        Some(c) => c,
        None => match signal {
            Some(s) => -s,
            None => -1,
        },
    }
}

/// The message an unpacking that `tar` failed is closed with.
pub fn tar_failure_message(exit_code: i32) -> (r: String)
    ensures
        r@ == "tar exited with "@ + spec_signed_decimal(exit_code as int),
{
    let mut r = "tar exited with ".to_owned();
    push_signed_decimal(&mut r, exit_code as i64);
    r
}

/// Deploys the ARM GCC toolchain the SDK is built with into the uFBT home directory: the
/// decisions of a deployment, made against the layout of that directory.
#[derive(Debug, Clone, PartialEq, Eq)]
pub struct ToolchainDeployer {
    paths: Paths,
}

impl View for ToolchainDeployer {
    type V = crate::paths::PathsView;

    closed spec fn view(&self) -> crate::paths::PathsView {
        self.paths@
    }
}

impl ToolchainDeployer {
    /// Version used when neither the environment nor the SDK scripts name one.
    pub const FALLBACK_VERSION: &'static str = "39";

    /// Location the prebuilt toolchains are published under.
    pub const URL_ROOT: &'static str = "https://update.flipperzero.one/builds/toolchain";

    /// Creates a deployer working in the given uFBT home directory.
    pub fn new(paths: Paths) -> (d: ToolchainDeployer)
        ensures
            d@ == paths@,
    {
        ToolchainDeployer { paths }
    }

    /// Layout of the uFBT home directory the deployer works in.
    pub fn paths(&self) -> (p: &Paths)
        ensures
            p@ == self@,
    {
        &self.paths
    }

    /// Version of the toolchain the SDK asks for.
    ///
    /// `env_value`, the value of `FBT_TOOLCHAIN_VERSION`, wins when it is set and not
    /// empty. Otherwise the version is taken from the contents of the toolchain script
    /// shipped with the current SDK — `fbtenv.cmd` on Windows, `fbtenv.sh` elsewhere — and
    /// falls back to [`FALLBACK_VERSION`](Self::FALLBACK_VERSION) when that script is
    /// absent or names no version.
    pub fn toolchain_version(&self, env_value: Option<&str>, script: Option<&str>) -> (r: String)
        ensures
            r@ == spec_toolchain_version(
                match env_value {
                    Some(v) => Some(v@),
                    None => None,
                },
                match script {
                    Some(s) => Some(s@),
                    None => None,
                },
                self@.platform,
            ),
    {
        let captured = match script {
            Some(contents) => {
                let pattern = match self.paths.platform() {
                    Platform::Windows => WINDOWS_VERSION_PATTERN,
                    Platform::Unix => UNIX_VERSION_PATTERN,
                };
                captures(pattern, contents)
            },
            None => None,
        };
        requested_version(env_value, captured.as_ref())
    }

    /// Path of the toolchain script whose contents name the version: `fbtenv.cmd` on
    /// Windows, `fbtenv.sh` elsewhere.
    pub fn version_script(&self) -> (r: String)
        ensures
            r@ == spec_join(
                spec_join(
                    spec_join(
                        spec_join(self@.state_dir, "current"@, self@.platform),
                        "scripts"@,
                        self@.platform,
                    ),
                    TOOLCHAIN_SUBDIR@,
                    self@.platform,
                ),
                match self@.platform {
                    Platform::Windows => "fbtenv.cmd"@,
                    Platform::Unix => "fbtenv.sh"@,
                },
                self@.platform,
            ),
    {
        match self.paths.platform() {
            Platform::Windows => self.paths.fbtenv_cmd(),
            Platform::Unix => self.paths.fbtenv_script(),
        }
    }

    /// URL the given toolchain version is downloaded from.
    pub fn toolchain_url(&self, arch_dir_name: &str, version: &str) -> (r: String)
        ensures
            r@ == spec_toolchain_url(arch_dir_name@, version@, self@.platform),
    {
        toolchain_url(arch_dir_name, version, self.paths.platform())
    }

    /// Reports which toolchain is wanted and which one is deployed: `version` is wanted,
    /// for the architecture directory `arch_dir_name`; `version_file` is the contents of
    /// the deployed toolchain's `VERSION` file, if it could be read, and `is_deployed`
    /// whether its directory exists.
    pub fn status(&self, version: &str, arch_dir_name: &str, version_file: Option<&str>, is_deployed: bool) -> (info: ToolchainInfo)
        ensures
            info@ == (ToolchainInfoView {
                arch_dir: spec_join(
                    spec_join(self@.toolchain_path, TOOLCHAIN_SUBDIR@, self@.platform),
                    arch_dir_name@,
                    self@.platform,
                ),
                version: version@,
                url: spec_toolchain_url(arch_dir_name@, version@, self@.platform),
                installed_version: match version_file {
                    Some(contents) => Some(spec_trim(contents@)),
                    None => None,
                },
                is_deployed,
            }),
    {
        let arch_dir = self.paths.toolchain_arch_dir(arch_dir_name);
        let installed = match version_file {
            Some(contents) => Some(trim(contents)),
            None => None,
        };
        let installed_ref = match &installed {
            Some(v) => Some(v.as_str()),
            None => None,
        };
        ToolchainInfo::new(
            arch_dir.as_str(),
            version,
            toolchain_url(arch_dir_name, version, self.paths.platform()).as_str(),
            installed_ref,
            is_deployed,
        )
    }
}

} // verus!

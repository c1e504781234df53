//! Layout of the uFBT home directory.
//!
//! Paths are strings throughout. Resolving a relative path needs the current working
//! directory and the conventions of the platform, both of which are handed in by the
//! caller rather than read from the process.
use vstd::prelude::*;
use vstd::string::*;
use crate::foreign::{lemma_key_position, pairs_insert, pairs_view, spec_key_position, spec_map_insert};
use crate::text::{str_eq, chars_of, chars_range, spec_trim, trim_bounds, concat, concat_with, find_char_from, lemma_find_from, push_char, spec_find_from, string_of, string_of_range};

verus! {

/// Name of the file the deployment state is stored in.
pub const STATE_FILE_NAME: &'static str = "ufbt_state.json";

/// Name of the directory the ARM GCC toolchain is unpacked into.
pub const TOOLCHAIN_SUBDIR: &'static str = "toolchain";

/// Name of the file extra environment variables are read from.
pub const ENV_FILE_NAME: &'static str = ".env";

/// Path conventions of a platform.
#[derive(Debug, Clone, Copy, PartialEq, Eq, Hash, Structural)]
pub enum Platform {
    /// `/`-separated paths that are absolute when they start with `/`.
    Unix,
    /// `\`-separated paths with drive letters and UNC shares.
    Windows,
}

/// Separator a platform joins path segments with.
pub open spec fn separator_of(platform: Platform) -> char {
    match platform {
        Platform::Unix => '/',
        Platform::Windows => '\\',
    }
}

impl Platform {
    /// Separator the platform joins path segments with: `/` on Unix, `\` on Windows.
    pub fn separator(self) -> (c: char)
        ensures
            c == separator_of(self),
    {
        match self {
            Platform::Unix => '/',
            Platform::Windows => '\\',
        }
    }
}

/// `base`, the separator of the platform, then `name`.
pub open spec fn spec_join(base: Seq<char>, name: Seq<char>, platform: Platform) -> Seq<char> {
    base.push(separator_of(platform)) + name
}

/// Joins `name` onto `base` with the separator of the platform, without any normalisation.
pub fn join(base: &str, name: &str, platform: Platform) -> (r: String)
    ensures
        r@ == spec_join(base@, name@, platform),
{
    concat_with(base, platform.separator(), name)
}

/// Whether `c` is an ASCII letter.
pub open spec fn is_ascii_letter(c: char) -> bool {
    ('A' <= c && c <= 'Z') || ('a' <= c && c <= 'z')
}

/// Whether a path is absolute on the platform: on Unix when it starts with `/`; on Windows
/// when it starts with `\\`, or with a drive letter, a colon and a separator.
pub open spec fn spec_is_absolute(path: Seq<char>, platform: Platform) -> bool {
    match platform {
        Platform::Unix => path.len() > 0 && path[0] == '/',
        Platform::Windows => (path.len() >= 2 && path[0] == '\\' && path[1] == '\\') || (
        path.len() >= 3 && is_ascii_letter(path[0]) && path[1] == ':' && (path[2] == '/'
            || path[2] == '\\')),
    }
}

/// Whether `path` is absolute on the platform.
pub fn is_absolute(path: &str, platform: Platform) -> (b: bool)
    ensures
        b == spec_is_absolute(path@, platform),
{
    let v = chars_of(path);
    let n = v.len();
    match platform {
        Platform::Unix => n > 0 && v[0] == '/',
        Platform::Windows => {
            if n >= 2 && v[0] == '\\' && v[1] == '\\' {
                return true;
            }
            n >= 3 && (('A' <= v[0] && v[0] <= 'Z') || ('a' <= v[0] && v[0] <= 'z')) && v[1]
                == ':' && (v[2] == '/' || v[2] == '\\')
        },
    }
}

/// The upper-case drive letter a Windows path starts with: its first character when the
/// second one is a colon and the first one, with bit `0x20` cleared, lies between `A` and
/// `[`.
pub open spec fn spec_drive_letter(path: Seq<char>) -> Option<u32> {
    if path.len() >= 2 && path[1] == ':' {
        let c = path[0] as u32;
        if 0x41 <= c <= 0x5b {
            Some(c)
        } else if 0x61 <= c <= 0x7b {
            Some((c - 0x20) as u32)
        } else {
            None
        }
    } else {
        None
    }
}

/// The drive letter `path` starts with, in upper case.
pub fn drive_letter(path: &Vec<char>) -> (d: Option<u32>)
    ensures
        d == spec_drive_letter(path@),
{
    if path.len() >= 2 && path[1] == ':' {
        let c = path[0] as u32;
        if 0x41 <= c && c <= 0x5b {
            Some(c)
        } else if 0x61 <= c && c <= 0x7b {
            Some(c - 0x20)
        } else {
            None
        }
    } else {
        None
    }
}

/// A Windows path starting with a single `\`, resolved against the current directory: it
/// takes the drive of the current directory, or its `\\server\share` prefix, and is left
/// as it is when the current directory has neither.
pub open spec fn spec_resolve_drive_relative(current: Seq<char>, path: Seq<char>) -> Seq<char> {
    if spec_drive_letter(current) is Some {
        seq![current[0], ':'] + path
    } else if current.len() >= 2 && current[0] == '\\' && current[1] == '\\' {
        match spec_find_from(current, '\\', 2) {
            Some(server_end) => {
                let share_end = match spec_find_from(current, '\\', server_end + 1) {
                    Some(end) => end,
                    None => current.len() as int,
                };
                current.subrange(0, share_end) + path
            },
            None => path,
        }
    } else {
        path
    }
}

/// A relative path resolved against the current directory.
///
/// On Unix the two are joined with a `/`, unless the current directory already ends with
/// one. On Windows a path starting with `\` is resolved by
/// [`spec_resolve_drive_relative`]; a path naming a drive other than the current one becomes
/// that drive's letter, `:\` and the whole path; a path naming the current drive loses its
/// drive prefix; and what is left is joined onto the current directory with a `\`, unless
/// the current directory already ends with a separator.
pub open spec fn spec_resolve(path: Seq<char>, current: Seq<char>, platform: Platform) -> Seq<
    char,
> {
    match platform {
        Platform::Unix => if current.len() > 0 && current.last() == '/' {
            current + path
        } else {
            current.push('/') + path
        },
        Platform::Windows => if path.len() > 0 && path[0] == '\\' {
            spec_resolve_drive_relative(current, path)
        } else if spec_drive_letter(path) is Some && spec_drive_letter(path) != spec_drive_letter(
            current,
        ) {
            seq![path[0], ':', '\\'] + path
        } else {
            let relative = if spec_drive_letter(path) is Some {
                path.subrange(2, path.len() as int)
            } else {
                path
            };
            if current.len() > 0 && (current.last() == '\\' || current.last() == '/') {
                current + relative
            } else {
                current.push('\\') + relative
            }
        },
    }
}

/// Whether `c` separates path segments on either platform.
pub open spec fn is_any_separator(c: char) -> bool {
    c == '/' || c == '\\'
}

/// A path made absolute: resolved against the current directory unless it already is
/// absolute, then stripped of one trailing separator when it is longer than one character.
pub open spec fn spec_absolute(path: Seq<char>, current: Seq<char>, platform: Platform) -> Seq<
    char,
> {
    let resolved = if spec_is_absolute(path, platform) {
        path
    } else {
        spec_resolve(path, current, platform)
    };
    if resolved.len() > 1 && is_any_separator(resolved.last()) {
        resolved.drop_last()
    } else {
        resolved
    }
}

fn resolve_drive_relative(current: &str, path: &str) -> (r: String)
    ensures
        r@ == spec_resolve_drive_relative(current@, path@),
{
    let cv = chars_of(current);
    if drive_letter(&cv).is_some() {
        let mut r = String::new();
        push_char(&mut r, cv[0]);
        push_char(&mut r, ':');
        r.append(path);
        assert(r@ =~= seq![current@[0], ':'] + path@);
        return r;
    }
    if cv.len() >= 2 && cv[0] == '\\' && cv[1] == '\\' {
        if let Some(server_end) = find_char_from(&cv, '\\', 2) {
            proof {
                lemma_find_from(cv@, '\\', 2);
            }
            let share_end = match find_char_from(&cv, '\\', server_end + 1) {
                Some(end) => end,
                None => cv.len(),
            };
            proof {
                lemma_find_from(cv@, '\\', server_end + 1);
            }
            let mut r = string_of_range(&cv, 0, share_end);
            r.append(path);
            return r;
        }
    }
    path.to_owned()
}

/// `path` resolved against the current directory `current`.
pub fn resolve_against_current_dir(path: &str, current: &str, platform: Platform) -> (r: String)
    ensures
        r@ == spec_resolve(path@, current@, platform),
{
    let cv = chars_of(current);
    let pv = chars_of(path);
    match platform {
        Platform::Unix => {
            if cv.len() > 0 && cv[cv.len() - 1] == '/' {
                concat(current, path)
            } else {
                concat_with(current, '/', path)
            }
        },
        Platform::Windows => {
            if pv.len() > 0 && pv[0] == '\\' {
                return resolve_drive_relative(current, path);
            }
            let pd = drive_letter(&pv);
            let cd = drive_letter(&cv);
            if pd.is_some() && pd != cd {
                let mut r = String::new();
                push_char(&mut r, pv[0]);
                push_char(&mut r, ':');
                push_char(&mut r, '\\');
                r.append(path);
                assert(r@ =~= seq![path@[0], ':', '\\'] + path@);
                return r;
            }
            let relative = if pd.is_some() {
                string_of_range(&pv, 2, pv.len())
            } else {
                path.to_owned()
            };
            if cv.len() > 0 && (cv[cv.len() - 1] == '\\' || cv[cv.len() - 1] == '/') {
                concat(current, relative.as_str())
            } else {
                concat_with(current, '\\', relative.as_str())
            }
        },
    }
}

/// `path` made absolute against the current directory `current`, with a single trailing
/// separator dropped when the result is longer than one character.
pub fn absolute(path: &str, current: &str, platform: Platform) -> (r: String)
    ensures
        r@ == spec_absolute(path@, current@, platform),
{
    let resolved = if is_absolute(path, platform) {
        chars_of(path)
    } else {
        chars_of(resolve_against_current_dir(path, current, platform).as_str())
    };
    let n = resolved.len();
    if n > 1 && (resolved[n - 1] == '/' || resolved[n - 1] == '\\') {
        let r = string_of_range(&resolved, 0, n - 1);
        assert(resolved@.subrange(0, n - 1) =~= resolved@.drop_last());
        r
    } else {
        string_of(&resolved)
    }
}


/// Spec-level picture of a [`Paths`]: the two resolved locations and the platform.
pub struct PathsView {
    /// Resolved uFBT home directory.
    pub state_dir: Seq<char>,
    /// Resolved directory the toolchain directory lives under.
    pub toolchain_path: Seq<char>,
    /// Conventions every derived path is joined with.
    pub platform: Platform,
}

/// Every path uFBT works with, derived from the uFBT home directory and an optional
/// separate toolchain location.
///
/// Both locations are made absolute when the value is constructed, and a single trailing
/// separator is dropped. Nothing else is normalised: `.` and `..` segments survive, and a
/// path is never checked against the file system.
#[derive(Debug, Clone, PartialEq, Eq, Hash)]
pub struct Paths {
    state_dir: String,
    toolchain_path: String,
    platform: Platform,
}

impl View for Paths {
    type V = PathsView;

    closed spec fn view(&self) -> PathsView {
        PathsView {
            state_dir: self.state_dir@,
            toolchain_path: self.toolchain_path@,
            platform: self.platform,
        }
    }
}

impl Paths {
    /// Builds the layout for a uFBT home directory, with the toolchain either alongside the
    /// state or at a location of its own.
    ///
    /// Both locations are resolved against `current_dir` when they are relative, and lose a
    /// single trailing separator when they are longer than one character. On Windows this
    /// means a bare drive root such as `C:\` becomes `C:`.
    pub fn new(home: &str, toolchain_path: Option<&str>, current_dir: &str, platform: Platform) -> (paths: Paths)
        ensures
            paths@.platform == platform,
            paths@.state_dir == spec_absolute(home@, current_dir@, platform),
            paths@.toolchain_path == spec_absolute(
                match toolchain_path {
                    Some(t) => t@,
                    None => home@,
                },
                current_dir@,
                platform,
            ),
    {
        let toolchain = match toolchain_path {
            Some(t) => t,
            None => home,
        };
        Paths {
            state_dir: absolute(home, current_dir, platform),
            toolchain_path: absolute(toolchain, current_dir, platform),
            platform,
        }
    }

    /// Conventions the derived paths are joined with.
    pub fn platform(&self) -> (p: Platform)
        ensures
            p == self@.platform,
    {
        self.platform
    }

    /// Directory holding the deployed state: the current SDK, the downloads and, unless it
    /// was moved elsewhere, the toolchain.
    pub fn state_dir(&self) -> (r: &str)
        ensures
            r@ == self@.state_dir,
    {
        self.state_dir.as_str()
    }

    /// Directory downloaded archives are written to.
    pub fn download_dir(&self) -> (r: String)
        ensures
            r@ == spec_join(self@.state_dir, "download"@, self@.platform),
    {
        join(self.state_dir.as_str(), "download", self.platform)
    }

    /// Directory the currently deployed SDK is unpacked into.
    pub fn current_sdk_dir(&self) -> (r: String)
        ensures
            r@ == spec_join(self@.state_dir, "current"@, self@.platform),
    {
        join(self.state_dir.as_str(), "current", self.platform)
    }

    /// Directory the toolchain versions are unpacked into.
    pub fn toolchain_dir(&self) -> (r: String)
        ensures
            r@ == spec_join(self@.toolchain_path, TOOLCHAIN_SUBDIR@, self@.platform),
    {
        join(self.toolchain_path.as_str(), TOOLCHAIN_SUBDIR, self.platform)
    }

    /// File the deployment state is stored in.
    pub fn state_file(&self) -> (r: String)
        ensures
            r@ == spec_join(
                spec_join(self@.state_dir, "current"@, self@.platform),
                STATE_FILE_NAME@,
                self@.platform,
            ),
    {
        join(self.current_sdk_dir().as_str(), STATE_FILE_NAME, self.platform)
    }

    /// Directory of the scripts shipped with the SDK.
    pub fn sdk_scripts_dir(&self) -> (r: String)
        ensures
            r@ == spec_join(
                spec_join(self@.state_dir, "current"@, self@.platform),
                "scripts"@,
                self@.platform,
            ),
    {
        join(self.current_sdk_dir().as_str(), "scripts", self.platform)
    }

    /// Shell script the SDK uses to enter the toolchain environment.
    pub fn fbtenv_script(&self) -> (r: String)
        ensures
            r@ == spec_join(
                spec_join(
                    spec_join(
                        spec_join(self@.state_dir, "current"@, self@.platform),
                        "scripts"@,
                        self@.platform,
                    ),
                    TOOLCHAIN_SUBDIR@,
                    self@.platform,
                ),
                "fbtenv.sh"@,
                self@.platform,
            ),
    {
        let dir = join(self.sdk_scripts_dir().as_str(), TOOLCHAIN_SUBDIR, self.platform);
        join(dir.as_str(), "fbtenv.sh", self.platform)
    }

    /// Batch script the SDK uses to enter the toolchain environment.
    pub fn fbtenv_cmd(&self) -> (r: String)
        ensures
            r@ == spec_join(
                spec_join(
                    spec_join(
                        spec_join(self@.state_dir, "current"@, self@.platform),
                        "scripts"@,
                        self@.platform,
                    ),
                    TOOLCHAIN_SUBDIR@,
                    self@.platform,
                ),
                "fbtenv.cmd"@,
                self@.platform,
            ),
    {
        let dir = join(self.sdk_scripts_dir().as_str(), TOOLCHAIN_SUBDIR, self.platform);
        join(dir.as_str(), "fbtenv.cmd", self.platform)
    }

    /// Directory the toolchain for the given architecture is unpacked into.
    pub fn toolchain_arch_dir(&self, arch_dir: &str) -> (r: String)
        ensures
            r@ == spec_join(
                spec_join(self@.toolchain_path, TOOLCHAIN_SUBDIR@, self@.platform),
                arch_dir@,
                self@.platform,
            ),
    {
        join(self.toolchain_dir().as_str(), arch_dir, self.platform)
    }

    /// Symbolic link pointing at the toolchain that is currently in use.
    pub fn toolchain_current_link(&self) -> (r: String)
        ensures
            r@ == spec_join(
                spec_join(self@.toolchain_path, TOOLCHAIN_SUBDIR@, self@.platform),
                "current"@,
                self@.platform,
            ),
    {
        join(self.toolchain_dir().as_str(), "current", self.platform)
    }
}

/// Without a separate toolchain location, the toolchain lives in the uFBT home directory:
/// both locations of the layout are the same resolved path.
pub proof fn lemma_toolchain_defaults_to_home(home: Seq<char>, current: Seq<char>, platform: Platform, paths: PathsView)
    requires
        paths.state_dir == spec_absolute(home, current, platform),
        paths.toolchain_path == spec_absolute(home, current, platform),
    ensures
        paths.toolchain_path == paths.state_dir,
{
}

/// A path that is already absolute is kept as written, except that one trailing separator
/// is dropped from a path longer than one character; the current directory plays no part.
pub proof fn lemma_absolute_keeps_absolute_paths(path: Seq<char>, current: Seq<char>, other: Seq<char>, platform: Platform)
    requires
        spec_is_absolute(path, platform),
    ensures
        spec_absolute(path, current, platform) == spec_absolute(path, other, platform),
        spec_absolute(path, current, platform) == if path.len() > 1 && is_any_separator(path.last()) {
            path.drop_last()
        } else {
            path
        },
{
}


/// A set of environment variables: one value per name, the names in the order they were
/// first set.
#[derive(Debug, PartialEq, Eq)]
pub struct EnvVars {
    /// Name and value of each variable, no name twice. A list rather than a `HashMap`,
    /// because vstd specifies what a `HashMap` keyed by `String` holds too weakly for the
    /// contracts here, which speak of every variable.
    entries: Vec<(String, String)>,
}

/// Value of `key` in `entries`: the value of its last occurrence.
pub open spec fn env_lookup(entries: Seq<(Seq<char>, Seq<char>)>, key: Seq<char>) -> Option<
    Seq<char>,
>
    decreases entries.len(),
{
    if entries.len() == 0 {
        None
    } else if entries.last().0 == key {
        Some(entries.last().1)
    } else {
        env_lookup(entries.drop_last(), key)
    }
}

/// Whether no name occurs twice.
pub open spec fn distinct_names(entries: Seq<(Seq<char>, Seq<char>)>) -> bool {
    forall|i: int, j: int| 0 <= i < j < entries.len() ==> entries[i].0 != entries[j].0
}

/// `base` with every variable of `over` set on it, in order: a name already present takes
/// the new value in its place, a new name comes last.
pub open spec fn spec_env_extend(base: Seq<(Seq<char>, Seq<char>)>, over: Seq<(Seq<char>, Seq<char>)>) -> Seq<
    (Seq<char>, Seq<char>),
>
    decreases over.len(),
{
    if over.len() == 0 {
        base
    } else {
        spec_map_insert(spec_env_extend(base, over.drop_last()), over.last().0, over.last().1)
    }
}

proof fn lemma_env_lookup_distinct(entries: Seq<(Seq<char>, Seq<char>)>, key: Seq<char>)
    requires
        distinct_names(entries),
    ensures
        forall|i: int| 0 <= i < entries.len() && entries[i].0 == key ==> env_lookup(entries, key) == Some(
            entries[i].1,
        ),
        (forall|i: int| 0 <= i < entries.len() ==> entries[i].0 != key) ==> env_lookup(entries, key) is None,
    decreases entries.len(),
{
    if entries.len() > 0 {
        let rest = entries.drop_last();
        assert(distinct_names(rest));
        lemma_env_lookup_distinct(rest, key);
        assert forall|i: int| 0 <= i < entries.len() && entries[i].0 == key implies env_lookup(entries, key)
            == Some(entries[i].1) by {
            if i < entries.len() - 1 {
                assert(rest[i] == entries[i]);
            }
        }
        if forall|i: int| 0 <= i < entries.len() ==> entries[i].0 != key {
            assert forall|i: int| 0 <= i < rest.len() implies rest[i].0 != key by {
                assert(rest[i] == entries[i]);
            }
        }
    }
}

/// Setting a variable in a set of distinct names keeps the names distinct; the name set
/// reads as the new value, every other name as before.
proof fn lemma_env_insert(entries: Seq<(Seq<char>, Seq<char>)>, key: Seq<char>, value: Seq<char>)
    requires
        distinct_names(entries),
    ensures
        distinct_names(spec_map_insert(entries, key, value)),
        forall|q: Seq<char>| #[trigger] env_lookup(spec_map_insert(entries, key, value), q) == env_lookup(
            entries.push((key, value)),
            q,
        ),
{
    lemma_key_position(entries, key);
    let inserted = spec_map_insert(entries, key, value);
    assert(entries.push((key, value)).drop_last() =~= entries);
    match spec_key_position(entries, key) {
        Some(p) => {
            assert(distinct_names(inserted)) by {
                assert forall|i: int, j: int| 0 <= i < j < inserted.len() implies inserted[i].0 != inserted[j].0 by {
                    assert(inserted[i].0 == entries[i].0);
                    assert(inserted[j].0 == entries[j].0);
                }
            }
            assert forall|q: Seq<char>| #[trigger] env_lookup(inserted, q) == env_lookup(entries.push((key, value)), q) by {
                lemma_env_lookup_distinct(inserted, q);
                lemma_env_lookup_distinct(entries, q);
                if q == key {
                    assert(inserted[p] == (key, value));
                } else if exists|i: int| 0 <= i < entries.len() && entries[i].0 == q {
                    let i = choose|i: int| 0 <= i < entries.len() && entries[i].0 == q;
                    assert(inserted[i] == entries[i]);
                } else {
                    assert forall|i: int| 0 <= i < inserted.len() implies inserted[i].0 != q by {
                        if i != p {
                            assert(inserted[i] == entries[i]);
                        }
                    }
                }
            }
        },
        None => {
            assert(inserted == entries.push((key, value)));
        },
    }
}

/// Setting the variables of `over` on a set of distinct names keeps the names distinct, and
/// every name reads as it does after `over` is appended to `base`.
proof fn lemma_env_extend(base: Seq<(Seq<char>, Seq<char>)>, over: Seq<(Seq<char>, Seq<char>)>)
    requires
        distinct_names(base),
    ensures
        distinct_names(spec_env_extend(base, over)),
        forall|q: Seq<char>| #[trigger] env_lookup(spec_env_extend(base, over), q) == env_lookup(base + over, q),
    decreases over.len(),
{
    if over.len() > 0 {
        let shorter = over.drop_last();
        lemma_env_extend(base, shorter);
        let prev = spec_env_extend(base, shorter);
        lemma_env_insert(prev, over.last().0, over.last().1);
        assert((base + over).drop_last() =~= base + shorter);
        let pushed = prev.push((over.last().0, over.last().1));
        assert(pushed.drop_last() =~= prev);
        assert((base + over).last() == over.last());
        assert forall|q: Seq<char>| #[trigger] env_lookup(spec_env_extend(base, over), q) == env_lookup(base + over, q) by {
            assert(env_lookup(spec_env_extend(base, over), q) == env_lookup(pushed, q));
            assert(env_lookup(base + shorter, q) == env_lookup(prev, q));
        }
    }
}

impl View for EnvVars {
    type V = Seq<(Seq<char>, Seq<char>)>;

    closed spec fn view(&self) -> Seq<(Seq<char>, Seq<char>)> {
        pairs_view(self.entries@)
    }
}

impl EnvVars {
    /// No name occurs twice.
    #[verifier::type_invariant]
    spec fn names_are_distinct(self) -> bool {
        distinct_names(pairs_view(self.entries@))
    }

    /// No variables.
    pub fn new() -> (env: EnvVars)
        ensures
            env@ == Seq::<(Seq<char>, Seq<char>)>::empty(),
    {
        let env = EnvVars { entries: Vec::new() };
        assert(env@ =~= Seq::<(Seq<char>, Seq<char>)>::empty());
        env
    }

    /// Number of variables.
    pub fn len(&self) -> (n: usize)
        ensures
            n == self@.len(),
    {
        self.entries.len()
    }

    /// Name and value of the variable at `index`, in the order the names were first set.
    pub fn entry(&self, index: usize) -> (e: (&str, &str))
        requires
            index < self@.len(),
        ensures
            e.0@ == self@[index as int].0,
            e.1@ == self@[index as int].1,
    {
        let e = &self.entries[index];
        (e.0.as_str(), e.1.as_str())
    }

    /// Sets `key` to `value`: a name already set takes the new value in its place, a new
    /// name comes last.
    pub fn set(&mut self, key: &str, value: &str)
        ensures
            final(self)@ == spec_map_insert(old(self)@, key@, value@),
            distinct_names(final(self)@),
            forall|q: Seq<char>| #[trigger] env_lookup(final(self)@, q) == if q == key@ {
                Some(value@)
            } else {
                env_lookup(old(self)@, q)
            },
    {
        proof {
            use_type_invariant(&*self);
            lemma_env_insert(self@, key@, value@);
            assert(self@.push((key@, value@)).drop_last() =~= self@);
        }
        let mut entries: Vec<(String, String)> = Vec::new();
        std::mem::swap(&mut entries, &mut self.entries);
        pairs_insert(&mut entries, key.to_owned(), value.to_owned());
        self.entries = entries;
    }

    /// Sets every variable of `other`, in order, overriding earlier values.
    pub fn extend(&mut self, other: &EnvVars)
        ensures
            final(self)@ == spec_env_extend(old(self)@, other@),
            forall|q: Seq<char>| #[trigger] env_lookup(final(self)@, q) == env_lookup(old(self)@ + other@, q),
    {
        proof {
            use_type_invariant(&*self);
            lemma_env_extend(self@, other@);
        }
        let mut i: usize = 0;
        while i < other.entries.len()
            invariant
                i <= other@.len(),
                other@.len() == other.entries@.len(),
                other@ == pairs_view(other.entries@),
                self@ == spec_env_extend(old(self)@, other@.subrange(0, i as int)),
            decreases other@.len() - i,
        {
            let e = &other.entries[i];
            assert(other@.subrange(0, i + 1).drop_last() =~= other@.subrange(0, i as int));
            self.set(e.0.as_str(), e.1.as_str());
            i += 1;
        }
        assert(other@.subrange(0, other@.len() as int) =~= other@);
    }

    /// Value of `key`, if it is set.
    pub fn get(&self, key: &str) -> (v: Option<&str>)
        ensures
            match v {
                Some(v) => env_lookup(self@, key@) == Some(v@),
                None => env_lookup(self@, key@) is None,
            },
    {
        let mut i: usize = self.entries.len();
        assert(self@.subrange(0, i as int) =~= self@);
        while i > 0
            invariant
                i <= self@.len(),
                self@.len() == self.entries@.len(),
                self@ == pairs_view(self.entries@),
                env_lookup(self@, key@) == env_lookup(self@.subrange(0, i as int), key@),
            decreases i,
        {
            let e = &self.entries[i - 1];
            assert(self@.subrange(0, i as int).drop_last() =~= self@.subrange(0, i - 1));
            if str_eq(e.0.as_str(), key) {
                return Some(e.1.as_str());
            }
            i -= 1;
        }
        None
    }
}

/// Setting variables on top of others: a name the later ones carry takes their value, and
/// any other name keeps the value it had.
pub proof fn lemma_env_overlay(base: Seq<(Seq<char>, Seq<char>)>, over: Seq<(Seq<char>, Seq<char>)>, key: Seq<char>)
    ensures
        env_lookup(base + over, key) == match env_lookup(over, key) {
            Some(v) => Some(v),
            None => env_lookup(base, key),
        },
    decreases over.len(),
{
    if over.len() == 0 {
        assert(base + over =~= base);
    } else {
        assert((base + over).drop_last() =~= base + over.drop_last());
        lemma_env_overlay(base, over.drop_last(), key);
    }
}

/// Whether `c` ends a line of an environment file.
pub open spec fn is_line_break(c: char) -> bool {
    c == '\r' || c == '\n'
}

/// `s` split at every carriage return and every line feed. There is always at least one
/// piece, and `\r\n` leaves an empty piece between the two.
pub open spec fn spec_split_lines(s: Seq<char>) -> Seq<Seq<char>>
    decreases s.len(),
{
    if s.len() == 0 {
        seq![Seq::<char>::empty()]
    } else {
        let prev = spec_split_lines(s.drop_last());
        if is_line_break(s.last()) {
            prev.push(Seq::<char>::empty())
        } else {
            prev.update(prev.len() - 1, prev.last().push(s.last()))
        }
    }
}

/// The variable a line of an environment file sets: the line is trimmed as a whole, a
/// blank line or one starting with `#` sets nothing, and the first `=` splits the rest
/// into a name and a value, neither of which is trimmed. A line without `=` sets nothing.
pub open spec fn spec_env_entry(raw: Seq<char>) -> Option<(Seq<char>, Seq<char>)> {
    let line = spec_trim(raw);
    if line.len() == 0 || line[0] == '#' {
        None
    } else {
        match spec_find_from(line, '=', 0) {
            Some(i) => Some((line.subrange(0, i), line.subrange(i + 1, line.len() as int))),
            None => None,
        }
    }
}

/// The variables a sequence of lines sets, in order.
pub open spec fn spec_env_entries(lines: Seq<Seq<char>>) -> Seq<(Seq<char>, Seq<char>)>
    decreases lines.len(),
{
    if lines.len() == 0 {
        Seq::empty()
    } else {
        let prev = spec_env_entries(lines.drop_last());
        match spec_env_entry(lines.last()) {
            Some(e) => prev.push(e),
            None => prev,
        }
    }
}

/// The variables an environment file with the contents `s` sets: one per name, in the order
/// the names first appear, each with the value its last line gives it.
pub open spec fn spec_parse_env_file(s: Seq<char>) -> Seq<(Seq<char>, Seq<char>)> {
    spec_env_extend(Seq::empty(), spec_env_entries(spec_split_lines(s)))
}

fn env_entry(line: &Vec<char>) -> (e: Option<(String, String)>)
    ensures
        match e {
            Some(e) => spec_env_entry(line@) == Some((e.0@, e.1@)),
            None => spec_env_entry(line@) is None,
        },
{
    let (start, end) = trim_bounds(line);
    let t = chars_range(line, start, end);
    if t.len() == 0 || t[0] == '#' {
        return None;
    }
    match find_char_from(&t, '=', 0) {
        Some(i) => {
            proof {
                lemma_find_from(t@, '=', 0);
            }
            Some((string_of_range(&t, 0, i), string_of_range(&t, i + 1, t.len())))
        },
        None => None,
    }
}

/// Parses the contents of an environment file.
///
/// The contents are split at every carriage return and line feed. Each line is trimmed as
/// a whole, blank lines and lines starting with `#` are skipped, and the first `=` splits
/// the rest into a key and a value. Neither side is trimmed, quotes are kept as written,
/// and an `export` prefix is not understood. Later lines win over earlier ones when they
/// are looked up.
pub fn parse_env_file(contents: &str) -> (env: EnvVars)
    ensures
        env@ == spec_parse_env_file(contents@),
{
    let s = chars_of(contents);
    let mut env = EnvVars::new();
    let mut cur: Vec<char> = Vec::new();
    let mut i: usize = 0;
    proof {
        assert(s@.subrange(0, 0) =~= Seq::<char>::empty());
    }
    while i < s.len()
        invariant
            i <= s@.len(),
            s@ == contents@,
            spec_split_lines(s@.subrange(0, i as int)).len() >= 1,
            env@ == spec_env_extend(Seq::empty(), spec_env_entries(spec_split_lines(s@.subrange(0, i as int)).drop_last())),
            cur@ == spec_split_lines(s@.subrange(0, i as int)).last(),
        decreases s@.len() - i,
    {
        let ghost before = spec_split_lines(s@.subrange(0, i as int));
        let c = s[i];
        assert(s@.subrange(0, i + 1).drop_last() =~= s@.subrange(0, i as int));
        if c == '\r' || c == '\n' {
            let e = env_entry(&cur);
            proof {
                let x = spec_env_entries(before.drop_last());
                if let Some(en) = spec_env_entry(before.last()) {
                    assert(x.push(en).drop_last() =~= x);
                }
            }
            if let Some(e) = e {
                env.set(e.0.as_str(), e.1.as_str());
            }
            cur = Vec::new();
            proof {
                let after = spec_split_lines(s@.subrange(0, i + 1));
                assert(after == before.push(Seq::<char>::empty()));
                assert(after.drop_last() =~= before);
                assert(before =~= before.drop_last().push(before.last()));
            }
        } else {
            cur.push(c);
            proof {
                let after = spec_split_lines(s@.subrange(0, i + 1));
                assert(after.drop_last() =~= before.drop_last());
            }
        }
        i += 1;
    }
    let e = env_entry(&cur);
    proof {
        let all = spec_split_lines(s@.subrange(0, s@.len() as int));
        let x = spec_env_entries(all.drop_last());
        if let Some(en) = spec_env_entry(all.last()) {
            assert(x.push(en).drop_last() =~= x);
        }
    }
    if let Some(e) = e {
        env.set(e.0.as_str(), e.1.as_str());
    }
    proof {
        let all = spec_split_lines(s@.subrange(0, s@.len() as int));
        assert(s@.subrange(0, s@.len() as int) =~= s@);
        assert(all =~= all.drop_last().push(all.last()));
    }
    env
}

/// The uFBT home directory used when `UFBT_HOME` is not set: `.ufbt` inside the directory
/// named by `HOME`, or by `USERPROFILE` when `HOME` is absent.
pub open spec fn spec_default_ufbt_home(env: Seq<(Seq<char>, Seq<char>)>, platform: Platform) -> Seq<char> {
    let home = match env_lookup(env, "HOME"@) {
        Some(h) => h,
        None => match env_lookup(env, "USERPROFILE"@) {
            Some(u) => u,
            None => Seq::<char>::empty(),
        },
    };
    spec_join(home, ".ufbt"@, platform)
}

/// Returns the uFBT home directory to use when `UFBT_HOME` is not set: `.ufbt` inside the
/// directory named by `HOME`, or by `USERPROFILE` when `HOME` is absent.
///
/// With neither variable present the result is a bare `.ufbt` under the platform
/// separator, which is what uFBT produces as well. A `HOME` that is set but empty still
/// counts as set.
pub fn default_ufbt_home(env: &EnvVars, platform: Platform) -> (home: String)
    ensures
        home@ == spec_default_ufbt_home(env@, platform),
{
    let base = match env.get("HOME") {
        Some(h) => h,
        None => match env.get("USERPROFILE") {
            Some(u) => u,
            None => "",
        },
    };
    proof {
        reveal_strlit("");
    }
    join(base, ".ufbt", platform)
}

/// The layout uFBT starts with, given the environment variables in effect: `UFBT_HOME`
/// names the home directory, falling back to [`spec_default_ufbt_home`], and
/// `FBT_TOOLCHAIN_PATH` names a separate toolchain location.
pub open spec fn spec_resolved_paths(env: Seq<(Seq<char>, Seq<char>)>, current: Seq<char>, platform: Platform) -> PathsView {
    let home = match env_lookup(env, "UFBT_HOME"@) {
        Some(h) => h,
        None => spec_default_ufbt_home(env, platform),
    };
    PathsView {
        state_dir: spec_absolute(home, current, platform),
        toolchain_path: spec_absolute(
            match env_lookup(env, "FBT_TOOLCHAIN_PATH"@) {
                Some(t) => t,
                None => home,
            },
            current,
            platform,
        ),
        platform,
    }
}

impl Paths {
    /// Builds the layout the way uFBT does when it starts: the environment `env` overlaid
    /// with the variables of the project's environment file `env_file`, then `UFBT_HOME`
    /// for the home directory and `FBT_TOOLCHAIN_PATH` for the toolchain. Values from the
    /// environment file win over the ones already in the environment.
    pub fn resolve(env: &EnvVars, env_file: &EnvVars, current_dir: &str, platform: Platform) -> (paths: Paths)
        ensures
            paths@ == spec_resolved_paths(env@ + env_file@, current_dir@, platform),
    {
        let mut merged = EnvVars::new();
        merged.extend(env);
        assert(Seq::<(Seq<char>, Seq<char>)>::empty() + env@ =~= env@);
        let ghost first = merged@;
        merged.extend(env_file);
        proof {
            assert forall|q: Seq<char>| #[trigger] env_lookup(merged@, q) == env_lookup(env@ + env_file@, q) by {
                lemma_env_overlay(first, env_file@, q);
                lemma_env_overlay(env@, env_file@, q);
            }
            assert(env_lookup(merged@, "HOME"@) == env_lookup(env@ + env_file@, "HOME"@));
            assert(env_lookup(merged@, "USERPROFILE"@) == env_lookup(env@ + env_file@, "USERPROFILE"@));
            assert(env_lookup(merged@, "UFBT_HOME"@) == env_lookup(env@ + env_file@, "UFBT_HOME"@));
            assert(env_lookup(merged@, "FBT_TOOLCHAIN_PATH"@) == env_lookup(env@ + env_file@, "FBT_TOOLCHAIN_PATH"@));
        }
        let default_home = default_ufbt_home(&merged, platform);
        let home = match merged.get("UFBT_HOME") {
            Some(h) => h,
            None => default_home.as_str(),
        };
        let toolchain = merged.get("FBT_TOOLCHAIN_PATH");
        Paths::new(home, toolchain, current_dir, platform)
    }
}

} // verus!

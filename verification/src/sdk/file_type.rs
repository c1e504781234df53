use vstd::prelude::*;
use crate::text::{ascii_lowercase, ascii_upper, is_ascii_text, lowercase, str_eq, to_lowercase};
use super::SdkError;

verus! {

/// Kind of a file offered by the update server for a single firmware version.
///
/// The identifier returned by [`id`](FileType::id) is the value the update server uses in
/// the `type` field of `directory.json`, and the same value the branch listing loader
/// reconstructs from a file name.
#[derive(Debug, Clone, Copy, PartialEq, Eq, Hash, Structural)]
#[non_exhaustive]
pub enum FileType {
    /// Application SDK bundle, `sdk_zip`.
    SdkZip,
    /// Firmware library bundle, `lib_zip`.
    LibZip,
    /// Core2 firmware archive, `core2_firmware_tgz`.
    Core2FirmwareTgz,
    /// Resources archive, `resources_tgz`.
    ResourcesTgz,
    /// Scripts archive, `scripts_tgz`.
    ScriptsTgz,
    /// Update package archive, `update_tgz`.
    UpdateTgz,
    /// Firmware ELF image, `firmware_elf`.
    FirmwareElf,
    /// Full firmware binary, `full_bin`.
    FullBin,
    /// Full firmware DFU image, `full_dfu`.
    FullDfu,
    /// Full firmware JSON descriptor, `full_json`.
    FullJson,
    /// Updater binary, `updater_bin`.
    UpdaterBin,
    /// Updater DFU image, `updater_dfu`.
    UpdaterDfu,
    /// Updater ELF image, `updater_elf`.
    UpdaterElf,
    /// Updater JSON descriptor, `updater_json`.
    UpdaterJson,
}

/// Identifier of a file type as it appears in the directory index.
pub open spec fn spec_file_type_id(t: FileType) -> Seq<char> {
    match t {
        FileType::SdkZip => "sdk_zip"@,
        FileType::LibZip => "lib_zip"@,
        FileType::Core2FirmwareTgz => "core2_firmware_tgz"@,
        FileType::ResourcesTgz => "resources_tgz"@,
        FileType::ScriptsTgz => "scripts_tgz"@,
        FileType::UpdateTgz => "update_tgz"@,
        FileType::FirmwareElf => "firmware_elf"@,
        FileType::FullBin => "full_bin"@,
        FileType::FullDfu => "full_dfu"@,
        FileType::FullJson => "full_json"@,
        FileType::UpdaterBin => "updater_bin"@,
        FileType::UpdaterDfu => "updater_dfu"@,
        FileType::UpdaterElf => "updater_elf"@,
        FileType::UpdaterJson => "updater_json"@,
    }
}

impl FileType {
    /// Every file type, in declaration order.
    pub const ALL: [FileType; 14] = [
        FileType::SdkZip,
        FileType::LibZip,
        FileType::Core2FirmwareTgz,
        FileType::ResourcesTgz,
        FileType::ScriptsTgz,
        FileType::UpdateTgz,
        FileType::FirmwareElf,
        FileType::FullBin,
        FileType::FullDfu,
        FileType::FullJson,
        FileType::UpdaterBin,
        FileType::UpdaterDfu,
        FileType::UpdaterElf,
        FileType::UpdaterJson,
    ];

    /// Identifier of the file type as it appears in the directory index.
    pub fn id(self) -> (id: &'static str)
        ensures
            id@ == spec_file_type_id(self),
    {
        match self {
            FileType::SdkZip => "sdk_zip",
            FileType::LibZip => "lib_zip",
            FileType::Core2FirmwareTgz => "core2_firmware_tgz",
            FileType::ResourcesTgz => "resources_tgz",
            FileType::ScriptsTgz => "scripts_tgz",
            FileType::UpdateTgz => "update_tgz",
            FileType::FirmwareElf => "firmware_elf",
            FileType::FullBin => "full_bin",
            FileType::FullDfu => "full_dfu",
            FileType::FullJson => "full_json",
            FileType::UpdaterBin => "updater_bin",
            FileType::UpdaterDfu => "updater_dfu",
            FileType::UpdaterElf => "updater_elf",
            FileType::UpdaterJson => "updater_json",
        }
    }

    /// The file type whose [`id`](FileType::id) is `id`, if any.
    pub fn by_id(id: &str) -> (t: Option<FileType>)
        ensures
            match t {
                Some(t) => spec_file_type_id(t) == id@,
                None => forall|u: FileType| spec_file_type_id(u) != id@,
            },
    {
        let mut i: usize = 0;
        while i < 14
            invariant
                i <= 14,
                forall|j: int| 0 <= j < i ==> spec_file_type_id(#[trigger] Self::ALL@[j]) != id@,
            decreases 14 - i,
        {
            let t = Self::ALL[i];
            if str_eq(t.id(), id) {
                return Some(t);
            }
            i += 1;
        }
        assert forall|u: FileType| spec_file_type_id(u) != id@ by {
            let j: int = match u {
                FileType::SdkZip => 0,
                FileType::LibZip => 1,
                FileType::Core2FirmwareTgz => 2,
                FileType::ResourcesTgz => 3,
                FileType::ScriptsTgz => 4,
                FileType::UpdateTgz => 5,
                FileType::FirmwareElf => 6,
                FileType::FullBin => 7,
                FileType::FullDfu => 8,
                FileType::FullJson => 9,
                FileType::UpdaterBin => 10,
                FileType::UpdaterDfu => 11,
                FileType::UpdaterElf => 12,
                FileType::UpdaterJson => 13,
            };
            assert(Self::ALL@[j] == u);
        }
        None
    }
}

/// Firmware update channel published by the update server.
#[derive(Debug, Clone, Copy, PartialEq, Eq, Hash, Structural)]
pub enum UpdateChannel {
    /// Development builds, `development`.
    Dev,
    /// Release candidate builds, `release-candidate`.
    Rc,
    /// Stable release builds, `release`.
    Release,
}

/// Identifier of a channel as it appears in the directory index.
pub open spec fn spec_channel_id(c: UpdateChannel) -> Seq<char> {
    match c {
        UpdateChannel::Dev => "development"@,
        UpdateChannel::Rc => "release-candidate"@,
        UpdateChannel::Release => "release"@,
    }
}

/// Short key of a channel.
pub open spec fn spec_channel_key(c: UpdateChannel) -> Seq<char> {
    match c {
        UpdateChannel::Dev => "dev"@,
        UpdateChannel::Rc => "rc"@,
        UpdateChannel::Release => "release"@,
    }
}

/// Upper-case form of the short key of a channel.
pub open spec fn spec_python_name(c: UpdateChannel) -> Seq<char> {
    match c {
        UpdateChannel::Dev => "DEV"@,
        UpdateChannel::Rc => "RC"@,
        UpdateChannel::Release => "RELEASE"@,
    }
}

impl UpdateChannel {
    /// Identifier of the channel as it appears in the directory index.
    pub fn id(self) -> (id: &'static str)
        ensures
            id@ == spec_channel_id(self),
    {
        match self {
            UpdateChannel::Dev => "development",
            UpdateChannel::Rc => "release-candidate",
            UpdateChannel::Release => "release",
        }
    }

    /// Short key of the channel, as accepted by [`by_key`](UpdateChannel::by_key) and as
    /// stored in the persisted deployment state.
    pub fn key(self) -> (key: &'static str)
        ensures
            key@ == spec_channel_key(self),
    {
        match self {
            UpdateChannel::Dev => "dev",
            UpdateChannel::Rc => "rc",
            UpdateChannel::Release => "release",
        }
    }

    /// Upper-case form of [`key`](UpdateChannel::key), the name the channel goes by in
    /// messages such as `Invalid channel: UpdateChannel.RELEASE`.
    pub fn python_name(self) -> (name: &'static str)
        ensures
            name@ == spec_python_name(self),
    {
        match self {
            UpdateChannel::Dev => "DEV",
            UpdateChannel::Rc => "RC",
            UpdateChannel::Release => "RELEASE",
        }
    }

    /// The channel whose [`key`](UpdateChannel::key) is exactly `key`.
    pub fn from_lowered_key(key: &str) -> (c: Option<UpdateChannel>)
        ensures
            match c {
                Some(c) => spec_channel_key(c) == key@,
                None => forall|u: UpdateChannel| spec_channel_key(u) != key@,
            },
    {
        if str_eq("dev", key) {
            Some(UpdateChannel::Dev)
        } else if str_eq("rc", key) {
            Some(UpdateChannel::Rc)
        } else if str_eq("release", key) {
            Some(UpdateChannel::Release)
        } else {
            assert forall|u: UpdateChannel| spec_channel_key(u) != key@ by {
                match u {
                    UpdateChannel::Dev => {},
                    UpdateChannel::Rc => {},
                    UpdateChannel::Release => {},
                }
            }
            None
        }
    }

    /// Resolves a channel from its short [`key`](UpdateChannel::key), ignoring case.
    ///
    /// Returns [`SdkError::InvalidChannel`] when no channel carries the given key. The
    /// error reports the key exactly as it was passed in, not its lower-case form.
    pub fn by_key(key: &str) -> (r: Result<UpdateChannel, SdkError>)
        ensures
            match r {
                Ok(c) => spec_channel_key(c) == lowercase(key@),
                Err(e) => {
                    &&& forall|u: UpdateChannel| spec_channel_key(u) != lowercase(key@)
                    &&& e matches SdkError::InvalidChannel { channel } && channel@ == key@
                },
            },
            is_ascii_text(key@) ==> match r {
                Ok(c) => spec_channel_key(c) == ascii_lowercase(key@),
                Err(_) => forall|u: UpdateChannel| spec_channel_key(u) != ascii_lowercase(key@),
            },
            forall|c: UpdateChannel| #![auto] key@ == spec_channel_key(c) || key@ == spec_python_name(c)
                ==> (r matches Ok(d) && d == c),
    {
        let lowered = to_lowercase(key);
        let found = Self::from_lowered_key(lowered.as_str());
        proof {
            assert forall|c: UpdateChannel| #![auto] key@ == spec_channel_key(c) || key@ == spec_python_name(c)
                implies (found matches Some(d) && d == c) by {
                lemma_channel_spellings(c);
                if let Some(d) = found {
                    lemma_channel_names(d, c);
                }
            }
        }
        match found {
            Some(c) => Ok(c),
            None => Err(SdkError::InvalidChannel { channel: key.to_owned() }),
        }
    }
}

/// The identifiers of the file types are pairwise different, so a type is recovered from
/// its identifier.
pub proof fn lemma_file_type_ids_are_unique(a: FileType, b: FileType)
    ensures
        spec_file_type_id(a) == spec_file_type_id(b) ==> a == b,
{
    reveal_strlit("sdk_zip");
    reveal_strlit("lib_zip");
    reveal_strlit("core2_firmware_tgz");
    reveal_strlit("resources_tgz");
    reveal_strlit("scripts_tgz");
    reveal_strlit("update_tgz");
    reveal_strlit("firmware_elf");
    reveal_strlit("full_bin");
    reveal_strlit("full_dfu");
    reveal_strlit("full_json");
    reveal_strlit("updater_bin");
    reveal_strlit("updater_dfu");
    reveal_strlit("updater_elf");
    reveal_strlit("updater_json");
    if spec_file_type_id(a) == spec_file_type_id(b) {
        let x = spec_file_type_id(a);
        assert(x.len() == spec_file_type_id(b).len());
        assert(x[0] == spec_file_type_id(b)[0]);
        assert(x[x.len() - 1] == spec_file_type_id(b)[x.len() - 1]);
        assert(x[5] == spec_file_type_id(b)[5]);
        assert(x[8] == spec_file_type_id(b)[8]);
    }
}

/// The short key and the upper-case name of a channel are ASCII text that lowers to the
/// short key.
pub proof fn lemma_channel_spellings(c: UpdateChannel)
    ensures
        is_ascii_text(spec_channel_key(c)),
        is_ascii_text(spec_python_name(c)),
        ascii_lowercase(spec_channel_key(c)) == spec_channel_key(c),
        ascii_lowercase(spec_python_name(c)) == spec_channel_key(c),
{
    reveal_strlit("dev");
    reveal_strlit("rc");
    reveal_strlit("release");
    reveal_strlit("DEV");
    reveal_strlit("RC");
    reveal_strlit("RELEASE");
    assert(ascii_lowercase(spec_channel_key(c)) =~= spec_channel_key(c));
    assert(ascii_lowercase(spec_python_name(c)) =~= spec_channel_key(c));
}

/// The upper-case channel names are the short keys with every letter in upper case, and the
/// keys, like the identifiers, tell the channels apart.
pub proof fn lemma_channel_names(c: UpdateChannel, d: UpdateChannel)
    ensures
        spec_python_name(c).len() == spec_channel_key(c).len(),
        forall|i: int| 0 <= i < spec_channel_key(c).len() ==> spec_python_name(c)[i] == ascii_upper(spec_channel_key(c)[i]),
        spec_channel_key(c) == spec_channel_key(d) ==> c == d,
        spec_channel_id(c) == spec_channel_id(d) ==> c == d,
{
    reveal_strlit("dev");
    reveal_strlit("rc");
    reveal_strlit("release");
    reveal_strlit("DEV");
    reveal_strlit("RC");
    reveal_strlit("RELEASE");
    reveal_strlit("development");
    reveal_strlit("release-candidate");
    if spec_channel_key(c) == spec_channel_key(d) {
        assert(spec_channel_key(c).len() == spec_channel_key(d).len());
        assert(spec_channel_key(c)[0] == spec_channel_key(d)[0]);
    }
    if spec_channel_id(c) == spec_channel_id(d) {
        assert(spec_channel_id(c).len() == spec_channel_id(d).len());
    }
}

} // verus!

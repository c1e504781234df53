use vstd::prelude::*;
use crate::text::str_eq;

verus! {

/// Spec-level picture of a [`ToolchainInfo`].
pub struct ToolchainInfoView {
    /// Directory of the toolchain for this architecture.
    pub arch_dir: Seq<char>,
    /// Version the SDK asks for.
    pub version: Seq<char>,
    /// Address the wanted version is published under.
    pub url: Seq<char>,
    /// Version recorded by the deployed toolchain.
    pub installed_version: Option<Seq<char>>,
    /// Whether the toolchain directory exists.
    pub is_deployed: bool,
}

/// State of the ARM GCC toolchain in the uFBT home directory.
#[derive(Debug, Clone, PartialEq, Eq)]
pub struct ToolchainInfo {
    arch_dir: String,
    version: String,
    url: String,
    installed_version: Option<String>,
    is_deployed: bool,
}

impl View for ToolchainInfo {
    type V = ToolchainInfoView;

    closed spec fn view(&self) -> ToolchainInfoView {
        ToolchainInfoView {
            arch_dir: self.arch_dir@,
            version: self.version@,
            url: self.url@,
            installed_version: match self.installed_version {
                Some(v) => Some(v@),
                None => None,
            },
            is_deployed: self.is_deployed,
        }
    }
}

impl ToolchainInfo {
    /// Describes a toolchain by the directory it lives in, the version that is wanted, the
    /// URL it is published under, the version that is actually installed and whether the
    /// directory exists at all.
    pub fn new(arch_dir: &str, version: &str, url: &str, installed_version: Option<&str>, is_deployed: bool) -> (info: ToolchainInfo)
        ensures
            info@ == (ToolchainInfoView {
                arch_dir: arch_dir@,
                version: version@,
                url: url@,
                installed_version: match installed_version {
                    Some(v) => Some(v@),
                    None => None,
                },
                is_deployed,
            }),
    {
        ToolchainInfo {
            arch_dir: arch_dir.to_owned(),
            version: version.to_owned(),
            url: url.to_owned(),
            installed_version: match installed_version {
                Some(v) => Some(v.to_owned()),
                None => None,
            },
            is_deployed,
        }
    }

    /// Directory the toolchain for the current architecture is unpacked into.
    pub fn arch_dir(&self) -> (r: &str)
        ensures
            r@ == self@.arch_dir,
    {
        self.arch_dir.as_str()
    }

    /// Version the SDK asks for.
    pub fn version(&self) -> (r: &str)
        ensures
            r@ == self@.version,
    {
        self.version.as_str()
    }

    /// URL the wanted version is downloaded from.
    pub fn url(&self) -> (r: &str)
        ensures
            r@ == self@.url,
    {
        self.url.as_str()
    }

    /// Version recorded in the `VERSION` file of the deployed toolchain, or [`None`] when
    /// that file is absent or unreadable.
    pub fn installed_version(&self) -> (r: Option<&str>)
        ensures
            match r {
                Some(v) => self@.installed_version == Some(v@),
                None => self@.installed_version is None,
            },
    {
        match &self.installed_version {
            Some(v) => Some(v.as_str()),
            None => None,
        }
    }

    /// Whether the toolchain directory exists.
    pub fn is_deployed(&self) -> (r: bool)
        ensures
            r == self@.is_deployed,
    {
        self.is_deployed
    }

    /// Whether the deployed toolchain is the one the SDK asks for: the directory exists and
    /// its recorded version is the wanted one.
    pub fn is_up_to_date(&self) -> (r: bool)
        ensures
            r == (self@.is_deployed && self@.installed_version == Some(self@.version)),
    {
        self.is_deployed && match &self.installed_version {
            Some(v) => str_eq(v.as_str(), self.version.as_str()),
            None => false,
        }
    }
}

} // verus!

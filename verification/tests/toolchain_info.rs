use std::cell::RefCell;

use ufbt::paths::{Paths, Platform};
use ufbt::toolchain::deployer::{
    arch_dir_name, dist_dir_name, exit_code, removed_by_cleanup, requested_version,
    tar_failure_message,
};
use ufbt::toolchain::{ToolchainDeployer, ToolchainInfo};

/// A uFBT home directory as the deployer sees it: the contents of the toolchain script of
/// the current SDK, whether the toolchain directory exists and what its `VERSION` file
/// holds.
struct Harness {
    paths: Paths,
    platform: Platform,
    script: RefCell<Option<String>>,
    deployed: RefCell<bool>,
    version_file: RefCell<Option<String>>,
}

impl Harness {
    fn new() -> Self {
        Self::on(Platform::Unix)
    }

    fn on(platform: Platform) -> Self {
        let home = match platform {
            Platform::Unix => "/home/u/.ufbt",
            Platform::Windows => "C:\\Users\\u\\.ufbt",
        };
        Self {
            paths: Paths::new(home, None, home, platform),
            platform,
            script: RefCell::new(None),
            deployed: RefCell::new(false),
            version_file: RefCell::new(None),
        }
    }

    fn deployer(&self) -> ToolchainDeployer {
        ToolchainDeployer::new(self.paths.clone())
    }

    fn arch_name(&self) -> String {
        arch_dir_name("x86_64", "Linux\n", self.platform)
    }

    fn arch_dir(&self) -> String {
        self.paths.toolchain_arch_dir(&self.arch_name())
    }

    fn write_script(&self, contents: &str) {
        *self.script.borrow_mut() = Some(contents.to_owned());
    }

    fn create_arch_dir(&self) {
        *self.deployed.borrow_mut() = true;
    }

    fn write_version_file(&self, contents: &str) {
        self.create_arch_dir();
        *self.version_file.borrow_mut() = Some(contents.to_owned());
    }

    fn version(&self, env_value: Option<&str>) -> String {
        self.deployer()
            .toolchain_version(env_value, self.script.borrow().as_deref())
    }

    fn status(&self, env_value: Option<&str>) -> ToolchainInfo {
        let version = self.version(env_value);
        self.deployer().status(
            &version,
            &self.arch_name(),
            self.version_file.borrow().as_deref(),
            *self.deployed.borrow(),
        )
    }
}

fn script_naming_42(platform: Platform) -> &'static str {
    match platform {
        Platform::Windows => "set FLIPPER_TOOLCHAIN_VERSION=42\r\n",
        Platform::Unix => "FBT_TOOLCHAIN_VERSION=\"42\"\n",
    }
}

#[test]
fn the_architecture_directory_is_named_after_the_platform() {
    assert_eq!(
        arch_dir_name("x86_64", "Linux", Platform::Windows),
        "x86_64-windows"
    );
    let name = arch_dir_name(" arm64\n", "Darwin\n", Platform::Unix);
    assert_eq!(name, "arm64-darwin");
    let (machine, system) = name.split_once('-').unwrap();
    assert!(!machine.is_empty());
    assert_eq!(system, system.to_lowercase());
    assert!(!system.is_empty());
}

#[test]
fn the_version_falls_back_when_no_script_is_installed() {
    let harness = Harness::new();

    assert_eq!(harness.version(None), "39");
    assert_eq!(ToolchainDeployer::FALLBACK_VERSION, "39");
}

#[test]
fn the_environment_overrides_the_script() {
    let harness = Harness::new();
    harness.write_script(script_naming_42(Platform::Unix));

    assert_eq!(harness.version(Some("57")), "57");
}

#[test]
fn an_empty_environment_variable_is_ignored() {
    let harness = Harness::new();
    harness.write_script(script_naming_42(Platform::Unix));

    assert_eq!(harness.version(Some("")), "42");
}

#[test]
fn a_version_the_script_does_not_name_falls_back() {
    let harness = Harness::new();
    harness.write_script("echo nothing to see here\n");

    assert_eq!(harness.version(None), "39");
}

#[test]
fn the_version_is_read_from_the_shell_script() {
    let harness = Harness::new();
    harness.write_script(
        "#!/bin/bash\n\
         FBT_TOOLCHAIN_PATH_WARNING=0\n\
         FBT_TOOLCHAIN_VERSION=\"${FBT_TOOLCHAIN_VERSION:-\"42\"}\"\n\
         FBT_TOOLCHAIN_VERSION=\"99\"\n",
    );

    assert_eq!(harness.version(None), "42");
}

#[test]
fn a_shell_assignment_without_quotes_is_not_a_version() {
    let harness = Harness::new();
    harness.write_script("FBT_TOOLCHAIN_VERSION=42\n");

    assert_eq!(harness.version(None), "39");
}

#[test]
fn the_version_is_read_from_the_batch_script() {
    let harness = Harness::on(Platform::Windows);
    harness.write_script(
        "@echo off\r\n\
         set FLIPPER_TOOLCHAIN_VERSION=42\r\n\
         set FLIPPER_TOOLCHAIN_VERSION=99\r\n",
    );

    assert_eq!(harness.version(None), "42");
}

#[test]
fn the_url_names_the_platform_the_version_and_the_archive_format() {
    let harness = Harness::new();
    let deployer = harness.deployer();
    let arch = harness.arch_name();

    assert_eq!(
        deployer.toolchain_url(&arch, "39"),
        format!(
            "https://update.flipperzero.one/builds/toolchain\
             /gcc-arm-none-eabi-12.3-{arch}-flipper-39.tar.gz"
        )
    );
    let windows = Harness::on(Platform::Windows);
    assert_eq!(
        windows.deployer().toolchain_url("x86_64-windows", "39"),
        "https://update.flipperzero.one/builds/toolchain\
         /gcc-arm-none-eabi-12.3-x86_64-windows-flipper-39.zip"
    );
    assert_eq!(
        ToolchainDeployer::URL_ROOT,
        "https://update.flipperzero.one/builds/toolchain"
    );
}

#[test]
fn a_missing_toolchain_directory_is_not_deployed() {
    let harness = Harness::new();
    let info = harness.status(None);

    assert_eq!(info.arch_dir(), harness.arch_dir());
    assert_eq!(info.version(), "39");
    assert_eq!(
        info.url(),
        harness.deployer().toolchain_url(&harness.arch_name(), "39")
    );
    assert_eq!(info.installed_version(), None);
    assert!(!info.is_deployed());
    assert!(!info.is_up_to_date());
}

#[test]
fn a_toolchain_directory_without_a_version_file_is_deployed_but_not_current() {
    let harness = Harness::new();
    harness.create_arch_dir();

    let info = harness.status(None);

    assert!(info.is_deployed());
    assert_eq!(info.installed_version(), None);
    assert!(!info.is_up_to_date());
}

#[test]
fn the_installed_version_is_read_from_the_version_file() {
    let harness = Harness::new();
    harness.write_version_file("  39 \n");

    let info = harness.status(None);

    assert_eq!(info.installed_version(), Some("39"));
    assert!(info.is_up_to_date());
}

#[test]
fn an_installed_version_that_differs_is_not_up_to_date() {
    let harness = Harness::new();
    harness.write_version_file("38\n");

    let info = harness.status(Some("39"));

    assert_eq!(info.version(), "39");
    assert_eq!(info.installed_version(), Some("38"));
    assert!(info.is_deployed());
    assert!(!info.is_up_to_date());
}

#[test]
fn a_toolchain_that_is_not_deployed_is_never_up_to_date() {
    let info = ToolchainInfo::new("/toolchain/x86_64-linux", "39", "", Some("39"), false);

    assert!(!info.is_up_to_date());
    assert_eq!(info.arch_dir(), "/toolchain/x86_64-linux");
}

#[test]
fn the_unpacked_directory_drops_the_version_suffix() {
    assert_eq!(
        dist_dir_name(
            "gcc-arm-none-eabi-12.3-x86_64-linux-flipper-39.tar.gz",
            "39",
            Platform::Unix
        ),
        "gcc-arm-none-eabi-12.3-x86_64-linux-flipper"
    );
    assert_eq!(
        dist_dir_name(
            "gcc-arm-none-eabi-12.3-x86_64-windows-flipper-39.zip",
            "39",
            Platform::Windows
        ),
        "gcc-arm-none-eabi-12.3-x86_64-windows-flipper"
    );
    assert_eq!(
        dist_dir_name("toolchain-39.zip", "39", Platform::Unix),
        "toolchain-39.zip"
    );
}

#[test]
fn cleanup_removes_partial_downloads_and_unpreserved_archives() {
    assert!(removed_by_cleanup("gcc.tar.gz.part", "1"));
    assert!(removed_by_cleanup("gcc.tar.gz", ""));
    assert!(!removed_by_cleanup("gcc.tar.gz", "1"));
    assert!(!removed_by_cleanup("x86_64-linux", ""));
}

#[test]
fn a_process_reports_its_code_or_its_negated_signal() {
    assert_eq!(exit_code(Some(2), Some(9)), 2);
    assert_eq!(exit_code(None, Some(9)), -9);
    assert_eq!(exit_code(None, None), -1);
    assert_eq!(tar_failure_message(-9), "tar exited with -9");
}

#[test]
fn the_home_directory_hosts_the_toolchain() {
    let harness = Harness::new();
    assert_eq!(harness.arch_dir(), "/home/u/.ufbt/toolchain/x86_64-linux");
}

#[test]
fn a_captured_version_is_group_one_unless_the_environment_names_one() {
    let captured = vec![Some("V=\"42\"".to_owned()), Some("42".to_owned())];
    assert_eq!(requested_version(None, Some(&captured)), "42");
    assert_eq!(requested_version(Some("57"), Some(&captured)), "57");
    assert_eq!(requested_version(Some(""), Some(&captured)), "42");
    assert_eq!(requested_version(None, Some(&vec![Some("x".to_owned())])), "39");
    assert_eq!(requested_version(None, Some(&vec![Some("x".to_owned()), None])), "39");
    assert_eq!(requested_version(None, None), "39");
}

use ufbt::paths::{Paths, Platform};
use ufbt::toolchain::{
    DeployAction, DeployPlan, ToolchainDeployer, ToolchainInfo, UnixStage, WindowsStage,
};

fn unix_plan() -> DeployPlan<String> {
    let paths = Paths::new("/home/u/.ufbt", None, "/work", Platform::Unix);
    let deployer = ToolchainDeployer::new(paths);
    let info = deployer.status("39", "x86_64-linux", None, false);
    deployer.deploy_plan(&info)
}

fn windows_plan() -> DeployPlan<String> {
    let paths = Paths::new("C:\\Users\\u\\.ufbt", None, "C:\\work", Platform::Windows);
    let deployer = ToolchainDeployer::new(paths);
    let info = deployer.status("39", "x86_64-windows", None, false);
    deployer.deploy_plan(&info)
}

/// Runs a deployment, answering every query from `answers` in turn, and returns the lines
/// said and the outcome.
fn run_unix(plan: &DeployPlan<String>, answers: &[bool]) -> (Vec<String>, Vec<DeployAction<String>>, bool) {
    let mut stage = UnixStage::Start;
    let mut answer = false;
    let mut answers = answers.iter();
    let mut said = Vec::new();
    let mut done = Vec::new();
    loop {
        let (next, batch) = plan.unix_step(stage, answer);
        for action in batch {
            match &action {
                DeployAction::Say { text, .. } => said.push(text.clone()),
                DeployAction::Finish(deployed) => return (said, done, *deployed),
                _ => {}
            }
            done.push(action);
        }
        stage = next;
        answer = *answers.next().expect("an answer for every query");
    }
}

fn run_windows(plan: &DeployPlan<String>, answers: &[bool]) -> (Vec<String>, Vec<DeployAction<String>>, bool) {
    let mut stage = WindowsStage::Start;
    let mut answer = false;
    let mut answers = answers.iter();
    let mut said = Vec::new();
    let mut done = Vec::new();
    loop {
        let (next, batch) = plan.windows_step(stage, answer);
        for action in batch {
            match &action {
                DeployAction::Say { text, .. } => said.push(text.clone()),
                DeployAction::Finish(deployed) => return (said, done, *deployed),
                _ => {}
            }
            done.push(action);
        }
        stage = next;
        answer = *answers.next().expect("an answer for every query");
    }
}

#[test]
fn a_unix_plan_names_the_archive_and_the_directories() {
    let plan = unix_plan();
    assert_eq!(
        plan.url,
        "https://update.flipperzero.one/builds/toolchain/gcc-arm-none-eabi-12.3-x86_64-linux-flipper-39.tar.gz"
    );
    assert_eq!(plan.archive_dir, "/home/u/.ufbt/toolchain");
    assert_eq!(
        plan.archive_file,
        "/home/u/.ufbt/toolchain/gcc-arm-none-eabi-12.3-x86_64-linux-flipper-39.tar.gz"
    );
    assert_eq!(plan.arch_dir, "/home/u/.ufbt/toolchain/x86_64-linux");
    assert_eq!(plan.current_link, "/home/u/.ufbt/toolchain/current");
    assert_eq!(
        plan.dist_dir,
        "/home/u/.ufbt/toolchain/gcc-arm-none-eabi-12.3-x86_64-linux-flipper"
    );
}

#[test]
fn a_downloaded_archive_is_unpacked_linked_and_removed() {
    let plan = unix_plan();
    let (said, done, deployed) = run_unix(&plan, &[true, true, false, false, true, true]);

    assert!(deployed);
    assert_eq!(
        said,
        vec![
            "Checking for tar..".to_owned(),
            "yes".to_owned(),
            "Checking if downloaded toolchain tgz exists..".to_owned(),
            "yes".to_owned(),
            "Removing old toolchain..".to_owned(),
            "done".to_owned(),
            "Unpacking toolchain to '/home/u/.ufbt/toolchain':".to_owned(),
            "linking toolchain to 'current'..".to_owned(),
            "done".to_owned(),
            "Cleaning up..".to_owned(),
            "done".to_owned(),
        ]
    );
    assert!(done.contains(&DeployAction::Symlink {
        target: plan.arch_dir.clone(),
        link: plan.current_link.clone(),
    }));
    assert!(done.contains(&DeployAction::Cleanup(plan.toolchain_dir.clone())));
    assert!(!done.iter().any(|action| matches!(action, DeployAction::Download { .. })));
}

#[test]
fn a_missing_archive_is_downloaded_through_a_part_file_and_old_files_are_removed() {
    let plan = unix_plan();
    let (said, done, deployed) = run_unix(&plan, &[true, false, true, true, true, true, true]);

    assert!(deployed);
    assert_eq!(&said[3..6], ["no", "Downloading toolchain:", "done"]);
    assert!(done.contains(&DeployAction::Download {
        url: plan.url.clone(),
        dir: plan.archive_dir.clone(),
        part_file: true,
    }));
    assert!(done.contains(&DeployAction::RemoveDirAll(plan.arch_dir.clone())));
    assert!(done.contains(&DeployAction::RemoveFile(plan.current_link.clone())));
}

#[test]
fn a_deployment_without_tar_reports_it_and_stops() {
    let (said, done, deployed) = run_unix(&unix_plan(), &[false]);

    assert!(!deployed);
    assert_eq!(said, vec!["Checking for tar..".to_owned(), "no".to_owned()]);
    assert_eq!(done.len(), 3);
}

#[test]
fn a_failed_download_is_reported_and_stops_the_deployment() {
    let plan = unix_plan();
    let (said, _, deployed) = run_unix(&plan, &[true, false, false]);

    assert!(!deployed);
    assert_eq!(said.last().unwrap(), &format!("Failed to download {}", plan.url));
}

#[test]
fn an_archive_without_the_expected_directory_fails_the_deployment() {
    let (said, done, deployed) = run_unix(&unix_plan(), &[true, true, false, false, true, false]);

    assert!(!deployed);
    assert!(!said.contains(&"linking toolchain to 'current'..".to_owned()));
    assert!(!done.iter().any(|action| matches!(action, DeployAction::Symlink { .. })));
}

#[test]
fn a_windows_plan_unpacks_next_to_the_sdk() {
    let plan = windows_plan();
    assert_eq!(plan.archive_dir, "C:\\Users\\u\\.ufbt\\current");
    assert_eq!(
        plan.dist_dir,
        "C:\\Users\\u\\.ufbt\\current\\gcc-arm-none-eabi-12.3-x86_64-windows-flipper"
    );

    let (said, done, deployed) = run_windows(&plan, &[true, true, false, true, true, true, true, true]);
    assert!(deployed);
    assert_eq!(
        said,
        vec![
            "Removing old Windows toolchain..".to_owned(),
            "done!".to_owned(),
            "Unlinking 'current'..".to_owned(),
            "done!".to_owned(),
            "Downloading Windows toolchain..".to_owned(),
            "done!".to_owned(),
            "Cleaning up temp toolchain path..".to_owned(),
            "Extracting Windows toolchain..".to_owned(),
            "moving..".to_owned(),
            "linking to 'current'..".to_owned(),
            "done!".to_owned(),
            "Cleaning up temporary files..".to_owned(),
            "done!".to_owned(),
        ]
    );
    assert!(done.contains(&DeployAction::RemoveLink(plan.current_link.clone())));
    assert!(done.contains(&DeployAction::RemoveFile(plan.archive_file.clone())));
}

#[test]
fn a_failed_windows_download_reports_the_error() {
    let (said, done, deployed) = run_windows(&windows_plan(), &[false, false, false, false]);
    assert!(!deployed);
    assert_eq!(
        said,
        vec!["Downloading Windows toolchain..".to_owned(), "An error occurred".to_owned()]
    );
    assert_eq!(done.last(), Some(&DeployAction::SayDownloadError));
}

#[test]
fn the_info_a_plan_is_made_from_is_the_status_of_the_toolchain() {
    let info = ToolchainInfo::new("/t/x86_64-linux", "39", "http://host/a/b-39.tar.gz", None, false);
    let deployer = ToolchainDeployer::new(Paths::new("/t", None, "/", Platform::Unix));
    let plan = deployer.deploy_plan(&info);
    assert_eq!(plan.archive_file, "/t/toolchain/b-39.tar.gz");
    assert_eq!(plan.dist_dir, "/t/toolchain/b");
    assert_eq!(plan.arch_dir, "/t/x86_64-linux");
}

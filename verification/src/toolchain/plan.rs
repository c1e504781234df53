//! The course of a toolchain deployment: what to check, download, remove, unpack and link,
//! in which order, and what to report, decided step by step from the answers of whoever
//! carries the steps out.
use vstd::prelude::*;
use vstd::string::*;
use crate::paths::{join, spec_join, Platform, PathsView, TOOLCHAIN_SUBDIR};
use crate::text::{concat, spec_replace};
use crate::toolchain::deployer::{archive_name, dist_dir_name, spec_archive_name, spec_version_suffix, ToolchainDeployer};
use crate::toolchain::info::{ToolchainInfo, ToolchainInfoView};

verus! {

/// One thing a deployment asks to be done, naming its paths and texts by `S`: [`String`]
/// for the steps handed out, `Seq<char>` for what they say.
#[derive(Debug, Clone, PartialEq, Eq)]
pub enum DeployAction<S> {
    /// Write `text` to the log, then a line break where `newline` is set.
    Say { text: S, newline: bool },
    /// Write the text of the error the last download failed with, then a line break.
    SayDownloadError,
    /// Find out whether `tar` can be run. Answered: it can.
    CheckTar,
    /// Answered: a file exists at the path.
    IsFile(S),
    /// Answered: a directory exists at the path.
    IsDir(S),
    /// Answered: something, a dangling link included, exists at the path.
    Exists(S),
    /// Download `url` into `dir`, through a `.part` file where `part_file` is set.
    /// Answered: the download succeeded.
    Download { url: S, dir: S, part_file: bool },
    /// Remove the directory at the path with everything in it.
    RemoveDirAll(S),
    /// Remove the file or link at the path.
    RemoveFile(S),
    /// Remove the link at the path, whether it points at a file or a directory.
    RemoveLink(S),
    /// Create the directory at the path and every missing parent.
    CreateDirAll(S),
    /// Unpack the tar archive `archive` into `dir`, reporting progress. Answered: `tar`
    /// succeeded.
    UnpackTar { archive: S, dir: S },
    /// Unpack the zip archive `archive` into `dir`, reporting progress. Answered: every
    /// entry was unpacked.
    UnpackZip { archive: S, dir: S },
    /// Move `from` to `to`.
    Rename { from: S, to: S },
    /// Make `link` a symbolic link to the directory `target`.
    Symlink { target: S, link: S },
    /// Remove the partial downloads, and the archives unless they are to be preserved, from
    /// the directory at the path.
    Cleanup(S),
    /// The deployment is over; `deployed` tells whether the toolchain is in place.
    Finish(bool),
}

/// The text of a path or message.
pub open spec fn action_view(a: DeployAction<String>) -> DeployAction<Seq<char>> {
    match a {
        DeployAction::Say { text, newline } => DeployAction::Say { text: text@, newline },
        DeployAction::SayDownloadError => DeployAction::SayDownloadError,
        DeployAction::CheckTar => DeployAction::CheckTar,
        DeployAction::IsFile(p) => DeployAction::IsFile(p@),
        DeployAction::IsDir(p) => DeployAction::IsDir(p@),
        DeployAction::Exists(p) => DeployAction::Exists(p@),
        DeployAction::Download { url, dir, part_file } => DeployAction::Download {
            url: url@,
            dir: dir@,
            part_file,
        },
        DeployAction::RemoveDirAll(p) => DeployAction::RemoveDirAll(p@),
        DeployAction::RemoveFile(p) => DeployAction::RemoveFile(p@),
        DeployAction::RemoveLink(p) => DeployAction::RemoveLink(p@),
        DeployAction::CreateDirAll(p) => DeployAction::CreateDirAll(p@),
        DeployAction::UnpackTar { archive, dir } => DeployAction::UnpackTar {
            archive: archive@,
            dir: dir@,
        },
        DeployAction::UnpackZip { archive, dir } => DeployAction::UnpackZip {
            archive: archive@,
            dir: dir@,
        },
        DeployAction::Rename { from, to } => DeployAction::Rename { from: from@, to: to@ },
        DeployAction::Symlink { target, link } => DeployAction::Symlink {
            target: target@,
            link: link@,
        },
        DeployAction::Cleanup(p) => DeployAction::Cleanup(p@),
        DeployAction::Finish(b) => DeployAction::Finish(b),
    }
}

/// What a list of actions asks, in order.
pub open spec fn actions_view(actions: Seq<DeployAction<String>>) -> Seq<DeployAction<Seq<char>>> {
    actions.map_values(|a: DeployAction<String>| action_view(a))
}

/// Whether an action is answered: the next step is decided by its outcome.
pub open spec fn is_query<S>(a: DeployAction<S>) -> bool {
    match a {
        DeployAction::CheckTar | DeployAction::IsFile(_) | DeployAction::IsDir(_)
        | DeployAction::Exists(_) | DeployAction::Download { .. } | DeployAction::UnpackTar { .. }
        | DeployAction::UnpackZip { .. } => true,
        _ => false,
    }
}

/// Whether a batch of actions is one step of a deployment: a query or the end of the
/// deployment comes last, and nowhere before.
pub open spec fn is_step_batch<S>(batch: Seq<DeployAction<S>>) -> bool {
    &&& batch.len() > 0
    &&& is_query(batch.last()) || batch.last() is Finish
    &&& forall|i: int| 0 <= i < batch.len() - 1 ==> !is_query(#[trigger] batch[i]) && !(batch[i] is Finish)
}

/// The paths and the address a deployment works with.
#[derive(Debug, Clone, PartialEq, Eq)]
pub struct DeployPlan<S> {
    /// Address the toolchain archive is downloaded from.
    pub url: S,
    /// Directory the archive is downloaded into and, on Windows, unpacked into.
    pub archive_dir: S,
    /// Path of the downloaded archive.
    pub archive_file: S,
    /// Directory the toolchain of this machine ends up in.
    pub arch_dir: S,
    /// Directory the toolchains live in.
    pub toolchain_dir: S,
    /// Link naming the toolchain in use.
    pub current_link: S,
    /// Directory the archive unpacks into.
    pub dist_dir: S,
}

impl View for DeployPlan<String> {
    type V = DeployPlan<Seq<char>>;

    open spec fn view(&self) -> DeployPlan<Seq<char>> {
        DeployPlan {
            url: self.url@,
            archive_dir: self.archive_dir@,
            archive_file: self.archive_file@,
            arch_dir: self.arch_dir@,
            toolchain_dir: self.toolchain_dir@,
            current_link: self.current_link@,
            dist_dir: self.dist_dir@,
        }
    }
}

/// Progress of a deployment on Unix: which answer the next step waits for.
#[derive(Debug, Clone, Copy, PartialEq, Eq, Structural)]
pub enum UnixStage {
    /// Nothing was done yet.
    Start,
    /// Waiting to learn whether `tar` runs.
    TarChecked,
    /// Waiting to learn whether the archive was downloaded before.
    ArchiveChecked,
    /// Waiting to learn whether the download succeeded.
    Downloaded,
    /// Waiting to learn whether an old toolchain is in place.
    OldToolchainChecked,
    /// Waiting to learn whether the `current` link exists.
    LinkChecked,
    /// Waiting to learn whether `tar` succeeded.
    Unpacked,
    /// Waiting to learn whether the archive held the expected directory.
    DistChecked,
    /// The deployment is over.
    Done,
}

/// Progress of a deployment on Windows: which answer the next step waits for.
#[derive(Debug, Clone, Copy, PartialEq, Eq, Structural)]
pub enum WindowsStage {
    /// Nothing was done yet.
    Start,
    /// Waiting to learn whether an old toolchain is in place.
    OldToolchainChecked,
    /// Waiting to learn whether the `current` link exists.
    LinkChecked,
    /// Waiting to learn whether the archive was downloaded before.
    ArchiveChecked,
    /// Waiting to learn whether the download succeeded.
    Downloaded,
    /// Waiting to learn whether a directory from an earlier unpacking is in the way.
    DistChecked,
    /// Waiting to learn whether the archive was unpacked.
    Unpacked,
    /// Waiting to learn whether the archive held the expected directory.
    Moved,
    /// Waiting to learn whether the archive is still there to be removed.
    ArchiveLeftChecked,
    /// The deployment is over.
    Done,
}

/// A log line.
pub open spec fn say(text: Seq<char>) -> DeployAction<Seq<char>> {
    DeployAction::Say { text, newline: true }
}

/// Log text that the next log text continues on the same line.
pub open spec fn say_part(text: Seq<char>) -> DeployAction<Seq<char>> {
    DeployAction::Say { text, newline: false }
}

/// `batch` where `cond` holds, else nothing.
pub open spec fn when<S>(cond: bool, batch: Seq<DeployAction<S>>) -> Seq<DeployAction<S>> {
    if cond {
        batch
    } else {
        Seq::empty()
    }
}

/// One step of a deployment on Unix: the next stage and the actions to carry out, given the
/// answer to the last query of the previous step.
///
/// `tar` must run; a missing archive is downloaded through a `.part` file; the old
/// toolchain and the `current` link are removed; the archive is unpacked into the toolchain
/// directory, the directory it holds is moved into place and linked as `current`, and the
/// toolchain directory is cleaned up.
pub open spec fn spec_unix_step(p: DeployPlan<Seq<char>>, stage: UnixStage, answer: bool) -> (UnixStage, Seq<DeployAction<Seq<char>>>) {
    let removal = seq![say_part("Removing old toolchain.."@), DeployAction::IsDir(p.arch_dir)];
    match stage {
        UnixStage::Start => (
            UnixStage::TarChecked,
            seq![say_part("Checking for tar.."@), DeployAction::CheckTar],
        ),
        UnixStage::TarChecked => if !answer {
            (UnixStage::Done, seq![say("no"@), DeployAction::Finish(false)])
        } else {
            (
                UnixStage::ArchiveChecked,
                seq![
                    say("yes"@),
                    say_part("Checking if downloaded toolchain tgz exists.."@),
                    DeployAction::IsFile(p.archive_file),
                ],
            )
        },
        UnixStage::ArchiveChecked => if answer {
            (UnixStage::OldToolchainChecked, seq![say("yes"@)] + removal)
        } else {
            (
                UnixStage::Downloaded,
                seq![
                    say("no"@),
                    say("Downloading toolchain:"@),
                    DeployAction::Download { url: p.url, dir: p.archive_dir, part_file: true },
                ],
            )
        },
        UnixStage::Downloaded => if !answer {
            (
                UnixStage::Done,
                seq![say("Failed to download "@ + p.url), DeployAction::Finish(false)],
            )
        } else {
            (UnixStage::OldToolchainChecked, seq![say("done"@)] + removal)
        },
        UnixStage::OldToolchainChecked => (
            UnixStage::LinkChecked,
            when(answer, seq![DeployAction::RemoveDirAll(p.arch_dir)]) + seq![
                say("done"@),
                say("Unpacking toolchain to '"@ + p.toolchain_dir + "':"@),
                DeployAction::Exists(p.current_link),
            ],
        ),
        UnixStage::LinkChecked => (
            UnixStage::Unpacked,
            when(answer, seq![DeployAction::RemoveFile(p.current_link)]) + seq![
                DeployAction::CreateDirAll(p.toolchain_dir),
                DeployAction::UnpackTar { archive: p.archive_file, dir: p.toolchain_dir },
            ],
        ),
        UnixStage::Unpacked => if !answer {
            (UnixStage::Done, seq![DeployAction::Finish(false)])
        } else {
            (UnixStage::DistChecked, seq![DeployAction::IsDir(p.dist_dir)])
        },
        UnixStage::DistChecked => if !answer {
            (UnixStage::Done, seq![DeployAction::Finish(false)])
        } else {
            (
                UnixStage::Done,
                seq![
                    DeployAction::Rename { from: p.dist_dir, to: p.arch_dir },
                    say_part("linking toolchain to 'current'.."@),
                    DeployAction::Symlink { target: p.arch_dir, link: p.current_link },
                    say("done"@),
                    say_part("Cleaning up.."@),
                    DeployAction::Cleanup(p.toolchain_dir),
                    say("done"@),
                    DeployAction::Finish(true),
                ],
            )
        },
        UnixStage::Done => (UnixStage::Done, Seq::empty()),
    }
}

/// One step of a deployment on Windows: the next stage and the actions to carry out, given
/// the answer to the last query of the previous step.
///
/// The old toolchain and the `current` link are removed; a missing archive is downloaded;
/// the archive is unpacked next to it, the directory it holds is moved into place and
/// linked as `current`, and the archive is removed.
pub open spec fn spec_windows_step(p: DeployPlan<Seq<char>>, stage: WindowsStage, answer: bool) -> (WindowsStage, Seq<DeployAction<Seq<char>>>) {
    let unpack = seq![DeployAction::CreateDirAll(p.toolchain_dir), DeployAction::IsDir(p.dist_dir)];
    match stage {
        WindowsStage::Start => (WindowsStage::OldToolchainChecked, seq![DeployAction::IsDir(p.arch_dir)]),
        WindowsStage::OldToolchainChecked => (
            WindowsStage::LinkChecked,
            when(
                answer,
                seq![
                    say_part("Removing old Windows toolchain.."@),
                    DeployAction::RemoveDirAll(p.arch_dir),
                    say("done!"@),
                ],
            ) + seq![DeployAction::Exists(p.current_link)],
        ),
        WindowsStage::LinkChecked => (
            WindowsStage::ArchiveChecked,
            when(
                answer,
                seq![
                    say_part("Unlinking 'current'.."@),
                    DeployAction::RemoveLink(p.current_link),
                    say("done!"@),
                ],
            ) + seq![DeployAction::IsFile(p.archive_file)],
        ),
        WindowsStage::ArchiveChecked => if answer {
            (WindowsStage::DistChecked, unpack)
        } else {
            (
                WindowsStage::Downloaded,
                seq![
                    say_part("Downloading Windows toolchain.."@),
                    DeployAction::Download { url: p.url, dir: p.archive_dir, part_file: false },
                ],
            )
        },
        WindowsStage::Downloaded => if !answer {
            (
                WindowsStage::Done,
                seq![
                    say("An error occurred"@),
                    DeployAction::SayDownloadError,
                    DeployAction::Finish(false),
                ],
            )
        } else {
            (WindowsStage::DistChecked, seq![say("done!"@)] + unpack)
        },
        WindowsStage::DistChecked => (
            WindowsStage::Unpacked,
            when(
                answer,
                seq![say("Cleaning up temp toolchain path.."@), DeployAction::RemoveDirAll(p.dist_dir)],
            ) + seq![
                say_part("Extracting Windows toolchain.."@),
                DeployAction::UnpackZip { archive: p.archive_file, dir: p.archive_dir },
            ],
        ),
        WindowsStage::Unpacked => if !answer {
            (WindowsStage::Done, seq![DeployAction::Finish(false)])
        } else {
            (WindowsStage::Moved, seq![say_part("moving.."@), DeployAction::IsDir(p.dist_dir)])
        },
        WindowsStage::Moved => if !answer {
            (WindowsStage::Done, seq![DeployAction::Finish(false)])
        } else {
            (
                WindowsStage::ArchiveLeftChecked,
                seq![
                    DeployAction::Rename { from: p.dist_dir, to: p.arch_dir },
                    say_part("linking to 'current'.."@),
                    DeployAction::Symlink { target: p.arch_dir, link: p.current_link },
                    say("done!"@),
                    say_part("Cleaning up temporary files.."@),
                    DeployAction::IsFile(p.archive_file),
                ],
            )
        },
        WindowsStage::ArchiveLeftChecked => (
            WindowsStage::Done,
            when(answer, seq![DeployAction::RemoveFile(p.archive_file)]) + seq![
                say("done!"@),
                DeployAction::Finish(true),
            ],
        ),
        WindowsStage::Done => (WindowsStage::Done, Seq::empty()),
    }
}

/// How far a Unix deployment has come.
pub open spec fn unix_rank(stage: UnixStage) -> int {
    match stage {
        UnixStage::Start => 0,
        UnixStage::TarChecked => 1,
        UnixStage::ArchiveChecked => 2,
        UnixStage::Downloaded => 3,
        UnixStage::OldToolchainChecked => 4,
        UnixStage::LinkChecked => 5,
        UnixStage::Unpacked => 6,
        UnixStage::DistChecked => 7,
        UnixStage::Done => 8,
    }
}

/// How far a Windows deployment has come.
pub open spec fn windows_rank(stage: WindowsStage) -> int {
    match stage {
        WindowsStage::Start => 0,
        WindowsStage::OldToolchainChecked => 1,
        WindowsStage::LinkChecked => 2,
        WindowsStage::ArchiveChecked => 3,
        WindowsStage::Downloaded => 4,
        WindowsStage::DistChecked => 5,
        WindowsStage::Unpacked => 6,
        WindowsStage::Moved => 7,
        WindowsStage::ArchiveLeftChecked => 8,
        WindowsStage::Done => 9,
    }
}

fn say_line(text: &str) -> (a: DeployAction<String>)
    ensures
        action_view(a) == say(text@),
{
    DeployAction::Say { text: text.to_owned(), newline: true }
}

fn say_partial(text: &str) -> (a: DeployAction<String>)
    ensures
        action_view(a) == say_part(text@),
{
    DeployAction::Say { text: text.to_owned(), newline: false }
}

impl DeployPlan<String> {
    /// One step of a deployment on Unix: the next stage and the actions to carry out, in
    /// order, given the answer to the last query of the previous step (ignored at the
    /// start).
    pub fn unix_step(&self, stage: UnixStage, answer: bool) -> (r: (UnixStage, Vec<DeployAction<String>>))
        ensures
            (r.0, actions_view(r.1@)) == spec_unix_step(self@, stage, answer),
    {
        let mut batch: Vec<DeployAction<String>> = Vec::new();
        let next = match stage {
            UnixStage::Start => {
                batch.push(say_partial("Checking for tar.."));
                batch.push(DeployAction::CheckTar);
                UnixStage::TarChecked
            },
            UnixStage::TarChecked => {
                if !answer {
                    batch.push(say_line("no"));
                    batch.push(DeployAction::Finish(false));
                    UnixStage::Done
                } else {
                    batch.push(say_line("yes"));
                    batch.push(say_partial("Checking if downloaded toolchain tgz exists.."));
                    batch.push(DeployAction::IsFile(self.archive_file.clone()));
                    UnixStage::ArchiveChecked
                }
            },
            UnixStage::ArchiveChecked => {
                if answer {
                    batch.push(say_line("yes"));
                    batch.push(say_partial("Removing old toolchain.."));
                    batch.push(DeployAction::IsDir(self.arch_dir.clone()));
                    UnixStage::OldToolchainChecked
                } else {
                    batch.push(say_line("no"));
                    batch.push(say_line("Downloading toolchain:"));
                    batch.push(
                        DeployAction::Download {
                            url: self.url.clone(),
                            dir: self.archive_dir.clone(),
                            part_file: true,
                        },
                    );
                    UnixStage::Downloaded
                }
            },
            UnixStage::Downloaded => {
                if !answer {
                    batch.push(
                        DeployAction::Say {
                            text: concat("Failed to download ", self.url.as_str()),
                            newline: true,
                        },
                    );
                    batch.push(DeployAction::Finish(false));
                    UnixStage::Done
                } else {
                    batch.push(say_line("done"));
                    batch.push(say_partial("Removing old toolchain.."));
                    batch.push(DeployAction::IsDir(self.arch_dir.clone()));
                    UnixStage::OldToolchainChecked
                }
            },
            UnixStage::OldToolchainChecked => {
                if answer {
                    batch.push(DeployAction::RemoveDirAll(self.arch_dir.clone()));
                }
                batch.push(say_line("done"));
                let mut text = concat("Unpacking toolchain to '", self.toolchain_dir.as_str());
                text.append("':");
                batch.push(DeployAction::Say { text, newline: true });
                batch.push(DeployAction::Exists(self.current_link.clone()));
                UnixStage::LinkChecked
            },
            UnixStage::LinkChecked => {
                if answer {
                    batch.push(DeployAction::RemoveFile(self.current_link.clone()));
                }
                batch.push(DeployAction::CreateDirAll(self.toolchain_dir.clone()));
                batch.push(
                    DeployAction::UnpackTar {
                        archive: self.archive_file.clone(),
                        dir: self.toolchain_dir.clone(),
                    },
                );
                UnixStage::Unpacked
            },
            UnixStage::Unpacked => {
                if !answer {
                    batch.push(DeployAction::Finish(false));
                    UnixStage::Done
                } else {
                    batch.push(DeployAction::IsDir(self.dist_dir.clone()));
                    UnixStage::DistChecked
                }
            },
            UnixStage::DistChecked => {
                if !answer {
                    batch.push(DeployAction::Finish(false));
                } else {
                    batch.push(
                        DeployAction::Rename { from: self.dist_dir.clone(), to: self.arch_dir.clone() },
                    );
                    batch.push(say_partial("linking toolchain to 'current'.."));
                    batch.push(
                        DeployAction::Symlink {
                            target: self.arch_dir.clone(),
                            link: self.current_link.clone(),
                        },
                    );
                    batch.push(say_line("done"));
                    batch.push(say_partial("Cleaning up.."));
                    batch.push(DeployAction::Cleanup(self.toolchain_dir.clone()));
                    batch.push(say_line("done"));
                    batch.push(DeployAction::Finish(true));
                }
                UnixStage::Done
            },
            UnixStage::Done => UnixStage::Done,
        };
        assert(actions_view(batch@) =~= spec_unix_step(self@, stage, answer).1);
        (next, batch)
    }

    /// One step of a deployment on Windows: the next stage and the actions to carry out, in
    /// order, given the answer to the last query of the previous step (ignored at the
    /// start).
    pub fn windows_step(&self, stage: WindowsStage, answer: bool) -> (r: (WindowsStage, Vec<DeployAction<String>>))
        ensures
            (r.0, actions_view(r.1@)) == spec_windows_step(self@, stage, answer),
    {
        let mut batch: Vec<DeployAction<String>> = Vec::new();
        let next = match stage {
            WindowsStage::Start => {
                batch.push(DeployAction::IsDir(self.arch_dir.clone()));
                WindowsStage::OldToolchainChecked
            },
            WindowsStage::OldToolchainChecked => {
                if answer {
                    batch.push(say_partial("Removing old Windows toolchain.."));
                    batch.push(DeployAction::RemoveDirAll(self.arch_dir.clone()));
                    batch.push(say_line("done!"));
                }
                batch.push(DeployAction::Exists(self.current_link.clone()));
                WindowsStage::LinkChecked
            },
            WindowsStage::LinkChecked => {
                if answer {
                    batch.push(say_partial("Unlinking 'current'.."));
                    batch.push(DeployAction::RemoveLink(self.current_link.clone()));
                    batch.push(say_line("done!"));
                }
                batch.push(DeployAction::IsFile(self.archive_file.clone()));
                WindowsStage::ArchiveChecked
            },
            WindowsStage::ArchiveChecked => {
                if answer {
                    batch.push(DeployAction::CreateDirAll(self.toolchain_dir.clone()));
                    batch.push(DeployAction::IsDir(self.dist_dir.clone()));
                    WindowsStage::DistChecked
                } else {
                    batch.push(say_partial("Downloading Windows toolchain.."));
                    batch.push(
                        DeployAction::Download {
                            url: self.url.clone(),
                            dir: self.archive_dir.clone(),
                            part_file: false,
                        },
                    );
                    WindowsStage::Downloaded
                }
            },
            WindowsStage::Downloaded => {
                if !answer {
                    batch.push(say_line("An error occurred"));
                    batch.push(DeployAction::SayDownloadError);
                    batch.push(DeployAction::Finish(false));
                    WindowsStage::Done
                } else {
                    batch.push(say_line("done!"));
                    batch.push(DeployAction::CreateDirAll(self.toolchain_dir.clone()));
                    batch.push(DeployAction::IsDir(self.dist_dir.clone()));
                    WindowsStage::DistChecked
                }
            },
            WindowsStage::DistChecked => {
                if answer {
                    batch.push(say_line("Cleaning up temp toolchain path.."));
                    batch.push(DeployAction::RemoveDirAll(self.dist_dir.clone()));
                }
                batch.push(say_partial("Extracting Windows toolchain.."));
                batch.push(
                    DeployAction::UnpackZip {
                        archive: self.archive_file.clone(),
                        dir: self.archive_dir.clone(),
                    },
                );
                WindowsStage::Unpacked
            },
            WindowsStage::Unpacked => {
                if !answer {
                    batch.push(DeployAction::Finish(false));
                    WindowsStage::Done
                } else {
                    batch.push(say_partial("moving.."));
                    batch.push(DeployAction::IsDir(self.dist_dir.clone()));
                    WindowsStage::Moved
                }
            },
            WindowsStage::Moved => {
                if !answer {
                    batch.push(DeployAction::Finish(false));
                    WindowsStage::Done
                } else {
                    batch.push(
                        DeployAction::Rename { from: self.dist_dir.clone(), to: self.arch_dir.clone() },
                    );
                    batch.push(say_partial("linking to 'current'.."));
                    batch.push(
                        DeployAction::Symlink {
                            target: self.arch_dir.clone(),
                            link: self.current_link.clone(),
                        },
                    );
                    batch.push(say_line("done!"));
                    batch.push(say_partial("Cleaning up temporary files.."));
                    batch.push(DeployAction::IsFile(self.archive_file.clone()));
                    WindowsStage::ArchiveLeftChecked
                }
            },
            WindowsStage::ArchiveLeftChecked => {
                if answer {
                    batch.push(DeployAction::RemoveFile(self.archive_file.clone()));
                }
                batch.push(say_line("done!"));
                batch.push(DeployAction::Finish(true));
                WindowsStage::Done
            },
            WindowsStage::Done => WindowsStage::Done,
        };
        assert(actions_view(batch@) =~= spec_windows_step(self@, stage, answer).1);
        (next, batch)
    }
}

/// Every step of a Unix deployment moves it forward, so that it ends after at most eight
/// steps; each step is a batch that ends with its only query or with the end of the
/// deployment, and ends it exactly when it moves to [`UnixStage::Done`]. The toolchain is
/// linked as `current` only once the archive was found to hold the expected directory, and
/// a deployment reports success only in that step.
pub proof fn lemma_unix_steps(p: DeployPlan<Seq<char>>, stage: UnixStage, answer: bool)
    requires
        stage != UnixStage::Done,
    ensures
        ({
            let (next, batch) = spec_unix_step(p, stage, answer);
            &&& unix_rank(next) > unix_rank(stage)
            &&& is_step_batch(batch)
            &&& (next == UnixStage::Done <==> batch.last() is Finish)
            &&& (forall|i: int| 0 <= i < batch.len() && #[trigger] batch[i] is Symlink ==> stage
                == UnixStage::DistChecked && answer)
            &&& (batch.last() == DeployAction::<Seq<char>>::Finish(true) ==> stage
                == UnixStage::DistChecked && answer)
        }),
{
    let (next, batch) = spec_unix_step(p, stage, answer);
    assert(batch.len() > 0);
}

/// Every step of a Windows deployment moves it forward, so that it ends after at most nine
/// steps; each step is a batch that ends with its only query or with the end of the
/// deployment, and ends it exactly when it moves to [`WindowsStage::Done`]. The toolchain is
/// linked as `current` only once the unpacked archive was found to hold the expected
/// directory.
pub proof fn lemma_windows_steps(p: DeployPlan<Seq<char>>, stage: WindowsStage, answer: bool)
    requires
        stage != WindowsStage::Done,
    ensures
        ({
            let (next, batch) = spec_windows_step(p, stage, answer);
            &&& windows_rank(next) > windows_rank(stage)
            &&& is_step_batch(batch)
            &&& (next == WindowsStage::Done <==> batch.last() is Finish)
            &&& (forall|i: int| 0 <= i < batch.len() && #[trigger] batch[i] is Symlink ==> stage
                == WindowsStage::Moved && answer)
        }),
{
    let (next, batch) = spec_windows_step(p, stage, answer);
    assert(batch.len() > 0);
}

/// An archive already downloaded is used as it is: finding it asks for no download and does
/// not end the deployment, and on Windows leads straight to preparing the unpacking, the
/// toolchain directory created and the unpacking directory looked for.
pub proof fn lemma_present_archive_is_unpacked(p: DeployPlan<Seq<char>>)
    ensures
        spec_windows_step(p, WindowsStage::ArchiveChecked, true) == (WindowsStage::DistChecked, seq![
            DeployAction::CreateDirAll(p.toolchain_dir),
            DeployAction::IsDir(p.dist_dir),
        ]),
        forall|i: int| 0 <= i < spec_unix_step(p, UnixStage::ArchiveChecked, true).1.len() ==> {
            let a = #[trigger] spec_unix_step(p, UnixStage::ArchiveChecked, true).1[i];
            !(a is Download) && !(a is Finish)
        },
        spec_unix_step(p, UnixStage::ArchiveChecked, true).0 == UnixStage::OldToolchainChecked,
{
}

/// The toolchain is downloaded only when the archive was found missing.
pub proof fn lemma_download_only_when_missing(p: DeployPlan<Seq<char>>, answer: bool, i: int)
    ensures
        forall|ws: WindowsStage| 0 <= i < spec_windows_step(p, ws, answer).1.len()
            && (#[trigger] spec_windows_step(p, ws, answer)).1[i] is Download ==> ws
            == WindowsStage::ArchiveChecked && !answer,
        forall|us: UnixStage| 0 <= i < spec_unix_step(p, us, answer).1.len()
            && (#[trigger] spec_unix_step(p, us, answer)).1[i] is Download ==> us
            == UnixStage::ArchiveChecked && !answer,
{
}

/// A deployment ends without the toolchain in place only in answer to a failure: on
/// Windows a failed download, a failed unpacking or an archive without the expected
/// directory; on Unix also `tar` not running.
pub proof fn lemma_failure_follows_a_failed_step(p: DeployPlan<Seq<char>>, answer: bool, i: int)
    ensures
        forall|ws: WindowsStage| 0 <= i < spec_windows_step(p, ws, answer).1.len()
            && (#[trigger] spec_windows_step(p, ws, answer)).1[i] == DeployAction::<Seq<char>>::Finish(false) ==> {
            &&& !answer
            &&& ws == WindowsStage::Downloaded || ws == WindowsStage::Unpacked || ws == WindowsStage::Moved
        },
        forall|us: UnixStage| 0 <= i < spec_unix_step(p, us, answer).1.len()
            && (#[trigger] spec_unix_step(p, us, answer)).1[i] == DeployAction::<Seq<char>>::Finish(false) ==> {
            &&& !answer
            &&& us == UnixStage::TarChecked || us == UnixStage::Downloaded || us == UnixStage::Unpacked
                || us == UnixStage::DistChecked
        },
{
}

/// The plan of a deployment of the toolchain `info` describes into the uFBT home directory
/// `paths` lays out.
///
/// The archive is named after the last part of its address and downloaded into the
/// toolchain directory, or on Windows into the directory of the current SDK; it unpacks
/// into a directory named after it without its `-<version>` suffix and extension.
pub open spec fn spec_deploy_plan(paths: PathsView, info: ToolchainInfoView) -> DeployPlan<Seq<char>> {
    let platform = paths.platform;
    let toolchain_dir = spec_join(paths.toolchain_path, TOOLCHAIN_SUBDIR@, platform);
    let archive_dir = match platform {
        Platform::Unix => toolchain_dir,
        Platform::Windows => spec_join(paths.state_dir, "current"@, platform),
    };
    let archive_name = spec_archive_name(info.url);
    let dist_dir_name = spec_replace(archive_name, spec_version_suffix(info.version, platform), Seq::empty());
    DeployPlan {
        url: info.url,
        archive_dir,
        archive_file: spec_join(archive_dir, archive_name, platform),
        arch_dir: info.arch_dir,
        toolchain_dir,
        current_link: spec_join(toolchain_dir, "current"@, platform),
        dist_dir: spec_join(archive_dir, dist_dir_name, platform),
    }
}

impl ToolchainDeployer {
    /// The plan of a deployment of the toolchain `info` describes.
    pub fn deploy_plan(&self, info: &ToolchainInfo) -> (p: DeployPlan<String>)
        ensures
            p@ == spec_deploy_plan(self@, info@),
    {
        let paths = self.paths();
        let platform = paths.platform();
        let toolchain_dir = paths.toolchain_dir();
        let archive_dir = match platform {
            Platform::Unix => toolchain_dir.clone(),
            Platform::Windows => paths.current_sdk_dir(),
        };
        let name = archive_name(info.url());
        let dist_name = dist_dir_name(name.as_str(), info.version(), platform);
        DeployPlan {
            url: info.url().to_owned(),
            archive_file: join(archive_dir.as_str(), name.as_str(), platform),
            arch_dir: info.arch_dir().to_owned(),
            current_link: paths.toolchain_current_link(),
            dist_dir: join(archive_dir.as_str(), dist_name.as_str(), platform),
            archive_dir,
            toolchain_dir,
        }
    }
}

} // verus!

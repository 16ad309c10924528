//! What provisioning leaves on disk: a model of the install directory, and what
//! holds of it after any course of provisioning.

use vstd::prelude::*;
use crate::error::LifecycleErrorView;
use crate::error::ProvisionStage;
use crate::install::InstallCheckView;
use crate::paths::EnginePath;
use crate::provision::DownloadView;
use crate::provision::ProvisionActionView;
use crate::provision::ProvisionView;
use crate::reply::ReplyView;

verus! {

/// The install directory, as far as provisioning and the check can tell.
pub struct Disk {
    /// Whether the install directory exists.
    pub install_dir: bool,
    /// Whether an archive was unpacked into it since it was made.
    pub bundle: bool,
    /// The content of the checksum file, if there is one.
    pub checksum: Option<Seq<char>>,
}

impl Disk {
    /// The disk after the host performed `action` with success. Only the actions on
    /// the install directory and on the checksum file change it.
    pub open spec fn performed(self, action: ProvisionActionView) -> Disk {
        match action {
            ProvisionActionView::RemoveDir { path } => if path == EnginePath::InstallDir {
                Disk { install_dir: false, bundle: false, checksum: None }
            } else {
                self
            },
            ProvisionActionView::CreateDir { path } => if path == EnginePath::InstallDir {
                Disk { install_dir: true, ..self }
            } else {
                self
            },
            ProvisionActionView::Unpack { into } => if into == EnginePath::InstallDir {
                Disk { bundle: true, ..self }
            } else {
                self
            },
            ProvisionActionView::WriteChecksum { path, digest } => if path
                == EnginePath::ChecksumFile {
                Disk { checksum: Some(digest), ..self }
            } else {
                self
            },
            _ => self,
        }
    }

    /// What the host replies when it is asked to read the checksum file.
    pub open spec fn checksum_read(self) -> ReplyView {
        match self.checksum {
            Some(text) => ReplyView::Text(text),
            None => ReplyView::Failed(Seq::empty()),
        }
    }
}

/// How what is installed relates to the bundle that the remote source publishes.
pub enum ProvisioningState {
    /// No bundle is installed: the checksum file or the unpacked bundle is missing.
    Absent,
    /// A bundle is installed, but not the published one.
    Stale,
    /// The published bundle is installed.
    Present,
}

impl Disk {
    /// The provisioning state of the disk, where the remote digest is `remote`.
    pub open spec fn state(self, remote: Seq<char>) -> ProvisioningState {
        match self.checksum {
            Some(local) => if !self.bundle {
                ProvisioningState::Absent
            } else if local == remote {
                ProvisioningState::Present
            } else {
                ProvisioningState::Stale
            },
            None => ProvisioningState::Absent,
        }
    }

    /// What a check decides on this disk when the remote source answers with `remote`.
    pub open spec fn checked(self, url: Seq<char>, remote: ReplyView) -> InstallCheckView {
        InstallCheckView::started(url).after(self.checksum_read()).after(remote)
    }
}

/// Provisioning under way, together with the disk it works on.
pub struct Course {
    /// Where provisioning stands.
    pub state: ProvisionView,
    /// What is on disk.
    pub disk: Disk,
    /// The digest that the remote source last answered with, if it was asked.
    pub fetched: Option<Seq<char>>,
    /// Whether the removal after a failed download failed itself.
    pub cleanup_failed: bool,
}

impl Course {
    /// Provisioning from the archive at `url`, started on `disk`.
    pub open spec fn started(url: Seq<char>, disk: Disk) -> Course {
        Course { state: ProvisionView::started(url), disk, fetched: None, cleanup_failed: false }
    }

    /// The course after the host performed the pending action and replied. An action
    /// that failed left the disk as it was.
    pub open spec fn after(self, reply: ReplyView) -> Course {
        let action = self.state.pending();
        Course {
            state: self.state.after(reply),
            disk: if reply is Failed {
                self.disk
            } else {
                self.disk.performed(action)
            },
            fetched: match reply {
                ReplyView::Text(digest) => if action is FetchDigest {
                    Some(digest)
                } else {
                    self.fetched
                },
                _ => self.fetched,
            },
            cleanup_failed: self.cleanup_failed || (self.state is CleaningUp && reply is Failed),
        }
    }

    /// The course after a series of replies, the first reply first.
    pub open spec fn after_all(self, replies: Seq<ReplyView>) -> Course
        decreases replies.len(),
    {
        if replies.len() == 0 {
            self
        } else {
            self.after(replies[0]).after_all(replies.drop_first())
        }
    }

    /// What holds of the disk at each point of a course that began at the start of provisioning.
    pub open spec fn consistent(self) -> bool {
        match self.state {
            ProvisionView::Installing { download } => match download {
                DownloadView::Wiping { url } => true,
                DownloadView::Creating { url } => true,
                DownloadView::Fetching { url } => self.disk.install_dir,
                DownloadView::Unpacking { url } => self.disk.install_dir,
                DownloadView::FetchingDigest { fetch } => {
                    &&& fetch is Requesting
                    &&& self.disk.install_dir
                    &&& self.disk.bundle
                },
                DownloadView::Persisting { digest } => {
                    &&& self.disk.install_dir
                    &&& self.disk.bundle
                    &&& self.fetched == Some(digest)
                },
                DownloadView::Installed { digest } => false,
                DownloadView::Failed { error } => false,
            },
            ProvisionView::CleaningUp { error } => true,
            ProvisionView::Installed { digest } => {
                &&& self.disk.install_dir
                &&& self.disk.bundle
                &&& self.fetched == Some(digest)
                &&& self.disk.checksum == Some(digest)
            },
            ProvisionView::Failed { error } => self.disk.install_dir ==> self.cleanup_failed,
        }
    }
}

/// One reply keeps a course consistent.
pub proof fn step_keeps_course_consistent(course: Course, reply: ReplyView)
    requires
        course.consistent(),
    ensures
        course.after(reply).consistent(),
{
}

/// Any series of replies keeps a course consistent.
pub proof fn course_stays_consistent(course: Course, replies: Seq<ReplyView>)
    requires
        course.consistent(),
    ensures
        course.after_all(replies).consistent(),
    decreases replies.len(),
{
    if replies.len() > 0 {
        step_keeps_course_consistent(course, replies[0]);
        course_stays_consistent(course.after(replies[0]), replies.drop_first());
    }
}

/// After provisioning succeeded, whatever was on disk before and whatever the host
/// replied on the way: the install directory holds an unpacked bundle, the checksum
/// file holds the digest that was fetched during provisioning, and a check that
/// reads this checksum and fetches the same digest finds the bundle present.
pub proof fn provision_then_check_finds_bundle(
    url: Seq<char>,
    disk: Disk,
    replies: Seq<ReplyView>,
    check_url: Seq<char>,
)
    requires
        Course::started(url, disk).after_all(replies).state is Installed,
    ensures
        ({
            let end = Course::started(url, disk).after_all(replies);
            let digest = end.state->Installed_digest;
            &&& end.disk.install_dir
            &&& end.disk.bundle
            &&& end.fetched == Some(digest)
            &&& end.disk.checksum == Some(digest)
            &&& end.disk.checked(check_url, ReplyView::Text(digest)) == (InstallCheckView::Decided {
                present: true,
            })
        }),
{
    course_stays_consistent(Course::started(url, disk), replies);
}

/// After provisioning failed, the install directory is gone, unless its removal failed too.
pub proof fn failed_provision_leaves_no_install_dir(
    url: Seq<char>,
    disk: Disk,
    replies: Seq<ReplyView>,
)
    requires
        Course::started(url, disk).after_all(replies).state is Failed,
        !Course::started(url, disk).after_all(replies).cleanup_failed,
    ensures
        !Course::started(url, disk).after_all(replies).disk.install_dir,
{
    course_stays_consistent(Course::started(url, disk), replies);
}

/// Provisioning begins by removing what is installed, so nothing is unpacked over an older bundle.
pub proof fn provision_begins_with_the_wipe(url: Seq<char>)
    ensures
        ProvisionView::started(url).pending() == (ProvisionActionView::RemoveDir {
            path: EnginePath::InstallDir,
        }),
{
}

/// Where every action succeeds and the remote source answers with `digest`,
/// six actions install the bundle with that digest.
pub proof fn undisturbed_provision_installs(url: Seq<char>, disk: Disk, digest: Seq<char>)
    ensures
        Course::started(url, disk).after_all(
            seq![
                ReplyView::Completed,
                ReplyView::Completed,
                ReplyView::Completed,
                ReplyView::Completed,
                ReplyView::Text(digest),
                ReplyView::Completed,
            ],
        ).state == (ProvisionView::Installed { digest }),
{
    let replies = seq![
        ReplyView::Completed,
        ReplyView::Completed,
        ReplyView::Completed,
        ReplyView::Completed,
        ReplyView::Text(digest),
        ReplyView::Completed,
    ];
    let c0 = Course::started(url, disk);
    let c1 = c0.after(ReplyView::Completed);
    let c2 = c1.after(ReplyView::Completed);
    let c3 = c2.after(ReplyView::Completed);
    let c4 = c3.after(ReplyView::Completed);
    let c5 = c4.after(ReplyView::Text(digest));
    let c6 = c5.after(ReplyView::Completed);
    let r1 = replies.drop_first();
    let r2 = r1.drop_first();
    let r3 = r2.drop_first();
    let r4 = r3.drop_first();
    let r5 = r4.drop_first();
    let r6 = r5.drop_first();
    assert(r6.len() == 0);
    assert(c6.after_all(r6) == c6);
    assert(c5.after_all(r5) == c6);
    assert(c4.after_all(r4) == c6);
    assert(c3.after_all(r3) == c6);
    assert(c2.after_all(r2) == c6);
    assert(c1.after_all(r1) == c6);
    assert(c0.after_all(replies) == c6);
}

/// An archive that cannot be downloaded fails provisioning in the fetch stage: the
/// install directory is removed next, and then the failure is reported.
pub proof fn failed_fetch_is_cleaned_up_and_reported(url: Seq<char>, cause: Seq<char>)
    ensures
        ({
            let error = LifecycleErrorView::Provision { stage: ProvisionStage::Fetch, cause };
            let fetching = ProvisionView::started(url).after(ReplyView::Completed).after(
                ReplyView::Completed,
            );
            &&& fetching.pending() == (ProvisionActionView::FetchArchive { address: url })
            &&& fetching.after(ReplyView::Failed(cause)) == (ProvisionView::CleaningUp { error })
            &&& fetching.after(ReplyView::Failed(cause)).pending() == (
            ProvisionActionView::RemoveDir { path: EnginePath::InstallDir })
            &&& fetching.after(ReplyView::Failed(cause)).after(ReplyView::Completed) == (
            ProvisionView::Failed { error })
        }),
{
}

/// What a check decides depends on the checksum on disk and on the remote digest
/// alone: the bundle is present exactly if the two are the same text. So two
/// checks with nothing provisioned between them, which are given the same digest,
/// decide the same.
pub proof fn check_is_stable(url: Seq<char>, disk: Disk, digest_1: Seq<char>, digest_2: Seq<char>)
    requires
        digest_1 == digest_2,
    ensures
        disk.checked(url, ReplyView::Text(digest_1)) == (InstallCheckView::Decided {
            present: disk.checksum == Some(digest_1),
        }),
        disk.checked(url, ReplyView::Text(digest_1)) == disk.checked(url, ReplyView::Text(digest_2)),
{
}

/// On a disk whose checksum file was written for the bundle beside it, a check
/// finds the bundle present exactly in the state `Present`; in the states `Absent`
/// and `Stale` it finds it not present.
pub proof fn check_decides_by_provisioning_state(url: Seq<char>, disk: Disk, remote: Seq<char>)
    requires
        disk.checksum is Some ==> disk.bundle,
    ensures
        disk.checked(url, ReplyView::Text(remote)) == (InstallCheckView::Decided {
            present: disk.state(remote) is Present,
        }),
{
}

/// Provisioning that succeeded leaves the disk in the state `Present` for the digest
/// that it fetched, whatever state it began in.
pub proof fn provision_makes_bundle_present(url: Seq<char>, disk: Disk, replies: Seq<ReplyView>)
    requires
        Course::started(url, disk).after_all(replies).state is Installed,
    ensures
        ({
            let end = Course::started(url, disk).after_all(replies);
            end.disk.state(end.state->Installed_digest) is Present
        }),
{
    course_stays_consistent(Course::started(url, disk), replies);
}

} // verus!

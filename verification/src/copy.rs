//! Copying a directory with all it holds: the walk that decides what is made,
//! listed and copied next.
//!
//! The walk keeps a stack of what is still to be done. A directory is made at the
//! destination before it is listed at the source, and what it holds is worked off
//! in the order of the listing, each directory in it to its end before the entry
//! that follows. The first failure ends the walk.

use vstd::prelude::*;
use crate::error::LifecycleError;
use crate::error::LifecycleErrorView;
use crate::text::texts;

verus! {

/// An entry of a directory listing.
#[derive(Clone, Debug, PartialEq, Eq)]
pub struct DirEntry {
    /// The entry's name within its directory.
    pub name: String,
    /// Whether the entry is a directory itself.
    pub is_dir: bool,
}

/// A `DirEntry` with its name as a sequence of characters.
pub struct DirEntryView {
    pub name: Seq<char>,
    pub is_dir: bool,
}

/// Something that is still to be done. A path is the list of names that lead to an
/// entry, from the directory that is copied and from its copy alike.
#[derive(Debug, PartialEq, Eq)]
pub enum CopyTask {
    /// The directory is to be made at the destination.
    Make { path: Vec<String> },
    /// The directory is to be listed at the source.
    List { path: Vec<String> },
    /// The file is to be copied.
    File { path: Vec<String> },
}

/// A `CopyTask` with its names as sequences of characters.
pub enum CopyTaskView {
    Make { path: Seq<Seq<char>> },
    List { path: Seq<Seq<char>> },
    File { path: Seq<Seq<char>> },
}

/// The host's report on an action of the walk.
#[derive(Debug, PartialEq, Eq)]
pub enum WalkReply {
    /// The directory was made, or the file was copied.
    Completed,
    /// The directory holds these entries.
    Listed(Vec<DirEntry>),
    /// The action failed, with the cause in words.
    Failed(String),
}

/// A `WalkReply` with its texts as sequences of characters.
pub enum WalkReplyView {
    Completed,
    Listed(Seq<DirEntryView>),
    Failed(Seq<char>),
}

/// What the host is to do for the walk.
#[derive(Debug, PartialEq, Eq)]
pub enum CopyAction {
    /// Make the directory at `path` under the destination, and those above it.
    CreateDir { path: Vec<String> },
    /// List the directory at `path` under the source, and say of each entry whether it is a directory.
    ListDir { path: Vec<String> },
    /// Copy the file at `path` under the source to `path` under the destination.
    CopyFile { path: Vec<String> },
    /// The walk is over: everything was copied.
    Done,
    /// The walk is over: it failed.
    Fail { error: LifecycleError },
}

/// A `CopyAction` with its texts as sequences of characters.
pub enum CopyActionView {
    CreateDir { path: Seq<Seq<char>> },
    ListDir { path: Seq<Seq<char>> },
    CopyFile { path: Seq<Seq<char>> },
    Done,
    Fail { error: LifecycleErrorView },
}

/// The walk: what is still to be done, the next task last, and the failure that ended it.
#[derive(Debug, PartialEq, Eq)]
pub struct CopyWalk {
    pub tasks: Vec<CopyTask>,
    pub failure: Option<String>,
}

/// A `CopyWalk` with its texts as sequences of characters.
pub struct CopyWalkView {
    pub tasks: Seq<CopyTaskView>,
    pub failure: Option<Seq<char>>,
}

impl View for DirEntry {
    type V = DirEntryView;

    open spec fn view(&self) -> DirEntryView {
        DirEntryView { name: self.name@, is_dir: self.is_dir }
    }
}

impl View for CopyTask {
    type V = CopyTaskView;

    open spec fn view(&self) -> CopyTaskView {
        match *self {
            CopyTask::Make { path } => CopyTaskView::Make { path: texts(path@) },
            CopyTask::List { path } => CopyTaskView::List { path: texts(path@) },
            CopyTask::File { path } => CopyTaskView::File { path: texts(path@) },
        }
    }
}

/// The entries of a listing, each with its name as a sequence of characters.
pub open spec fn entry_views(entries: Seq<DirEntry>) -> Seq<DirEntryView> {
    Seq::new(entries.len(), |i: int| entries[i]@)
}

/// The tasks of a stack, each with its names as sequences of characters.
pub open spec fn task_views(tasks: Seq<CopyTask>) -> Seq<CopyTaskView> {
    Seq::new(tasks.len(), |i: int| tasks[i]@)
}

impl View for WalkReply {
    type V = WalkReplyView;

    open spec fn view(&self) -> WalkReplyView {
        match *self {
            WalkReply::Completed => WalkReplyView::Completed,
            WalkReply::Listed(entries) => WalkReplyView::Listed(entry_views(entries@)),
            WalkReply::Failed(cause) => WalkReplyView::Failed(cause@),
        }
    }
}

impl View for CopyAction {
    type V = CopyActionView;

    open spec fn view(&self) -> CopyActionView {
        match *self {
            CopyAction::CreateDir { path } => CopyActionView::CreateDir { path: texts(path@) },
            CopyAction::ListDir { path } => CopyActionView::ListDir { path: texts(path@) },
            CopyAction::CopyFile { path } => CopyActionView::CopyFile { path: texts(path@) },
            CopyAction::Done => CopyActionView::Done,
            CopyAction::Fail { error } => CopyActionView::Fail { error: error@ },
        }
    }
}

impl View for CopyWalk {
    type V = CopyWalkView;

    open spec fn view(&self) -> CopyWalkView {
        CopyWalkView {
            tasks: task_views(self.tasks@),
            failure: match self.failure {
                Some(cause) => Some(cause@),
                None => None,
            },
        }
    }
}

/// The task that copies `entry` of the directory at `path`.
pub open spec fn task_for(path: Seq<Seq<char>>, entry: DirEntryView) -> CopyTaskView {
    if entry.is_dir {
        CopyTaskView::Make { path: path.push(entry.name) }
    } else {
        CopyTaskView::File { path: path.push(entry.name) }
    }
}

/// The tasks for the first `count` entries of the directory at `path`, stacked so
/// that the first entry is the next to be worked on.
pub open spec fn stacked(
    path: Seq<Seq<char>>,
    entries: Seq<DirEntryView>,
    count: int,
) -> Seq<CopyTaskView> {
    Seq::new(count as nat, |i: int| task_for(path, entries[count - 1 - i]))
}

impl CopyWalkView {
    /// The walk before anything was done: the directory itself is to be made.
    pub open spec fn started() -> CopyWalkView {
        CopyWalkView { tasks: seq![CopyTaskView::Make { path: Seq::empty() }], failure: None }
    }

    /// Whether the walk is over.
    pub open spec fn finished(self) -> bool {
        self.failure is Some || self.tasks.len() == 0
    }

    /// What the walk asks of the host in this state.
    pub open spec fn pending(self) -> CopyActionView {
        match self.failure {
            Some(cause) => CopyActionView::Fail { error: LifecycleErrorView::Copy { cause } },
            None => if self.tasks.len() == 0 {
                CopyActionView::Done
            } else {
                match self.tasks.last() {
                    CopyTaskView::Make { path } => CopyActionView::CreateDir { path },
                    CopyTaskView::List { path } => CopyActionView::ListDir { path },
                    CopyTaskView::File { path } => CopyActionView::CopyFile { path },
                }
            },
        }
    }

    /// The walk after its first failure.
    pub open spec fn failed(self, cause: Seq<char>) -> CopyWalkView {
        CopyWalkView { tasks: self.tasks, failure: Some(cause) }
    }

    /// The state after the host's reply to the pending action. A directory that was
    /// made is listed next; its entries take its place on the stack; a file that
    /// was copied leaves the stack. A reply that the pending action cannot have
    /// changes nothing, and neither does any reply once the walk is over.
    pub open spec fn after(self, reply: WalkReplyView) -> CopyWalkView {
        if self.finished() {
            self
        } else {
            let rest = self.tasks.drop_last();
            match self.tasks.last() {
                CopyTaskView::Make { path } => match reply {
                    WalkReplyView::Completed => CopyWalkView {
                        tasks: rest.push(CopyTaskView::List { path }),
                        failure: None,
                    },
                    WalkReplyView::Failed(cause) => self.failed(cause),
                    WalkReplyView::Listed(_) => self,
                },
                CopyTaskView::List { path } => match reply {
                    WalkReplyView::Listed(entries) => CopyWalkView {
                        tasks: rest + stacked(path, entries, entries.len() as int),
                        failure: None,
                    },
                    WalkReplyView::Failed(cause) => self.failed(cause),
                    WalkReplyView::Completed => self,
                },
                CopyTaskView::File { path } => match reply {
                    WalkReplyView::Completed => CopyWalkView { tasks: rest, failure: None },
                    WalkReplyView::Failed(cause) => self.failed(cause),
                    WalkReplyView::Listed(_) => self,
                },
            }
        }
    }
}

fn clone_path(path: &Vec<String>) -> (copy: Vec<String>)
    ensures
        texts(copy@) == texts(path@),
{
    let mut copy: Vec<String> = Vec::new();
    let mut i: usize = 0;
    while i < path.len()
        invariant
            i <= path.len(),
            copy.len() == i,
            forall|j: int| 0 <= j < i ==> copy[j]@ == path[j]@,
        decreases path.len() - i,
    {
        copy.push(path[i].clone());
        i += 1;
    }
    assert(texts(copy@) =~= texts(path@));
    copy
}

fn task_of(path: &Vec<String>, entry: &DirEntry) -> (task: CopyTask)
    ensures
        task@ == task_for(texts(path@), entry@),
{
    let mut child = clone_path(path);
    let ghost copied = child@;
    child.push(entry.name.clone());
    assert(texts(child@) =~= texts(copied).push(entry.name@));
    if entry.is_dir {
        CopyTask::Make { path: child }
    } else {
        CopyTask::File { path: child }
    }
}

impl CopyWalk {
    /// The action that the host is to perform now.
    pub fn action(&self) -> (action: CopyAction)
        ensures
            action@ == self@.pending(),
    {
        match &self.failure {
            Some(cause) => CopyAction::Fail { error: LifecycleError::Copy { cause: cause.clone() } },
            None => {
                let count = self.tasks.len();
                if count == 0 {
                    CopyAction::Done
                } else {
                    assert(task_views(self.tasks@).last() == self.tasks@[count - 1]@);
                    match &self.tasks[count - 1] {
                        CopyTask::Make { path } => CopyAction::CreateDir { path: clone_path(path) },
                        CopyTask::List { path } => CopyAction::ListDir { path: clone_path(path) },
                        CopyTask::File { path } => CopyAction::CopyFile { path: clone_path(path) },
                    }
                }
            },
        }
    }

    /// Takes the host's reply to the pending action.
    pub fn advance(self, reply: WalkReply) -> (walk: CopyWalk)
        ensures
            walk@ == self@.after(reply@),
    {
        let ghost before = self@;
        let CopyWalk { mut tasks, failure } = self;
        if failure.is_some() || tasks.len() == 0 {
            return CopyWalk { tasks, failure };
        }
        let ghost stack = tasks@;
        let top = tasks.pop().unwrap();
        assert(top@ == before.tasks.last());
        assert(task_views(tasks@) =~= before.tasks.drop_last());
        let ghost rest = tasks@;
        match top {
            CopyTask::Make { path } => match reply {
                WalkReply::Completed => {
                    tasks.push(CopyTask::List { path });
                    assert(task_views(tasks@) =~= task_views(rest).push(
                        CopyTaskView::List { path: texts(path@) },
                    ));
                    CopyWalk { tasks, failure: None }
                },
                WalkReply::Failed(cause) => {
                    tasks.push(CopyTask::Make { path });
                    assert(task_views(tasks@) =~= before.tasks);
                    CopyWalk { tasks, failure: Some(cause) }
                },
                WalkReply::Listed(_) => {
                    tasks.push(CopyTask::Make { path });
                    assert(task_views(tasks@) =~= before.tasks);
                    CopyWalk { tasks, failure: None }
                },
            },
            CopyTask::List { path } => match reply {
                WalkReply::Listed(entries) => {
                    let total = entries.len();
                    let mut left: usize = total;
                    while left > 0
                        invariant
                            left <= total,
                            total == entries.len(),
                            task_views(tasks@) == task_views(rest) + stacked(
                                texts(path@),
                                entry_views(entries@),
                                total as int,
                            ).subrange(0, total - left),
                        decreases left,
                    {
                        let ghost pushed = tasks@;
                        let task = task_of(&path, &entries[left - 1]);
                        tasks.push(task);
                        left -= 1;
                        assert(task_views(tasks@) =~= task_views(pushed).push(task@));
                        assert(task_views(tasks@) =~= task_views(rest) + stacked(
                            texts(path@),
                            entry_views(entries@),
                            total as int,
                        ).subrange(0, total - left));
                    }
                    assert(task_views(tasks@) =~= task_views(rest) + stacked(
                        texts(path@),
                        entry_views(entries@),
                        total as int,
                    ));
                    CopyWalk { tasks, failure: None }
                },
                WalkReply::Failed(cause) => {
                    tasks.push(CopyTask::List { path });
                    assert(task_views(tasks@) =~= before.tasks);
                    CopyWalk { tasks, failure: Some(cause) }
                },
                WalkReply::Completed => {
                    tasks.push(CopyTask::List { path });
                    assert(task_views(tasks@) =~= before.tasks);
                    CopyWalk { tasks, failure: None }
                },
            },
            CopyTask::File { path } => match reply {
                WalkReply::Completed => CopyWalk { tasks, failure: None },
                WalkReply::Failed(cause) => {
                    tasks.push(CopyTask::File { path });
                    assert(task_views(tasks@) =~= before.tasks);
                    CopyWalk { tasks, failure: Some(cause) }
                },
                WalkReply::Listed(_) => {
                    tasks.push(CopyTask::File { path });
                    assert(task_views(tasks@) =~= before.tasks);
                    CopyWalk { tasks, failure: None }
                },
            },
        }
    }
}

/// Starts the walk that copies a directory with all it holds.
pub fn copy_dir_all() -> (walk: CopyWalk)
    ensures
        walk@ == CopyWalkView::started(),
{
    let mut tasks: Vec<CopyTask> = Vec::new();
    let path: Vec<String> = Vec::new();
    assert(texts(path@) =~= Seq::<Seq<char>>::empty());
    tasks.push(CopyTask::Make { path });
    assert(task_views(tasks@) =~= seq![CopyTaskView::Make { path: Seq::empty() }]);
    CopyWalk { tasks, failure: None }
}

/// The first failure ends the walk: it is reported as a copy error with the
/// cause that the host gave, and nothing more is asked of the host.
pub proof fn walk_ends_at_first_failure(walk: CopyWalkView, cause: Seq<char>, later: WalkReplyView)
    requires
        !walk.finished(),
    ensures
        walk.after(WalkReplyView::Failed(cause)).pending() == (CopyActionView::Fail {
            error: LifecycleErrorView::Copy { cause },
        }),
        walk.after(WalkReplyView::Failed(cause)).after(later) == walk.after(
            WalkReplyView::Failed(cause),
        ),
{
}

/// A directory is made at the destination before it is listed, and it is listed
/// before anything in it is copied: the entries of its listing come onto the
/// stack only with the listing, the first entry on top.
pub proof fn walk_goes_directory_by_directory(
    rest: Seq<CopyTaskView>,
    path: Seq<Seq<char>>,
    entries: Seq<DirEntryView>,
)
    ensures
        ({
            let making = CopyWalkView {
                tasks: rest.push(CopyTaskView::Make { path }),
                failure: None,
            };
            let listing = making.after(WalkReplyView::Completed);
            let inside = listing.after(WalkReplyView::Listed(entries));
            &&& making.pending() == (CopyActionView::CreateDir { path })
            &&& listing.pending() == (CopyActionView::ListDir { path })
            &&& inside.tasks == rest + stacked(path, entries, entries.len() as int)
            &&& entries.len() > 0 ==> inside.tasks.last() == task_for(path, entries[0])
            &&& entries.len() == 0 ==> inside.tasks == rest
        }),
{
    let making = CopyWalkView { tasks: rest.push(CopyTaskView::Make { path }), failure: None };
    assert(making.tasks.drop_last() =~= rest);
    let listing = making.after(WalkReplyView::Completed);
    assert(listing.tasks.drop_last() =~= rest);
    let inside = listing.after(WalkReplyView::Listed(entries));
    assert(inside.tasks =~= rest + stacked(path, entries, entries.len() as int));
    if entries.len() == 0 {
        assert(inside.tasks =~= rest);
    }
}

} // verus!

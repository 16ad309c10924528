//! What the copy walk does to a whole directory tree: a model of the tree, and the
//! proof that a host which reports the tree as it is gets it copied entry by
//! entry, depth first.

use vstd::prelude::*;
use crate::copy::CopyActionView;
use crate::copy::CopyTaskView;
use crate::copy::CopyWalkView;
use crate::copy::DirEntryView;
use crate::copy::WalkReplyView;
use crate::copy::stacked;
use crate::copy::task_for;

verus! {

/// A file, or a directory with what it holds.
pub enum Node {
    File,
    Dir { holds: Listing },
}

/// What a directory holds, in the order in which it is listed.
pub enum Listing {
    End,
    Entry { name: Seq<char>, node: Box<Node>, rest: Box<Listing> },
}

impl Listing {
    /// The entries as the host lists them.
    pub open spec fn entries(self) -> Seq<DirEntryView>
        decreases self,
    {
        match self {
            Listing::End => Seq::empty(),
            Listing::Entry { name, node, rest } => seq![
                DirEntryView { name, is_dir: *node is Dir },
            ] + rest.entries(),
        }
    }

    /// The replies of a host that performs every action with success, while the
    /// entries of this listing are copied to the directory at `path`.
    pub open spec fn replies(self) -> Seq<WalkReplyView>
        decreases self,
    {
        match self {
            Listing::End => Seq::empty(),
            Listing::Entry { name, node, rest } => node.replies() + rest.replies(),
        }
    }

    /// The actions that copy the entries of this listing, which lies at `path`: each
    /// entry in turn, with all it holds.
    pub open spec fn actions(self, path: Seq<Seq<char>>) -> Seq<CopyActionView>
        decreases self,
    {
        match self {
            Listing::End => Seq::empty(),
            Listing::Entry { name, node, rest } => node.actions(path.push(name)) + rest.actions(
                path,
            ),
        }
    }
}

impl Node {
    /// The task that copies this node to `path`.
    pub open spec fn task(self, path: Seq<Seq<char>>) -> CopyTaskView {
        match self {
            Node::File => CopyTaskView::File { path },
            Node::Dir { holds } => CopyTaskView::Make { path },
        }
    }

    /// The replies of a host that performs every action with success, while this node is copied.
    pub open spec fn replies(self) -> Seq<WalkReplyView>
        decreases self,
    {
        match self {
            Node::File => seq![WalkReplyView::Completed],
            Node::Dir { holds } => seq![
                WalkReplyView::Completed,
                WalkReplyView::Listed(holds.entries()),
            ] + holds.replies(),
        }
    }

    /// The actions that copy this node to `path`: a file is copied; a directory is
    /// made, then listed, then what it holds is copied.
    pub open spec fn actions(self, path: Seq<Seq<char>>) -> Seq<CopyActionView>
        decreases self,
    {
        match self {
            Node::File => seq![CopyActionView::CopyFile { path }],
            Node::Dir { holds } => seq![
                CopyActionView::CreateDir { path },
                CopyActionView::ListDir { path },
            ] + holds.actions(path),
        }
    }
}

impl CopyWalkView {
    /// A walk under way with these tasks.
    pub open spec fn with_tasks(tasks: Seq<CopyTaskView>) -> CopyWalkView {
        CopyWalkView { tasks, failure: None }
    }

    /// The state after a series of replies, the first reply first.
    pub open spec fn after_all(self, replies: Seq<WalkReplyView>) -> CopyWalkView
        decreases replies.len(),
    {
        if replies.len() == 0 {
            self
        } else {
            self.after(replies[0]).after_all(replies.drop_first())
        }
    }

    /// The actions that the host is asked for while it gives these replies, one before each reply.
    pub open spec fn asked(self, replies: Seq<WalkReplyView>) -> Seq<CopyActionView>
        decreases replies.len(),
    {
        if replies.len() == 0 {
            Seq::empty()
        } else {
            seq![self.pending()] + self.after(replies[0]).asked(replies.drop_first())
        }
    }
}

/// The first of a series of replies is taken in the state in which the series begins.
pub proof fn first_reply_is_taken(
    walk: CopyWalkView,
    first: WalkReplyView,
    more: Seq<WalkReplyView>,
)
    ensures
        walk.after_all(seq![first] + more) == walk.after(first).after_all(more),
        walk.asked(seq![first] + more) == seq![walk.pending()] + walk.after(first).asked(more),
{
    let replies = seq![first] + more;
    assert(replies[0] == first);
    assert(replies.drop_first() =~= more);
}

/// With a host that performs every action with success and lists `node` as it
/// is, the task that copies `node` is worked off by exactly the actions that copy
/// it depth first, and then leaves the stack as it was below it.
pub proof fn node_is_copied(
    below: Seq<CopyTaskView>,
    path: Seq<Seq<char>>,
    node: Node,
    more: Seq<WalkReplyView>,
)
    ensures
        CopyWalkView::with_tasks(below.push(node.task(path))).after_all(node.replies() + more)
            == CopyWalkView::with_tasks(below).after_all(more),
        CopyWalkView::with_tasks(below.push(node.task(path))).asked(node.replies() + more)
            == node.actions(path) + CopyWalkView::with_tasks(below).asked(more),
    decreases node,
{
    let walk = CopyWalkView::with_tasks(below.push(node.task(path)));
    let done = CopyWalkView::with_tasks(below);
    assert(walk.tasks.drop_last() =~= below);
    match node {
        Node::File => {
            assert(node.replies() + more =~= seq![WalkReplyView::Completed] + more);
            first_reply_is_taken(walk, WalkReplyView::Completed, more);
            assert(walk.after(WalkReplyView::Completed) == done);
            assert(seq![walk.pending()] + done.asked(more) =~= node.actions(path) + done.asked(
                more,
            ));
        },
        Node::Dir { holds } => {
            let listed = WalkReplyView::Listed(holds.entries());
            let inner = holds.replies() + more;
            assert(node.replies() + more =~= seq![WalkReplyView::Completed] + (seq![listed]
                + inner));
            first_reply_is_taken(walk, WalkReplyView::Completed, seq![listed] + inner);
            let listing = walk.after(WalkReplyView::Completed);
            assert(listing.tasks.drop_last() =~= below);
            first_reply_is_taken(listing, listed, inner);
            let inside = listing.after(listed);
            assert(inside == CopyWalkView::with_tasks(
                below + stacked(path, holds.entries(), holds.entries().len() as int),
            ));
            listing_is_copied(below, path, holds, more);
            assert(seq![walk.pending()] + (seq![listing.pending()] + (holds.actions(path)
                + done.asked(more))) =~= node.actions(path) + done.asked(more));
        },
    }
}

/// With such a host, the tasks for the entries of a listing are worked off entry
/// by entry in the order of the listing, each with all it holds, and then leave
/// the stack as it was below them.
pub proof fn listing_is_copied(
    below: Seq<CopyTaskView>,
    path: Seq<Seq<char>>,
    listing: Listing,
    more: Seq<WalkReplyView>,
)
    ensures
        CopyWalkView::with_tasks(
            below + stacked(path, listing.entries(), listing.entries().len() as int),
        ).after_all(listing.replies() + more) == CopyWalkView::with_tasks(below).after_all(more),
        CopyWalkView::with_tasks(
            below + stacked(path, listing.entries(), listing.entries().len() as int),
        ).asked(listing.replies() + more) == listing.actions(path) + CopyWalkView::with_tasks(
            below,
        ).asked(more),
    decreases listing,
{
    let entries = listing.entries();
    let stack = below + stacked(path, entries, entries.len() as int);
    let done = CopyWalkView::with_tasks(below);
    match listing {
        Listing::End => {
            assert(stack =~= below);
            assert(listing.replies() + more =~= more);
            assert(listing.actions(path) + done.asked(more) =~= done.asked(more));
        },
        Listing::Entry { name, node, rest } => {
            let first = DirEntryView { name, is_dir: *node is Dir };
            let later = rest.entries();
            let under = below + stacked(path, later, later.len() as int);
            assert(entries =~= seq![first] + later);
            assert(entries[0] == first);
            assert(stacked(path, entries, entries.len() as int) =~= stacked(
                path,
                later,
                later.len() as int,
            ).push(task_for(path, first)));
            assert(task_for(path, first) == node.task(path.push(name)));
            assert(stack =~= under.push(node.task(path.push(name))));
            assert(listing.replies() + more =~= node.replies() + (rest.replies() + more));
            node_is_copied(under, path.push(name), *node, rest.replies() + more);
            listing_is_copied(below, path, *rest, more);
            assert(node.actions(path.push(name)) + (rest.actions(path) + done.asked(more))
                =~= listing.actions(path) + done.asked(more));
        },
    }
}

/// A directory is copied whole: with a host that performs every action with
/// success and lists the directory as it is, the walk asks for exactly the actions
/// that copy the directory depth first, each once and in that order, and is then
/// over without a failure.
pub proof fn walk_copies_whole_directory(root: Node)
    requires
        root is Dir,
    ensures
        CopyWalkView::started().asked(root.replies()) == root.actions(Seq::empty()),
        CopyWalkView::started().after_all(root.replies()).pending() == CopyActionView::Done,
{
    let below = Seq::<CopyTaskView>::empty();
    let none = Seq::<WalkReplyView>::empty();
    assert(CopyWalkView::started().tasks =~= below.push(root.task(Seq::empty())));
    assert(root.replies() + none =~= root.replies());
    node_is_copied(below, Seq::empty(), root, none);
    assert(root.actions(Seq::empty()) + CopyWalkView::with_tasks(below).asked(none)
        =~= root.actions(Seq::empty()));
}

} // verus!

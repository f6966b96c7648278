//! The recursive copy, stated against a directory tree.
//!
//! A [`Tree`] is what the host would enumerate below a directory. For a host
//! that answers from such a tree and never fails, the laws of this module say
//! which calls a copy asks for and how it ends: the destination directory is
//! created, then each entry is taken in the order the host gives it; a
//! directory is mirrored in the same way, a regular file is copied to the
//! path of the same name below the destination, and any other entry (a
//! symbolic link, a device, a socket) causes no call at all.

use crate::engine::{
    child_frame, lemma_run_in_two, lemma_run_one_more, FrameView, OperationView, StageView,
};
use crate::host::{EntryKind, HostCallView, HostReplyView};
use crate::operations::{copy_plan, two_path_message};
use crate::text::joined;
use vstd::prelude::*;
use vstd::utf8::*;

verus! {

/// What a name in a directory stands for.
pub enum Node {
    /// A regular file.
    File,
    /// Neither a directory nor a regular file.
    Other,
    /// A directory with its entries, in the order the host enumerates them.
    Directory(Seq<TreeEntry>),
}

/// One entry of a directory.
pub struct TreeEntry {
    /// The name as the host holds it; it need not be text.
    pub name: Seq<u8>,
    pub node: Node,
}

/// The entries of a directory, in the order the host enumerates them.
pub type Tree = Seq<TreeEntry>;

/// The kind that the host reports for a node.
pub open spec fn kind_of(node: Node) -> EntryKind {
    match node {
        Node::File => EntryKind::File,
        Node::Other => EntryKind::Other,
        Node::Directory(_) => EntryKind::Directory,
    }
}

/// The replies of a host that never fails while the entries of `entries`
/// from index `from` on are read and mirrored, up to the reply that ends the
/// directory.
pub open spec fn entries_replies(entries: Tree, from: nat) -> Seq<HostReplyView>
    decreases entries, entries.len() - from,
{
    if from >= entries.len() {
        seq![HostReplyView::EndOfDir]
    } else {
        let entry = entries[from as int];
        seq![HostReplyView::Entry { name: entry.name, kind: kind_of(entry.node) }] + (
        match entry.node {
            Node::File => seq![HostReplyView::Done],
            Node::Other => Seq::empty(),
            Node::Directory(inner) => tree_replies(inner),
        }) + entries_replies(entries, from + 1)
    }
}

/// The replies of a host that never fails while a directory with the entries
/// `entries` is mirrored: to the creation of the destination, to the opening
/// of the source, and to the reading of the entries.
pub open spec fn tree_replies(entries: Tree) -> Seq<HostReplyView>
    decreases entries, entries.len() + 1,
{
    seq![HostReplyView::Done, HostReplyView::Done] + entries_replies(entries, 0)
}

/// The calls that mirror the entries of `entries` from index `from` on into
/// the directory of `frame`.
pub open spec fn entries_calls(entries: Tree, from: nat, frame: FrameView) -> Seq<HostCallView>
    decreases entries, entries.len() - from,
{
    if from >= entries.len() {
        seq![HostCallView::NextEntry]
    } else {
        let entry = entries[from as int];
        seq![HostCallView::NextEntry] + (match entry.node {
            Node::File => seq![
                HostCallView::CopyFile {
                    from: joined(frame.src, entry.name),
                    to: joined(frame.dst, entry.name),
                },
            ],
            Node::Other => Seq::empty(),
            Node::Directory(inner) => tree_calls(inner, child_frame(frame, entry.name)),
        }) + entries_calls(entries, from + 1, frame)
    }
}

/// The calls that mirror a directory with the entries `entries`, read at
/// `frame.src`, to `frame.dst`.
pub open spec fn tree_calls(entries: Tree, frame: FrameView) -> Seq<HostCallView>
    decreases entries, entries.len() + 1,
{
    seq![
        HostCallView::CreateDirAll { path: frame.dst },
        HostCallView::OpenDir { path: frame.src },
    ] + entries_calls(entries, 0, frame)
}

/// Where a copy stands when the directory it was in is done: finished with
/// its message if that was the outermost directory, else back at reading
/// the directory above.
pub open spec fn after_directory(parents: Seq<FrameView>, message: Seq<char>) -> OperationView {
    if parents.len() == 0 {
        OperationView::Finished { outcome: Ok(message) }
    } else {
        OperationView::Walk {
            stage: StageView::Read,
            current: parents.last(),
            parents: parents.drop_last(),
            message,
        }
    }
}

/// A copy that reads the entries of a directory from index `from` on asks
/// for the calls that mirror them and then leaves the directory.
pub proof fn lemma_entries_are_mirrored(
    entries: Tree,
    from: nat,
    frame: FrameView,
    parents: Seq<FrameView>,
    message: Seq<char>,
)
    ensures
        ({
            let reading = OperationView::Walk {
                stage: StageView::Read,
                current: frame,
                parents,
                message,
            };
            &&& reading.run(entries_replies(entries, from)) == after_directory(parents, message)
            &&& reading.calls(entries_replies(entries, from)) == entries_calls(
                entries,
                from,
                frame,
            )
        }),
    decreases entries, entries.len() - from, 0nat,
{
    let reading = OperationView::Walk { stage: StageView::Read, current: frame, parents, message };
    if from >= entries.len() {
        let end = seq![HostReplyView::EndOfDir];
        assert(end =~= seq![HostReplyView::EndOfDir] + Seq::<HostReplyView>::empty());
        lemma_run_one_more(reading, HostReplyView::EndOfDir, Seq::empty());
        let left = reading.step(HostReplyView::EndOfDir);
        assert(left == after_directory(parents, message));
        assert(seq![HostCallView::NextEntry] + Seq::<HostCallView>::empty() =~= seq![
            HostCallView::NextEntry,
        ]);
    } else {
        let entry = entries[from as int];
        let told = HostReplyView::Entry { name: entry.name, kind: kind_of(entry.node) };
        let middle = match entry.node {
            Node::File => seq![HostReplyView::Done],
            Node::Other => Seq::empty(),
            Node::Directory(inner) => tree_replies(inner),
        };
        let middle_calls = match entry.node {
            Node::File => seq![
                HostCallView::CopyFile {
                    from: joined(frame.src, entry.name),
                    to: joined(frame.dst, entry.name),
                },
            ],
            Node::Other => Seq::empty(),
            Node::Directory(inner) => tree_calls(inner, child_frame(frame, entry.name)),
        };
        let rest = entries_replies(entries, from + 1);
        let entered = reading.step(told);
        // The entry itself is handled and the copy is back at reading.
        assert(entered.run(middle) == reading && entered.calls(middle) == middle_calls) by {
            match entry.node {
                Node::File => {
                    assert(middle =~= seq![HostReplyView::Done] + Seq::<HostReplyView>::empty());
                    lemma_run_one_more(entered, HostReplyView::Done, Seq::empty());
                    assert(entered.calls(middle) =~= middle_calls);
                },
                Node::Other => {},
                Node::Directory(inner) => {
                    lemma_tree_is_mirrored(
                        inner,
                        child_frame(frame, entry.name),
                        parents.push(frame),
                        message,
                    );
                    assert(parents.push(frame).drop_last() =~= parents);
                },
            }
        }
        lemma_entries_are_mirrored(entries, from + 1, frame, parents, message);
        lemma_run_in_two(entered, middle, rest);
        assert(seq![told] + middle + rest =~= seq![told] + (middle + rest));
        lemma_run_one_more(reading, told, middle + rest);
        assert(seq![HostCallView::NextEntry] + (middle_calls + entries_calls(
            entries,
            from + 1,
            frame,
        )) =~= seq![HostCallView::NextEntry] + middle_calls + entries_calls(
            entries,
            from + 1,
            frame,
        ));
    }
}

/// A copy that is about to create the destination of a directory asks for
/// the calls that mirror the directory and then leaves it.
pub proof fn lemma_tree_is_mirrored(
    entries: Tree,
    frame: FrameView,
    parents: Seq<FrameView>,
    message: Seq<char>,
)
    ensures
        ({
            let creating = OperationView::Walk {
                stage: StageView::Create,
                current: frame,
                parents,
                message,
            };
            &&& creating.run(tree_replies(entries)) == after_directory(parents, message)
            &&& creating.calls(tree_replies(entries)) == tree_calls(entries, frame)
        }),
    decreases entries, entries.len() + 1, 0nat,
{
    let creating = OperationView::Walk {
        stage: StageView::Create,
        current: frame,
        parents,
        message,
    };
    let opening = OperationView::Walk { stage: StageView::Open, current: frame, parents, message };
    let reading = OperationView::Walk { stage: StageView::Read, current: frame, parents, message };
    let rest = entries_replies(entries, 0);
    lemma_entries_are_mirrored(entries, 0, frame, parents, message);
    lemma_run_one_more(opening, HostReplyView::Done, rest);
    lemma_run_one_more(creating, HostReplyView::Done, seq![HostReplyView::Done] + rest);
    assert(seq![HostReplyView::Done, HostReplyView::Done] + rest =~= seq![HostReplyView::Done] + (
    seq![HostReplyView::Done] + rest));
    assert(seq![HostCallView::CreateDirAll { path: frame.dst }] + (seq![
        HostCallView::OpenDir { path: frame.src },
    ] + entries_calls(entries, 0, frame)) =~= tree_calls(entries, frame));
}

/// Copying a directory whose host never fails: the copy asks whether the
/// source is a directory, then for the calls that mirror the tree, and ends
/// in success with the message that names both paths.
pub proof fn lemma_copy_mirrors_tree(src: Seq<char>, dst: Seq<char>, entries: Tree)
    ensures
        ({
            let replies = seq![HostReplyView::IsDir(true)] + tree_replies(entries);
            &&& copy_plan(src, dst).run(replies) == (OperationView::Finished {
                outcome: Ok(two_path_message("Copied: "@, src, dst)),
            })
            &&& copy_plan(src, dst).calls(replies) == seq![
                HostCallView::QueryIsDir { path: encode_utf8(src) },
            ] + tree_calls(entries, FrameView { src: encode_utf8(src), dst: encode_utf8(dst) })
        }),
{
    let message = two_path_message("Copied: "@, src, dst);
    let frame = FrameView { src: encode_utf8(src), dst: encode_utf8(dst) };
    lemma_tree_is_mirrored(entries, frame, Seq::empty(), message);
    lemma_run_one_more(copy_plan(src, dst), HostReplyView::IsDir(true), tree_replies(entries));
}

/// Copying anything that is no directory: one call that copies the file, and
/// success if the host made it.
pub proof fn lemma_copy_of_file(src: Seq<char>, dst: Seq<char>)
    ensures
        ({
            let replies = seq![HostReplyView::IsDir(false), HostReplyView::Done];
            &&& copy_plan(src, dst).run(replies) == (OperationView::Finished {
                outcome: Ok(two_path_message("Copied: "@, src, dst)),
            })
            &&& copy_plan(src, dst).calls(replies) == seq![
                HostCallView::QueryIsDir { path: encode_utf8(src) },
                HostCallView::CopyFile { from: encode_utf8(src), to: encode_utf8(dst) },
            ]
        }),
{
    let replies = seq![HostReplyView::IsDir(false), HostReplyView::Done];
    let start = copy_plan(src, dst);
    let last = start.step(HostReplyView::IsDir(false));
    assert(replies =~= seq![HostReplyView::IsDir(false)] + seq![HostReplyView::Done]);
    lemma_run_one_more(start, HostReplyView::IsDir(false), seq![HostReplyView::Done]);
    assert(seq![HostReplyView::Done] =~= seq![HostReplyView::Done] + Seq::<
        HostReplyView,
    >::empty());
    lemma_run_one_more(last, HostReplyView::Done, Seq::empty());
    assert(start.calls(replies) =~= seq![
        HostCallView::QueryIsDir { path: encode_utf8(src) },
        HostCallView::CopyFile { from: encode_utf8(src), to: encode_utf8(dst) },
    ]);
}

/// A regular file of the source with the path it is mirrored to.
pub struct FileCopy {
    pub from: Seq<u8>,
    pub to: Seq<u8>,
}

/// The regular files below the entries of `entries` from index `from` on,
/// each with its path below `frame.src` and the path of the same name below
/// `frame.dst`, in the order the host enumerates them.
pub open spec fn regular_files(entries: Tree, from: nat, frame: FrameView) -> Seq<FileCopy>
    decreases entries, entries.len() - from,
{
    if from >= entries.len() {
        Seq::empty()
    } else {
        let entry = entries[from as int];
        (match entry.node {
            Node::File => seq![
                FileCopy { from: joined(frame.src, entry.name), to: joined(frame.dst, entry.name) },
            ],
            Node::Other => Seq::empty(),
            Node::Directory(inner) => regular_files(inner, 0, child_frame(frame, entry.name)),
        }) + regular_files(entries, from + 1, frame)
    }
}

/// The directories below the entries of `entries` from index `from` on, each
/// as the path of the same name below `frame.dst`, every directory before
/// what it holds.
pub open spec fn directories(entries: Tree, from: nat, frame: FrameView) -> Seq<Seq<u8>>
    decreases entries, entries.len() - from,
{
    if from >= entries.len() {
        Seq::empty()
    } else {
        let entry = entries[from as int];
        (match entry.node {
            Node::Directory(inner) => seq![joined(frame.dst, entry.name)] + directories(
                inner,
                0,
                child_frame(frame, entry.name),
            ),
            _ => Seq::empty(),
        }) + directories(entries, from + 1, frame)
    }
}

/// The file copies among `calls`, in order.
pub open spec fn copies_among(calls: Seq<HostCallView>) -> Seq<FileCopy>
    decreases calls.len(),
{
    if calls.len() == 0 {
        Seq::empty()
    } else {
        (match calls[0] {
            HostCallView::CopyFile { from, to } => seq![FileCopy { from, to }],
            _ => Seq::empty(),
        }) + copies_among(calls.drop_first())
    }
}

/// The directories that `calls` create, in order.
pub open spec fn created_among(calls: Seq<HostCallView>) -> Seq<Seq<u8>>
    decreases calls.len(),
{
    if calls.len() == 0 {
        Seq::empty()
    } else {
        (match calls[0] {
            HostCallView::CreateDirAll { path } => seq![path],
            _ => Seq::empty(),
        }) + created_among(calls.drop_first())
    }
}

/// True when `calls` change the filesystem by creating directories and
/// copying files only.
pub open spec fn only_mirrors(calls: Seq<HostCallView>) -> bool {
    forall|i: int|
        0 <= i < calls.len() && (#[trigger] calls[i]).mutates() ==> calls[i] is CreateDirAll
            || calls[i] is CopyFile
}

proof fn lemma_selected_in_two(first: Seq<HostCallView>, second: Seq<HostCallView>)
    ensures
        copies_among(first + second) == copies_among(first) + copies_among(second),
        created_among(first + second) == created_among(first) + created_among(second),
    decreases first.len(),
{
    if first.len() == 0 {
        assert(first + second =~= second);
        assert(copies_among(first) + copies_among(second) =~= copies_among(second));
        assert(created_among(first) + created_among(second) =~= created_among(second));
    } else {
        let all = first + second;
        assert(all[0] == first[0]);
        assert(all.drop_first() =~= first.drop_first() + second);
        lemma_selected_in_two(first.drop_first(), second);
        assert(copies_among(all) =~= copies_among(first) + copies_among(second));
        assert(created_among(all) =~= created_among(first) + created_among(second));
    }
}

proof fn lemma_selected_of_one(call: HostCallView)
    ensures
        copies_among(seq![call]) == (match call {
            HostCallView::CopyFile { from, to } => seq![FileCopy { from, to }],
            _ => Seq::empty(),
        }),
        created_among(seq![call]) == (match call {
            HostCallView::CreateDirAll { path } => seq![path],
            _ => Seq::empty(),
        }),
{
    let one = seq![call];
    assert(one.drop_first() =~= Seq::<HostCallView>::empty());
    assert(copies_among(one.drop_first()) =~= Seq::<FileCopy>::empty());
    assert(created_among(one.drop_first()) =~= Seq::<Seq<u8>>::empty());
    assert(copies_among(one) =~= (match call {
        HostCallView::CopyFile { from, to } => seq![FileCopy { from, to }],
        _ => Seq::empty(),
    }));
    assert(created_among(one) =~= (match call {
        HostCallView::CreateDirAll { path } => seq![path],
        _ => Seq::empty(),
    }));
}

/// What the calls that mirror entries do to the filesystem: they copy the
/// regular files below the entries, one call for each and no other, create
/// the directories below them, and change nothing else. An entry that is
/// neither a directory nor a regular file is never the subject of a call.
pub proof fn lemma_entries_calls_mirror(entries: Tree, from: nat, frame: FrameView)
    ensures
        copies_among(entries_calls(entries, from, frame)) == regular_files(entries, from, frame),
        created_among(entries_calls(entries, from, frame)) == directories(entries, from, frame),
        only_mirrors(entries_calls(entries, from, frame)),
    decreases entries, entries.len() - from, 0nat,
{
    let next = seq![HostCallView::NextEntry];
    lemma_selected_of_one(HostCallView::NextEntry);
    if from < entries.len() {
        let entry = entries[from as int];
        let rest = entries_calls(entries, from + 1, frame);
        lemma_entries_calls_mirror(entries, from + 1, frame);
        let middle = match entry.node {
            Node::File => seq![
                HostCallView::CopyFile {
                    from: joined(frame.src, entry.name),
                    to: joined(frame.dst, entry.name),
                },
            ],
            Node::Other => Seq::empty(),
            Node::Directory(inner) => tree_calls(inner, child_frame(frame, entry.name)),
        };
        match entry.node {
            Node::File => {
                lemma_selected_of_one(middle[0]);
                assert(middle =~= seq![middle[0]]);
            },
            Node::Other => {},
            Node::Directory(inner) => {
                lemma_tree_calls_mirror(inner, child_frame(frame, entry.name));
            },
        }
        lemma_selected_in_two(next, middle);
        lemma_selected_in_two(next + middle, rest);
        assert(copies_among(entries_calls(entries, from, frame)) =~= regular_files(
            entries,
            from,
            frame,
        ));
        assert(created_among(entries_calls(entries, from, frame)) =~= directories(
            entries,
            from,
            frame,
        ));
        assert(only_mirrors(middle));
        assert(only_mirrors(rest));
        let all = entries_calls(entries, from, frame);
        assert(all == next + middle + rest);
        assert forall|i: int| 0 <= i < all.len() && (#[trigger] all[i]).mutates() implies all[i] is CreateDirAll
            || all[i] is CopyFile by {
            if i < 1 {
            } else if i < 1 + middle.len() {
                assert(all[i] == middle[i - 1]);
            } else {
                assert(all[i] == rest[i - 1 - middle.len()]);
            }
        }
    }
}

/// What the calls that mirror a directory do to the filesystem: they create
/// the destination and the directories below it, copy the regular files of
/// the tree, one call for each, and change nothing else.
pub proof fn lemma_tree_calls_mirror(entries: Tree, frame: FrameView)
    ensures
        copies_among(tree_calls(entries, frame)) == regular_files(entries, 0, frame),
        created_among(tree_calls(entries, frame)) == seq![frame.dst] + directories(
            entries,
            0,
            frame,
        ),
        only_mirrors(tree_calls(entries, frame)),
    decreases entries, entries.len() + 1, 0nat,
{
    let create = HostCallView::CreateDirAll { path: frame.dst };
    let open = HostCallView::OpenDir { path: frame.src };
    let rest = entries_calls(entries, 0, frame);
    lemma_entries_calls_mirror(entries, 0, frame);
    lemma_selected_of_one(create);
    lemma_selected_of_one(open);
    assert(tree_calls(entries, frame) =~= seq![create] + (seq![open] + rest));
    lemma_selected_in_two(seq![open], rest);
    lemma_selected_in_two(seq![create], seq![open] + rest);
    assert(copies_among(tree_calls(entries, frame)) =~= regular_files(entries, 0, frame));
    assert(created_among(tree_calls(entries, frame)) =~= seq![frame.dst] + directories(
        entries,
        0,
        frame,
    ));
    let all = tree_calls(entries, frame);
    assert forall|i: int| 0 <= i < all.len() && (#[trigger] all[i]).mutates() implies all[i] is CreateDirAll
        || all[i] is CopyFile by {
        if i >= 2 {
            assert(all[i] == rest[i - 2]);
        }
    }
}

/// The node reached in `entries` by taking the entry of index `indices[0]`,
/// then in that directory the entry of index `indices[1]`, and so on; none
/// if an index is out of range or a step leads through something that is not
/// a directory.
pub open spec fn node_at(entries: Tree, indices: Seq<int>) -> Option<Node>
    decreases indices.len(),
{
    if indices.len() == 0 || !(0 <= indices[0] < entries.len()) {
        None
    } else if indices.len() == 1 {
        Some(entries[indices[0]].node)
    } else {
        match entries[indices[0]].node {
            Node::Directory(inner) => node_at(inner, indices.drop_first()),
            _ => None,
        }
    }
}

/// The names of the entries passed on the way to the node at `indices`.
pub open spec fn names_along(entries: Tree, indices: Seq<int>) -> Seq<Seq<u8>>
    decreases indices.len(),
{
    if indices.len() == 0 || !(0 <= indices[0] < entries.len()) {
        Seq::empty()
    } else {
        seq![entries[indices[0]].name] + (match entries[indices[0]].node {
            Node::Directory(inner) => names_along(inner, indices.drop_first()),
            _ => Seq::empty(),
        })
    }
}

/// The path reached from `base` by going down through `names`.
pub open spec fn path_below(base: Seq<u8>, names: Seq<Seq<u8>>) -> Seq<u8>
    decreases names.len(),
{
    if names.len() == 0 {
        base
    } else {
        path_below(joined(base, names[0]), names.drop_first())
    }
}

/// The copy of the node at `indices`: from its path below `frame.src` to the
/// path of the same names below `frame.dst`.
pub open spec fn mirrored_copy(entries: Tree, indices: Seq<int>, frame: FrameView) -> FileCopy {
    FileCopy {
        from: path_below(frame.src, names_along(entries, indices)),
        to: path_below(frame.dst, names_along(entries, indices)),
    }
}

proof fn lemma_path_below_one_more(base: Seq<u8>, name: Seq<u8>, names: Seq<Seq<u8>>)
    ensures
        path_below(base, seq![name] + names) == path_below(joined(base, name), names),
{
    let all = seq![name] + names;
    assert(all[0] == name);
    assert(all.drop_first() =~= names);
}

/// Every regular file of the source tree, at whatever depth, is among the
/// files that are copied, and is copied to the path of the same names below
/// the destination.
pub proof fn lemma_every_regular_file_is_copied(
    entries: Tree,
    from: nat,
    frame: FrameView,
    indices: Seq<int>,
)
    requires
        node_at(entries, indices) == Some(Node::File),
        from <= indices[0],
    ensures
        regular_files(entries, from, frame).contains(mirrored_copy(entries, indices, frame)),
    decreases entries, entries.len() - from,
{
    let first = indices[0];
    let entry = entries[from as int];
    let head = match entry.node {
        Node::File => seq![
            FileCopy { from: joined(frame.src, entry.name), to: joined(frame.dst, entry.name) },
        ],
        Node::Other => Seq::empty(),
        Node::Directory(inner) => regular_files(inner, 0, child_frame(frame, entry.name)),
    };
    let tail = regular_files(entries, from + 1, frame);
    let wanted = mirrored_copy(entries, indices, frame);
    assert(regular_files(entries, from, frame) == head + tail);
    if from < first {
        lemma_every_regular_file_is_copied(entries, from + 1, frame, indices);
        let k = choose|k: int| 0 <= k < tail.len() && tail[k] == wanted;
        assert((head + tail)[head.len() + k] == wanted);
    } else {
        let rest = indices.drop_first();
        match entry.node {
            Node::Directory(inner) => {
                let child = child_frame(frame, entry.name);
                lemma_every_regular_file_is_copied(inner, 0, child, rest);
                lemma_path_below_one_more(frame.src, entry.name, names_along(inner, rest));
                lemma_path_below_one_more(frame.dst, entry.name, names_along(inner, rest));
                assert(mirrored_copy(inner, rest, child) == wanted);
                let k = choose|k: int| 0 <= k < head.len() && head[k] == wanted;
                assert((head + tail)[k] == wanted);
            },
            _ => {
                lemma_path_below_one_more(frame.src, entry.name, Seq::empty());
                lemma_path_below_one_more(frame.dst, entry.name, Seq::empty());
                assert(seq![entry.name] + Seq::<Seq<u8>>::empty() =~= names_along(
                    entries,
                    indices,
                ));
                assert(head[0] == wanted);
                assert((head + tail)[0] == wanted);
            },
        }
    }
}

/// Every file that is copied is a regular file of the source tree: the
/// result leads to it, and it is copied to the path of the same names below
/// the destination. Nothing that is not a regular file is ever copied.
pub proof fn lemma_only_regular_files_are_copied(
    entries: Tree,
    from: nat,
    frame: FrameView,
    k: int,
) -> (indices: Seq<int>)
    requires
        0 <= k < regular_files(entries, from, frame).len(),
    ensures
        node_at(entries, indices) == Some(Node::File),
        from <= indices[0],
        regular_files(entries, from, frame)[k] == mirrored_copy(entries, indices, frame),
    decreases entries, entries.len() - from,
{
    let entry = entries[from as int];
    let head = match entry.node {
        Node::File => seq![
            FileCopy { from: joined(frame.src, entry.name), to: joined(frame.dst, entry.name) },
        ],
        Node::Other => Seq::empty(),
        Node::Directory(inner) => regular_files(inner, 0, child_frame(frame, entry.name)),
    };
    let tail = regular_files(entries, from + 1, frame);
    assert(regular_files(entries, from, frame) == head + tail);
    if k >= head.len() {
        lemma_only_regular_files_are_copied(entries, from + 1, frame, k - head.len())
    } else {
        match entry.node {
            Node::Directory(inner) => {
                let child = child_frame(frame, entry.name);
                let rest = lemma_only_regular_files_are_copied(inner, 0, child, k);
                let indices = seq![from as int] + rest;
                assert(indices.drop_first() =~= rest);
                lemma_path_below_one_more(frame.src, entry.name, names_along(inner, rest));
                lemma_path_below_one_more(frame.dst, entry.name, names_along(inner, rest));
                indices
            },
            _ => {
                let indices = seq![from as int];
                lemma_path_below_one_more(frame.src, entry.name, Seq::empty());
                lemma_path_below_one_more(frame.dst, entry.name, Seq::empty());
                assert(seq![entry.name] + Seq::<Seq<u8>>::empty() =~= names_along(
                    entries,
                    indices,
                ));
                indices
            },
        }
    }
}

} // verus!

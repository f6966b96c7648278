//! The operations of the engine, each as an [`Operation`] ready to be run
//! against the host filesystem.
//!
//! A path is passed to the host as it is given, as the bytes of its text:
//! nothing is normalized or made absolute.

use crate::common::envelope_text;
use crate::engine::{lemma_run_one_more, Operation, OperationView, Purpose};
use crate::host::{HostCall, HostCallView, HostReplyView, Platform};
use crate::permissions::{permission_call, set_permissions};
use crate::text::{
    followed_by, lemma_ascii_without_nul_is_wire_safe, lemma_octal_digits_are_wire_safe,
    lemma_wire_safe_of_two, octal_digits, octal_text, wire_safe,
};
use vstd::prelude::*;
use vstd::string::*;
use vstd::utf8::*;

verus! {

/// The text `label` + `path`.
pub open spec fn one_path_message(label: Seq<char>, path: Seq<char>) -> Seq<char> {
    label + path
}

/// The text `label` + `from` + `" -> "` + `to`.
pub open spec fn two_path_message(label: Seq<char>, from: Seq<char>, to: Seq<char>) -> Seq<char> {
    label + from + " -> "@ + to
}

/// The text that tells that `path` was given the mode `mode`, the mode
/// written in octal behind a zero.
pub open spec fn permissions_message(path: Seq<char>, mode: u32) -> Seq<char> {
    "Permissions changed: "@ + path + " (0"@ + octal_digits(mode as nat) + ")"@
}

fn describe_one(label: &str, path: &str) -> (message: String)
    ensures
        message@ == one_path_message(label@, path@),
{
    followed_by(label, path)
}

fn describe_two(label: &str, from: &str, to: &str) -> (message: String)
    ensures
        message@ == two_path_message(label@, from@, to@),
{
    let mut message = followed_by(label, from);
    message.append(" -> ");
    message.append(to);
    message
}

/// Creating the folder `path` with every missing ancestor: one call, which
/// is no error if the folder exists.
pub open spec fn create_folder_plan(path: Seq<char>) -> OperationView {
    OperationView::Last {
        call: HostCallView::CreateDirAll { path: encode_utf8(path) },
        message: one_path_message("Folder created: "@, path),
    }
}

/// Creates the folder `path` and any missing ancestor.
pub fn create_folder(path: &str) -> (op: Operation)
    ensures
        op@ == create_folder_plan(path@),
{
    Operation::single(
        HostCall::CreateDirAll { path: path.as_bytes_vec() },
        describe_one("Folder created: ", path),
    )
}

/// Creating the empty file `path`: one call, which truncates a file that
/// exists.
pub open spec fn create_file_plan(path: Seq<char>) -> OperationView {
    OperationView::Last {
        call: HostCallView::CreateFile { path: encode_utf8(path) },
        message: one_path_message("File created: "@, path),
    }
}

/// Creates the empty file `path`.
pub fn create_file(path: &str) -> (op: Operation)
    ensures
        op@ == create_file_plan(path@),
{
    Operation::single(
        HostCall::CreateFile { path: path.as_bytes_vec() },
        describe_one("File created: ", path),
    )
}

/// Deleting `path`: the host is asked what the path is, then to remove a
/// directory with all its contents, or anything else as a single file.
pub open spec fn delete_plan(path: Seq<char>) -> OperationView {
    OperationView::Probe {
        purpose: Purpose::Delete,
        from: encode_utf8(path),
        to: encode_utf8(path),
        message: one_path_message("Deleted: "@, path),
    }
}

/// Deletes the file or directory `path`.
pub fn delete_path(path: &str) -> (op: Operation)
    ensures
        op@ == delete_plan(path@),
{
    Operation::probe(
        Purpose::Delete,
        path.as_bytes_vec(),
        path.as_bytes_vec(),
        describe_one("Deleted: ", path),
    )
}

/// Renaming `old_path` to `new_path`: one call, whose failure (across two
/// storage volumes, say) is the failure of the operation.
pub open spec fn rename_plan(old_path: Seq<char>, new_path: Seq<char>) -> OperationView {
    OperationView::Last {
        call: HostCallView::Rename { from: encode_utf8(old_path), to: encode_utf8(new_path) },
        message: two_path_message("Renamed: "@, old_path, new_path),
    }
}

/// Renames `old_path` to `new_path`.
pub fn rename_path(old_path: &str, new_path: &str) -> (op: Operation)
    ensures
        op@ == rename_plan(old_path@, new_path@),
{
    Operation::single(
        HostCall::Rename { from: old_path.as_bytes_vec(), to: new_path.as_bytes_vec() },
        describe_two("Renamed: ", old_path, new_path),
    )
}

/// Moving `src` to `dst`: the call of a rename, reported as a move.
pub open spec fn move_plan(src: Seq<char>, dst: Seq<char>) -> OperationView {
    OperationView::Last {
        call: HostCallView::Rename { from: encode_utf8(src), to: encode_utf8(dst) },
        message: two_path_message("Moved: "@, src, dst),
    }
}

/// Moves `src` to `dst`.
pub fn move_path(src: &str, dst: &str) -> (op: Operation)
    ensures
        op@ == move_plan(src@, dst@),
{
    Operation::single(
        HostCall::Rename { from: src.as_bytes_vec(), to: dst.as_bytes_vec() },
        describe_two("Moved: ", src, dst),
    )
}

/// Copying `src` to `dst`: the host is asked what `src` is, then a directory
/// is mirrored entry by entry and anything else is copied as a file.
pub open spec fn copy_plan(src: Seq<char>, dst: Seq<char>) -> OperationView {
    OperationView::Probe {
        purpose: Purpose::Copy,
        from: encode_utf8(src),
        to: encode_utf8(dst),
        message: two_path_message("Copied: "@, src, dst),
    }
}

/// Copies the file or directory `src` to `dst`.
pub fn copy_path(src: &str, dst: &str) -> (op: Operation)
    ensures
        op@ == copy_plan(src@, dst@),
{
    Operation::probe(
        Purpose::Copy,
        src.as_bytes_vec(),
        dst.as_bytes_vec(),
        describe_two("Copied: ", src, dst),
    )
}

/// Giving `path` the mode `mode` on `platform`: the one call that the
/// permission adapter names.
pub open spec fn change_permissions_plan(
    path: Seq<char>,
    mode: u32,
    platform: Platform,
) -> OperationView {
    OperationView::Last {
        call: permission_call(platform, path, mode),
        message: permissions_message(path, mode),
    }
}

/// Changes the permissions of `path` to `mode`.
pub fn change_permissions(path: &str, mode: u32, platform: Platform) -> (op: Operation)
    ensures
        op@ == change_permissions_plan(path@, mode, platform),
{
    let digits = octal_text(mode);
    let mut message = followed_by("Permissions changed: ", path);
    message.append(" (0");
    message.append(digits.as_str());
    message.append(")");
    Operation::single(set_permissions(platform, path, mode), message)
}

/// An operation of one call: the call is asked for once, and the operation
/// succeeds with its message when the host has made it.
pub proof fn lemma_one_call_operation(call: HostCallView, message: Seq<char>)
    ensures
        ({
            let op = OperationView::Last { call, message };
            &&& op.calls(seq![HostReplyView::Done]) == seq![call]
            &&& op.run(seq![HostReplyView::Done]) == (OperationView::Finished {
                outcome: Ok(message),
            })
        }),
{
    let op = OperationView::Last { call, message };
    assert(seq![HostReplyView::Done] =~= seq![HostReplyView::Done] + Seq::<
        HostReplyView,
    >::empty());
    lemma_run_one_more(op, HostReplyView::Done, Seq::empty());
    assert(seq![call] + Seq::<HostCallView>::empty() =~= seq![call]);
}

/// Deleting asks what the path is and then makes one call: a directory is
/// removed with all that is below it, anything else is removed as a single
/// file. The caller need not empty a directory first.
pub proof fn lemma_delete_by_kind(path: Seq<char>, is_dir: bool)
    ensures
        ({
            let replies = seq![HostReplyView::IsDir(is_dir), HostReplyView::Done];
            &&& delete_plan(path).calls(replies) == seq![
                HostCallView::QueryIsDir { path: encode_utf8(path) },
                if is_dir {
                    HostCallView::RemoveDirAll { path: encode_utf8(path) }
                } else {
                    HostCallView::RemoveFile { path: encode_utf8(path) }
                },
            ]
            &&& delete_plan(path).run(replies) == (OperationView::Finished {
                outcome: Ok(one_path_message("Deleted: "@, path)),
            })
        }),
{
    let replies = seq![HostReplyView::IsDir(is_dir), HostReplyView::Done];
    let start = delete_plan(path);
    let told = HostReplyView::IsDir(is_dir);
    let bytes = encode_utf8(path);
    let removal = if is_dir {
        HostCallView::RemoveDirAll { path: bytes }
    } else {
        HostCallView::RemoveFile { path: bytes }
    };
    assert(replies =~= seq![told] + seq![HostReplyView::Done]);
    lemma_run_one_more(start, told, seq![HostReplyView::Done]);
    lemma_one_call_operation(removal, one_path_message("Deleted: "@, path));
    assert(seq![HostCallView::QueryIsDir { path: bytes }] + seq![removal] =~= seq![
        HostCallView::QueryIsDir { path: bytes },
        removal,
    ]);
}

/// A move is the call of a rename: the two operations differ in the message
/// only.
pub proof fn lemma_move_is_rename(src: Seq<char>, dst: Seq<char>)
    ensures
        move_plan(src, dst).pending() == rename_plan(src, dst).pending(),
        move_plan(src, dst).pending() == Some(
            HostCallView::Rename { from: encode_utf8(src), to: encode_utf8(dst) },
        ),
{
}

proof fn lemma_label_is_wire_safe(label: Seq<char>)
    requires
        label == "Folder created: "@ || label == "File created: "@ || label == "Deleted: "@
            || label == "Renamed: "@ || label == "Moved: "@ || label == "Copied: "@ || label
            == "Permissions changed: "@ || label == " -> "@ || label == " (0"@ || label == ")"@,
    ensures
        wire_safe(label),
{
    reveal_strlit("Folder created: ");
    reveal_strlit("File created: ");
    reveal_strlit("Deleted: ");
    reveal_strlit("Renamed: ");
    reveal_strlit("Moved: ");
    reveal_strlit("Copied: ");
    reveal_strlit("Permissions changed: ");
    reveal_strlit(" -> ");
    reveal_strlit(" (0");
    reveal_strlit(")");
    lemma_ascii_without_nul_is_wire_safe(label);
}

/// The message of an operation on wire-safe paths is wire safe, so that the
/// envelope carries it as it is, with the paths in full.
pub proof fn lemma_messages_fit_the_envelope(path: Seq<char>, other: Seq<char>, mode: u32)
    requires
        wire_safe(path),
        wire_safe(other),
    ensures
        envelope_text(one_path_message("Folder created: "@, path)) == "Folder created: "@ + path,
        envelope_text(one_path_message("File created: "@, path)) == "File created: "@ + path,
        envelope_text(one_path_message("Deleted: "@, path)) == "Deleted: "@ + path,
        envelope_text(two_path_message("Renamed: "@, path, other)) == "Renamed: "@ + path
            + " -> "@ + other,
        envelope_text(two_path_message("Moved: "@, path, other)) == "Moved: "@ + path + " -> "@
            + other,
        envelope_text(two_path_message("Copied: "@, path, other)) == "Copied: "@ + path + " -> "@
            + other,
        envelope_text(permissions_message(path, mode)) == "Permissions changed: "@ + path
            + " (0"@ + octal_digits(mode as nat) + ")"@,
{
    lemma_label_is_wire_safe("Folder created: "@);
    lemma_label_is_wire_safe("File created: "@);
    lemma_label_is_wire_safe("Deleted: "@);
    lemma_label_is_wire_safe("Renamed: "@);
    lemma_label_is_wire_safe("Moved: "@);
    lemma_label_is_wire_safe("Copied: "@);
    lemma_label_is_wire_safe("Permissions changed: "@);
    lemma_label_is_wire_safe(" -> "@);
    lemma_label_is_wire_safe(" (0"@);
    lemma_label_is_wire_safe(")"@);
    lemma_wire_safe_of_two("Folder created: "@, path);
    lemma_wire_safe_of_two("File created: "@, path);
    lemma_wire_safe_of_two("Deleted: "@, path);
    lemma_wire_safe_of_two("Renamed: "@, path);
    lemma_wire_safe_of_two("Renamed: "@ + path, " -> "@);
    lemma_wire_safe_of_two("Renamed: "@ + path + " -> "@, other);
    lemma_wire_safe_of_two("Moved: "@, path);
    lemma_wire_safe_of_two("Moved: "@ + path, " -> "@);
    lemma_wire_safe_of_two("Moved: "@ + path + " -> "@, other);
    lemma_wire_safe_of_two("Copied: "@, path);
    lemma_wire_safe_of_two("Copied: "@ + path, " -> "@);
    lemma_wire_safe_of_two("Copied: "@ + path + " -> "@, other);
    lemma_octal_digits_are_wire_safe(mode as nat);
    lemma_wire_safe_of_two("Permissions changed: "@, path);
    lemma_wire_safe_of_two("Permissions changed: "@ + path, " (0"@);
    lemma_wire_safe_of_two("Permissions changed: "@ + path + " (0"@, octal_digits(mode as nat));
    lemma_wire_safe_of_two(
        "Permissions changed: "@ + path + " (0"@ + octal_digits(mode as nat),
        ")"@,
    );
}

} // verus!

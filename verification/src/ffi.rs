//! The boundary entry points: one per operation.
//!
//! A path handle is `None` for a null pointer and otherwise the bytes of the
//! foreign string up to its terminating NUL; it is only read. Each entry
//! point marshals its handles and hands the paths to the engine. Where a
//! handle does not marshal, the operation is finished at once with that
//! failure, and no host call is ever asked for. The caller runs the operation
//! against the host and takes its envelope from [`Operation::result`].

use crate::common::{c_str_to_string, envelope_of, marshalled, FsErrorView, FsResult};
use crate::engine::{lemma_finished_is_final, Operation, OperationView};
use crate::host::{HostCallView, HostReplyView, Platform};
use crate::operations;
use crate::operations::{
    change_permissions_plan, copy_plan, create_file_plan, create_folder_plan, delete_plan,
    move_plan, rename_plan,
};
use vstd::prelude::*;
use vstd::string::*;
use vstd::utf8::*;

verus! {

/// An operation on one path behind a handle: the plan for the path if the
/// handle marshals, else finished with the marshaling failure.
pub open spec fn single_path_entry(
    path: Option<&[u8]>,
    plan: spec_fn(Seq<char>) -> OperationView,
) -> OperationView {
    match marshalled(path) {
        Ok(p) => plan(p),
        Err(e) => OperationView::Finished { outcome: Err(e) },
    }
}

/// An operation on two paths behind handles: the plan for the paths if both
/// handles marshal, else finished with the failure of the first that does
/// not.
pub open spec fn dual_path_entry(
    src: Option<&[u8]>,
    dst: Option<&[u8]>,
    plan: spec_fn(Seq<char>, Seq<char>) -> OperationView,
) -> OperationView {
    match marshalled(src) {
        Ok(s) => match marshalled(dst) {
            Ok(d) => plan(s, d),
            Err(e) => OperationView::Finished { outcome: Err(e) },
        },
        Err(e) => OperationView::Finished { outcome: Err(e) },
    }
}

/// The mathematical value of two marshalled paths.
pub open spec fn path_pair_view(r: FsResult<(String, String)>) -> Result<
    (Seq<char>, Seq<char>),
    FsErrorView,
> {
    match r {
        Ok(pair) => Ok((pair.0@, pair.1@)),
        Err(e) => Err(e@),
    }
}

/// What two handles marshal to: both paths, or the failure of the first
/// handle that does not marshal.
pub open spec fn marshalled_pair(src: Option<&[u8]>, dst: Option<&[u8]>) -> Result<
    (Seq<char>, Seq<char>),
    FsErrorView,
> {
    match marshalled(src) {
        Ok(s) => match marshalled(dst) {
            Ok(d) => Ok((s, d)),
            Err(e) => Err(e),
        },
        Err(e) => Err(e),
    }
}

/// Marshals the two handles of an operation on two paths.
pub fn dual_path_helper(src: Option<&[u8]>, dst: Option<&[u8]>) -> (r: FsResult<(String, String)>)
    ensures
        path_pair_view(r) == marshalled_pair(src, dst),
{
    match c_str_to_string(src) {
        Ok(s) => match c_str_to_string(dst) {
            Ok(d) => Ok((s, d)),
            Err(e) => Err(e),
        },
        Err(e) => Err(e),
    }
}

/// Marshals the handle of an operation on one path and hands the path to
/// `operation`. Where the handle does not marshal, `operation` is not called
/// and the result is finished with the marshaling failure.
pub fn single_path_operation<F: FnOnce(&str) -> Operation>(
    path: Option<&[u8]>,
    operation: F,
) -> (op: Operation)
    requires
        forall|p: &str| operation.requires((p,)),
    ensures
        marshalled(path) is Err ==> op@ == (OperationView::Finished {
            outcome: Err(marshalled(path)->Err_0),
        }),
        marshalled(path) is Ok ==> exists|p: &str|
            p@ == marshalled(path)->Ok_0 && #[trigger] operation.ensures((p,), op),
{
    match c_str_to_string(path) {
        Ok(p) => operation(p.as_str()),
        Err(e) => Operation::finished(Err(e)),
    }
}

/// Entry point: create the folder behind `path` and any missing ancestor.
pub fn create_folder(path: Option<&[u8]>) -> (op: Operation)
    ensures
        op@ == single_path_entry(path, |p: Seq<char>| create_folder_plan(p)),
{
    single_path_operation(path, operations::create_folder)
}

/// Entry point: create the empty file behind `path`.
pub fn create_file(path: Option<&[u8]>) -> (op: Operation)
    ensures
        op@ == single_path_entry(path, |p: Seq<char>| create_file_plan(p)),
{
    single_path_operation(path, operations::create_file)
}

/// Entry point: delete the file or directory behind `path`.
pub fn delete_path(path: Option<&[u8]>) -> (op: Operation)
    ensures
        op@ == single_path_entry(path, |p: Seq<char>| delete_plan(p)),
{
    single_path_operation(path, operations::delete_path)
}

/// Entry point: give the path behind `path` the mode `mode`, read as POSIX
/// permission bits.
pub fn change_permissions(path: Option<&[u8]>, mode: u32, platform: Platform) -> (op: Operation)
    ensures
        op@ == single_path_entry(path, |p: Seq<char>| change_permissions_plan(p, mode, platform)),
{
    let operation = |p: &str| -> (op: Operation)
        ensures
            op@ == change_permissions_plan(p@, mode, platform),
        {
            operations::change_permissions(p, mode, platform)
        };
    single_path_operation(path, operation)
}

/// Marshals the two handles of an operation on two paths and hands the
/// paths to `operation`. Where a handle does not marshal, `operation` is not
/// called and the result is finished with the failure of the first handle
/// that does not.
pub fn dual_path_operation<F: FnOnce(&str, &str) -> Operation>(
    src: Option<&[u8]>,
    dst: Option<&[u8]>,
    operation: F,
) -> (op: Operation)
    requires
        forall|a: &str, b: &str| operation.requires((a, b)),
    ensures
        marshalled_pair(src, dst) is Err ==> op@ == (OperationView::Finished {
            outcome: Err(marshalled_pair(src, dst)->Err_0),
        }),
        marshalled_pair(src, dst) is Ok ==> exists|a: &str, b: &str|
            a@ == marshalled_pair(src, dst)->Ok_0.0 && b@ == marshalled_pair(src, dst)->Ok_0.1
                && #[trigger] operation.ensures((a, b), op),
{
    match dual_path_helper(src, dst) {
        Ok((a, b)) => operation(a.as_str(), b.as_str()),
        Err(e) => Operation::finished(Err(e)),
    }
}

/// Entry point: rename the path behind `old_path` to that behind `new_path`.
pub fn rename_path(old_path: Option<&[u8]>, new_path: Option<&[u8]>) -> (op: Operation)
    ensures
        op@ == dual_path_entry(old_path, new_path, |a: Seq<char>, b: Seq<char>| rename_plan(a, b)),
{
    dual_path_operation(old_path, new_path, operations::rename_path)
}

/// Entry point: move the path behind `src` to that behind `dst`.
pub fn move_path(src: Option<&[u8]>, dst: Option<&[u8]>) -> (op: Operation)
    ensures
        op@ == dual_path_entry(src, dst, |a: Seq<char>, b: Seq<char>| move_plan(a, b)),
{
    dual_path_operation(src, dst, operations::move_path)
}

/// Entry point: copy the file or directory behind `src` to the path behind
/// `dst`.
pub fn copy_path(src: Option<&[u8]>, dst: Option<&[u8]>) -> (op: Operation)
    ensures
        op@ == dual_path_entry(src, dst, |a: Seq<char>, b: Seq<char>| copy_plan(a, b)),
{
    dual_path_operation(src, dst, operations::copy_path)
}

/// An entry point on one path whose handle does not marshal, a null handle
/// above all, gives a failure result and never asks for a host call, so that
/// nothing on the filesystem is touched.
pub proof fn lemma_refused_handle_makes_no_call(
    path: Option<&[u8]>,
    plan: spec_fn(Seq<char>) -> OperationView,
    replies: Seq<HostReplyView>,
)
    requires
        marshalled(path) is Err,
    ensures
        path is None ==> marshalled(path) == Err::<Seq<char>, FsErrorView>(FsErrorView::NullPointer),
        marshalled(path)->Err_0.is_marshaling(),
        single_path_entry(path, plan) == (OperationView::Finished {
            outcome: Err(marshalled(path)->Err_0),
        }),
        !envelope_of(Err(marshalled(path)->Err_0)).success,
        single_path_entry(path, plan).pending() is None,
        single_path_entry(path, plan).calls(replies) == Seq::<HostCallView>::empty(),
        single_path_entry(path, plan).run(replies) == single_path_entry(path, plan),
{
    lemma_finished_is_final(single_path_entry(path, plan), replies);
}

/// An entry point on two paths of which a handle does not marshal, a null
/// handle above all, gives a failure result and never asks for a host call.
/// The failure is that of the first handle that does not marshal.
pub proof fn lemma_refused_handles_make_no_call(
    src: Option<&[u8]>,
    dst: Option<&[u8]>,
    plan: spec_fn(Seq<char>, Seq<char>) -> OperationView,
    replies: Seq<HostReplyView>,
)
    requires
        marshalled(src) is Err || marshalled(dst) is Err,
    ensures
        marshalled_pair(src, dst) is Err,
        src is None ==> marshalled_pair(src, dst) == Err::<(Seq<char>, Seq<char>), FsErrorView>(
            FsErrorView::NullPointer,
        ),
        marshalled(src) is Ok && dst is None ==> marshalled_pair(src, dst) == Err::<
            (Seq<char>, Seq<char>),
            FsErrorView,
        >(FsErrorView::NullPointer),
        marshalled_pair(src, dst)->Err_0.is_marshaling(),
        dual_path_entry(src, dst, plan) == (OperationView::Finished {
            outcome: Err(marshalled_pair(src, dst)->Err_0),
        }),
        !envelope_of(Err(marshalled_pair(src, dst)->Err_0)).success,
        dual_path_entry(src, dst, plan).pending() is None,
        dual_path_entry(src, dst, plan).calls(replies) == Seq::<HostCallView>::empty(),
        dual_path_entry(src, dst, plan).run(replies) == dual_path_entry(src, dst, plan),
{
    lemma_finished_is_final(dual_path_entry(src, dst, plan), replies);
}

/// A path reaches the host as it was given: the bytes that an entry point
/// hands to the host are the bytes behind the handle, with nothing
/// normalized, resolved or made absolute.
pub proof fn lemma_path_reaches_the_host_unchanged(path: Option<&[u8]>)
    requires
        marshalled(path) is Ok,
    ensures
        encode_utf8(marshalled(path)->Ok_0) == path->0@,
        single_path_entry(path, |p: Seq<char>| create_folder_plan(p)).pending() == Some(
            HostCallView::CreateDirAll { path: path->0@ },
        ),
        single_path_entry(path, |p: Seq<char>| create_file_plan(p)).pending() == Some(
            HostCallView::CreateFile { path: path->0@ },
        ),
        single_path_entry(path, |p: Seq<char>| delete_plan(p)).pending() == Some(
            HostCallView::QueryIsDir { path: path->0@ },
        ),
{
    decode_utf8_encode_utf8(path->0@);
}

/// Both paths of an entry point on two paths reach the host as they were
/// given.
pub proof fn lemma_paths_reach_the_host_unchanged(src: Option<&[u8]>, dst: Option<&[u8]>)
    requires
        marshalled(src) is Ok,
        marshalled(dst) is Ok,
    ensures
        dual_path_entry(src, dst, |a: Seq<char>, b: Seq<char>| rename_plan(a, b)).pending()
            == Some(HostCallView::Rename { from: src->0@, to: dst->0@ }),
        dual_path_entry(src, dst, |a: Seq<char>, b: Seq<char>| move_plan(a, b)).pending() == Some(
            HostCallView::Rename { from: src->0@, to: dst->0@ },
        ),
        dual_path_entry(src, dst, |a: Seq<char>, b: Seq<char>| copy_plan(a, b)).pending() == Some(
            HostCallView::QueryIsDir { path: src->0@ },
        ),
{
    decode_utf8_encode_utf8(src->0@);
    decode_utf8_encode_utf8(dst->0@);
}

} // verus!

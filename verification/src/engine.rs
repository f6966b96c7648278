//! The operation engine: one operation as a state machine over host calls.
//!
//! An [`Operation`] names the host call it waits for ([`Operation::pending`])
//! and moves on when it is told the host's reply ([`Operation::advance`]),
//! until it is finished and holds its outcome. The first failure that the
//! host reports ends the operation with that failure: nothing is retried and
//! nothing is undone.

use crate::common::{outcome_view, FsError, FsErrorView, FsResult, OperationResult, OperationResultView, envelope_of};
use crate::host::{copy_bytes, EntryKind, HostCall, HostCallView, HostReply, HostReplyView};
use crate::text::{join_path, joined};
use vstd::prelude::*;
use vstd::string::*;

verus! {

/// What an operation wants to know a path's kind for.
#[derive(Clone, Copy, Debug, PartialEq, Eq, Structural)]
pub enum Purpose {
    /// To remove a directory with its contents, and anything else as a file.
    Delete,
    /// To mirror a directory, and to copy anything else as a file.
    Copy,
}

/// A directory that a recursive copy is in: where it reads and where it
/// writes.
struct Frame {
    src: Vec<u8>,
    dst: Vec<u8>,
}

/// The mathematical value of a [`Frame`].
pub struct FrameView {
    pub src: Seq<u8>,
    pub dst: Seq<u8>,
}

impl View for Frame {
    type V = FrameView;

    closed spec fn view(&self) -> FrameView {
        FrameView { src: self.src@, dst: self.dst@ }
    }
}

/// The values of a stack of frames, outermost first.
spec fn frames_view(frames: Seq<Frame>) -> Seq<FrameView> {
    Seq::new(frames.len(), |i: int| frames[i]@)
}

/// Where a recursive copy stands in its current directory.
enum Stage {
    /// The destination directory is being created.
    Create,
    /// The source directory is being opened.
    Open,
    /// The next entry is being read.
    Read,
    /// A regular file is being copied.
    Copy { from: Vec<u8>, to: Vec<u8> },
}

/// The mathematical value of a [`Stage`].
pub enum StageView {
    Create,
    Open,
    Read,
    Copy { from: Seq<u8>, to: Seq<u8> },
}

impl View for Stage {
    type V = StageView;

    closed spec fn view(&self) -> StageView {
        match self {
            Stage::Create => StageView::Create,
            Stage::Open => StageView::Open,
            Stage::Read => StageView::Read,
            Stage::Copy { from, to } => StageView::Copy { from: from@, to: to@ },
        }
    }
}

enum State {
    Probe { purpose: Purpose, from: Vec<u8>, to: Vec<u8>, message: String },
    Last { call: HostCall, message: String },
    Walk { stage: Stage, current: Frame, parents: Vec<Frame>, message: String },
    Finished { outcome: FsResult<String> },
}

/// One operation in progress, or finished with its outcome.
pub struct Operation {
    state: State,
}

/// The mathematical value of an [`Operation`].
///
/// `message` is the text that the operation reports when the host has done
/// all that was asked.
pub enum OperationView {
    /// Waiting to learn whether `from` is a directory.
    Probe { purpose: Purpose, from: Seq<u8>, to: Seq<u8>, message: Seq<char> },
    /// Waiting for the one call that is left.
    Last { call: HostCallView, message: Seq<char> },
    /// In the middle of a recursive copy: in the directory `current`, with
    /// the directories above it in `parents`, outermost first.
    Walk { stage: StageView, current: FrameView, parents: Seq<FrameView>, message: Seq<char> },
    /// Finished; no host call will be asked for.
    Finished { outcome: Result<Seq<char>, FsErrorView> },
}

/// The description of the failure reported when the host answers a call with
/// a reply that is no answer to it.
pub open spec fn unexpected_reply() -> Seq<char> {
    "unexpected reply from the host"@
}

/// The end of an operation whose host broke the protocol.
pub open spec fn protocol_failure() -> OperationView {
    OperationView::Finished { outcome: Err(FsErrorView::IoError(unexpected_reply())) }
}

/// The frame of the entry `name` of the directory `parent`.
pub open spec fn child_frame(parent: FrameView, name: Seq<u8>) -> FrameView {
    FrameView { src: joined(parent.src, name), dst: joined(parent.dst, name) }
}

impl OperationView {
    /// True once the operation holds its outcome.
    pub open spec fn is_finished(self) -> bool {
        self is Finished
    }

    /// The host call that the operation waits for; none once it is finished.
    pub open spec fn pending(self) -> Option<HostCallView> {
        match self {
            OperationView::Probe { from, .. } => Some(HostCallView::QueryIsDir { path: from }),
            OperationView::Last { call, .. } => Some(call),
            OperationView::Walk { stage, current, .. } => Some(
                match stage {
                    StageView::Create => HostCallView::CreateDirAll { path: current.dst },
                    StageView::Open => HostCallView::OpenDir { path: current.src },
                    StageView::Read => HostCallView::NextEntry,
                    StageView::Copy { from, to } => HostCallView::CopyFile { from, to },
                },
            ),
            OperationView::Finished { .. } => None,
        }
    }

    /// The operation after the host's reply to the pending call.
    ///
    /// A finished operation stays as it is. A failure ends the operation with
    /// that failure. Of a directory's entries, a directory is entered, a
    /// regular file is copied and anything else is passed over.
    pub open spec fn step(self, reply: HostReplyView) -> OperationView {
        match self {
            OperationView::Finished { .. } => self,
            _ => match reply {
                HostReplyView::Failed(e) => OperationView::Finished { outcome: Err(e) },
                _ => match self {
                    OperationView::Probe { purpose, from, to, message } => match reply {
                        HostReplyView::IsDir(is_dir) => match purpose {
                            Purpose::Delete => OperationView::Last {
                                call: if is_dir {
                                    HostCallView::RemoveDirAll { path: from }
                                } else {
                                    HostCallView::RemoveFile { path: from }
                                },
                                message,
                            },
                            Purpose::Copy => if is_dir {
                                OperationView::Walk {
                                    stage: StageView::Create,
                                    current: FrameView { src: from, dst: to },
                                    parents: Seq::empty(),
                                    message,
                                }
                            } else {
                                OperationView::Last {
                                    call: HostCallView::CopyFile { from, to },
                                    message,
                                }
                            },
                        },
                        _ => protocol_failure(),
                    },
                    OperationView::Last { message, .. } => match reply {
                        HostReplyView::Done => OperationView::Finished { outcome: Ok(message) },
                        _ => protocol_failure(),
                    },
                    OperationView::Walk { stage, current, parents, message } => match stage {
                        StageView::Create => match reply {
                            HostReplyView::Done => OperationView::Walk {
                                stage: StageView::Open,
                                current,
                                parents,
                                message,
                            },
                            _ => protocol_failure(),
                        },
                        StageView::Open => match reply {
                            HostReplyView::Done => OperationView::Walk {
                                stage: StageView::Read,
                                current,
                                parents,
                                message,
                            },
                            _ => protocol_failure(),
                        },
                        StageView::Copy { .. } => match reply {
                            HostReplyView::Done => OperationView::Walk {
                                stage: StageView::Read,
                                current,
                                parents,
                                message,
                            },
                            _ => protocol_failure(),
                        },
                        StageView::Read => match reply {
                            HostReplyView::Entry { name, kind } => match kind {
                                EntryKind::Directory => OperationView::Walk {
                                    stage: StageView::Create,
                                    current: child_frame(current, name),
                                    parents: parents.push(current),
                                    message,
                                },
                                EntryKind::File => OperationView::Walk {
                                    stage: StageView::Copy {
                                        from: joined(current.src, name),
                                        to: joined(current.dst, name),
                                    },
                                    current,
                                    parents,
                                    message,
                                },
                                EntryKind::Other => self,
                            },
                            HostReplyView::EndOfDir => if parents.len() == 0 {
                                OperationView::Finished { outcome: Ok(message) }
                            } else {
                                OperationView::Walk {
                                    stage: StageView::Read,
                                    current: parents.last(),
                                    parents: parents.drop_last(),
                                    message,
                                }
                            },
                            _ => protocol_failure(),
                        },
                    },
                    OperationView::Finished { .. } => self,
                },
            },
        }
    }

    /// The operation after the host's replies `replies`, taken in order.
    pub open spec fn run(self, replies: Seq<HostReplyView>) -> OperationView
        decreases replies.len(),
    {
        if replies.len() == 0 {
            self
        } else {
            self.step(replies[0]).run(replies.drop_first())
        }
    }

    /// The host calls that the operation asks for while it is given the
    /// replies `replies`: one for each reply, until it is finished.
    pub open spec fn calls(self, replies: Seq<HostReplyView>) -> Seq<HostCallView>
        decreases replies.len(),
    {
        if replies.len() == 0 || self.is_finished() {
            Seq::empty()
        } else {
            seq![self.pending()->0] + self.step(replies[0]).calls(replies.drop_first())
        }
    }
}

impl View for Operation {
    type V = OperationView;

    closed spec fn view(&self) -> OperationView {
        match self.state {
            State::Probe { purpose, from, to, message } => OperationView::Probe {
                purpose,
                from: from@,
                to: to@,
                message: message@,
            },
            State::Last { call, message } => OperationView::Last { call: call@, message: message@ },
            State::Walk { stage, current, parents, message } => OperationView::Walk {
                stage: stage@,
                current: current@,
                parents: frames_view(parents@),
                message: message@,
            },
            State::Finished { outcome } => OperationView::Finished { outcome: outcome_view(outcome) },
        }
    }
}

/// The mathematical value of a call that may be absent.
pub open spec fn pending_view(call: Option<HostCall>) -> Option<HostCallView> {
    match call {
        Some(c) => Some(c@),
        None => None,
    }
}

/// The mathematical value of an outcome that may be absent.
pub open spec fn finished_view(outcome: Option<FsResult<String>>) -> Option<
    Result<Seq<char>, FsErrorView>,
> {
    match outcome {
        Some(r) => Some(outcome_view(r)),
        None => None,
    }
}

/// The mathematical value of an envelope that may be absent.
pub open spec fn envelope_view(result: Option<OperationResult>) -> Option<OperationResultView> {
    match result {
        Some(r) => Some(r@),
        None => None,
    }
}

fn protocol_failed() -> (op: Operation)
    ensures
        op@ == protocol_failure(),
{
    Operation {
        state: State::Finished {
            outcome: Err(FsError::IoError(String::from_str("unexpected reply from the host"))),
        },
    }
}

impl Operation {
    /// An operation that asks for `call` and reports `message` when the host
    /// has made it.
    pub fn single(call: HostCall, message: String) -> (op: Operation)
        ensures
            op@ == (OperationView::Last { call: call@, message: message@ }),
    {
        Operation { state: State::Last { call, message } }
    }

    /// An operation that first asks whether `from` is a directory.
    pub fn probe(purpose: Purpose, from: Vec<u8>, to: Vec<u8>, message: String) -> (op: Operation)
        ensures
            op@ == (OperationView::Probe { purpose, from: from@, to: to@, message: message@ }),
    {
        Operation { state: State::Probe { purpose, from, to, message } }
    }

    /// An operation that is finished before any host call.
    pub fn finished(outcome: FsResult<String>) -> (op: Operation)
        ensures
            op@ == (OperationView::Finished { outcome: outcome_view(outcome) }),
    {
        Operation { state: State::Finished { outcome } }
    }

    /// Tells whether the operation holds its outcome.
    pub fn is_finished(&self) -> (done: bool)
        ensures
            done == self@.is_finished(),
    {
        match &self.state {
            State::Finished { .. } => true,
            _ => false,
        }
    }

    /// The host call that the operation waits for; none once it is finished.
    pub fn pending(&self) -> (call: Option<HostCall>)
        ensures
            pending_view(call) == self@.pending(),
    {
        match &self.state {
            State::Probe { from, .. } => Some(HostCall::QueryIsDir { path: copy_bytes(from) }),
            State::Last { call, .. } => Some(call.duplicate()),
            State::Walk { stage, current, .. } => match stage {
                Stage::Create => Some(HostCall::CreateDirAll { path: copy_bytes(&current.dst) }),
                Stage::Open => Some(HostCall::OpenDir { path: copy_bytes(&current.src) }),
                Stage::Read => Some(HostCall::NextEntry),
                Stage::Copy { from, to } => Some(
                    HostCall::CopyFile { from: copy_bytes(from), to: copy_bytes(to) },
                ),
            },
            State::Finished { .. } => None,
        }
    }

    /// The outcome of a finished operation: the message to report, or the
    /// failure that ended it.
    pub fn outcome(&self) -> (outcome: Option<FsResult<String>>)
        ensures
            finished_view(outcome) == (match self@ {
                OperationView::Finished { outcome } => Some(outcome),
                _ => None,
            }),
    {
        match &self.state {
            State::Finished { outcome } => match outcome {
                Ok(message) => Some(Ok(message.clone())),
                Err(e) => Some(Err(e.duplicate())),
            },
            _ => None,
        }
    }

    /// The envelope of a finished operation: success with the message, or
    /// failure with the description of the error.
    pub fn result(&self) -> (result: Option<OperationResult>)
        ensures
            envelope_view(result) == (match self@ {
                OperationView::Finished { outcome } => Some(envelope_of(outcome)),
                _ => None,
            }),
    {
        match &self.state {
            State::Finished { outcome } => Some(OperationResult::from_outcome(outcome)),
            _ => None,
        }
    }

    /// Moves the operation on by the host's reply to the pending call.
    pub fn advance(self, reply: HostReply) -> (next: Operation)
        ensures
            next@ == self@.step(reply@),
    {
        match self.state {
            State::Finished { outcome } => Operation { state: State::Finished { outcome } },
            State::Probe { purpose, from, to, message } => match reply {
                HostReply::Failed(e) => Operation { state: State::Finished { outcome: Err(e) } },
                HostReply::IsDir(is_dir) => match purpose {
                    Purpose::Delete => {
                        let call = if is_dir {
                            HostCall::RemoveDirAll { path: from }
                        } else {
                            HostCall::RemoveFile { path: from }
                        };
                        Operation { state: State::Last { call, message } }
                    },
                    Purpose::Copy => if is_dir {
                        let next = Operation {
                            state: State::Walk {
                                stage: Stage::Create,
                                current: Frame { src: from, dst: to },
                                parents: Vec::new(),
                                message,
                            },
                        };
                        assert(frames_view(Seq::<Frame>::empty()) =~= Seq::<FrameView>::empty());
                        next
                    } else {
                        Operation {
                            state: State::Last { call: HostCall::CopyFile { from, to }, message },
                        }
                    },
                },
                _ => protocol_failed(),
            },
            State::Last { message, .. } => match reply {
                HostReply::Failed(e) => Operation { state: State::Finished { outcome: Err(e) } },
                HostReply::Done => Operation { state: State::Finished { outcome: Ok(message) } },
                _ => protocol_failed(),
            },
            State::Walk { stage, current, parents, message } => match reply {
                HostReply::Failed(e) => Operation { state: State::Finished { outcome: Err(e) } },
                reply => Self::copy_dir_step(stage, current, parents, message, reply),
            },
        }
    }

    /// One step of a recursive copy that is told anything but a failure.
    fn copy_dir_step(
        stage: Stage,
        current: Frame,
        parents: Vec<Frame>,
        message: String,
        reply: HostReply,
    ) -> (next: Operation)
        requires
            !(reply is Failed),
        ensures
            next@ == (OperationView::Walk {
                stage: stage@,
                current: current@,
                parents: frames_view(parents@),
                message: message@,
            }).step(reply@),
    {
        match stage {
            Stage::Create => match reply {
                HostReply::Done => Operation {
                    state: State::Walk { stage: Stage::Open, current, parents, message },
                },
                _ => protocol_failed(),
            },
            Stage::Open => match reply {
                HostReply::Done => Operation {
                    state: State::Walk { stage: Stage::Read, current, parents, message },
                },
                _ => protocol_failed(),
            },
            Stage::Copy { .. } => match reply {
                HostReply::Done => Operation {
                    state: State::Walk { stage: Stage::Read, current, parents, message },
                },
                _ => protocol_failed(),
            },
            Stage::Read => match reply {
                HostReply::Entry { name, kind } => match kind {
                    EntryKind::Directory => {
                        let child = Frame {
                            src: join_path(current.src.as_slice(), name.as_slice()),
                            dst: join_path(current.dst.as_slice(), name.as_slice()),
                        };
                        let ghost above = frames_view(parents@);
                        let ghost here = current@;
                        let mut parents = parents;
                        parents.push(current);
                        assert(frames_view(parents@) =~= above.push(here));
                        Operation {
                            state: State::Walk { stage: Stage::Create, current: child, parents, message },
                        }
                    },
                    EntryKind::File => {
                        let from = join_path(current.src.as_slice(), name.as_slice());
                        let to = join_path(current.dst.as_slice(), name.as_slice());
                        Operation {
                            state: State::Walk {
                                stage: Stage::Copy { from, to },
                                current,
                                parents,
                                message,
                            },
                        }
                    },
                    EntryKind::Other => Operation {
                        state: State::Walk { stage: Stage::Read, current, parents, message },
                    },
                },
                HostReply::EndOfDir => {
                    let ghost above = frames_view(parents@);
                    let mut parents = parents;
                    match parents.pop() {
                        None => Operation { state: State::Finished { outcome: Ok(message) } },
                        Some(parent) => {
                            assert(frames_view(parents@) =~= above.drop_last());
                            assert(parent@ == above.last());
                            Operation {
                                state: State::Walk {
                                    stage: Stage::Read,
                                    current: parent,
                                    parents,
                                    message,
                                },
                            }
                        },
                    }
                },
                _ => protocol_failed(),
            },
        }
    }
}

/// A finished operation stays finished with its outcome and asks for no
/// host call, whatever it is told.
pub proof fn lemma_finished_is_final(op: OperationView, replies: Seq<HostReplyView>)
    requires
        op.is_finished(),
    ensures
        op.run(replies) == op,
        op.calls(replies) == Seq::<HostCallView>::empty(),
    decreases replies.len(),
{
    if replies.len() > 0 {
        lemma_finished_is_final(op, replies.drop_first());
    }
}

/// An operation asks for at most one host call for each reply.
pub proof fn lemma_one_call_per_reply(op: OperationView, replies: Seq<HostReplyView>)
    ensures
        op.calls(replies).len() <= replies.len(),
        !op.run(replies).is_finished() ==> op.calls(replies).len() == replies.len(),
    decreases replies.len(),
{
    if replies.len() > 0 {
        if op.is_finished() {
            lemma_finished_is_final(op, replies);
        } else {
            lemma_one_call_per_reply(op.step(replies[0]), replies.drop_first());
        }
    }
}

/// Running an operation over two runs of replies, one after the other, is
/// running it over both in one go.
pub proof fn lemma_run_in_two(
    op: OperationView,
    first: Seq<HostReplyView>,
    second: Seq<HostReplyView>,
)
    ensures
        op.run(first + second) == op.run(first).run(second),
        op.calls(first + second) == op.calls(first) + op.run(first).calls(second),
    decreases first.len(),
{
    if first.len() == 0 {
        assert(first + second =~= second);
        assert(op.calls(first) + op.calls(second) =~= op.calls(second));
    } else {
        let all = first + second;
        assert(all[0] == first[0]);
        assert(all.drop_first() =~= first.drop_first() + second);
        lemma_run_in_two(op.step(first[0]), first.drop_first(), second);
        if op.is_finished() {
            lemma_finished_is_final(op, first);
            lemma_finished_is_final(op, second);
            lemma_finished_is_final(op, all);
        } else {
            let next = op.step(first[0]);
            assert(op.calls(all) =~= op.calls(first) + op.run(first).calls(second));
        }
    }
}

/// Running an operation over one reply and then others.
pub proof fn lemma_run_one_more(
    op: OperationView,
    reply: HostReplyView,
    rest: Seq<HostReplyView>,
)
    ensures
        op.run(seq![reply] + rest) == op.step(reply).run(rest),
        !op.is_finished() ==> op.calls(seq![reply] + rest) == seq![op.pending()->0] + op.step(
            reply,
        ).calls(rest),
{
    let all = seq![reply] + rest;
    assert(all[0] == reply);
    assert(all.drop_first() =~= rest);
}

/// The first failure ends the operation: after any replies that leave the
/// operation unfinished, a failure makes that failure the outcome, whatever
/// the host says afterwards, and the call that failed is the last one asked
/// for. Nothing is retried and nothing is undone.
pub proof fn lemma_first_failure_ends(
    op: OperationView,
    before: Seq<HostReplyView>,
    failure: FsErrorView,
    after: Seq<HostReplyView>,
)
    requires
        !op.run(before).is_finished(),
    ensures
        op.run(before + seq![HostReplyView::Failed(failure)] + after) == (OperationView::Finished {
            outcome: Err(failure),
        }),
        op.calls(before + seq![HostReplyView::Failed(failure)] + after) == op.calls(before).push(
            op.run(before).pending()->0,
        ),
{
    let failed = HostReplyView::Failed(failure);
    let reached = op.run(before);
    let ended = OperationView::Finished { outcome: Err(failure) };
    assert(reached.step(failed) == ended);
    lemma_run_one_more(reached, failed, after);
    lemma_finished_is_final(ended, after);
    assert(before + seq![failed] + after =~= before + (seq![failed] + after));
    lemma_run_in_two(op, before, seq![failed] + after);
    assert(seq![reached.pending()->0] + Seq::<HostCallView>::empty() =~= seq![
        reached.pending()->0,
    ]);
    assert(op.calls(before) + seq![reached.pending()->0] =~= op.calls(before).push(
        reached.pending()->0,
    ));
}

/// An operation that ends in success was told of no failure: none of the
/// replies to the calls it asked for is a failure.
pub proof fn lemma_success_means_no_failure(op: OperationView, replies: Seq<HostReplyView>, i: int)
    requires
        !op.is_finished(),
        op.run(replies) matches OperationView::Finished { outcome: Ok(_) },
        0 <= i < op.calls(replies).len(),
    ensures
        !(replies[i] is Failed),
    decreases replies.len(),
{
    lemma_one_call_per_reply(op, replies);
    if i == 0 {
        if replies[0] is Failed {
            lemma_finished_is_final(op.step(replies[0]), replies.drop_first());
        }
    } else {
        let next = op.step(replies[0]);
        if next.is_finished() {
            lemma_finished_is_final(next, replies.drop_first());
        } else {
            assert(op.calls(replies) =~= seq![op.pending()->0] + next.calls(replies.drop_first()));
            lemma_success_means_no_failure(next, replies.drop_first(), i - 1);
        }
    }
}

} // verus!

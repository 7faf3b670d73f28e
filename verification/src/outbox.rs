//! The outbox: reports wait here until they are delivered, and those that
//! could not be delivered are kept with the reason.
//!
//! The worker adds a board when its test has ended. The uploader drains the
//! queue, tries each board once, and keeps what failed on a list that
//! outlives the process. A board without an identity cannot be attributed:
//! it is neither uploaded nor kept. What is on the list of failures is not
//! tried again.

use vstd::prelude::*;
use crate::api::{records, StepRecord, TestReportValue};
use crate::{Board, BoardModel};

verus! {

/// A board whose upload failed, with the reason.
#[derive(Clone, Debug, PartialEq, Eq)]
pub struct BoardUploadFailure {
    pub board: Board,
    pub error: String,
}

/// A failed upload as plain values.
pub struct FailureModel {
    pub board: BoardModel,
    pub error: Seq<char>,
}

impl View for BoardUploadFailure {
    type V = FailureModel;

    open spec fn view(&self) -> FailureModel {
        FailureModel { board: self.board@, error: self.error@ }
    }
}

/// The views of a list of boards.
pub open spec fn boards(list: Seq<Board>) -> Seq<BoardModel> {
    Seq::new(list.len(), |k: int| list[k]@)
}

/// The views of a list of failures.
pub open spec fn failure_views(list: Seq<BoardUploadFailure>) -> Seq<FailureModel> {
    Seq::new(list.len(), |k: int| list[k]@)
}

/// Every board on the list has an identity.
pub open spec fn identified(failures: Seq<FailureModel>) -> bool {
    forall|k: int| 0 <= k < failures.len() ==> (#[trigger] failures[k]).board.id is Some
}

/// The name of the remote procedure that takes a report.
pub const METHOD: &'static str = "insert_test_report";

/// What is sent to the collector for one board.
#[derive(Clone, Debug, PartialEq, Eq)]
pub struct UploadRequest {
    pub report_type: String,
    pub id: String,
    pub tester: String,
    pub values: Vec<TestReportValue>,
    pub started_at: i64,
    pub ended_at: i64,
}

/// An upload as plain values.
pub struct UploadModel {
    pub report_type: Seq<char>,
    pub id: Seq<char>,
    pub tester: Seq<char>,
    pub steps: Seq<StepRecord>,
    pub started_at: i64,
    pub ended_at: i64,
}

impl View for UploadRequest {
    type V = UploadModel;

    open spec fn view(&self) -> UploadModel {
        UploadModel {
            report_type: self.report_type@,
            id: self.id@,
            tester: self.tester@,
            steps: records(self.values@),
            started_at: self.started_at,
            ended_at: self.ended_at,
        }
    }
}

/// The upload for a board: there is one if and only if the board has an
/// identity, and it carries the board's steps in their order.
pub open spec fn upload_for(board: BoardModel, report_type: Seq<char>, tester: Seq<char>)
    -> Option<UploadModel> {
    match board.id {
        None => None,
        Some(id) => Some(
            UploadModel {
                report_type,
                id,
                tester,
                steps: board.steps,
                started_at: board.started_at,
                ended_at: board.ended_at,
            },
        ),
    }
}

/// What the collector answered: a status and a body, or the reason why
/// there is no answer.
pub type Reply = Result<(u16, String), String>;

/// Why an upload with the given answer has failed, if it has: an answer
/// whose status is not in the 200s has failed with its body as the reason,
/// and a call without an answer with the reason that it gave.
pub open spec fn failure_of(reply: Reply) -> Option<Seq<char>> {
    match reply {
        Ok((status, body)) => if 200 <= status < 300 {
            None
        } else {
            Some(body@)
        },
        Err(reason) => Some(reason@),
    }
}

/// What became of a board.
#[derive(Clone, Copy, Debug, PartialEq, Eq, Structural)]
pub enum Delivery {
    /// The board has no identity and was dropped.
    Skipped,
    Delivered,
    /// The upload failed and the board is on the list of failures.
    Failed,
}

/// The state of an outbox as plain values.
pub struct OutboxState {
    /// The boards that wait for their upload, oldest first.
    pub pending: Seq<BoardModel>,
    /// The uploads that failed, oldest first.
    pub failures: Seq<FailureModel>,
}

impl OutboxState {
    /// The state after the upload of `board` was answered with `reply`.
    pub open spec fn settled(self, board: BoardModel, reply: Reply) -> OutboxState {
        match (board.id, failure_of(reply)) {
            (Some(_), Some(error)) => OutboxState {
                failures: self.failures.push(FailureModel { board, error }),
                ..self
            },
            _ => self,
        }
    }

    /// What became of `board` when its upload was answered with `reply`.
    pub open spec fn delivery(board: BoardModel, reply: Reply) -> Delivery {
        if board.id is None {
            Delivery::Skipped
        } else if failure_of(reply) is Some {
            Delivery::Failed
        } else {
            Delivery::Delivered
        }
    }
}

/// The outbox.
pub struct ReportOutbox {
    pending: Vec<Board>,
    failures: Vec<BoardUploadFailure>,
}

impl View for ReportOutbox {
    type V = OutboxState;

    closed spec fn view(&self) -> OutboxState {
        OutboxState { pending: boards(self.pending@), failures: failure_views(self.failures@) }
    }
}

/// Copies a list of steps.
fn copy_values(values: &Vec<TestReportValue>) -> (copy: Vec<TestReportValue>)
    ensures
        records(copy@) == records(values@),
{
    let mut copy: Vec<TestReportValue> = Vec::new();
    let mut i: usize = 0;
    while i < values.len()
        invariant
            i <= values.len(),
            records(copy@) == records(values@).take(i as int),
        decreases values.len() - i,
    {
        let ghost copied = copy@;
        copy.push(values[i].copy());
        assert(records(copy@) =~= records(copied).push(values@[i as int]@));
        i += 1;
        assert(records(copy@) =~= records(values@).take(i as int));
    }
    assert(records(values@).take(i as int) =~= records(values@));
    copy
}

impl ReportOutbox {
    /// An outbox with nothing pending, and with the failures that an earlier
    /// process has left.
    pub fn new(failures: Vec<BoardUploadFailure>) -> (outbox: ReportOutbox)
        ensures
            outbox@.pending == Seq::<BoardModel>::empty(),
            outbox@.failures == failure_views(failures@),
    {
        let outbox = ReportOutbox { pending: Vec::new(), failures };
        assert(outbox@.pending =~= Seq::<BoardModel>::empty());
        outbox
    }

    /// Adds a board to the end of the queue.
    pub fn enqueue(&mut self, board: Board)
        ensures
            final(self)@.pending == old(self)@.pending.push(board@),
            final(self)@.failures == old(self)@.failures,
    {
        self.pending.push(board);
        assert(boards(self.pending@) =~= boards(old(self).pending@).push(board@));
    }

    /// Takes the whole queue, oldest board first, and leaves it empty.
    pub fn drain(&mut self) -> (snapshot: Vec<Board>)
        ensures
            boards(snapshot@) == old(self)@.pending,
            final(self)@.pending == Seq::<BoardModel>::empty(),
            final(self)@.failures == old(self)@.failures,
    {
        let mut snapshot: Vec<Board> = Vec::new();
        std::mem::swap(&mut snapshot, &mut self.pending);
        assert(boards(self.pending@) =~= Seq::<BoardModel>::empty());
        snapshot
    }

    /// The number of boards that wait for their upload.
    pub fn pending_len(&self) -> (n: usize)
        ensures
            n == self@.pending.len(),
    {
        self.pending.len()
    }

    /// The upload for a board, if the board has an identity.
    pub fn request(board: &Board, report_type: &str, tester: &str) -> (r: Option<UploadRequest>)
        ensures
            match r {
                Some(request) => upload_for(board@, report_type@, tester@) == Some(request@),
                None => upload_for(board@, report_type@, tester@) is None,
            },
            r is None <==> board@.id is None,
    {
        match &board.id {
            None => None,
            Some(id) => Some(
                UploadRequest {
                    report_type: String::from_str(report_type),
                    id: id.clone(),
                    tester: String::from_str(tester),
                    values: copy_values(&board.values),
                    started_at: board.started_at,
                    ended_at: board.ended_at,
                },
            ),
        }
    }

    /// Takes the answer to the upload of `board`. A board whose upload
    /// failed is put on the list of failures with the reason. A board
    /// without an identity is dropped, whatever the answer.
    pub fn settle(&mut self, board: Board, reply: Reply) -> (delivery: Delivery)
        ensures
            final(self)@ == old(self)@.settled(board@, reply),
            delivery == OutboxState::delivery(board@, reply),
            identified(old(self)@.failures) ==> identified(final(self)@.failures),
    {
        if board.id.is_none() {
            return Delivery::Skipped;
        }
        let error = match reply {
            Ok((status, body)) => {
                if 200 <= status && status < 300 {
                    return Delivery::Delivered;
                }
                body
            },
            Err(reason) => reason,
        };
        let ghost failure = FailureModel { board: board@, error: error@ };
        self.failures.push(BoardUploadFailure { board, error });
        assert(failure_views(self.failures@) =~= failure_views(old(self).failures@).push(failure));
        Delivery::Failed
    }

    /// The list of failures, oldest first, as it is to be written out.
    pub fn failures(&self) -> (list: Vec<BoardUploadFailure>)
        ensures
            failure_views(list@) == self@.failures,
    {
        let mut list: Vec<BoardUploadFailure> = Vec::new();
        let mut i: usize = 0;
        while i < self.failures.len()
            invariant
                i <= self.failures.len(),
                failure_views(list@) == failure_views(self.failures@).take(i as int),
            decreases self.failures.len() - i,
        {
            let ghost copied = list@;
            let failure = BoardUploadFailure {
                board: self.failures[i].board.copy(),
                error: self.failures[i].error.clone(),
            };
            list.push(failure);
            assert(failure_views(list@) =~= failure_views(copied).push(self.failures@[i as int]@));
            i += 1;
            assert(failure_views(list@) =~= failure_views(self.failures@).take(i as int));
        }
        assert(failure_views(self.failures@).take(i as int) =~= failure_views(self.failures@));
        list
    }
}

/// The state after the uploads of `snapshot` were answered in order, board
/// `k` with `replies[k]`.
pub open spec fn cycle(state: OutboxState, snapshot: Seq<BoardModel>, replies: Seq<Reply>)
    -> OutboxState
    decreases snapshot.len(),
{
    if snapshot.len() == 0 || replies.len() != snapshot.len() {
        state
    } else {
        cycle(state, snapshot.drop_last(), replies.drop_last()).settled(
            snapshot.last(),
            replies.last(),
        )
    }
}

/// A board without an identity never gets onto the list of failures: if
/// every board on the list has one, so has every board on it after a cycle,
/// whatever was in the queue and whatever the collector answered.
pub proof fn lemma_unidentified_never_kept(
    state: OutboxState,
    snapshot: Seq<BoardModel>,
    replies: Seq<Reply>,
)
    requires
        identified(state.failures),
    ensures
        identified(cycle(state, snapshot, replies).failures),
    decreases snapshot.len(),
{
    if snapshot.len() > 0 && replies.len() == snapshot.len() {
        lemma_unidentified_never_kept(state, snapshot.drop_last(), replies.drop_last());
    }
}

/// A cycle only adds to the list of failures: what was on it stays, in its
/// place.
pub proof fn lemma_failures_are_kept(
    state: OutboxState,
    snapshot: Seq<BoardModel>,
    replies: Seq<Reply>,
)
    ensures
        state.failures.is_prefix_of(cycle(state, snapshot, replies).failures),
    decreases snapshot.len(),
{
    if snapshot.len() > 0 && replies.len() == snapshot.len() {
        lemma_failures_are_kept(state, snapshot.drop_last(), replies.drop_last());
    }
}

} // verus!

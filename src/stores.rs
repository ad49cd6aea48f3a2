//! The two stores as the operations rely on them: a table of rows keyed by
//! identifier and a bucket of objects keyed by text, each answering a
//! command as its contract says when it does not fail.

use vstd::prelude::*;
use crate::record::RecordView;
use crate::service::{
    delete_start, fetch_start, resume_spec, update_start, upload_start, CommandView, OutcomeView,
    ReplyView, SessionView, StepView,
};
use crate::record::ServiceError;

verus! {

/// The contents of both stores.
pub struct Stores {
    pub rows: Map<u128, RecordView>,
    pub blobs: Map<Seq<char>, Seq<u8>>,
}

/// A row after an update: each given field replaces the old one.
pub open spec fn patched(
    row: RecordView,
    file_name: Option<Seq<char>>,
    owner: Option<Seq<char>>,
) -> RecordView {
    RecordView {
        id: row.id,
        file_name: match file_name {
            Some(n) => n,
            None => row.file_name,
        },
        owner: match owner {
            Some(o) => o,
            None => row.owner,
        },
    }
}

/// How the stores answer a command, and what they hold afterwards.
pub open spec fn serve(s: Stores, c: CommandView) -> (Stores, ReplyView) {
    match c {
        CommandView::PutBlob { key, content } => (
            Stores { blobs: s.blobs.insert(key, content), ..s },
            ReplyView::Done,
        ),
        CommandView::InsertRow { record } => if s.rows.contains_key(record.id) {
            (s, ReplyView::Failed)
        } else {
            (Stores { rows: s.rows.insert(record.id, record), ..s }, ReplyView::Done)
        },
        CommandView::GetRow { id } => if s.rows.contains_key(id) {
            (s, ReplyView::Row(s.rows[id]))
        } else {
            (s, ReplyView::Missing)
        },
        CommandView::GetBlob { key } => if s.blobs.contains_key(key) {
            (s, ReplyView::Blob(s.blobs[key]))
        } else {
            (s, ReplyView::Missing)
        },
        CommandView::UpdateRow { id, file_name, owner } => if s.rows.contains_key(id) {
            (
                Stores { rows: s.rows.insert(id, patched(s.rows[id], file_name, owner)), ..s },
                ReplyView::Done,
            )
        } else {
            (s, ReplyView::Missing)
        },
        CommandView::DeleteBlob { key } => (
            Stores { blobs: s.blobs.remove(key), ..s },
            ReplyView::Done,
        ),
        CommandView::DeleteRow { id } => (
            Stores { rows: s.rows.remove(id), ..s },
            ReplyView::Done,
        ),
    }
}

/// Runs a session against the stores for at most `fuel` commands: the stores
/// afterwards, and the operation's result if it finished.
pub open spec fn run(s: Stores, session: SessionView, step: StepView, fuel: nat) -> (
    Stores,
    Option<Result<OutcomeView, ServiceError>>,
)
    decreases fuel,
{
    match step {
        StepView::Finish(r) => (s, Some(r)),
        StepView::Run(c) => if fuel == 0 {
            (s, None)
        } else {
            let (s2, reply) = serve(s, c);
            let (next, next_step) = resume_spec(session, reply);
            run(s2, next, next_step, (fuel - 1) as nat)
        },
    }
}

/// Every operation makes at most two store calls.
pub open spec fn calls_per_operation() -> nat {
    2
}

pub open spec fn run_upload(
    s: Stores,
    file_name: Option<Seq<char>>,
    owner: Option<Seq<char>>,
    content: Option<Seq<u8>>,
    id: u128,
) -> (Stores, Option<Result<OutcomeView, ServiceError>>) {
    let (session, step) = upload_start(file_name, owner, content, id);
    run(s, session, step, calls_per_operation())
}

pub open spec fn run_fetch(s: Stores, id: u128) -> (Stores, Option<Result<OutcomeView, ServiceError>>) {
    let (session, step) = fetch_start(id);
    run(s, session, step, calls_per_operation())
}

pub open spec fn run_update(
    s: Stores,
    id: u128,
    file_name: Option<Seq<char>>,
    owner: Option<Seq<char>>,
) -> (Stores, Option<Result<OutcomeView, ServiceError>>) {
    let (session, step) = update_start(id, file_name, owner);
    run(s, session, step, calls_per_operation())
}

pub open spec fn run_delete(s: Stores, id: u128) -> (Stores, Option<Result<OutcomeView, ServiceError>>) {
    let (session, step) = delete_start(id);
    run(s, session, step, calls_per_operation())
}

} // verus!

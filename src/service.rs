//! The four operations on image records, each a short exchange with the two
//! stores. An operation starts as a `Session` and a first `Step`; the caller
//! performs each `Command` it is handed and resumes the session with the
//! store's `Reply`, until a step finishes the operation.
//!
//! Upload writes the content first and the row second; delete removes the
//! content first and the row second. A failure between the two steps is
//! reported and not compensated.

use vstd::prelude::*;
use crate::ident::{hyphenated, parse_uuid, parsed_uuid, random_uuid, uuid_text};
use crate::record::{
    anonymous_owner, content_disposition, default_owner, disposition_of, guess_content_type,
    guessed_mime, ImageStruct, RecordView, ServiceError,
};

verus! {

/// A call that the caller makes on one of the two stores.
#[derive(Debug)]
pub enum Command {
    /// Write `content` to the image bucket under `key`, replacing what is there.
    PutBlob { key: String, content: Vec<u8> },
    /// Insert the row; fails if a row with its identifier exists.
    InsertRow { record: ImageStruct },
    /// Read the row with identifier `id`.
    GetRow { id: u128 },
    /// Read the content stored under `key` in the image bucket.
    GetBlob { key: String },
    /// Set the fields that are given in the row with identifier `id`.
    UpdateRow { id: u128, file_name: Option<String>, owner: Option<String> },
    /// Remove the content under `key` from the image bucket, if any.
    DeleteBlob { key: String },
    /// Remove the row with identifier `id`, if any.
    DeleteRow { id: u128 },
}

/// What a store answered to a `Command`.
#[derive(Debug)]
pub enum Reply {
    /// The call succeeded and returns nothing.
    Done,
    /// The row that was read.
    Row(ImageStruct),
    /// The content that was read.
    Blob(Vec<u8>),
    /// There is no such row or object.
    Missing,
    /// The store reported an error or could not be reached.
    Failed,
}

/// A fetched image, with the headers of its download.
#[derive(Debug)]
pub struct Download {
    pub record: ImageStruct,
    pub content: Vec<u8>,
    /// Media type guessed from the file name's extension.
    pub content_type: String,
    /// `attachment; filename="<file name>"`.
    pub disposition: String,
}

/// What a successful operation returns.
#[derive(Debug)]
pub enum Outcome {
    Created(ImageStruct),
    Fetched(Download),
    Updated,
    Deleted,
}

/// What the caller does next: perform a command, or end the operation.
#[derive(Debug)]
pub enum Step {
    Run(Command),
    Finish(Result<Outcome, ServiceError>),
}

/// Where an operation stands: which reply it waits for, and what it carries.
#[derive(Debug)]
pub enum Session {
    /// Upload: waits for the content to be written; the row comes next.
    Storing(ImageStruct),
    /// Upload: waits for the row to be inserted.
    Indexing(ImageStruct),
    /// Fetch: waits for the row with this identifier.
    Looking(u128),
    /// Fetch: waits for the content of this record.
    Loading(ImageStruct),
    /// Update: waits for the row to be changed.
    Patching(u128),
    /// Delete: waits for the content to be removed; the row comes next.
    Unlinking(u128),
    /// Delete: waits for the row to be removed.
    Forgetting(u128),
    /// The operation has finished.
    Closed,
}

pub enum CommandView {
    PutBlob { key: Seq<char>, content: Seq<u8> },
    InsertRow { record: RecordView },
    GetRow { id: u128 },
    GetBlob { key: Seq<char> },
    UpdateRow { id: u128, file_name: Option<Seq<char>>, owner: Option<Seq<char>> },
    DeleteBlob { key: Seq<char> },
    DeleteRow { id: u128 },
}

pub enum ReplyView {
    Done,
    Row(RecordView),
    Blob(Seq<u8>),
    Missing,
    Failed,
}

pub struct DownloadView {
    pub record: RecordView,
    pub content: Seq<u8>,
    pub content_type: Seq<char>,
    pub disposition: Seq<char>,
}

pub enum OutcomeView {
    Created(RecordView),
    Fetched(DownloadView),
    Updated,
    Deleted,
}

pub enum StepView {
    Run(CommandView),
    Finish(Result<OutcomeView, ServiceError>),
}

pub enum SessionView {
    Storing(RecordView),
    Indexing(RecordView),
    Looking(u128),
    Loading(RecordView),
    Patching(u128),
    Unlinking(u128),
    Forgetting(u128),
    Closed,
}

pub open spec fn text_of(o: Option<String>) -> Option<Seq<char>> {
    match o {
        Some(s) => Some(s@),
        None => None,
    }
}

pub open spec fn bytes_of(o: Option<Vec<u8>>) -> Option<Seq<u8>> {
    match o {
        Some(v) => Some(v@),
        None => None,
    }
}

impl View for Command {
    type V = CommandView;

    open spec fn view(&self) -> CommandView {
        match self {
            Command::PutBlob { key, content } => CommandView::PutBlob {
                key: key@,
                content: content@,
            },
            Command::InsertRow { record } => CommandView::InsertRow { record: record@ },
            Command::GetRow { id } => CommandView::GetRow { id: *id },
            Command::GetBlob { key } => CommandView::GetBlob { key: key@ },
            Command::UpdateRow { id, file_name, owner } => CommandView::UpdateRow {
                id: *id,
                file_name: text_of(*file_name),
                owner: text_of(*owner),
            },
            Command::DeleteBlob { key } => CommandView::DeleteBlob { key: key@ },
            Command::DeleteRow { id } => CommandView::DeleteRow { id: *id },
        }
    }
}

impl View for Reply {
    type V = ReplyView;

    open spec fn view(&self) -> ReplyView {
        match self {
            Reply::Done => ReplyView::Done,
            Reply::Row(r) => ReplyView::Row(r@),
            Reply::Blob(b) => ReplyView::Blob(b@),
            Reply::Missing => ReplyView::Missing,
            Reply::Failed => ReplyView::Failed,
        }
    }
}

impl View for Download {
    type V = DownloadView;

    open spec fn view(&self) -> DownloadView {
        DownloadView {
            record: self.record@,
            content: self.content@,
            content_type: self.content_type@,
            disposition: self.disposition@,
        }
    }
}

impl View for Outcome {
    type V = OutcomeView;

    open spec fn view(&self) -> OutcomeView {
        match self {
            Outcome::Created(r) => OutcomeView::Created(r@),
            Outcome::Fetched(d) => OutcomeView::Fetched(d@),
            Outcome::Updated => OutcomeView::Updated,
            Outcome::Deleted => OutcomeView::Deleted,
        }
    }
}

pub open spec fn result_view(r: Result<Outcome, ServiceError>) -> Result<OutcomeView, ServiceError> {
    match r {
        Ok(o) => Ok(o@),
        Err(e) => Err(e),
    }
}

impl View for Step {
    type V = StepView;

    open spec fn view(&self) -> StepView {
        match self {
            Step::Run(c) => StepView::Run(c@),
            Step::Finish(r) => StepView::Finish(result_view(*r)),
        }
    }
}

impl View for Session {
    type V = SessionView;

    open spec fn view(&self) -> SessionView {
        match self {
            Session::Storing(r) => SessionView::Storing(r@),
            Session::Indexing(r) => SessionView::Indexing(r@),
            Session::Looking(id) => SessionView::Looking(*id),
            Session::Loading(r) => SessionView::Loading(r@),
            Session::Patching(id) => SessionView::Patching(*id),
            Session::Unlinking(id) => SessionView::Unlinking(*id),
            Session::Forgetting(id) => SessionView::Forgetting(*id),
            Session::Closed => SessionView::Closed,
        }
    }
}

/// The object key of an image: the hyphenated text of its identifier.
pub open spec fn key_of(id: u128) -> Seq<char> {
    hyphenated(id)
}

/// The owner of an upload: the one given, or the default placeholder.
pub open spec fn owner_or_default(owner: Option<Seq<char>>) -> Seq<char> {
    match owner {
        Some(o) => o,
        None => default_owner(),
    }
}

/// The file name of an upload: the one given, or the empty name.
pub open spec fn name_or_empty(name: Option<Seq<char>>) -> Seq<char> {
    match name {
        Some(n) => n,
        None => Seq::empty(),
    }
}

/// A field of an update counts as given only when it is present and not empty.
pub open spec fn provided(field: Option<Seq<char>>) -> Option<Seq<char>> {
    match field {
        Some(s) => if s.len() > 0 {
            Some(s)
        } else {
            None
        },
        None => None,
    }
}

pub open spec fn fail(e: ServiceError) -> (SessionView, StepView) {
    (SessionView::Closed, StepView::Finish(Err(e)))
}

pub open spec fn succeed(o: OutcomeView) -> (SessionView, StepView) {
    (SessionView::Closed, StepView::Finish(Ok(o)))
}

/// The record an upload creates.
pub open spec fn uploaded_record(
    file_name: Option<Seq<char>>,
    owner: Option<Seq<char>>,
    id: u128,
) -> RecordView {
    RecordView { id, file_name: name_or_empty(file_name), owner: owner_or_default(owner) }
}

/// Upload: without content, or with empty content, the request is invalid;
/// otherwise the content is written under the new identifier's key.
pub open spec fn upload_start(
    file_name: Option<Seq<char>>,
    owner: Option<Seq<char>>,
    content: Option<Seq<u8>>,
    id: u128,
) -> (SessionView, StepView) {
    match content {
        Some(c) => if c.len() > 0 {
            (
                SessionView::Storing(uploaded_record(file_name, owner, id)),
                StepView::Run(CommandView::PutBlob { key: key_of(id), content: c }),
            )
        } else {
            fail(ServiceError::InvalidRequest)
        },
        None => fail(ServiceError::InvalidRequest),
    }
}

/// Fetch: the row is read first.
pub open spec fn fetch_start(id: u128) -> (SessionView, StepView) {
    (SessionView::Looking(id), StepView::Run(CommandView::GetRow { id }))
}

/// Update: with no field given the request is invalid; otherwise only the
/// given fields are sent to the row.
pub open spec fn update_start(
    id: u128,
    file_name: Option<Seq<char>>,
    owner: Option<Seq<char>>,
) -> (SessionView, StepView) {
    if provided(file_name) is None && provided(owner) is None {
        fail(ServiceError::InvalidRequest)
    } else {
        (
            SessionView::Patching(id),
            StepView::Run(
                CommandView::UpdateRow { id, file_name: provided(file_name), owner: provided(owner) },
            ),
        )
    }
}

/// Delete: the content is removed first.
pub open spec fn delete_start(id: u128) -> (SessionView, StepView) {
    (SessionView::Unlinking(id), StepView::Run(CommandView::DeleteBlob { key: key_of(id) }))
}

/// What a fetched record is answered with, once its content has arrived.
pub open spec fn download_of(record: RecordView, content: Seq<u8>) -> DownloadView {
    DownloadView {
        record,
        content,
        content_type: guessed_mime(record.file_name),
        disposition: disposition_of(record.file_name),
    }
}

/// The next state and step of a session once a reply has come. A reply that
/// the waiting step cannot take counts as a store failure; a finished session
/// takes no reply.
pub open spec fn resume_spec(s: SessionView, reply: ReplyView) -> (SessionView, StepView) {
    match s {
        SessionView::Storing(rec) => match reply {
            ReplyView::Done => (
                SessionView::Indexing(rec),
                StepView::Run(CommandView::InsertRow { record: rec }),
            ),
            _ => fail(ServiceError::UpstreamFailure),
        },
        SessionView::Indexing(rec) => match reply {
            ReplyView::Done => succeed(OutcomeView::Created(rec)),
            _ => fail(ServiceError::UpstreamFailure),
        },
        SessionView::Looking(id) => match reply {
            ReplyView::Row(rec) => (
                SessionView::Loading(rec),
                StepView::Run(CommandView::GetBlob { key: key_of(rec.id) }),
            ),
            ReplyView::Missing => fail(ServiceError::NotFound),
            _ => fail(ServiceError::UpstreamFailure),
        },
        SessionView::Loading(rec) => match reply {
            ReplyView::Blob(b) => succeed(OutcomeView::Fetched(download_of(rec, b))),
            ReplyView::Missing => fail(ServiceError::NotFound),
            _ => fail(ServiceError::UpstreamFailure),
        },
        SessionView::Patching(id) => match reply {
            ReplyView::Done => succeed(OutcomeView::Updated),
            ReplyView::Missing => fail(ServiceError::NotFound),
            _ => fail(ServiceError::UpstreamFailure),
        },
        SessionView::Unlinking(id) => match reply {
            ReplyView::Done | ReplyView::Missing => (
                SessionView::Forgetting(id),
                StepView::Run(CommandView::DeleteRow { id }),
            ),
            _ => fail(ServiceError::UpstreamFailure),
        },
        SessionView::Forgetting(id) => match reply {
            ReplyView::Done | ReplyView::Missing => succeed(OutcomeView::Deleted),
            _ => fail(ServiceError::UpstreamFailure),
        },
        SessionView::Closed => fail(ServiceError::InvalidRequest),
    }
}

/// The identifier named by a request's text; a text that is no identifier
/// makes the request invalid, before any store is touched.
pub fn parse_image_id(text: &str) -> (r: Result<u128, ServiceError>)
    ensures
        r == match parsed_uuid(text@) {
            Some(v) => Ok(v),
            None => Err(ServiceError::InvalidRequest),
        },
{
    match parse_uuid(text) {
        Some(v) => Ok(v),
        None => Err(ServiceError::InvalidRequest),
    }
}

fn finish_err(e: ServiceError) -> (r: (Session, Step))
    ensures
        (r.0@, r.1@) == fail(e),
{
    (Session::Closed, Step::Finish(Err(e)))
}

fn nonempty(field: Option<String>) -> (r: Option<String>)
    ensures
        text_of(r) == provided(text_of(field)),
{
    match field {
        Some(s) => if s.as_str().unicode_len() > 0 {
            Some(s)
        } else {
            None
        },
        None => None,
    }
}

impl Session {
    /// Starts an upload under the identifier `id`.
    pub fn upload(
        file_name: Option<String>,
        owner: Option<String>,
        content: Option<Vec<u8>>,
        id: u128,
    ) -> (r: (Session, Step))
        ensures
            (r.0@, r.1@) == upload_start(text_of(file_name), text_of(owner), bytes_of(content), id),
    {
        match content {
            Some(c) => if c.len() > 0 {
                let name = match file_name {
                    Some(n) => n,
                    None => String::new(),
                };
                let who = match owner {
                    Some(o) => o,
                    None => anonymous_owner(),
                };
                let record = ImageStruct { uuid: id, file_name: name, owner: who };
                (Session::Storing(record), Step::Run(Command::PutBlob { key: uuid_text(id), content: c }))
            } else {
                finish_err(ServiceError::InvalidRequest)
            },
            None => finish_err(ServiceError::InvalidRequest),
        }
    }

    /// Starts an upload under a freshly drawn random identifier.
    pub fn upload_new(file_name: Option<String>, owner: Option<String>, content: Option<Vec<u8>>) -> (r: (
        Session,
        Step,
    ))
        ensures
            exists|id: u128|
                (r.0@, r.1@) == upload_start(text_of(file_name), text_of(owner), bytes_of(content), id),
    {
        let id = random_uuid();
        Session::upload(file_name, owner, content, id)
    }

    /// Starts fetching the record with identifier `id` and its content.
    pub fn fetch(id: u128) -> (r: (Session, Step))
        ensures
            (r.0@, r.1@) == fetch_start(id),
    {
        (Session::Looking(id), Step::Run(Command::GetRow { id }))
    }

    /// Starts changing the given fields of the record with identifier `id`;
    /// an empty field counts as not given.
    pub fn update(id: u128, file_name: Option<String>, owner: Option<String>) -> (r: (Session, Step))
        ensures
            (r.0@, r.1@) == update_start(id, text_of(file_name), text_of(owner)),
    {
        let new_name = nonempty(file_name);
        let new_owner = nonempty(owner);
        if new_name.is_none() && new_owner.is_none() {
            finish_err(ServiceError::InvalidRequest)
        } else {
            (
                Session::Patching(id),
                Step::Run(Command::UpdateRow { id, file_name: new_name, owner: new_owner }),
            )
        }
    }

    /// Starts deleting the record with identifier `id` and its content.
    pub fn delete(id: u128) -> (r: (Session, Step))
        ensures
            (r.0@, r.1@) == delete_start(id),
    {
        (Session::Unlinking(id), Step::Run(Command::DeleteBlob { key: uuid_text(id) }))
    }

    /// Takes the reply to the last command and says what comes next.
    pub fn resume(&mut self, reply: Reply) -> (r: Step)
        ensures
            (final(self)@, r@) == resume_spec(old(self)@, reply@),
    {
        let mut current = Session::Closed;
        std::mem::swap(self, &mut current);
        match current {
            Session::Storing(rec) => match reply {
                Reply::Done => {
                    let row = rec.duplicate();
                    *self = Session::Indexing(rec);
                    Step::Run(Command::InsertRow { record: row })
                },
                _ => Step::Finish(Err(ServiceError::UpstreamFailure)),
            },
            Session::Indexing(rec) => match reply {
                Reply::Done => Step::Finish(Ok(Outcome::Created(rec))),
                _ => Step::Finish(Err(ServiceError::UpstreamFailure)),
            },
            Session::Looking(_) => match reply {
                Reply::Row(rec) => {
                    let key = uuid_text(rec.uuid);
                    *self = Session::Loading(rec);
                    Step::Run(Command::GetBlob { key })
                },
                Reply::Missing => Step::Finish(Err(ServiceError::NotFound)),
                _ => Step::Finish(Err(ServiceError::UpstreamFailure)),
            },
            Session::Loading(rec) => match reply {
                Reply::Blob(content) => {
                    let content_type = guess_content_type(rec.file_name.as_str());
                    let disposition = content_disposition(rec.file_name.as_str());
                    Step::Finish(
                        Ok(Outcome::Fetched(Download { record: rec, content, content_type, disposition })),
                    )
                },
                Reply::Missing => Step::Finish(Err(ServiceError::NotFound)),
                _ => Step::Finish(Err(ServiceError::UpstreamFailure)),
            },
            Session::Patching(_) => match reply {
                Reply::Done => Step::Finish(Ok(Outcome::Updated)),
                Reply::Missing => Step::Finish(Err(ServiceError::NotFound)),
                _ => Step::Finish(Err(ServiceError::UpstreamFailure)),
            },
            Session::Unlinking(id) => match reply {
                Reply::Done | Reply::Missing => {
                    *self = Session::Forgetting(id);
                    Step::Run(Command::DeleteRow { id })
                },
                _ => Step::Finish(Err(ServiceError::UpstreamFailure)),
            },
            Session::Forgetting(_) => match reply {
                Reply::Done | Reply::Missing => Step::Finish(Ok(Outcome::Deleted)),
                _ => Step::Finish(Err(ServiceError::UpstreamFailure)),
            },
            Session::Closed => Step::Finish(Err(ServiceError::InvalidRequest)),
        }
    }
}

} // verus!

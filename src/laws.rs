//! What holds of the operations taken together, against stores that answer
//! as their contracts say.

use vstd::prelude::*;
use crate::record::ServiceError;
use crate::service::{
    download_of, key_of, name_or_empty, owner_or_default, provided, uploaded_record, OutcomeView,
};
use crate::stores::{patched, run, run_delete, run_fetch, run_update, run_upload, Stores};

verus! {

/// An upload under an unused identifier creates the record with the given
/// file name and owner (or the default owner), and a fetch of that identifier
/// then returns the same record and the very bytes that were uploaded.
pub proof fn upload_then_fetch(
    s: Stores,
    file_name: Option<Seq<char>>,
    owner: Option<Seq<char>>,
    content: Seq<u8>,
    id: u128,
)
    requires
        content.len() > 0,
        !s.rows.contains_key(id),
    ensures
        ({
            let rec = uploaded_record(file_name, owner, id);
            let (after, created) = run_upload(s, file_name, owner, Some(content), id);
            &&& rec.file_name == name_or_empty(file_name)
            &&& rec.owner == owner_or_default(owner)
            &&& created == Some(Ok::<OutcomeView, ServiceError>(OutcomeView::Created(rec)))
            &&& after.rows == s.rows.insert(id, rec)
            &&& after.blobs == s.blobs.insert(key_of(id), content)
            &&& run_fetch(after, id).1 == Some(
                Ok::<OutcomeView, ServiceError>(OutcomeView::Fetched(download_of(rec, content))),
            )
        }),
{
    reveal_with_fuel(run, 3);
}

/// Deleting succeeds whether or not the record exists and leaves neither its
/// row nor its content; deleting again succeeds too and changes nothing more.
pub proof fn delete_is_idempotent(s: Stores, id: u128)
    ensures
        ({
            let (once, first) = run_delete(s, id);
            let (twice, second) = run_delete(once, id);
            &&& first == Some(Ok::<OutcomeView, ServiceError>(OutcomeView::Deleted))
            &&& second == Some(Ok::<OutcomeView, ServiceError>(OutcomeView::Deleted))
            &&& twice == once
            &&& once.rows == s.rows.remove(id)
            &&& once.blobs == s.blobs.remove(key_of(id))
        }),
{
    reveal_with_fuel(run, 3);
    let (once, first) = run_delete(s, id);
    let (twice, second) = run_delete(once, id);
    assert(twice.rows =~= once.rows);
    assert(twice.blobs =~= once.blobs);
}

/// An update that gives no field (or only empty ones) is rejected and
/// touches neither store.
pub proof fn update_without_fields_is_rejected(
    s: Stores,
    id: u128,
    file_name: Option<Seq<char>>,
    owner: Option<Seq<char>>,
)
    requires
        provided(file_name) is None,
        provided(owner) is None,
    ensures
        run_update(s, id, file_name, owner) == (s, Some(
            Err::<OutcomeView, ServiceError>(ServiceError::InvalidRequest),
        )),
{
    reveal_with_fuel(run, 3);
}

/// An update of an existing record changes exactly the fields that are
/// given: a field left out keeps its value, and the content is not touched.
pub proof fn update_is_partial(
    s: Stores,
    id: u128,
    file_name: Option<Seq<char>>,
    owner: Option<Seq<char>>,
)
    requires
        s.rows.contains_key(id),
        provided(file_name) is Some || provided(owner) is Some,
    ensures
        ({
            let (after, r) = run_update(s, id, file_name, owner);
            let old_row = s.rows[id];
            let new_row = after.rows[id];
            &&& r == Some(Ok::<OutcomeView, ServiceError>(OutcomeView::Updated))
            &&& new_row == patched(old_row, provided(file_name), provided(owner))
            &&& provided(file_name) is None ==> new_row.file_name == old_row.file_name
            &&& provided(owner) is None ==> new_row.owner == old_row.owner
            &&& new_row.id == old_row.id
            &&& after.blobs == s.blobs
            &&& after.rows.dom() == s.rows.dom()
        }),
{
    reveal_with_fuel(run, 3);
    let (after, r) = run_update(s, id, file_name, owner);
    assert(after.rows.dom() =~= s.rows.dom());
}

/// Once a record is deleted, fetching it finds nothing.
pub proof fn fetch_after_delete(s: Stores, id: u128)
    ensures
        run_fetch(run_delete(s, id).0, id).1 == Some(
            Err::<OutcomeView, ServiceError>(ServiceError::NotFound),
        ),
{
    reveal_with_fuel(run, 3);
}

/// Two uploads that both succeed were made under distinct identifiers: the
/// row of the first holds its identifier, so a second insert under it fails.
pub proof fn successful_uploads_have_distinct_ids(
    s: Stores,
    first: (Option<Seq<char>>, Option<Seq<char>>, Option<Seq<u8>>, u128),
    second: (Option<Seq<char>>, Option<Seq<char>>, Option<Seq<u8>>, u128),
)
    requires
        run_upload(s, first.0, first.1, first.2, first.3).1 matches Some(Ok(_)),
        run_upload(run_upload(s, first.0, first.1, first.2, first.3).0, second.0, second.1, second.2, second.3).1 matches Some(Ok(_)),
    ensures
        first.3 != second.3,
{
    reveal_with_fuel(run, 3);
}

} // verus!

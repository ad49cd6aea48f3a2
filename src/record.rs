//! The image record, the errors an operation can end in, and the texts that
//! go with a stored image.

use vstd::prelude::*;

verus! {

/// One metadata row: the identifier (also the object key), the name the
/// image was uploaded under, and a free-text owner label.
#[derive(Clone, Debug)]
pub struct ImageStruct {
    pub uuid: u128,
    pub file_name: String,
    pub owner: String,
}

/// The mathematical value of a record.
pub struct RecordView {
    pub id: u128,
    pub file_name: Seq<char>,
    pub owner: Seq<char>,
}

impl View for ImageStruct {
    type V = RecordView;

    open spec fn view(&self) -> RecordView {
        RecordView { id: self.uuid, file_name: self.file_name@, owner: self.owner@ }
    }
}

impl ImageStruct {
    /// A copy of the record with the same fields.
    pub fn duplicate(&self) -> (r: ImageStruct)
        ensures
            r@ == self@,
    {
        ImageStruct {
            uuid: self.uuid,
            file_name: self.file_name.clone(),
            owner: self.owner.clone(),
        }
    }
}

/// How an operation fails.
#[derive(Clone, Copy, Debug, PartialEq, Eq, Structural)]
pub enum ServiceError {
    /// The request is malformed: no content, nothing to change, or an
    /// identifier that does not parse.
    InvalidRequest,
    /// No such record, or the record's content is missing.
    NotFound,
    /// One of the two stores reported an error.
    UpstreamFailure,
}

/// The texts of a sequence of strings.
pub open spec fn texts_view(v: Seq<String>) -> Seq<Seq<char>> {
    v.map_values(|x: String| x@)
}

/// The name of the bucket that holds the images' content.
pub open spec fn bucket_name() -> Seq<char> {
    seq!['i', 'm', 'a', 'g', 'e']
}

/// The owner given to an upload that names none.
pub open spec fn default_owner() -> Seq<char> {
    seq!['a', 'n', 'o', 'n']
}

pub fn image_bucket() -> (r: &'static str)
    ensures
        r@ == bucket_name(),
{
    let b = "image";
    proof {
        reveal_strlit("image");
    }
    b
}

pub fn anonymous_owner() -> (r: String)
    ensures
        r@ == default_owner(),
{
    let o = "anon";
    proof {
        reveal_strlit("anon");
    }
    String::from_str(o)
}

/// The `Content-Disposition` value that offers `name` as a download.
pub open spec fn disposition_of(name: Seq<char>) -> Seq<char> {
    "attachment; filename=\""@ + name + "\""@
}

pub fn content_disposition(file_name: &str) -> (r: String)
    ensures
        r@ == disposition_of(file_name@),
{
    let mut r = String::from_str("attachment; filename=\"");
    r.append(file_name);
    r.append("\"");
    r
}

/// The HTML page that shows the image with identifier text `id`.
pub open spec fn viewer_page(id: Seq<char>) -> Seq<char> {
    "<img src=\"/images/"@ + id + "\" alt=\"image\">"@
}

pub fn view_image(id: &str) -> (r: String)
    ensures
        r@ == viewer_page(id@),
{
    let mut r = String::from_str("<img src=\"/images/");
    r.append(id);
    r.append("\" alt=\"image\">");
    r
}

/// What `mime_guess` guesses as the media type of a file name, with
/// `application/octet-stream` where it knows none.
pub uninterp spec fn guessed_mime(name: Seq<char>) -> Seq<char>;

/// Relies on `mime_guess::from_path` and `MimeGuess::first_or_octet_stream`:
/// the media type registered for the name's extension, or the generic
/// octet-stream type; it depends on the name alone.
#[verifier::external_body]
pub(crate) fn guess_content_type(file_name: &str) -> (r: String)
    ensures
        r@ == guessed_mime(file_name@),
{
    mime_guess::from_path(file_name).first_or_octet_stream().to_string()
}

} // verus!

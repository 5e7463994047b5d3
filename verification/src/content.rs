//! The content responder: a stored object's bytes with a content type taken
//! from its name, and the paste view of a stored text.

use crate::error::StoreError;
use crate::path::SEPARATOR;
use crate::store::{ReadOutcome, ReadView};
use vstd::prelude::*;
use vstd::utf8::{decode_utf8, encode_utf8, valid_utf8};

verus! {

/// The media type that the extension table gives for a file name, rendered as
/// text; for a name without a known extension it is the table's generic
/// binary type.
pub uninterp spec fn guessed_content_type(filename: Seq<char>) -> Seq<char>;

/// Calls `mime_guess::from_path` on the name, takes
/// `first_or_octet_stream` of the guess and renders that media type as text.
/// The guess reads nothing but the name and a table compiled into the crate,
/// so the result is a function of the name; no more is claimed of it.
#[verifier::external_body]
fn guess_content_type(filename: &str) -> (media_type: String)
    ensures
        media_type@ == guessed_content_type(filename@),
{
    mime_guess::from_path(filename).first_or_octet_stream().to_string()
}

/// Calls `String::from_utf8`. It succeeds exactly on valid UTF-8, and the
/// text it gives is encoded by the very bytes that went in.
#[verifier::external_body]
fn text_from_utf8(bytes: Vec<u8>) -> (text: Option<String>)
    ensures
        text is Some <==> valid_utf8(bytes@),
        text is Some ==> encode_utf8(text->0@) == bytes@,
{
    String::from_utf8(bytes).ok()
}

/// The status of every answer that carries content.
pub const STATUS_OK: u16 = 200;

/// An answer that carries content.
#[derive(Clone, Debug, PartialEq, Eq)]
pub struct Served {
    /// The HTTP status, always 200.
    pub status: u16,
    /// The value of the content-type header.
    pub content_type: String,
    /// The object's bytes, whole.
    pub body: Vec<u8>,
}

/// The mathematical value of a [`Served`].
pub struct ServedView {
    pub status: u16,
    pub content_type: Seq<char>,
    pub body: Seq<u8>,
}

impl View for Served {
    type V = ServedView;

    open spec fn view(&self) -> ServedView {
        ServedView { status: self.status, content_type: self.content_type@, body: self.body@ }
    }
}

/// The view of a download's result.
pub open spec fn served_view(r: Result<Served, StoreError>) -> Result<ServedView, StoreError> {
    match r {
        Ok(s) => Ok(s@),
        Err(e) => Err(e),
    }
}

/// The answer to a download, given the content type of the name and what the
/// read gave.
pub open spec fn serve_spec(content_type: Seq<char>, outcome: ReadView) -> Result<
    ServedView,
    StoreError,
> {
    match outcome {
        ReadView::Found(body) => Ok(ServedView { status: STATUS_OK, content_type, body }),
        ReadView::Missing => Err(StoreError::NotFound),
        ReadView::Failed => Err(StoreError::InternalError),
    }
}

/// Answers a download whose content type is already known: the bytes as they
/// were read under that type, `NotFound` for a missing object, and
/// `InternalError` for any other failure.
pub fn serve_as(content_type: String, outcome: ReadOutcome) -> (r: Result<Served, StoreError>)
    ensures
        served_view(r) == serve_spec(content_type@, outcome@),
{
    match outcome {
        ReadOutcome::Found(body) => Ok(Served { status: STATUS_OK, content_type, body }),
        ReadOutcome::Missing => Err(StoreError::NotFound),
        ReadOutcome::Failed => Err(StoreError::InternalError),
    }
}

/// Answers a download: as [`serve_as`], with the content type that the
/// extension table gives for the name.
pub fn serve(filename: &str, outcome: ReadOutcome) -> (r: Result<Served, StoreError>)
    ensures
        served_view(r) == serve_spec(guessed_content_type(filename@), outcome@),
{
    serve_as(guess_content_type(filename), outcome)
}

/// Where the name ends once the separators at its end are left off, looking
/// at its first `n` characters.
pub open spec fn trimmed_end(name: Seq<char>, n: int) -> int
    decreases n,
{
    if 0 < n <= name.len() && name[n - 1] == SEPARATOR {
        trimmed_end(name, n - 1)
    } else {
        n
    }
}

/// Where the segment that ends at `end` starts.
pub open spec fn segment_start(name: Seq<char>, end: int) -> int
    decreases end,
{
    if 0 < end <= name.len() && name[end - 1] != SEPARATOR {
        segment_start(name, end - 1)
    } else {
        end
    }
}

/// The display title of a name: its last segment, the separators at the
/// name's end left off. A name made of separators alone has the empty title.
pub open spec fn title_of(name: Seq<char>) -> Seq<char> {
    let end = trimmed_end(name, name.len() as int);
    name.subrange(segment_start(name, end), end)
}

/// The display title of a name.
pub fn title(name: &str) -> (t: String)
    ensures
        t@ == title_of(name@),
{
    let n: usize = name.unicode_len();
    let mut end: usize = n;
    while end > 0 && name.get_char(end - 1) == SEPARATOR
        invariant
            n == name@.len(),
            end <= n,
            trimmed_end(name@, n as int) == trimmed_end(name@, end as int),
        decreases end,
    {
        end -= 1;
    }
    let mut start: usize = end;
    while start > 0 && name.get_char(start - 1) != SEPARATOR
        invariant
            n == name@.len(),
            start <= end <= n,
            segment_start(name@, end as int) == segment_start(name@, start as int),
        decreases start,
    {
        start -= 1;
    }
    String::from_str(name.substring_char(start, end))
}

/// The paste view of a stored text.
#[derive(Clone, Debug, PartialEq, Eq)]
pub struct Paste {
    /// The display title.
    pub title: String,
    /// The stored text, as it is.
    pub text: String,
}

/// The mathematical value of a [`Paste`].
pub struct PasteView {
    pub title: Seq<char>,
    pub text: Seq<char>,
}

impl View for Paste {
    type V = PasteView;

    open spec fn view(&self) -> PasteView {
        PasteView { title: self.title@, text: self.text@ }
    }
}

/// The view of a paste's result.
pub open spec fn paste_view(r: Result<Paste, StoreError>) -> Result<PasteView, StoreError> {
    match r {
        Ok(p) => Ok(p@),
        Err(e) => Err(e),
    }
}

/// The paste view of a name, given what the read gave. Bytes that are no
/// valid UTF-8 are answered as if nothing were stored.
pub open spec fn paste_spec(name: Seq<char>, outcome: ReadView) -> Result<PasteView, StoreError> {
    match outcome {
        ReadView::Found(bytes) => if valid_utf8(bytes) {
            Ok(PasteView { title: title_of(name), text: decode_utf8(bytes) })
        } else {
            Err(StoreError::NotFound)
        },
        ReadView::Missing => Err(StoreError::NotFound),
        ReadView::Failed => Err(StoreError::InternalError),
    }
}

/// Builds the paste view of a stored object: its title and its bytes decoded
/// as text. An object that is missing, or whose bytes are no valid UTF-8, is
/// `NotFound`; any other failure of the read is `InternalError`.
pub fn paste(name: &str, outcome: ReadOutcome) -> (r: Result<Paste, StoreError>)
    ensures
        paste_view(r) == paste_spec(name@, outcome@),
{
    match outcome {
        ReadOutcome::Found(bytes) => {
            match text_from_utf8(bytes) {
                Some(text) => {
                    proof {
                        vstd::utf8::encode_utf8_decode_utf8(text@);
                    }
                    Ok(Paste { title: title(name), text })
                },
                None => Err(StoreError::NotFound),
            }
        },
        ReadOutcome::Missing => Err(StoreError::NotFound),
        ReadOutcome::Failed => Err(StoreError::InternalError),
    }
}

/// The fixed parts of the page that shows a paste.
#[derive(Clone, Debug, PartialEq, Eq)]
pub struct PasteTemplate {
    /// What comes before the title.
    pub head: String,
    /// What stands between the title and the text.
    pub middle: String,
    /// What comes after the text.
    pub tail: String,
}

/// The page for a paste: the template's parts with the title and the text put
/// in as they are, nothing escaped.
pub open spec fn page_of(
    head: Seq<char>,
    middle: Seq<char>,
    tail: Seq<char>,
    paste: PasteView,
) -> Seq<char> {
    head + paste.title + middle + paste.text + tail
}

/// The answer that shows a paste: the page, encoded as UTF-8, as an HTML document.
pub open spec fn page_response_spec(
    head: Seq<char>,
    middle: Seq<char>,
    tail: Seq<char>,
    paste: PasteView,
) -> ServedView {
    ServedView {
        status: STATUS_OK,
        content_type: "text/html"@,
        body: encode_utf8(page_of(head, middle, tail, paste)),
    }
}

impl PasteTemplate {
    /// The answer that shows a paste.
    pub fn respond(&self, paste: &Paste) -> (served: Served)
        ensures
            served@ == page_response_spec(self.head@, self.middle@, self.tail@, paste@),
    {
        let page = self.render(paste);
        Served {
            status: STATUS_OK,
            content_type: String::from_str("text/html"),
            body: page.as_str().as_bytes_vec(),
        }
    }

    /// Renders the page for a paste.
    pub fn render(&self, paste: &Paste) -> (page: String)
        ensures
            page@ == page_of(self.head@, self.middle@, self.tail@, paste@),
    {
        let mut page = self.head.clone();
        page.append(paste.title.as_str());
        page.append(self.middle.as_str());
        page.append(paste.text.as_str());
        page.append(self.tail.as_str());
        page
    }
}

} // verus!

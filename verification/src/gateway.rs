//! The HTTP gateway: what is sent for a call, and what is handed back.
//!
//! The gateway keeps no state. For each call it says which request goes to
//! the server, and it turns whatever came of the request into a response of
//! two fields, a body and an error. Reading the file of an upload and talking
//! to the server are the caller's part.

use vstd::prelude::*;
use vstd::string::{StrSliceExecFns, StringExecFns};

use crate::mime::{check_mime, mime_verdict};
use crate::path::{follows_dot, path_extension};
use crate::text::text_of;

verus! {

/// The verb of a request.
#[derive(Clone, Copy, Debug, PartialEq, Eq, Structural)]
pub enum Verb {
    Get,
    Post,
    Put,
    Patch,
    Delete,
}

/// Why a call of the gateway failed, with the reason as a text.
#[derive(Debug, PartialEq, Eq)]
pub enum HttpError {
    /// The request did not reach the server, or its answer could not be read.
    Network(String),
    /// The request could not be put together.
    Encoding(String),
    /// The file to upload could not be read.
    MissingFile(String),
}

/// The mathematical content of an [`HttpError`].
pub enum HttpErrorView {
    Network(Seq<char>),
    Encoding(Seq<char>),
    MissingFile(Seq<char>),
}

impl View for HttpError {
    type V = HttpErrorView;

    open spec fn view(&self) -> HttpErrorView {
        match *self {
            HttpError::Network(reason) => HttpErrorView::Network(reason@),
            HttpError::Encoding(reason) => HttpErrorView::Encoding(reason@),
            HttpError::MissingFile(reason) => HttpErrorView::MissingFile(reason@),
        }
    }
}

impl HttpErrorView {
    /// The reason that the error carries.
    pub open spec fn reason(self) -> Seq<char> {
        match self {
            HttpErrorView::Network(reason) => reason,
            HttpErrorView::Encoding(reason) => reason,
            HttpErrorView::MissingFile(reason) => reason,
        }
    }

    /// What the message says where the error carries no reason.
    pub open spec fn fallback(self) -> Seq<char> {
        match self {
            HttpErrorView::Network(_) => "network error"@,
            HttpErrorView::Encoding(_) => "encoding error"@,
            HttpErrorView::MissingFile(_) => "missing file"@,
        }
    }

    /// The message of the error: its reason, or the fallback for an empty one.
    pub open spec fn message(self) -> Seq<char> {
        if self.reason().len() > 0 {
            self.reason()
        } else {
            self.fallback()
        }
    }
}

/// What a call of the gateway hands back. On failure `body` is empty and
/// `err` is not.
#[derive(Debug, PartialEq, Eq)]
pub struct HttpResponse {
    pub body: String,
    pub err: String,
}

/// The mathematical content of an [`HttpResponse`].
pub struct HttpResponseView {
    pub body: Seq<char>,
    pub err: Seq<char>,
}

impl View for HttpResponse {
    type V = HttpResponseView;

    open spec fn view(&self) -> HttpResponseView {
        HttpResponseView { body: self.body@, err: self.err@ }
    }
}

/// What one part of a multipart form holds.
#[derive(Debug, PartialEq, Eq)]
pub enum Content {
    Bytes(Vec<u8>),
    Text(String),
}

/// The mathematical content of a [`Content`].
pub enum ContentView {
    Bytes(Seq<u8>),
    Text(Seq<char>),
}

impl View for Content {
    type V = ContentView;

    open spec fn view(&self) -> ContentView {
        match *self {
            Content::Bytes(bytes) => ContentView::Bytes(bytes@),
            Content::Text(text) => ContentView::Text(text@),
        }
    }
}

/// One part of a multipart form.
#[derive(Debug, PartialEq, Eq)]
pub struct Part {
    /// The key of the form field.
    pub name: String,
    pub content: Content,
    pub file_name: Option<String>,
    pub mime: String,
}

/// The mathematical content of a [`Part`].
pub struct PartView {
    pub name: Seq<char>,
    pub content: ContentView,
    pub file_name: Option<Seq<char>>,
    pub mime: Seq<char>,
}

impl View for Part {
    type V = PartView;

    open spec fn view(&self) -> PartView {
        PartView {
            name: self.name@,
            content: self.content@,
            file_name: match self.file_name {
                Some(name) => Some(name@),
                None => None,
            },
            mime: self.mime@,
        }
    }
}

/// The body of a request.
#[derive(Debug, PartialEq, Eq)]
pub enum Body {
    Empty,
    /// A body that the caller supplied. It is sent unchanged, as JSON.
    Json(String),
    /// A multipart form, its parts in order.
    Multipart(Vec<Part>),
}

/// The mathematical content of a [`Body`].
pub enum BodyView {
    Empty,
    Json(Seq<char>),
    Multipart(Seq<PartView>),
}

impl View for Body {
    type V = BodyView;

    open spec fn view(&self) -> BodyView {
        match *self {
            Body::Empty => BodyView::Empty,
            Body::Json(text) => BodyView::Json(text@),
            Body::Multipart(parts) => BodyView::Multipart(parts@.map_values(|part: Part| part@)),
        }
    }
}

/// A request for the shared client to send.
#[derive(Debug, PartialEq, Eq)]
pub struct Request {
    pub verb: Verb,
    pub url: String,
    pub body: Body,
}

/// The mathematical content of a [`Request`].
pub struct RequestView {
    pub verb: Verb,
    pub url: Seq<char>,
    pub body: BodyView,
}

impl View for Request {
    type V = RequestView;

    open spec fn view(&self) -> RequestView {
        RequestView { verb: self.verb, url: self.url@, body: self.body@ }
    }
}

/// A file that the caller named for upload, and what came of reading it:
/// its bytes, or the reason why it could not be read.
#[derive(Debug, PartialEq, Eq)]
pub struct FileRead {
    pub path: String,
    pub contents: Result<Vec<u8>, String>,
}

/// The mathematical content of a [`FileRead`].
pub struct FileReadView {
    pub path: Seq<char>,
    pub contents: Result<Seq<u8>, Seq<char>>,
}

impl View for FileRead {
    type V = FileReadView;

    open spec fn view(&self) -> FileReadView {
        FileReadView {
            path: self.path@,
            contents: match self.contents {
                Ok(bytes) => Ok(bytes@),
                Err(reason) => Err(reason@),
            },
        }
    }
}
/// The content of a result that holds a part or an error.
pub open spec fn part_outcome(result: Result<Part, HttpError>) -> Result<PartView, HttpErrorView> {
    match result {
        Ok(part) => Ok(part@),
        Err(error) => Err(error@),
    }
}

/// The content of a result that holds a request or an error.
pub open spec fn request_outcome(result: Result<Request, HttpError>) -> Result<
    RequestView,
    HttpErrorView,
> {
    match result {
        Ok(request) => Ok(request@),
        Err(error) => Err(error@),
    }
}

/// The content of an optional file.
pub open spec fn file_of(file: Option<FileRead>) -> Option<FileReadView> {
    match file {
        Some(read) => Some(read@),
        None => None,
    }
}

/// A part as the form takes it: the part itself where its MIME type is
/// accepted, else an encoding error with the reason of the refusal.
pub open spec fn settled_part(part: PartView, verdict: Result<(), Seq<char>>) -> Result<
    PartView,
    HttpErrorView,
> {
    match verdict {
        Ok(_) => Ok(part),
        Err(reason) => Err(HttpErrorView::Encoding(reason)),
    }
}

/// A part whose MIME type has been checked.
pub open spec fn checked_part(part: PartView) -> Result<PartView, HttpErrorView> {
    settled_part(part, mime_verdict(part.mime))
}

/// The MIME type of an uploaded file with the given extension.
pub open spec fn image_mime(extension: Seq<char>) -> Seq<char> {
    "image/"@ + extension
}

/// The part that uploads a file under the key `field`, given the extension
/// of its name. A file that could not be read gives a missing-file error
/// with the reason; one whose name has no extension gives an encoding error.
/// The part carries the bytes of the file, the path as its file name, and
/// the image type of the extension.
pub open spec fn file_part(
    field: Seq<char>,
    file: FileReadView,
    extension: Option<Seq<char>>,
) -> Result<PartView, HttpErrorView> {
    match file.contents {
        Err(reason) => Err(HttpErrorView::MissingFile(reason)),
        Ok(bytes) => match extension {
            None => Err(HttpErrorView::Encoding("the file name has no extension"@)),
            Some(extension) => checked_part(
                PartView {
                    name: field,
                    content: ContentView::Bytes(bytes),
                    file_name: Some(file.path),
                    mime: image_mime(extension),
                },
            ),
        },
    }
}

/// The part that carries a text under the key `field`, as `text/html`.
pub open spec fn text_part(field: Seq<char>, value: Seq<char>) -> Result<PartView, HttpErrorView> {
    checked_part(
        PartView {
            name: field,
            content: ContentView::Text(value),
            file_name: None,
            mime: "text/html"@,
        },
    )
}

/// The text of a form field: the value that the caller gave, else none.
pub open spec fn field_text(value: Option<Seq<char>>) -> Seq<char> {
    match value {
        Some(text) => text,
        None => Seq::<char>::empty(),
    }
}

impl Part {
    /// Makes a part of its pieces and of what the check of its MIME type
    /// answered.
    pub fn settle(
        name: &str,
        content: Content,
        file_name: Option<&str>,
        mime: String,
        verdict: Result<(), String>,
    ) -> (result: Result<Part, HttpError>)
        ensures
            part_outcome(result) == settled_part(
                PartView { name: name@, content: content@, file_name: text_of(file_name), mime: mime@ },
                match verdict {
                    Ok(_) => Ok(()),
                    Err(reason) => Err(reason@),
                },
            ),
    {
        match verdict {
            Ok(_) => {
                let file_name = match file_name {
                    Some(text) => Some(text.to_owned()),
                    None => None,
                };
                Ok(Part { name: name.to_owned(), content, file_name, mime })
            },
            Err(reason) => Err(HttpError::Encoding(reason)),
        }
    }

    /// Makes a part of its pieces, if the HTTP client takes its MIME type.
    pub fn checked(name: &str, content: Content, file_name: Option<&str>, mime: String) -> (result:
        Result<Part, HttpError>)
        ensures
            part_outcome(result) == checked_part(
                PartView { name: name@, content: content@, file_name: text_of(file_name), mime: mime@ },
            ),
    {
        let verdict = check_mime(mime.as_str());
        Part::settle(name, content, file_name, mime, verdict)
    }

    /// The part that uploads `file` under the key `field`, given the
    /// extension of the file's name.
    pub fn file(field: &str, file: FileRead, extension: Option<&str>) -> (result: Result<
        Part,
        HttpError,
    >)
        ensures
            part_outcome(result) == file_part(field@, file@, text_of(extension)),
    {
        let FileRead { path, contents } = file;
        match contents {
            Err(reason) => Err(HttpError::MissingFile(reason)),
            Ok(bytes) => match extension {
                None => Err(HttpError::Encoding("the file name has no extension".to_owned())),
                Some(extension) => {
                    let mime = String::from_str("image/").concat(extension);
                    Part::checked(field, Content::Bytes(bytes), Some(path.as_str()), mime)
                },
            },
        }
    }

    /// The part that carries `value` under the key `field`.
    pub fn text(field: &str, value: &str) -> (result: Result<Part, HttpError>)
        ensures
            part_outcome(result) == text_part(field@, value@),
    {
        Part::checked(field, Content::Text(value.to_owned()), None, "text/html".to_owned())
    }
}

/// The body of a call without a file: the raw body as JSON, else nothing.
pub open spec fn plain_body(raw: Option<Seq<char>>) -> BodyView {
    match raw {
        Some(text) => BodyView::Json(text),
        None => BodyView::Empty,
    }
}

/// The request of a call that uploads nothing.
pub open spec fn plain_request(verb: Verb, url: Seq<char>, raw: Option<Seq<char>>) -> RequestView {
    RequestView { verb, url, body: plain_body(raw) }
}

/// The request of a PUT, given the extension of the file's name. A file
/// goes before the raw body: it is uploaded as the one part of a form, under
/// the key `image`.
pub open spec fn put_request(
    url: Seq<char>,
    raw: Option<Seq<char>>,
    file: Option<FileReadView>,
    extension: Option<Seq<char>>,
) -> Result<RequestView, HttpErrorView> {
    match file {
        None => Ok(plain_request(Verb::Put, url, raw)),
        Some(read) => match file_part("image"@, read, extension) {
            Err(error) => Err(error),
            Ok(part) => Ok(
                RequestView { verb: Verb::Put, url, body: BodyView::Multipart(seq![part]) },
            ),
        },
    }
}

/// The request of a PATCH, given the extension of the file's name. A file
/// goes before the raw body: it is uploaded as the first part of a form,
/// under the key `data`. Where the caller gave a field key, a text part
/// follows under that key; it carries the field value, or no text where the
/// caller gave none.
pub open spec fn patch_request(
    url: Seq<char>,
    raw: Option<Seq<char>>,
    field_key: Option<Seq<char>>,
    field_value: Option<Seq<char>>,
    file: Option<FileReadView>,
    extension: Option<Seq<char>>,
) -> Result<RequestView, HttpErrorView> {
    match file {
        None => Ok(plain_request(Verb::Patch, url, raw)),
        Some(read) => match file_part("data"@, read, extension) {
            Err(error) => Err(error),
            Ok(part) => match field_key {
                None => Ok(
                    RequestView { verb: Verb::Patch, url, body: BodyView::Multipart(seq![part]) },
                ),
                Some(key) => match text_part(key, field_text(field_value)) {
                    Err(error) => Err(error),
                    Ok(text) => Ok(
                        RequestView {
                            verb: Verb::Patch,
                            url,
                            body: BodyView::Multipart(seq![part, text]),
                        },
                    ),
                },
            },
        },
    }
}

/// Whether `extension` can be what the standard library finds as the
/// extension of the file to upload. Without a file nothing is asked.
pub open spec fn found_extension(file: Option<FileReadView>, extension: Option<Seq<char>>) -> bool {
    match file {
        Some(read) => match extension {
            Some(text) => follows_dot(read.path, text),
            None => true,
        },
        None => extension is None,
    }
}

impl Body {
    /// The content type that the caller sets for the body, if any. A form
    /// brings its own.
    pub fn content_type(&self) -> (content_type: Option<&'static str>)
        ensures
            match *self {
                Body::Json(_) => content_type matches Some(text) && text@ == "application/json"@,
                _ => content_type is None,
            },
    {
        match self {
            Body::Json(_) => Some("application/json"),
            _ => None,
        }
    }
}

/// The request of a call that uploads nothing.
pub fn request_without_file(verb: Verb, url: &str, body: Option<&str>) -> (request: Request)
    ensures
        request@ == plain_request(verb, url@, text_of(body)),
{
    let body = match body {
        Some(text) => Body::Json(text.to_owned()),
        None => Body::Empty,
    };
    Request { verb, url: url.to_owned(), body }
}

/// The request of a GET.
pub fn http_get(url: &str, body: Option<&str>) -> (request: Request)
    ensures
        request@ == plain_request(Verb::Get, url@, text_of(body)),
{
    request_without_file(Verb::Get, url, body)
}

/// The request of a POST.
pub fn http_post(url: &str, body: Option<&str>) -> (request: Request)
    ensures
        request@ == plain_request(Verb::Post, url@, text_of(body)),
{
    request_without_file(Verb::Post, url, body)
}

/// The request of a DELETE.
pub fn http_delete(url: &str, body: Option<&str>) -> (request: Request)
    ensures
        request@ == plain_request(Verb::Delete, url@, text_of(body)),
{
    request_without_file(Verb::Delete, url, body)
}

/// The request of a PUT whose file, if any, has a name of the given
/// extension; or the error that keeps the request from being sent.
pub fn put_with_extension(
    url: &str,
    body: Option<&str>,
    file: Option<FileRead>,
    extension: Option<&str>,
) -> (result: Result<Request, HttpError>)
    ensures
        request_outcome(result) == put_request(
            url@,
            text_of(body),
            file_of(file),
            text_of(extension),
        ),
{
    match file {
        None => Ok(request_without_file(Verb::Put, url, body)),
        Some(read) => match Part::file("image", read, extension) {
            Err(error) => Err(error),
            Ok(part) => {
                let mut parts: Vec<Part> = Vec::new();
                parts.push(part);
                assert(parts@.map_values(|p: Part| p@) =~= seq![part@]);
                Ok(Request { verb: Verb::Put, url: url.to_owned(), body: Body::Multipart(parts) })
            },
        },
    }
}

/// The request of a PATCH whose file, if any, has a name of the given
/// extension; or the error that keeps the request from being sent.
pub fn patch_with_extension(
    url: &str,
    body: Option<&str>,
    field_key: Option<&str>,
    field_value: Option<&str>,
    file: Option<FileRead>,
    extension: Option<&str>,
) -> (result: Result<Request, HttpError>)
    ensures
        request_outcome(result) == patch_request(
            url@,
            text_of(body),
            text_of(field_key),
            text_of(field_value),
            file_of(file),
            text_of(extension),
        ),
{
    match file {
        None => Ok(request_without_file(Verb::Patch, url, body)),
        Some(read) => match Part::file("data", read, extension) {
            Err(error) => Err(error),
            Ok(part) => {
                let mut parts: Vec<Part> = Vec::new();
                parts.push(part);
                match field_key {
                    None => {
                        assert(parts@.map_values(|p: Part| p@) =~= seq![part@]);
                    },
                    Some(key) => {
                        let value = match field_value {
                            Some(text) => text,
                            None => "",
                        };
                        proof {
                            reveal_strlit("");
                            assert(value@ =~= field_text(text_of(field_value)));
                        }
                        match Part::text(key, value) {
                            Err(error) => {
                                return Err(error);
                            },
                            Ok(text) => {
                                parts.push(text);
                                assert(parts@.map_values(|p: Part| p@) =~= seq![part@, text@]);
                            },
                        }
                    },
                }
                Ok(Request { verb: Verb::Patch, url: url.to_owned(), body: Body::Multipart(parts) })
            },
        },
    }
}

/// The extension of the name of the file to upload, as the standard
/// library finds it.
fn extension_for(file: &Option<FileRead>) -> (extension: Option<String>)
    ensures
        found_extension(file_of(*file), owned_text(extension)),
{
    match file {
        Some(read) => path_extension(read.path.as_str()),
        None => None,
    }
}

/// The content of an optional string.
pub open spec fn owned_text(value: Option<String>) -> Option<Seq<char>> {
    match value {
        Some(text) => Some(text@),
        None => None,
    }
}

/// The request of a PUT, or the error that keeps it from being sent. The
/// extension of the file's name is the one that the standard library finds.
pub fn http_put(url: &str, body: Option<&str>, file: Option<FileRead>) -> (result: Result<
    Request,
    HttpError,
>)
    ensures
        exists|extension: Option<Seq<char>>|
            found_extension(file_of(file), extension) && request_outcome(result)
                == #[trigger] put_request(url@, text_of(body), file_of(file), extension),
{
    let extension = extension_for(&file);
    let found = match &extension {
        Some(text) => Some(text.as_str()),
        None => None,
    };
    assert(text_of(found) == owned_text(extension));
    put_with_extension(url, body, file, found)
}

/// The request of a PATCH, or the error that keeps it from being sent. The
/// extension of the file's name is the one that the standard library finds.
pub fn http_patch(
    url: &str,
    body: Option<&str>,
    field_key: Option<&str>,
    field_value: Option<&str>,
    file: Option<FileRead>,
) -> (result: Result<Request, HttpError>)
    ensures
        exists|extension: Option<Seq<char>>|
            found_extension(file_of(file), extension) && request_outcome(result)
                == #[trigger] patch_request(
                url@,
                text_of(body),
                text_of(field_key),
                text_of(field_value),
                file_of(file),
                extension,
            ),
{
    let extension = extension_for(&file);
    let found = match &extension {
        Some(text) => Some(text.as_str()),
        None => None,
    };
    assert(text_of(found) == owned_text(extension));
    patch_with_extension(url, body, field_key, field_value, file, found)
}

/// What the gateway hands back for what came of a call: the text of the
/// server's answer as the body, or the message of the error. An answer
/// without any text is told in `err`, so that one field is always filled.
pub open spec fn response_to(outcome: Result<Seq<char>, HttpErrorView>) -> HttpResponseView {
    match outcome {
        Ok(body) => if body.len() > 0 {
            HttpResponseView { body, err: Seq::<char>::empty() }
        } else {
            HttpResponseView { body: Seq::<char>::empty(), err: "the answer is empty"@ }
        },
        Err(error) => HttpResponseView { body: Seq::<char>::empty(), err: error.message() },
    }
}

impl HttpError {
    /// The message of the error. It is never empty.
    pub fn message(&self) -> (text: String)
        ensures
            text@ == self@.message(),
            text@.len() > 0,
    {
        proof {
            reveal_strlit("network error");
            reveal_strlit("encoding error");
            reveal_strlit("missing file");
        }
        match self {
            HttpError::Network(reason) => if reason.as_str().unicode_len() > 0 {
                reason.clone()
            } else {
                "network error".to_owned()
            },
            HttpError::Encoding(reason) => if reason.as_str().unicode_len() > 0 {
                reason.clone()
            } else {
                "encoding error".to_owned()
            },
            HttpError::MissingFile(reason) => if reason.as_str().unicode_len() > 0 {
                reason.clone()
            } else {
                "missing file".to_owned()
            },
        }
    }
}

impl HttpResponse {
    /// The response to a call that came to `outcome`. Nothing that went
    /// wrong is raised: it is told in `err`. So is an answer without any
    /// text.
    pub fn from_outcome(outcome: Result<String, HttpError>) -> (response: HttpResponse)
        ensures
            response@ == response_to(
                match outcome {
                    Ok(body) => Ok(body@),
                    Err(error) => Err(error@),
                },
            ),
    {
        match outcome {
            Ok(body) => if body.as_str().unicode_len() > 0 {
                HttpResponse { body, err: String::new() }
            } else {
                HttpResponse { body: String::new(), err: "the answer is empty".to_owned() }
            },
            Err(error) => HttpResponse { body: String::new(), err: error.message() },
        }
    }
}

/// The message of an error is never empty.
pub proof fn lemma_message_not_empty(error: HttpErrorView)
    ensures
        error.message().len() > 0,
{
    reveal_strlit("network error");
    reveal_strlit("encoding error");
    reveal_strlit("missing file");
}

/// Of the two fields of a response exactly one is filled, whatever came of
/// the call. An answer with a text fills `body` with it and leaves `err`
/// empty.
pub proof fn lemma_one_field_filled(outcome: Result<Seq<char>, HttpErrorView>)
    ensures
        (response_to(outcome).body.len() > 0) != (response_to(outcome).err.len() > 0),
        match outcome {
            Ok(text) => text.len() > 0 ==> response_to(outcome) == (HttpResponseView {
                body: text,
                err: Seq::<char>::empty(),
            }),
            Err(_) => response_to(outcome).body.len() == 0,
        },
{
    reveal_strlit("the answer is empty");
    match outcome {
        Ok(_) => {},
        Err(error) => {
            lemma_message_not_empty(error);
        },
    }
}

/// A PUT or PATCH whose file could not be read is answered by an empty body
/// and an error that is not empty, whatever else the call was given.
pub proof fn lemma_unreadable_file_is_told(
    url: Seq<char>,
    raw: Option<Seq<char>>,
    field_key: Option<Seq<char>>,
    field_value: Option<Seq<char>>,
    path: Seq<char>,
    reason: Seq<char>,
    extension: Option<Seq<char>>,
)
    ensures
        ({
            let file = Some(FileReadView { path, contents: Err(reason) });
            let error = HttpErrorView::MissingFile(reason);
            &&& put_request(url, raw, file, extension) == Err::<RequestView, HttpErrorView>(error)
            &&& patch_request(url, raw, field_key, field_value, file, extension) == Err::<
                RequestView,
                HttpErrorView,
            >(error)
            &&& response_to(Err(error)).body.len() == 0
            &&& response_to(Err(error)).err.len() > 0
        }),
{
    lemma_message_not_empty(HttpErrorView::MissingFile(reason));
}

/// Where a file is named, the raw body has no part in the request.
pub proof fn lemma_file_goes_before_raw_body(
    url: Seq<char>,
    raw: Option<Seq<char>>,
    other: Option<Seq<char>>,
    field_key: Option<Seq<char>>,
    field_value: Option<Seq<char>>,
    file: FileReadView,
    extension: Option<Seq<char>>,
)
    ensures
        put_request(url, raw, Some(file), extension) == put_request(
            url,
            other,
            Some(file),
            extension,
        ),
        patch_request(url, raw, field_key, field_value, Some(file), extension) == patch_request(
            url,
            other,
            field_key,
            field_value,
            Some(file),
            extension,
        ),
{
}

/// The text part of a PATCH form has the key that the caller gave, and
/// carries the value that the caller gave.
pub proof fn lemma_text_part_has_callers_key(
    url: Seq<char>,
    raw: Option<Seq<char>>,
    key: Seq<char>,
    value: Seq<char>,
    file: FileReadView,
    extension: Option<Seq<char>>,
)
    ensures
        patch_request(url, raw, Some(key), Some(value), Some(file), extension) matches Ok(request)
            ==> request.body matches BodyView::Multipart(parts) && parts.len() == 2
            && parts[0].name == "data"@ && parts[1].name == key && parts[1].content
            == ContentView::Text(value) && parts[1].mime == "text/html"@,
{
}

} // verus!

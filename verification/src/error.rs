//! The failures that the adaptation layer reports, and their rendering.

use vstd::prelude::*;
use vstd::std_specs::convert::FromSpecImpl;
use vstd::string::{to_string_from_display_ensures, StringExecFns};
use crate::decimal::{digits, push_decimal};
use serde_json::Error as JsonError;

verus! {

/// matchit's error for a route that could not be registered. It is carried
/// as it is; of its inside only its text is used, see [`insert_error_text`].
#[verifier::external_type_specification]
#[verifier::external_body]
pub struct ExInsertError(matchit::InsertError);

/// url's error for a string that is no URL. It is carried as it is; of its
/// inside only its text is used, see [`parse_error_text`].
#[verifier::external_type_specification]
#[verifier::external_body]
pub struct ExParseError(url::ParseError);

/// serde_json's error. It is only turned into its message.
#[verifier::external_type_specification]
#[verifier::external_body]
pub struct ExJsonError(JsonError);

/// The text that matchit's `Display` gives for a route insertion error.
pub uninterp spec fn insert_error_text(e: matchit::InsertError) -> Seq<char>;

/// The text that url's `Display` gives for a URL parse error.
pub uninterp spec fn parse_error_text(e: url::ParseError) -> Seq<char>;

/// Renders a route insertion error with matchit's
/// `impl Display for InsertError`. The text depends on the error alone: one
/// fixed sentence per variant, followed for a conflict by the route that the
/// error carries.
#[verifier::external_body]
fn insert_error_message(e: &matchit::InsertError) -> (s: String)
    ensures
        s@ == insert_error_text(*e),
{
    e.to_string()
}

/// Renders a URL parse error with url's `impl Display for ParseError`. The
/// text depends on the error alone: one fixed sentence per variant.
#[verifier::external_body]
fn parse_error_message(e: &url::ParseError) -> (s: String)
    ensures
        s@ == parse_error_text(*e),
{
    e.to_string()
}

/// All the failures that the layer, or the host calls that it adapts, can
/// report.
#[derive(Debug)]
#[non_exhaustive]
pub enum Error {
    /// The declared content type does not match the requested decoding.
    BadEncoding,
    /// The body was already consumed: a body is read once.
    BodyUsed,
    /// A structured error: a message and the status code to answer with.
    Json(String, u16),
    /// An error that the host runtime raised, as the host renders it.
    JsError(String),
    /// No environment binding of this name was found.
    BindingError(String),
    /// A matched route has no shared application data.
    RouteNoDataError,
    /// A status code outside the valid range.
    InvalidStatusCode(u16),
    /// A route could not be registered.
    RouteInsertError(matchit::InsertError),
    /// An internal error made from a plain message.
    RustError(String),
    /// JSON could not be written or read; holds the message of the failure.
    SerdeJsonError(String),
    /// A host value could not be turned into a structured value, or back.
    SerdeWasmBindgenError(String),
    /// The key-value store failed.
    KvError(String),
    /// A URL could not be parsed.
    UrlParseError(url::ParseError),
}

/// What an [`Error`] is to the contracts: its kind, with each message as a
/// sequence of characters.
pub enum ErrorView {
    BadEncoding,
    BodyUsed,
    Json(Seq<char>, u16),
    JsError(Seq<char>),
    BindingError(Seq<char>),
    RouteNoDataError,
    InvalidStatusCode(u16),
    RouteInsertError(matchit::InsertError),
    RustError(Seq<char>),
    SerdeJsonError(Seq<char>),
    SerdeWasmBindgenError(Seq<char>),
    KvError(Seq<char>),
    UrlParseError(url::ParseError),
}

impl View for Error {
    type V = ErrorView;

    open spec fn view(&self) -> ErrorView {
        match *self {
            Error::BadEncoding => ErrorView::BadEncoding,
            Error::BodyUsed => ErrorView::BodyUsed,
            Error::Json(m, s) => ErrorView::Json(m@, s),
            Error::JsError(m) => ErrorView::JsError(m@),
            Error::BindingError(m) => ErrorView::BindingError(m@),
            Error::RouteNoDataError => ErrorView::RouteNoDataError,
            Error::InvalidStatusCode(s) => ErrorView::InvalidStatusCode(s),
            Error::RouteInsertError(e) => ErrorView::RouteInsertError(e),
            Error::RustError(m) => ErrorView::RustError(m@),
            Error::SerdeJsonError(m) => ErrorView::SerdeJsonError(m@),
            Error::SerdeWasmBindgenError(m) => ErrorView::SerdeWasmBindgenError(m@),
            Error::KvError(m) => ErrorView::KvError(m@),
            Error::UrlParseError(e) => ErrorView::UrlParseError(e),
        }
    }
}

impl ErrorView {
    /// The human-readable rendering: one template per kind, filled with the
    /// kind's context.
    pub open spec fn rendered(self) -> Seq<char> {
        match self {
            ErrorView::BadEncoding => "content-type mismatch"@,
            ErrorView::BodyUsed => "body has already been read"@,
            ErrorView::Json(m, s) => m + " (status: "@ + digits(s as nat) + ")"@,
            ErrorView::JsError(m) => "Javascript error: "@ + m,
            ErrorView::BindingError(m) => "no binding found for `"@ + m + "`"@,
            ErrorView::RouteNoDataError => "route has no corresponding shared data"@,
            ErrorView::InvalidStatusCode(s) => "invalid status code: "@ + digits(s as nat),
            ErrorView::RouteInsertError(e) => "failed to insert route: "@ + insert_error_text(e),
            ErrorView::RustError(m) => "Serde Error: "@ + m,
            ErrorView::SerdeJsonError(m) => "Serde Error: "@ + m,
            ErrorView::SerdeWasmBindgenError(m) => "Serde WASM bindgen Error: "@ + m,
            ErrorView::KvError(m) => "Kv Error: "@ + m,
            ErrorView::UrlParseError(e) => "url parse error: "@ + parse_error_text(e),
        }
    }
}

impl Error {
    /// The error for a failure that the host runtime raised, from the host's
    /// own rendering of what it raised.
    pub fn from_js_text(text: String) -> (e: Error)
        ensures
            e@ == ErrorView::JsError(text@),
    {
        Error::JsError(text)
    }

    /// The error for a failed conversion between host values and structured
    /// values, from the text of that failure.
    pub fn from_serde_wasm_bindgen_text(text: String) -> (e: Error)
        ensures
            e@ == ErrorView::SerdeWasmBindgenError(text@),
    {
        Error::SerdeWasmBindgenError(text)
    }

    /// The error for a failure of the key-value store, from the text of that
    /// failure.
    pub fn from_kv_text(text: String) -> (e: Error)
        ensures
            e@ == ErrorView::KvError(text@),
    {
        Error::KvError(text)
    }

    /// Renders the error for a reader. The text is a function of the error's
    /// view alone, so equal errors render alike, every time.
    pub fn to_string(&self) -> (s: String)
        ensures
            s@ == self@.rendered(),
            s@.len() > 0,
    {
        proof {
            lemma_rendered_nonempty(self@);
        }
        match self {
            Error::BadEncoding => String::from_str("content-type mismatch"),
            Error::BodyUsed => String::from_str("body has already been read"),
            Error::Json(m, status) => {
                let mut s = m.clone();
                s.append(" (status: ");
                push_decimal(&mut s, *status as u128);
                s.append(")");
                s
            },
            Error::JsError(m) => {
                let mut s = String::from_str("Javascript error: ");
                s.append(m.as_str());
                s
            },
            Error::BindingError(m) => {
                let mut s = String::from_str("no binding found for `");
                s.append(m.as_str());
                s.append("`");
                s
            },
            Error::RouteNoDataError => String::from_str("route has no corresponding shared data"),
            Error::InvalidStatusCode(status) => {
                let mut s = String::from_str("invalid status code: ");
                push_decimal(&mut s, *status as u128);
                s
            },
            Error::RouteInsertError(e) => {
                let mut s = String::from_str("failed to insert route: ");
                let text = insert_error_message(e);
                s.append(text.as_str());
                s
            },
            Error::RustError(m) => {
                let mut s = String::from_str("Serde Error: ");
                s.append(m.as_str());
                s
            },
            Error::SerdeJsonError(m) => {
                let mut s = String::from_str("Serde Error: ");
                s.append(m.as_str());
                s
            },
            Error::SerdeWasmBindgenError(m) => {
                let mut s = String::from_str("Serde WASM bindgen Error: ");
                s.append(m.as_str());
                s
            },
            Error::KvError(m) => {
                let mut s = String::from_str("Kv Error: ");
                s.append(m.as_str());
                s
            },
            Error::UrlParseError(e) => {
                let mut s = String::from_str("url parse error: ");
                let text = parse_error_message(e);
                s.append(text.as_str());
                s
            },
        }
    }
}

/// A route insertion error is kept as it is, under its own kind.
impl From<matchit::InsertError> for Error {
    fn from(e: matchit::InsertError) -> (ret: Error)
        ensures
            ret@ == ErrorView::RouteInsertError(e),
    {
        Error::RouteInsertError(e)
    }
}

impl FromSpecImpl<matchit::InsertError> for Error {
    open spec fn obeys_from_spec() -> bool {
        true
    }

    open spec fn from_spec(e: matchit::InsertError) -> Error {
        Error::RouteInsertError(e)
    }
}

/// A URL parse error is kept as it is, under its own kind.
impl From<url::ParseError> for Error {
    fn from(e: url::ParseError) -> (ret: Error)
        ensures
            ret@ == ErrorView::UrlParseError(e),
    {
        Error::UrlParseError(e)
    }
}

impl FromSpecImpl<url::ParseError> for Error {
    open spec fn obeys_from_spec() -> bool {
        true
    }

    open spec fn from_spec(e: url::ParseError) -> Error {
        Error::UrlParseError(e)
    }
}

/// A plain message makes an internal error.
impl From<String> for Error {
    fn from(a: String) -> (ret: Error)
        ensures
            ret@ == ErrorView::RustError(a@),
    {
        Error::RustError(a)
    }
}

impl FromSpecImpl<String> for Error {
    open spec fn obeys_from_spec() -> bool {
        true
    }

    open spec fn from_spec(a: String) -> Error {
        Error::RustError(a)
    }
}

/// A plain message makes an internal error.
impl From<&str> for Error {
    fn from(a: &str) -> (ret: Error)
        ensures
            ret@ == ErrorView::RustError(a@),
    {
        Error::RustError(String::from_str(a))
    }
}

/// The error that comes of a `&str` owns a copy of it, and no expression
/// names that copy: `from` states its result by its view instead.
impl FromSpecImpl<&str> for Error {
    open spec fn obeys_from_spec() -> bool {
        false
    }

    open spec fn from_spec(a: &str) -> Error {
        arbitrary()
    }
}

/// A JSON error leaves its message: the text that serde_json's `Display`
/// gives for it, taken once, here.
impl From<JsonError> for Error {
    fn from(e: JsonError) -> (ret: Error)
        ensures
            ret matches Error::SerdeJsonError(m) && to_string_from_display_ensures::<JsonError>(
                &e,
                m,
            ),
    {
        Error::SerdeJsonError(e.to_string())
    }
}

/// The message of a JSON error is no function of the error that could be
/// written down: `from` states its result by what `to_string` promises.
impl FromSpecImpl<JsonError> for Error {
    open spec fn obeys_from_spec() -> bool {
        false
    }

    open spec fn from_spec(e: JsonError) -> Error {
        arbitrary()
    }
}

/// No error renders as the empty string.
pub proof fn lemma_rendered_nonempty(e: ErrorView)
    ensures
        e.rendered().len() > 0,
{
    reveal_strlit("content-type mismatch");
    reveal_strlit("body has already been read");
    reveal_strlit(" (status: ");
    reveal_strlit("Javascript error: ");
    reveal_strlit("no binding found for `");
    reveal_strlit("route has no corresponding shared data");
    reveal_strlit("invalid status code: ");
    reveal_strlit("failed to insert route: ");
    reveal_strlit("Serde Error: ");
    reveal_strlit("Serde WASM bindgen Error: ");
    reveal_strlit("Kv Error: ");
    reveal_strlit("url parse error: ");
}

} // verus!

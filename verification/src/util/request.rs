//! Outbound requests and raw responses as plain values.
//!
//! A [`Request`] says what a caller wants sent; a [`RawResponse`] holds what of
//! a reply the client looks at. Neither touches the network.

use crate::util::headers::check_header_value;
use crate::util::headers::is_header_value;
use vstd::prelude::*;

verus! {

/// The four verbs the client uses.
#[derive(Clone, Copy, Debug, PartialEq, Eq, Structural)]
pub enum Verb {
    Get,
    Delete,
    Post,
    Patch,
}

/// The value of one field of a JSON body.
#[derive(Debug)]
pub enum FieldValue {
    Null,
    Bool(bool),
    Int(i64),
    Text(String),
    Ints(Vec<i64>),
    Texts(Vec<String>),
}

/// What a field value stands for.
pub enum FieldValueView {
    Null,
    Bool(bool),
    Int(i64),
    Text(Seq<char>),
    Ints(Seq<i64>),
    Texts(Seq<Seq<char>>),
}

/// The views of a list of texts, in order.
pub open spec fn texts_view(texts: Seq<String>) -> Seq<Seq<char>> {
    texts.map_values(|text: String| text@)
}

/// The views of a list of borrowed texts, in order.
pub open spec fn strs_view(texts: Seq<&str>) -> Seq<Seq<char>> {
    texts.map_values(|text: &str| text@)
}

impl View for FieldValue {
    type V = FieldValueView;

    open spec fn view(&self) -> FieldValueView {
        match self {
            FieldValue::Null => FieldValueView::Null,
            FieldValue::Bool(flag) => FieldValueView::Bool(*flag),
            FieldValue::Int(number) => FieldValueView::Int(*number),
            FieldValue::Text(text) => FieldValueView::Text(text@),
            FieldValue::Ints(numbers) => FieldValueView::Ints(numbers@),
            FieldValue::Texts(texts) => FieldValueView::Texts(texts_view(texts@)),
        }
    }
}

/// One named field of a JSON body.
#[derive(Debug)]
pub struct Field {
    pub name: String,
    pub value: FieldValue,
}

impl View for Field {
    type V = (Seq<char>, FieldValueView);

    open spec fn view(&self) -> (Seq<char>, FieldValueView) {
        (self.name@, self.value@)
    }
}

/// A JSON body: an object of named fields, in the order in which they are
/// written.
#[derive(Debug)]
pub struct Body {
    pub fields: Vec<Field>,
}

impl View for Body {
    type V = Seq<(Seq<char>, FieldValueView)>;

    open spec fn view(&self) -> Seq<(Seq<char>, FieldValueView)> {
        self.fields@.map_values(|field: Field| field@)
    }
}

impl Body {
    /// The object without fields, `{}`.
    pub fn new() -> (out: Body)
        ensures
            out@ == Seq::<(Seq<char>, FieldValueView)>::empty(),
    {
        let out = Body { fields: Vec::new() };
        out
    }

    /// Adds a field after those already there.
    pub fn with(self, name: &str, value: FieldValue) -> (out: Body)
        ensures
            out@ == self@.push((name@, value@)),
    {
        let mut fields = self.fields;
        fields.push(Field { name: String::from_str(name), value });
        let out = Body { fields };
        out
    }
}

/// The view of an optional text.
pub open spec fn text_view(text: Option<String>) -> Option<Seq<char>> {
    match text {
        Some(text) => Some(text@),
        None => None,
    }
}

/// The view of an optional borrowed text.
pub open spec fn str_view(text: Option<&str>) -> Option<Seq<char>> {
    match text {
        Some(text) => Some(text@),
        None => None,
    }
}

/// An outbound request: verb, target, optional JSON body, and the credential
/// of this one call where it has its own.
#[derive(Debug)]
pub struct Request {
    pub verb: Verb,
    pub url: String,
    pub body: Option<Body>,
    pub roblosecurity: Option<String>,
}

/// What a request stands for.
pub struct RequestView {
    pub verb: Verb,
    pub url: Seq<char>,
    pub body: Option<Seq<(Seq<char>, FieldValueView)>>,
    pub roblosecurity: Option<Seq<char>>,
}

impl View for Request {
    type V = RequestView;

    open spec fn view(&self) -> RequestView {
        RequestView {
            verb: self.verb,
            url: self.url@,
            body: match self.body {
                Some(body) => Some(body@),
                None => None,
            },
            roblosecurity: text_view(self.roblosecurity),
        }
    }
}

/// The request that fetches `url`.
pub open spec fn fetching(url: Seq<char>, roblosecurity: Option<Seq<char>>) -> RequestView {
    RequestView { verb: Verb::Get, url, body: None, roblosecurity }
}

/// The request that removes what `url` names.
pub open spec fn removing(url: Seq<char>, roblosecurity: Option<Seq<char>>) -> RequestView {
    RequestView { verb: Verb::Delete, url, body: None, roblosecurity }
}

/// The request that creates something at `url` from `body`.
pub open spec fn creating(
    url: Seq<char>,
    body: Seq<(Seq<char>, FieldValueView)>,
    roblosecurity: Option<Seq<char>>,
) -> RequestView {
    RequestView { verb: Verb::Post, url, body: Some(body), roblosecurity }
}

/// The request that updates part of what `url` names with `body`.
pub open spec fn updating(
    url: Seq<char>,
    body: Seq<(Seq<char>, FieldValueView)>,
    roblosecurity: Option<Seq<char>>,
) -> RequestView {
    RequestView { verb: Verb::Patch, url, body: Some(body), roblosecurity }
}

/// What an optional flag is written as: the flag, or null.
pub open spec fn flag_or_null_view(flag: Option<bool>) -> FieldValueView {
    match flag {
        Some(flag) => FieldValueView::Bool(flag),
        None => FieldValueView::Null,
    }
}

/// What an optional text is written as: the text, or null.
pub open spec fn text_or_null_view(text: Option<Seq<char>>) -> FieldValueView {
    match text {
        Some(text) => FieldValueView::Text(text),
        None => FieldValueView::Null,
    }
}

/// Writes an optional flag: the flag, or null.
pub fn flag_or_null(flag: Option<bool>) -> (out: FieldValue)
    ensures
        out@ == flag_or_null_view(flag),
{
    match flag {
        Some(flag) => FieldValue::Bool(flag),
        None => FieldValue::Null,
    }
}

/// Writes an optional text: the text, or null.
pub fn text_or_null(text: Option<&str>) -> (out: FieldValue)
    ensures
        out@ == text_or_null_view(str_view(text)),
{
    match text {
        Some(text) => FieldValue::Text(String::from_str(text)),
        None => FieldValue::Null,
    }
}

/// Copies an optional borrowed text.
pub fn owned_text(text: Option<&str>) -> (out: Option<String>)
    ensures
        text_view(out) == str_view(text),
{
    match text {
        Some(text) => Some(String::from_str(text)),
        None => None,
    }
}

/// What the client looks at in a reply: the status code, the anti-forgery
/// token that the reply offers in its `x-csrf-token` header, if any, and the
/// body as text.
#[derive(Debug)]
pub struct RawResponse {
    pub status: u16,
    pub csrf_token: Option<String>,
    pub body: String,
}

impl RawResponse {
    /// A reply as it can come off the wire: a token it offers arrived in a
    /// header, so its text is header text.
    pub open spec fn wf(self) -> bool {
        self.csrf_token matches Some(token) ==> is_header_value(token@)
    }

    /// Tells whether this reply is as one can come off the wire.
    pub fn is_well_formed(&self) -> (ok: bool)
        ensures
            ok == self.wf(),
    {
        match &self.csrf_token {
            Some(token) => check_header_value(token.as_str()),
            None => true,
        }
    }
}

impl Request {
    /// Tells whether the credential that this request brings for itself, if
    /// any, can be presented: whether its text can stand in a header.
    pub fn is_presentable(&self) -> (ok: bool)
        ensures
            ok == (self@.roblosecurity matches Some(value) ==> is_header_value(value)),
    {
        match &self.roblosecurity {
            Some(value) => check_header_value(value.as_str()),
            None => true,
        }
    }
}

} // verus!

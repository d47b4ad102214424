//! Word-segmentation HTTP service, with the request pipeline, routing,
//! configuration validation and service lifecycle verified.
//!
//! The service accepts `POST /wordseg` and `POST /dag` requests whose JSON
//! body carries a `text` field, runs an external segmentation engine over the
//! text, and answers with a JSON body; every other route is answered with a
//! plain 404. Transport (sockets, file reads) lives outside this crate; the
//! functions here compute every decision and every response from plain values.

pub mod conf;
pub mod engine;
pub mod json;
pub mod lifecycle;
pub mod pipeline;
pub mod response;

use vstd::prelude::*;
use vstd::string::StringExecFns;

verus! {

/// Everything that can go wrong while answering one request. Each variant is
/// reported to the client as an HTTP 500 whose JSON body names the variant.
#[derive(Clone, Copy, PartialEq, Eq, Structural, Debug)]
pub enum ServerError {
    /// The transport failed while the request body was being accumulated.
    CannotReadBody,
    /// The accumulated body is not valid JSON.
    CannotParseJsonRequest,
    /// The body is JSON, but not a JSON object.
    CannotGetJsonObject,
    /// The object has no `text` key.
    CannotGetTextAttr,
    /// The `text` key is present but its value is not a string.
    TextAttrIsNotString,
}

impl ServerError {
    /// The stable tag under which the variant appears in an error body.
    pub open spec fn spec_tag(self) -> Seq<char> {
        match self {
            ServerError::CannotReadBody => "CannotReadBody"@,
            ServerError::CannotParseJsonRequest => "CannotParseJsonRequest"@,
            ServerError::CannotGetJsonObject => "CannotGetJsonObject"@,
            ServerError::CannotGetTextAttr => "CannotGetTextAttr"@,
            ServerError::TextAttrIsNotString => "TextAttrIsNotString"@,
        }
    }

    /// A short human-readable account of the variant.
    pub open spec fn spec_detail(self) -> Seq<char> {
        match self {
            ServerError::CannotReadBody => "cannot read request body"@,
            ServerError::CannotParseJsonRequest => "cannot parse request body as JSON"@,
            ServerError::CannotGetJsonObject => "request body is not a JSON object"@,
            ServerError::CannotGetTextAttr => "request object has no text attribute"@,
            ServerError::TextAttrIsNotString => "text attribute is not a string"@,
        }
    }

    /// The error body sent to the client: a small JSON object naming the
    /// variant, so that clients can tell the failures apart.
    pub open spec fn spec_body(self) -> Seq<char> {
        "{\"error\":\""@ + self.spec_tag() + "\",\"detail\":\""@ + self.spec_detail() + "\"}"@
    }

    pub fn tag(&self) -> (r: &'static str)
        ensures
            r@ == self.spec_tag(),
    {
        match self {
            ServerError::CannotReadBody => "CannotReadBody",
            ServerError::CannotParseJsonRequest => "CannotParseJsonRequest",
            ServerError::CannotGetJsonObject => "CannotGetJsonObject",
            ServerError::CannotGetTextAttr => "CannotGetTextAttr",
            ServerError::TextAttrIsNotString => "TextAttrIsNotString",
        }
    }

    pub fn detail(&self) -> (r: &'static str)
        ensures
            r@ == self.spec_detail(),
    {
        match self {
            ServerError::CannotReadBody => "cannot read request body",
            ServerError::CannotParseJsonRequest => "cannot parse request body as JSON",
            ServerError::CannotGetJsonObject => "request body is not a JSON object",
            ServerError::CannotGetTextAttr => "request object has no text attribute",
            ServerError::TextAttrIsNotString => "text attribute is not a string",
        }
    }

    /// Renders the JSON error body for this variant.
    pub fn body(&self) -> (r: String)
        ensures
            r@ == self.spec_body(),
    {
        let mut out = String::new();
        out.append("{\"error\":\"");
        out.append(self.tag());
        out.append("\",\"detail\":\"");
        out.append(self.detail());
        out.append("\"}");
        out
    }
}

} // verus!

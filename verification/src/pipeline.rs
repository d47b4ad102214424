//! The per-request pipeline and the router: body handling, JSON decoding,
//! field extraction, engine invocation, response encoding, and the dispatch
//! of method and path to a handler. Every step after the transport handed
//! over the raw body bytes is decided here.

use vstd::prelude::*;
use vstd::string::{StrSliceExecFns, StringExecFns};
use vstd::utf8::encode_utf8;
use wordcut_engine::Wordcut;

use crate::ServerError;
use crate::engine::{EdgeKind, LatticeEdge, engine_dag, engine_segmentation};
use crate::engine;
use crate::json::{Jv, json_of_strings, parsed_json, strings_to_json, value_model};
use crate::json::{parse_json, value_as_str, value_get, value_is_object};
use crate::response::{HttpResponse, make_resp, not_found};
use crate::response::{STATUS_INTERNAL_SERVER_ERROR, STATUS_NOT_FOUND, STATUS_OK};

verus! {

// ---------------------------------------------------------------------------
// Routing
// ---------------------------------------------------------------------------
/// The request methods the router tells apart. Everything that is not a POST
/// falls to the catch-all route, so one extra variant covers it.
#[derive(Clone, Copy, PartialEq, Eq, Structural, Debug)]
pub enum Method {
    Get,
    Post,
    Other,
}

/// Where a request is dispatched.
#[derive(Clone, Copy, PartialEq, Eq, Structural, Debug)]
pub enum Route {
    Wordseg,
    Dag,
    NotFound,
}

/// The routing table: exact method plus exact path, nothing else.
pub open spec fn route_of(method: Method, path: Seq<char>) -> Route {
    if method == Method::Post && path == "/wordseg"@ {
        Route::Wordseg
    } else if method == Method::Post && path == "/dag"@ {
        Route::Dag
    } else {
        Route::NotFound
    }
}

fn str_eq(a: &str, b: &str) -> (r: bool)
    ensures
        r == (a@ == b@),
{
    let x: String = a.to_owned();
    let y: String = b.to_owned();
    x == y
}

/// How a transport method word is read: exactly `GET` and `POST` are
/// recognised; every other word falls to the catch-all variant, and with it
/// to the catch-all route.
pub open spec fn spec_method_of(w: Seq<char>) -> Method {
    if w == "GET"@ {
        Method::Get
    } else if w == "POST"@ {
        Method::Post
    } else {
        Method::Other
    }
}

/// Reads a transport method word.
pub fn method_of(word: &str) -> (r: Method)
    ensures
        r == spec_method_of(word@),
{
    if str_eq(word, "GET") {
        Method::Get
    } else if str_eq(word, "POST") {
        Method::Post
    } else {
        Method::Other
    }
}

/// Reads a `Content-Length` header value: a run of decimal digits whose
/// value fits the machine, and nothing else.
pub fn parse_content_length(value: &String) -> (r: Option<usize>)
    ensures
        match r {
            Some(n) => crate::conf::is_digits(encode_utf8(value@)) && n
                == crate::conf::digits_value(encode_utf8(value@)),
            None => !(crate::conf::is_digits(encode_utf8(value@)) && crate::conf::digits_value(
                encode_utf8(value@),
            ) <= usize::MAX),
        },
{
    let bytes: Vec<u8> = value.as_str().as_bytes_vec();
    proof {
        assert(bytes@.skip(0) =~= bytes@);
    }
    match crate::conf::parse_decimal(&bytes, 0, usize::MAX as u64) {
        Some(n) => Some(n as usize),
        None => None,
    }
}

/// Dispatches a request by method and path.
pub fn route(method: Method, path: &str) -> (r: Route)
    ensures
        r == route_of(method, path@),
{
    if method == Method::Post && str_eq(path, "/wordseg") {
        Route::Wordseg
    } else if method == Method::Post && str_eq(path, "/dag") {
        Route::Dag
    } else {
        Route::NotFound
    }
}

// ---------------------------------------------------------------------------
// Body decoding and field extraction
// ---------------------------------------------------------------------------
/// What extracting the `text` field from a decoded JSON value yields: the
/// text, or the first failure of the object/key/string checks, in that order.
pub open spec fn text_of_json(j: Jv) -> Result<Seq<char>, ServerError> {
    match j {
        Jv::Obj(m) => {
            if !m.contains_key("text"@) {
                Err(ServerError::CannotGetTextAttr)
            } else {
                match m["text"@] {
                    Jv::Str(s) => Ok(s),
                    _ => Err(ServerError::TextAttrIsNotString),
                }
            }
        },
        _ => Err(ServerError::CannotGetJsonObject),
    }
}

/// What the whole decode chain yields for a request body: the text, or the
/// error of the first failing stage. `None` stands for a body the transport
/// could not read.
pub open spec fn text_outcome(body: Option<Seq<u8>>) -> Result<Seq<char>, ServerError> {
    match body {
        None => Err(ServerError::CannotReadBody),
        Some(b) => match parsed_json(b) {
            None => Err(ServerError::CannotParseJsonRequest),
            Some(j) => text_of_json(j),
        },
    }
}

/// The view of an optional body buffer.
pub open spec fn opt_bytes(body: Option<&Vec<u8>>) -> Option<Seq<u8>> {
    match body {
        Some(b) => Some(b@),
        None => None,
    }
}

/// Accumulates a request body from the transport's byte chunks: their
/// concatenation, in arrival order.
pub fn read_body(chunks: &Vec<Vec<u8>>) -> (r: Vec<u8>)
    ensures
        r@ == chunks.deep_view().flatten(),
{
    let mut body: Vec<u8> = Vec::new();
    let mut i: usize = 0;
    proof {
        assert(chunks.deep_view().take(0) =~= Seq::<Seq<u8>>::empty());
    }
    while i < chunks.len()
        invariant
            i <= chunks@.len(),
            body@ == chunks.deep_view().take(i as int).flatten(),
        decreases chunks@.len() - i,
    {
        body.extend_from_slice(chunks[i].as_slice());
        proof {
            assert(chunks.deep_view()[i as int] == chunks@[i as int]@);
            assert(chunks.deep_view().take(i as int).push(chunks@[i as int]@)
                =~= chunks.deep_view().take(i as int + 1));
            chunks.deep_view().take(i as int).lemma_flatten_push(chunks@[i as int]@);
        }
        i += 1;
    }
    proof {
        assert(chunks.deep_view().take(chunks@.len() as int) =~= chunks.deep_view());
    }
    body
}

/// Decodes a request body as JSON.
pub fn read_val(body: &Vec<u8>) -> (r: Result<serde_json::Value, ServerError>)
    ensures
        match r {
            Ok(v) => parsed_json(body@) == Some(value_model(v)),
            Err(e) => parsed_json(body@) is None && e == ServerError::CannotParseJsonRequest,
        },
{
    match parse_json(body) {
        Some(v) => Ok(v),
        None => Err(ServerError::CannotParseJsonRequest),
    }
}

/// Extracts the `text` field from a decoded request value.
pub fn get_text(val: &serde_json::Value) -> (r: Result<String, ServerError>)
    ensures
        match r {
            Ok(s) => text_of_json(value_model(*val)) == Ok::<Seq<char>, ServerError>(s@),
            Err(e) => text_of_json(value_model(*val)) == Err::<Seq<char>, ServerError>(e),
        },
{
    if !value_is_object(val) {
        return Err(ServerError::CannotGetJsonObject);
    }
    match value_get(val, "text") {
        None => Err(ServerError::CannotGetTextAttr),
        Some(t) => match value_as_str(t) {
            Some(s) => Ok(s.to_owned()),
            None => Err(ServerError::TextAttrIsNotString),
        },
    }
}

// ---------------------------------------------------------------------------
// Response bodies
// ---------------------------------------------------------------------------
/// The body of a successful `/wordseg` answer: a JSON object whose single
/// `words` field is the engine's token list for the text.
pub open spec fn seg_body(w: Wordcut, t: Seq<char>) -> Seq<char> {
    "{\"words\":"@ + json_of_strings(engine_segmentation(w)[t]) + "}"@
}

/// Runs the engine over the text and encodes the successful `/wordseg` body.
pub fn wordseg(w: &Wordcut, text: &str) -> (r: String)
    ensures
        r@ == seg_body(*w, text@),
        engine_segmentation(*w)[text@].flatten() == text@,
{
    let toks = engine::segment(w, text);
    let arr = strings_to_json(&toks);
    let mut out = String::new();
    out.append("{\"words\":");
    out.append(arr.as_str());
    out.append("}");
    proof {
        assert(out@ =~= seg_body(*w, text@));
    }
    out
}

/// One decimal digit.
pub open spec fn digit_seq(d: int) -> Seq<char> {
    if d == 0 {
        "0"@
    } else if d == 1 {
        "1"@
    } else if d == 2 {
        "2"@
    } else if d == 3 {
        "3"@
    } else if d == 4 {
        "4"@
    } else if d == 5 {
        "5"@
    } else if d == 6 {
        "6"@
    } else if d == 7 {
        "7"@
    } else if d == 8 {
        "8"@
    } else {
        "9"@
    }
}

/// The decimal rendering of a number, most significant digit first.
pub open spec fn dec_digits(n: int) -> Seq<char>
    decreases n,
{
    if n < 10 {
        digit_seq(n)
    } else {
        dec_digits(n / 10) + digit_seq(n % 10)
    }
}

fn digit_str(d: u8) -> (r: &'static str)
    requires
        d < 10,
    ensures
        r@ == digit_seq(d as int),
{
    match d {
        0 => "0",
        1 => "1",
        2 => "2",
        3 => "3",
        4 => "4",
        5 => "5",
        6 => "6",
        7 => "7",
        8 => "8",
        _ => "9",
    }
}

fn push_decimal(out: &mut String, n: usize)
    ensures
        final(out)@ == old(out)@ + dec_digits(n as int),
    decreases n,
{
    if n >= 10 {
        push_decimal(out, n / 10);
        out.append(digit_str((n % 10) as u8));
        proof {
            assert(final(out)@ =~= old(out)@ + dec_digits(n as int));
        }
    } else {
        out.append(digit_str(n as u8));
    }
}

/// The tag under which an edge kind appears on the wire.
pub open spec fn kind_name(k: int) -> Seq<char> {
    if k == 0 {
        "Init"@
    } else if k == 1 {
        "Dict"@
    } else if k == 2 {
        "Unk"@
    } else {
        "Pat"@
    }
}

fn kind_str(k: EdgeKind) -> (r: &'static str)
    ensures
        r@ == kind_name(k.tag()),
{
    match k {
        EdgeKind::Init => "Init",
        EdgeKind::Dict => "Dict",
        EdgeKind::Unk => "Unk",
        EdgeKind::Pat => "Pat",
    }
}

/// The JSON rendering of one lattice edge.
pub open spec fn json_of_edge(e: (int, int, int)) -> Seq<char> {
    "{\"s\":"@ + dec_digits(e.0) + ",\"e\":"@ + dec_digits(e.1) + ",\"etype\":\""@ + kind_name(e.2)
        + "\"}"@
}

/// Every edge after the first of a list, each with its leading comma.
pub open spec fn json_of_edges_rest(es: Seq<(int, int, int)>) -> Seq<char>
    decreases es.len(),
{
    if es.len() == 0 {
        Seq::<char>::empty()
    } else {
        ","@ + json_of_edge(es[0]) + json_of_edges_rest(es.drop_first())
    }
}

/// The JSON rendering of one edge list.
pub open spec fn json_of_edges(es: Seq<(int, int, int)>) -> Seq<char> {
    if es.len() == 0 {
        "[]"@
    } else {
        "["@ + json_of_edge(es[0]) + json_of_edges_rest(es.drop_first()) + "]"@
    }
}

/// Every edge list after the first of a lattice, each with its leading comma.
pub open spec fn json_of_dag_rest(d: Seq<Seq<(int, int, int)>>) -> Seq<char>
    decreases d.len(),
{
    if d.len() == 0 {
        Seq::<char>::empty()
    } else {
        ","@ + json_of_edges(d[0]) + json_of_dag_rest(d.drop_first())
    }
}

/// The JSON rendering of a whole lattice: one edge list for each position of
/// the text, each rendered in order.
pub open spec fn json_of_dag(d: Seq<Seq<(int, int, int)>>) -> Seq<char> {
    if d.len() == 0 {
        "[]"@
    } else {
        "["@ + json_of_edges(d[0]) + json_of_dag_rest(d.drop_first()) + "]"@
    }
}

fn push_edge(out: &mut String, e: &LatticeEdge)
    ensures
        final(out)@ == old(out)@ + json_of_edge(e@),
{
    out.append("{\"s\":");
    push_decimal(out, e.s);
    out.append(",\"e\":");
    push_decimal(out, e.e);
    out.append(",\"etype\":\"");
    out.append(kind_str(e.etype));
    out.append("\"}");
    proof {
        assert(final(out)@ =~= old(out)@ + json_of_edge(e@));
    }
}

fn push_edges_from(out: &mut String, es: &Vec<LatticeEdge>, i: usize)
    requires
        i <= es@.len(),
    ensures
        final(out)@ == old(out)@ + json_of_edges_rest(es.deep_view().skip(i as int)),
    decreases es@.len() - i,
{
    if i < es.len() {
        out.append(",");
        push_edge(out, &es[i]);
        push_edges_from(out, es, i + 1);
        proof {
            assert(es.deep_view().skip(i as int).drop_first() =~= es.deep_view().skip(
                i as int + 1,
            ));
            assert(es.deep_view().skip(i as int)[0] == es@[i as int]@);
            assert(final(out)@ =~= old(out)@ + json_of_edges_rest(es.deep_view().skip(i as int)));
        }
    } else {
        proof {
            assert(es.deep_view().skip(i as int) =~= Seq::<(int, int, int)>::empty());
            assert(final(out)@ =~= old(out)@ + json_of_edges_rest(es.deep_view().skip(i as int)));
        }
    }
}

fn push_edge_list(out: &mut String, es: &Vec<LatticeEdge>)
    ensures
        final(out)@ == old(out)@ + json_of_edges(es.deep_view()),
{
    if es.len() == 0 {
        out.append("[]");
    } else {
        out.append("[");
        push_edge(out, &es[0]);
        push_edges_from(out, es, 1);
        out.append("]");
        proof {
            assert(es.deep_view().skip(1) =~= es.deep_view().drop_first());
            assert(es.deep_view()[0] == es@[0]@);
            assert(final(out)@ =~= old(out)@ + json_of_edges(es.deep_view()));
        }
    }
}

fn push_dag_from(out: &mut String, d: &Vec<Vec<LatticeEdge>>, i: usize)
    requires
        i <= d@.len(),
    ensures
        final(out)@ == old(out)@ + json_of_dag_rest(d.deep_view().skip(i as int)),
    decreases d@.len() - i,
{
    if i < d.len() {
        out.append(",");
        push_edge_list(out, &d[i]);
        push_dag_from(out, d, i + 1);
        proof {
            assert(d.deep_view().skip(i as int).drop_first() =~= d.deep_view().skip(i as int + 1));
            assert(d.deep_view().skip(i as int)[0] == d@[i as int].deep_view());
            assert(final(out)@ =~= old(out)@ + json_of_dag_rest(d.deep_view().skip(i as int)));
        }
    } else {
        proof {
            assert(d.deep_view().skip(i as int) =~= Seq::<Seq<(int, int, int)>>::empty());
            assert(final(out)@ =~= old(out)@ + json_of_dag_rest(d.deep_view().skip(i as int)));
        }
    }
}

/// The body of a successful `/dag` answer: a JSON object whose single `dag`
/// field is the engine's lattice for the text.
pub open spec fn dag_body(w: Wordcut, t: Seq<char>) -> Seq<char> {
    "{\"dag\":"@ + json_of_dag(engine_dag(w)[t]) + "}"@
}

/// Runs the engine over the text and encodes the successful `/dag` body.
pub fn build_dag_json(w: &Wordcut, text: &str) -> (r: String)
    ensures
        r@ == dag_body(*w, text@),
{
    let d = engine::build_dag(w, text);
    let mut out = String::new();
    out.append("{\"dag\":");
    if d.len() == 0 {
        out.append("[]");
    } else {
        out.append("[");
        push_edge_list(&mut out, &d[0]);
        push_dag_from(&mut out, &d, 1);
        out.append("]");
        proof {
            assert(d.deep_view().skip(1) =~= d.deep_view().drop_first());
            assert(d.deep_view()[0] == d@[0].deep_view());
        }
    }
    out.append("}");
    proof {
        assert(out@ =~= dag_body(*w, text@));
    }
    out
}

// ---------------------------------------------------------------------------
// Handlers and the server
// ---------------------------------------------------------------------------
/// What a pipeline route answers for a request body: the successful JSON
/// body, or the error of the first failing stage.
pub open spec fn pipeline_outcome(w: Wordcut, rt: Route, body: Option<Seq<u8>>) -> Result<
    Seq<char>,
    ServerError,
> {
    match text_outcome(body) {
        Err(e) => Err(e),
        Ok(t) => Ok(
            if rt == Route::Dag {
                dag_body(w, t)
            } else {
                seg_body(w, t)
            },
        ),
    }
}

/// The response a pipeline outcome is answered with.
pub open spec fn resp_matches_outcome(r: HttpResponse, out: Result<Seq<char>, ServerError>) -> bool {
    &&& r.content_type_json
    &&& r.wf()
    &&& match out {
        Ok(b) => r.status == STATUS_OK && r.body@ == b,
        Err(e) => r.status == STATUS_INTERNAL_SERVER_ERROR && r.body@ == e.spec_body(),
    }
}

fn run_pipeline(w: &Wordcut, rt: Route, body: Option<&Vec<u8>>) -> (r: Result<String, ServerError>)
    requires
        rt != Route::NotFound,
    ensures
        match r {
            Ok(s) => pipeline_outcome(*w, rt, opt_bytes(body)) == Ok::<Seq<char>, ServerError>(s@),
            Err(e) => pipeline_outcome(*w, rt, opt_bytes(body)) == Err::<Seq<char>, ServerError>(e),
        },
        rt == Route::Wordseg ==> (text_outcome(opt_bytes(body)) matches Ok(t)
            ==> engine_segmentation(*w)[t].flatten() == t),
{
    let bytes = match body {
        None => {
            return Err(ServerError::CannotReadBody);
        },
        Some(b) => b,
    };
    let val = match read_val(bytes) {
        Err(e) => {
            return Err(e);
        },
        Ok(v) => v,
    };
    let text = match get_text(&val) {
        Err(e) => {
            return Err(e);
        },
        Ok(t) => t,
    };
    if let Route::Dag = rt {
        Ok(build_dag_json(w, text.as_str()))
    } else {
        Ok(wordseg(w, text.as_str()))
    }
}

/// Answers one `/wordseg` request, from the accumulated body bytes (`None`
/// where the transport failed) to the response.
pub fn wordseg_handler(w: &Wordcut, body: Option<&Vec<u8>>) -> (r: HttpResponse)
    ensures
        resp_matches_outcome(r, pipeline_outcome(*w, Route::Wordseg, opt_bytes(body))),
        text_outcome(opt_bytes(body)) matches Ok(t) ==> engine_segmentation(*w)[t].flatten() == t,
{
    make_resp(run_pipeline(w, Route::Wordseg, body))
}

/// Answers one `/dag` request, from the accumulated body bytes to the
/// response.
pub fn dag_handler(w: &Wordcut, body: Option<&Vec<u8>>) -> (r: HttpResponse)
    ensures
        resp_matches_outcome(r, pipeline_outcome(*w, Route::Dag, opt_bytes(body))),
{
    make_resp(run_pipeline(w, Route::Dag, body))
}

/// The request-serving half of the service: the engine handle, shared
/// read-only by every in-flight request, plus the dispatch over it.
pub struct WordcutServer {
    pub wordcut: Wordcut,
}

impl WordcutServer {
    pub fn new(wordcut: Wordcut) -> (r: WordcutServer)
        ensures
            r.wordcut == wordcut,
    {
        WordcutServer { wordcut }
    }

    /// Answers one request: dispatches on exact method and path, runs the
    /// matched pipeline over the body, and answers 404 with the fixed body
    /// for everything unmatched. The response is a function of the engine,
    /// the method, the path and the body alone, so concurrent requests
    /// cannot observe each other.
    pub fn call(&self, method: Method, path: &str, body: Option<&Vec<u8>>) -> (r: HttpResponse)
        ensures
            route_of(method, path@) != Route::NotFound ==> resp_matches_outcome(
                r,
                pipeline_outcome(self.wordcut, route_of(method, path@), opt_bytes(body)),
            ),
            route_of(method, path@) == Route::NotFound ==> r.status == STATUS_NOT_FOUND
                && r.body@ == "Not found"@ && !r.content_type_json && r.wf(),
            route_of(method, path@) == Route::Wordseg ==> (text_outcome(opt_bytes(body)) matches Ok(
                t,
            ) ==> engine_segmentation(self.wordcut)[t].flatten() == t),
    {
        match route(method, path) {
            Route::Wordseg => wordseg_handler(&self.wordcut, body),
            Route::Dag => dag_handler(&self.wordcut, body),
            Route::NotFound => not_found(),
        }
    }
}

// ---------------------------------------------------------------------------
// Laws
// ---------------------------------------------------------------------------
/// A body the transport could not read is answered with the read failure,
/// whatever the engine and the route.
pub proof fn lemma_unreadable_body(w: Wordcut, rt: Route)
    requires
        rt != Route::NotFound,
    ensures
        pipeline_outcome(w, rt, None) == Err::<Seq<char>, ServerError>(ServerError::CannotReadBody),
{
}

/// Every body that is not a JSON document is rejected as a parse failure,
/// whatever the engine and the route.
pub proof fn lemma_non_json_rejected(w: Wordcut, rt: Route, body: Seq<u8>)
    requires
        rt != Route::NotFound,
        parsed_json(body) is None,
    ensures
        pipeline_outcome(w, rt, Some(body)) == Err::<Seq<char>, ServerError>(
            ServerError::CannotParseJsonRequest,
        ),
{
}

/// Every JSON body that is not an object is rejected as such.
pub proof fn lemma_non_object_rejected(w: Wordcut, rt: Route, body: Seq<u8>)
    requires
        rt != Route::NotFound,
        parsed_json(body) matches Some(j) && !(j matches Jv::Obj(_)),
    ensures
        pipeline_outcome(w, rt, Some(body)) == Err::<Seq<char>, ServerError>(
            ServerError::CannotGetJsonObject,
        ),
{
}

/// Every JSON object without a `text` key is rejected as missing the field.
pub proof fn lemma_missing_text_rejected(w: Wordcut, rt: Route, body: Seq<u8>)
    requires
        rt != Route::NotFound,
        parsed_json(body) matches Some(j) && j matches Jv::Obj(m) && !m.contains_key("text"@),
    ensures
        pipeline_outcome(w, rt, Some(body)) == Err::<Seq<char>, ServerError>(
            ServerError::CannotGetTextAttr,
        ),
{
}

/// Every JSON object whose `text` value is not a string is rejected for the
/// field's type.
pub proof fn lemma_text_not_string_rejected(w: Wordcut, rt: Route, body: Seq<u8>)
    requires
        rt != Route::NotFound,
        parsed_json(body) matches Some(j) && j matches Jv::Obj(m) && m.contains_key("text"@) && !(
        m["text"@] matches Jv::Str(_)),
    ensures
        pipeline_outcome(w, rt, Some(body)) == Err::<Seq<char>, ServerError>(
            ServerError::TextAttrIsNotString,
        ),
{
}

/// Every JSON object carrying a string under `text` is accepted, and the
/// `/wordseg` answer for it is the words body for exactly that text.
pub proof fn lemma_valid_text_accepted(w: Wordcut, body: Seq<u8>, t: Seq<char>)
    requires
        parsed_json(body) matches Some(j) && j matches Jv::Obj(m) && m.contains_key("text"@) && m[
            "text"@
        ] == Jv::Str(t),
    ensures
        pipeline_outcome(w, Route::Wordseg, Some(body)) == Ok::<Seq<char>, ServerError>(
            seg_body(w, t),
        ),
        pipeline_outcome(w, Route::Dag, Some(body)) == Ok::<Seq<char>, ServerError>(dag_body(w, t)),
{
}

/// Every request that is not a POST to `/wordseg` or `/dag` falls to the
/// catch-all route.
pub proof fn lemma_unmatched_route(method: Method, path: Seq<char>)
    requires
        !(method == Method::Post && (path == "/wordseg"@ || path == "/dag"@)),
    ensures
        route_of(method, path) == Route::NotFound,
{
}

} // verus!


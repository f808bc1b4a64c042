//! The decisions of one request/response exchange with the backend: what to
//! do once the socket has been looked for, and what to answer the HTTP
//! client once the reply (or a failure) is in.
use vstd::prelude::*;
use crate::envelope::{EnvelopeModel, PhpResponse, interpret_reply, reply_of};
use crate::error::{BridgeError, STATUS_INTERNAL_SERVER_ERROR};
use crate::json::{distinct_keys, json_of, lemma_map_from_pairs_keys, map_from_pairs};
use crate::outgoing::{
    BodyModel, OutgoingResponse, ResponseBody, build_response, content_type_of, header_name_accepted,
    materialized, trim_of, wire_headers,
};
use crate::response::{HttpResponsePayload, decoded, header_map, parse_laravel_response, plain, text_pairs};
use crate::text::{decimal, decimal_string};

verus! {

/// The model of a response to the HTTP client.
pub ghost struct ResponseModel {
    pub status: u16,
    pub headers: Map<Seq<char>, Seq<char>>,
    pub body: BodyModel,
}

impl OutgoingResponse {
    pub open spec fn model(&self) -> ResponseModel {
        ResponseModel {
            status: self.status,
            headers: map_from_pairs(text_pairs(self.headers@)),
            body: self.body.model(),
        }
    }
}

/// The headers that go on the wire, as a map: valid names with values that
/// are not blank, trimmed.
pub open spec fn wire_map(m: Map<Seq<char>, Seq<char>>) -> Map<Seq<char>, Seq<char>> {
    Map::new(|k: Seq<char>| m.contains_key(k) && header_name_accepted(k) && trim_of(m[k]).len() > 0, |k: Seq<char>| trim_of(m[k]))
}

/// For headers with distinct names, the wire headers are the wire map.
pub proof fn lemma_wire_map(p: Seq<(Seq<char>, Seq<char>)>)
    requires
        distinct_keys(p),
    ensures
        map_from_pairs(wire_headers(p)) == wire_map(map_from_pairs(p)),
    decreases p.len(),
{
    if p.len() == 0 {
        assert(wire_map(map_from_pairs(p)) =~= Map::empty());
    } else {
        let init = p.drop_last();
        let (k, v) = p.last();
        lemma_wire_map(init);
        lemma_map_from_pairs_keys(init, k);
        assert forall|i: int| 0 <= i < init.len() implies init[i].0 != k by {
            assert(p[i].0 != p[p.len() - 1].0);
        }
        let m0 = map_from_pairs(init);
        assert(!m0.contains_key(k));
        assert(map_from_pairs(p) == m0.insert(k, v));
        if header_name_accepted(k) && trim_of(v).len() > 0 {
            assert(wire_headers(p) == wire_headers(init).push((k, trim_of(v))));
            assert(wire_headers(p).drop_last() =~= wire_headers(init));
            assert(map_from_pairs(wire_headers(p)) == map_from_pairs(wire_headers(init)).insert(k, trim_of(v)));
        } else {
            assert(wire_headers(p) == wire_headers(init));
        }
        assert(map_from_pairs(wire_headers(p)) =~= wire_map(m0.insert(k, v)));
    }
}

/// Why an exchange failed, in words.
pub open spec fn cause_text(e: BridgeError) -> Seq<char> {
    match e {
        BridgeError::BackendUnavailable => "Socket file does not exist. Laravel socket server may not be running."@,
        BridgeError::ConnectError => "Failed to connect to the backend socket"@,
        BridgeError::IoError => "Connection to the backend was interrupted"@,
        BridgeError::ProtocolError(_) => "Malformed frame from the backend"@,
        BridgeError::BackendReportedFailure(m) => m@,
        BridgeError::InvalidStatusCode(n) => "Invalid status code: "@ + decimal(n as nat),
    }
}

/// The body text of the response for a failure: 503-class failures say that
/// the service is unavailable and why; the others give their message alone.
pub open spec fn error_text(e: BridgeError) -> Seq<char> {
    if e.spec_http_status() == crate::error::STATUS_SERVICE_UNAVAILABLE {
        "Service Unavailable - Laravel backend not responding. Error: "@ + cause_text(e)
    } else {
        cause_text(e)
    }
}

/// The response for a failure.
pub open spec fn error_model(e: BridgeError) -> ResponseModel {
    ResponseModel { status: e.spec_http_status(), headers: Map::empty(), body: BodyModel::Text(error_text(e)) }
}

/// The response for a failure the backend reported with message `m`.
pub open spec fn reported_failure(m: Seq<char>) -> ResponseModel {
    ResponseModel { status: STATUS_INTERNAL_SERVER_ERROR, headers: Map::empty(), body: BodyModel::Text(m) }
}

/// The response for a canonical one; a status outside 100..=999 is a failure.
pub open spec fn canonical_response(c: (u16, Map<Seq<char>, Seq<char>>, Seq<char>)) -> ResponseModel {
    if 100 <= c.0 && c.0 < 1000 {
        ResponseModel { status: c.0, headers: wire_map(c.1), body: materialized(content_type_of(c.1), c.2) }
    } else {
        error_model(BridgeError::InvalidStatusCode(c.0))
    }
}

/// The response for a reply envelope: a failure gives its error (or a
/// generic message); a success gives its data decoded, else its error, else
/// a fixed text.
pub open spec fn envelope_response(e: EnvelopeModel) -> ResponseModel {
    if !e.success {
        reported_failure(
            match e.error {
                Some(m) => m,
                None => "Unknown error from Laravel"@,
            },
        )
    } else {
        match e.data {
            Some(d) => canonical_response(decoded(d)),
            None => match e.error {
                Some(m) => reported_failure(m),
                None => canonical_response(plain("Laravel returned empty response"@)),
            },
        }
    }
}

/// The response for the payload of a reply frame.
pub open spec fn reply_response(b: Seq<u8>) -> ResponseModel {
    match reply_of(b) {
        Err(e) => error_model(e),
        Ok(env) => envelope_response(env),
    }
}

fn cause_message(e: &BridgeError) -> (r: String)
    ensures
        r@ == cause_text(*e),
{
    match e {
        BridgeError::BackendUnavailable => "Socket file does not exist. Laravel socket server may not be running.".to_owned(),
        BridgeError::ConnectError => "Failed to connect to the backend socket".to_owned(),
        BridgeError::IoError => "Connection to the backend was interrupted".to_owned(),
        BridgeError::ProtocolError(_) => "Malformed frame from the backend".to_owned(),
        BridgeError::BackendReportedFailure(m) => m.clone(),
        BridgeError::InvalidStatusCode(n) => {
            let mut s = "Invalid status code: ".to_owned();
            let digits = decimal_string(*n as u64);
            s.append(digits.as_str());
            s
        },
    }
}

/// The response for a failure.
pub fn error_response(e: &BridgeError) -> (r: OutgoingResponse)
    ensures
        r.model() == error_model(*e),
{
    let status = e.http_status();
    let cause = cause_message(e);
    let text = if status == crate::error::STATUS_SERVICE_UNAVAILABLE {
        let mut s = "Service Unavailable - Laravel backend not responding. Error: ".to_owned();
        s.append(cause.as_str());
        s
    } else {
        cause
    };
    let r = OutgoingResponse { status, headers: Vec::new(), body: ResponseBody::Text(text), rejected_header_names: Vec::new() };
    assert(map_from_pairs(text_pairs(r.headers@)) =~= Map::empty());
    r
}

/// The canonical response a reply stands for, or the failure it reports.
pub fn outcome(p: &PhpResponse) -> (r: Result<HttpResponsePayload, BridgeError>)
    ensures
        !p.success ==> (r matches Err(BridgeError::BackendReportedFailure(m)) && m@ == match p.model().error {
            Some(m) => m,
            None => "Unknown error from Laravel"@,
        }),
        p.success && p.data is Some ==> (r matches Ok(c) && c.wf() && c.model() == decoded(
            p.model().data->0,
        )),
        p.success && p.data is None && p.error is Some ==> (r matches Err(
            BridgeError::BackendReportedFailure(m),
        ) && m@ == p.model().error->0),
        p.success && p.data is None && p.error is None ==> (r matches Ok(c) && c.wf() && c.model() == plain(
            "Laravel returned empty response"@,
        )),
{
    if !p.success {
        let m = match &p.error {
            Some(m) => m.clone(),
            None => "Unknown error from Laravel".to_owned(),
        };
        return Err(BridgeError::BackendReportedFailure(m));
    }
    match &p.data {
        Some(d) => Ok(parse_laravel_response(d)),
        None => match &p.error {
            Some(m) => Err(BridgeError::BackendReportedFailure(m.clone())),
            None => {
                let c = HttpResponsePayload {
                    status: 200,
                    headers: Vec::new(),
                    body: "Laravel returned empty response".to_owned(),
                };
                assert(header_map(c.headers@) =~= Map::empty());
                Ok(c)
            },
        },
    }
}

/// The response to the HTTP client for the outcome of an exchange.
pub fn respond(o: Result<HttpResponsePayload, BridgeError>) -> (r: OutgoingResponse)
    requires
        o matches Ok(c) ==> c.wf(),
    ensures
        match o {
            Ok(c) => r.model() == canonical_response(c.model()),
            Err(e) => r.model() == error_model(e),
        },
{
    match o {
        Ok(c) => match build_response(&c) {
            Ok(out) => {
                proof {
                    lemma_wire_map(text_pairs(c.headers@));
                    assert(out.model().headers == wire_map(c.model().1));
                    assert(out.model().body == materialized(content_type_of(c.model().1), c.model().2));
                }
                out
            },
            Err(e) => error_response(&e),
        },
        Err(e) => error_response(&e),
    }
}

/// Where an exchange goes once the backend's socket has been looked for.
pub enum Step {
    /// Take a connection from the pool and exchange frames.
    Checkout,
    /// Answer the client at once, without touching the backend.
    Respond(OutgoingResponse),
}

/// A missing socket ends the exchange with a 503-class response before any
/// connection is attempted; a present one leads to a checkout.
pub fn after_socket_check(socket_exists: bool) -> (r: Step)
    ensures
        socket_exists <==> r is Checkout,
        !socket_exists ==> (r matches Step::Respond(o) && o.model() == error_model(BridgeError::BackendUnavailable)
            && o.status == crate::error::STATUS_SERVICE_UNAVAILABLE),
{
    if socket_exists {
        Step::Checkout
    } else {
        Step::Respond(error_response(&BridgeError::BackendUnavailable))
    }
}

/// Ends an exchange: given the payload of the reply frame, or the failure
/// that stopped the exchange, says whether the connection may go back to
/// the pool (only after a complete exchange) and what to answer.
pub fn finish_exchange(reply: Result<Vec<u8>, BridgeError>) -> (r: (bool, OutgoingResponse))
    ensures
        r.0 == reply is Ok,
        match reply {
            Ok(b) => r.1.model() == reply_response(b@),
            Err(e) => r.1.model() == error_model(e),
        },
{
    match reply {
        Ok(bytes) => {
            let response = match interpret_reply(bytes.as_slice()) {
                Ok(p) => respond(outcome(&p)),
                Err(e) => error_response(&e),
            };
            (true, response)
        },
        Err(e) => (false, error_response(&e)),
    }
}

} // verus!

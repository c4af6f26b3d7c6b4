use vstd::prelude::*;
use crate::error::Error;
use ruma::api::IncomingResponse;

verus! {

/// `s` with every match of the non-empty `pat`, taken left to right without
/// overlap, replaced by `rep`.
pub open spec fn replaced(s: Seq<char>, pat: Seq<char>, rep: Seq<char>) -> Seq<char>
    decreases s.len(),
{
    if pat.len() == 0 || s.len() < pat.len() {
        s
    } else if s.subrange(0, pat.len() as int) == pat {
        rep + replaced(s.subrange(pat.len() as int, s.len() as int), pat, rep)
    } else {
        seq![s[0]] + replaced(s.drop_first(), pat, rep)
    }
}

/// Relies on str::replace, which replaces each non-overlapping match of
/// `from`, left to right, by `to`.
#[verifier::external_body]
fn replace_str(s: &str, from: &str, to: &str) -> (r: String)
    requires
        from@.len() > 0,
    ensures
        r@ == replaced(s@, from@, to@),
{
    s.replace(from, to)
}

/// The path that older gateway registrations put at the end of their URL.
pub open spec fn legacy_notify_path() -> Seq<char> {
    seq!['/', '_', 'm', 'a', 't', 'r', 'i', 'x', '/', 'p', 'u', 's', 'h', '/', 'v', '1', '/', 'n', 'o', 't', 'i', 'f', 'y']
}

/// The gateway base URL to send to: `destination` without the legacy
/// notification path.
pub fn gateway_destination(destination: &String) -> (r: String)
    ensures
        r@ == replaced(destination@, legacy_notify_path(), Seq::empty()),
{
    let path = "/_matrix/push/v1/notify";
    let none = "";
    proof {
        reveal_strlit("/_matrix/push/v1/notify");
        reveal_strlit("");
        assert(path@ =~= legacy_notify_path());
        assert(none@ =~= Seq::<char>::empty());
    }
    replace_str(destination.as_str(), path, none)
}

/// The pushkeys that the gateway rejects in a response body, `None` when the
/// body does not decode as a gateway response.
pub uninterp spec fn rejected_pushkeys_of(body: Seq<u8>) -> Option<Seq<Seq<char>>>;

/// The characters of each string.
pub open spec fn strings_view(v: Seq<String>) -> Seq<Seq<char>> {
    v.map_values(|s: String| s@)
}

/// Relies on ruma's IncomingResponse::try_from_http_response for the
/// send_event_notification response, handed the body alone, which yields
/// the rejected pushkeys.
#[verifier::external_body]
fn decode_gateway_body(body: &Vec<u8>) -> (r: Option<Vec<String>>)
    ensures
        match r {
            Some(v) => rejected_pushkeys_of(body@) == Some(strings_view(v@)),
            None => rejected_pushkeys_of(body@) is None,
        },
{
    match ruma::api::push_gateway::send_event_notification::v1::Response::try_from_http_response(
        http::Response::new(body.as_slice()),
    ) {
        Ok(resp) => Some(resp.rejected),
        Err(_) => None,
    }
}

/// The gateway's answer to a notification.
pub struct GatewayResponse {
    /// Pushkeys that the gateway no longer accepts.
    pub rejected: Vec<String>,
}

/// What a gateway reply with `status` and `body` comes to: the rejected
/// pushkeys, or an error when the body does not decode.
pub open spec fn gateway_result(status: u16, body: Seq<u8>) -> Result<Seq<Seq<char>>, Error> {
    match rejected_pushkeys_of(body) {
        Some(v) => Ok(v),
        None => Err(Error::BadGatewayResponse),
    }
}

/// Turns a decoded gateway body into the response, or into an error when it
/// did not decode.
pub fn interpret_gateway_body(decoded: Option<Vec<String>>) -> (r: Result<GatewayResponse, Error>)
    ensures
        match decoded {
            Some(v) => r matches Ok(g) && g.rejected@ == v@,
            None => r matches Err(e) && e == Error::BadGatewayResponse,
        },
{
    match decoded {
        Some(rejected) => Ok(GatewayResponse { rejected }),
        None => Err(Error::BadGatewayResponse),
    }
}

/// Reads a gateway reply. The status does not decide the outcome: a body
/// that decodes gives the response whatever the status, one that does not
/// gives an error.
pub fn read_gateway_response(status: u16, body: &Vec<u8>) -> (r: Result<GatewayResponse, Error>)
    ensures
        match gateway_result(status, body@) {
            Ok(v) => r matches Ok(g) && strings_view(g.rejected@) == v,
            Err(e) => r matches Err(f) && f == e,
        },
{
    interpret_gateway_body(decode_gateway_body(body))
}

/// A status other than success is not by itself fatal: two replies with the
/// same body come to the same outcome, whatever their statuses.
pub proof fn lemma_status_alone_not_fatal(s1: u16, s2: u16, body: Seq<u8>)
    ensures
        gateway_result(s1, body) == gateway_result(s2, body),
{
}

} // verus!

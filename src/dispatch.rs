//! What to send to a sidecar for its action, and how to read what came back.
use vstd::prelude::*;
use vstd::string::StringExecFns;
use crate::actions::{Action, ActionView, Method};
use crate::pod::names_view;

verus! {

/// One HTTP request with its headers, in order.
#[derive(Debug)]
pub struct HttpRequest {
    pub method: Method,
    pub path: String,
    pub headers: Vec<(String, String)>,
    pub body: String,
}

/// A remote call to make against the cluster for one sidecar.
#[derive(Debug)]
pub enum TransportRequest {
    /// Run `command` inside `container` of `pod`.
    Exec { pod: String, container: String, command: Vec<String>, stdout: bool, tty: bool },
    /// Open a tunnel to `port` of `pod`, then send `request` through it once.
    Portforward { pod: String, container: String, port: u16, request: HttpRequest },
}

/// The status line and body of an HTTP response.
#[derive(Debug)]
pub struct HttpReply {
    pub status: u16,
    pub body: String,
}

/// What a remote call handed back: `Err` holds a transport error's text.
#[derive(Debug)]
pub enum TransportResult {
    Exec(Result<(), String>),
    Http(Result<HttpReply, String>),
}

/// What came of one sidecar in one pass.
#[derive(Debug)]
pub enum DispatchOutcome {
    Success,
    TransportFailure(String),
    UnrecognizedSidecar,
}

pub open spec fn headers_view(h: Seq<(String, String)>) -> Seq<(Seq<char>, Seq<char>)> {
    h.map_values(|p: (String, String)| (p.0@, p.1@))
}

/// The headers sent with every control request.
pub open spec fn control_headers() -> Seq<(Seq<char>, Seq<char>)> {
    seq![("Connection"@, "close"@), ("Host"@, "127.0.0.1"@)]
}

/// `r` is the request that carries `action` for `container` of `pod`.
pub open spec fn planned(a: ActionView, pod: Seq<char>, container: Seq<char>, r: TransportRequest) -> bool {
    match (a, r) {
        (ActionView::Exec(cmd), TransportRequest::Exec { pod: p, container: c, command, stdout, tty }) =>
            p@ == pod && c@ == container && names_view(command@) == cmd && !stdout && !tty,
        (
            ActionView::Portforward(m, path, port),
            TransportRequest::Portforward { pod: p, container: c, port: q, request },
        ) => p@ == pod && c@ == container && q == port && request.method == m && request.path@
            == path && headers_view(request.headers@) == control_headers() && request.body@
            == Seq::<char>::empty(),
        _ => false,
    }
}

fn copy_strings(v: &Vec<String>) -> (r: Vec<String>)
    ensures
        names_view(r@) == names_view(v@),
{
    let mut r: Vec<String> = Vec::new();
    let mut i: usize = 0;
    while i < v.len()
        invariant
            i <= v@.len(),
            names_view(r@) == names_view(v@.subrange(0, i as int)),
        decreases v@.len() - i,
    {
        r.push(v[i].clone());
        assert(names_view(v@.subrange(0, i + 1)) =~= names_view(v@.subrange(0, i as int)).push(
            v@[i as int]@,
        ));
        assert(names_view(r@) =~= names_view(v@.subrange(0, i as int)).push(v@[i as int]@));
        i += 1;
    }
    assert(v@.subrange(0, i as int) =~= v@);
    r
}

/// The remote call that carries `action` to `container_name` in `pod_name`.
///
/// A command runs without a terminal and with its output discarded; an HTTP
/// request asks for the connection to close and has an empty body.
pub fn plan(action: &Action, pod_name: &String, container_name: &String) -> (r: TransportRequest)
    ensures
        planned(action@, pod_name@, container_name@, r),
{
    match action {
        Action::Exec(cmd) => TransportRequest::Exec {
            pod: pod_name.clone(),
            container: container_name.clone(),
            command: copy_strings(cmd),
            stdout: false,
            tty: false,
        },
        Action::Portforward(m, path, port) => {
            let headers = vec![
                (String::from_str("Connection"), String::from_str("close")),
                (String::from_str("Host"), String::from_str("127.0.0.1")),
            ];
            assert(headers_view(headers@) =~= control_headers());
            TransportRequest::Portforward {
                pod: pod_name.clone(),
                container: container_name.clone(),
                port: *port,
                request: HttpRequest {
                    method: *m,
                    path: path.clone(),
                    headers,
                    body: String::new(),
                },
            }
        },
    }
}

pub open spec fn digit_text(d: nat) -> Seq<char> {
    if d == 0 {
        "0"@
    } else if d == 1 {
        "1"@
    } else if d == 2 {
        "2"@
    } else if d == 3 {
        "3"@
    } else if d == 4 {
        "4"@
    } else if d == 5 {
        "5"@
    } else if d == 6 {
        "6"@
    } else if d == 7 {
        "7"@
    } else if d == 8 {
        "8"@
    } else {
        "9"@
    }
}

/// `n` written in decimal, without leading zeros.
pub open spec fn decimal(n: nat) -> Seq<char>
    decreases n,
{
    if n < 10 {
        digit_text(n)
    } else {
        decimal(n / 10) + digit_text(n % 10)
    }
}

fn digit(d: u16) -> (r: &'static str)
    requires
        d < 10,
    ensures
        r@ == digit_text(d as nat),
{
    match d {
        0 => "0",
        1 => "1",
        2 => "2",
        3 => "3",
        4 => "4",
        5 => "5",
        6 => "6",
        7 => "7",
        8 => "8",
        _ => "9",
    }
}

fn push_decimal(s: &mut String, n: u16)
    ensures
        final(s)@ == old(s)@ + decimal(n as nat),
    decreases n,
{
    if n >= 10 {
        push_decimal(s, n / 10);
    }
    s.append(digit(n % 10));
    assert(final(s)@ =~= old(s)@ + decimal(n as nat));
}

/// The detail recorded for an HTTP response other than success.
pub open spec fn http_failure_text(status: u16, body: Seq<char>) -> Seq<char> {
    "HTTP request failed: code "@ + decimal(status as nat) + ": "@ + body
}

/// The mathematical value of a [`DispatchOutcome`].
pub enum OutcomeView {
    Success,
    TransportFailure(Seq<char>),
    UnrecognizedSidecar,
}

impl View for DispatchOutcome {
    type V = OutcomeView;

    open spec fn view(&self) -> OutcomeView {
        match self {
            DispatchOutcome::Success => OutcomeView::Success,
            DispatchOutcome::TransportFailure(d) => OutcomeView::TransportFailure(d@),
            DispatchOutcome::UnrecognizedSidecar => OutcomeView::UnrecognizedSidecar,
        }
    }
}

/// An in-container command succeeds when the call itself went through,
/// whatever the command's own exit status.
pub open spec fn exec_outcome(result: Result<(), String>) -> OutcomeView {
    match result {
        Ok(()) => OutcomeView::Success,
        Err(e) => OutcomeView::TransportFailure(e@),
    }
}

/// An HTTP control request succeeds on status 200 alone.
pub open spec fn http_outcome(result: Result<HttpReply, String>) -> OutcomeView {
    match result {
        Ok(reply) => if reply.status == 200 {
            OutcomeView::Success
        } else {
            OutcomeView::TransportFailure(http_failure_text(reply.status, reply.body@))
        },
        Err(e) => OutcomeView::TransportFailure(e@),
    }
}

pub open spec fn transport_outcome(result: TransportResult) -> OutcomeView {
    match result {
        TransportResult::Exec(x) => exec_outcome(x),
        TransportResult::Http(x) => http_outcome(x),
    }
}

/// A command call that went through is a success whatever the command's exit
/// status; one that failed in transport is a transport failure carrying the
/// error's text.
pub proof fn exec_outcome_follows_transport(result: Result<(), String>)
    ensures
        match result {
            Ok(()) => exec_outcome(result) is Success,
            Err(e) => exec_outcome(result) == OutcomeView::TransportFailure(e@),
        },
{
}

/// Status 200 alone is a success; any other status is a transport failure
/// whose detail names the status and the body, and a tunnel or connection
/// error is a transport failure carrying the error's text.
pub proof fn http_outcome_follows_status(result: Result<HttpReply, String>)
    ensures
        match result {
            Ok(reply) => if reply.status == 200 {
                http_outcome(result) is Success
            } else {
                http_outcome(result) == OutcomeView::TransportFailure(
                    "HTTP request failed: code "@ + decimal(reply.status as nat) + ": "@
                        + reply.body@,
                )
            },
            Err(e) => http_outcome(result) == OutcomeView::TransportFailure(e@),
        },
{
}

/// The outcome of an in-container command.
pub fn classify_exec(result: Result<(), String>) -> (r: DispatchOutcome)
    ensures
        r@ == exec_outcome(result),
{
    match result {
        Ok(()) => DispatchOutcome::Success,
        Err(e) => DispatchOutcome::TransportFailure(e),
    }
}

/// The outcome of an HTTP control request.
pub fn classify_http(result: Result<HttpReply, String>) -> (r: DispatchOutcome)
    ensures
        r@ == http_outcome(result),
{
    match result {
        Ok(reply) => {
            if reply.status == 200 {
                DispatchOutcome::Success
            } else {
                let mut d = String::from_str("HTTP request failed: code ");
                push_decimal(&mut d, reply.status);
                d.append(": ");
                d.append(reply.body.as_str());
                DispatchOutcome::TransportFailure(d)
            }
        },
        Err(e) => DispatchOutcome::TransportFailure(e),
    }
}

/// The outcome of whichever remote call was made.
pub fn classify(result: TransportResult) -> (r: DispatchOutcome)
    ensures
        r@ == transport_outcome(result),
{
    match result {
        TransportResult::Exec(x) => classify_exec(x),
        TransportResult::Http(x) => classify_http(x),
    }
}

} // verus!

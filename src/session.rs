use vstd::prelude::*;
use crate::config::{credentials_spec, present, ConfigError, Credentials, load_credentials};
use crate::report::{listing_text, receipt_text, render_listing, render_receipt, RecordListing, RecordReceipt};
use crate::request::{request_of, request_spec, ArgError, Invocation, Request};

verus! {

/// Where a run of the tool stands.
#[derive(Debug, Clone, Copy, PartialEq, Eq, Structural)]
pub enum Phase {
    /// The credentials have not been read yet.
    Starting,
    /// The credentials are in hand; the command line has not been read.
    Ready,
    /// One request is out; its answer has not come back.
    Waiting,
    /// Nothing more will be done.
    Finished,
}

/// What the service answered to the one request of a run.
#[derive(Debug)]
pub enum Reply {
    Created(RecordReceipt),
    Updated(RecordReceipt),
    Listed(RecordListing),
    Failed(String),
}

/// What the outside world hands to a run.
#[derive(Debug)]
pub enum Event {
    /// The values of the credential variables, `None` for an absent one.
    Environment { key: Option<String>, secret: Option<String> },
    /// The command line, as read.
    Command(Invocation),
    /// The service's answer to the request that was sent.
    Reply(Reply),
}

/// What a run asks the outside world to do next.
#[derive(Debug)]
pub enum Action {
    /// Stop before reading the command line: a credential is missing.
    Abort(ConfigError),
    /// Build a client from these credentials, then read the command line.
    Connect(Credentials),
    /// Send this request to the service, once.
    Send(Request),
    /// Show this text on standard error and stop.
    Report(String),
    /// Show a usage error for this argument error and stop.
    Reject(ArgError),
    /// Do nothing.
    Ignore,
}

/// The message shown when the command line names no subcommand.
pub open spec fn fallback_text() -> Seq<char> {
    "invalid sub command"@
}

/// The text shown for an answer of the service.
pub open spec fn reply_text(r: Reply) -> Seq<char> {
    match r {
        Reply::Created(x) => receipt_text(x),
        Reply::Updated(x) => receipt_text(x),
        Reply::Listed(l) => listing_text(l),
        Reply::Failed(m) => m@,
    }
}

/// The state of one run: its phase and how many requests it has sent.
#[derive(Debug, Clone, Copy)]
pub struct Session {
    pub phase: Phase,
    pub calls: u64,
}

impl Session {
    /// No run sends more than one request; one is sent exactly when the run
    /// has passed the waiting phase.
    pub open spec fn wf(&self) -> bool {
        &&& self.calls <= 1
        &&& (self.phase is Starting || self.phase is Ready) ==> self.calls == 0
        &&& self.phase is Waiting ==> self.calls == 1
    }

    pub open spec fn initial() -> Session {
        Session { phase: Phase::Starting, calls: 0 }
    }

    pub fn new() -> (s: Session)
        ensures
            s == Session::initial(),
            s.wf(),
    {
        Session { phase: Phase::Starting, calls: 0 }
    }

    pub fn is_finished(&self) -> (r: bool)
        ensures
            r == (self.phase is Finished),
    {
        match self.phase {
            Phase::Finished => true,
            _ => false,
        }
    }

    /// Moves the run on by one event and says what to do.
    pub fn step(&mut self, e: Event) -> (a: Action)
        requires
            old(self).wf(),
        ensures
            final(self).wf(),
            *final(self) == next_state(*old(self), e),
            acts(*old(self), e, a),
    {
        match self.phase {
            Phase::Starting => match e {
                Event::Environment { key, secret } => match load_credentials(key, secret) {
                    Err(err) => {
                        self.phase = Phase::Finished;
                        Action::Abort(err)
                    },
                    Ok(c) => {
                        self.phase = Phase::Ready;
                        Action::Connect(c)
                    },
                },
                _ => Action::Ignore,
            },
            Phase::Ready => match e {
                Event::Command(inv) => match request_of(inv) {
                    Err(x) => {
                        self.phase = Phase::Finished;
                        Action::Reject(x)
                    },
                    Ok(None) => {
                        self.phase = Phase::Finished;
                        Action::Report(String::from_str("invalid sub command"))
                    },
                    Ok(Some(req)) => {
                        self.phase = Phase::Waiting;
                        self.calls = self.calls + 1;
                        Action::Send(req)
                    },
                },
                _ => Action::Ignore,
            },
            Phase::Waiting => match e {
                Event::Reply(r) => {
                    self.phase = Phase::Finished;
                    let text = match r {
                        Reply::Created(x) => render_receipt(&x),
                        Reply::Updated(x) => render_receipt(&x),
                        Reply::Listed(l) => render_listing(&l),
                        Reply::Failed(m) => m,
                    };
                    Action::Report(text)
                },
                _ => Action::Ignore,
            },
            Phase::Finished => Action::Ignore,
        }
    }
}

/// The state after one event.
pub open spec fn next_state(s: Session, e: Event) -> Session {
    match s.phase {
        Phase::Starting => match e {
            Event::Environment { key, secret } => match credentials_spec(key, secret) {
                Err(_) => Session { phase: Phase::Finished, ..s },
                Ok(_) => Session { phase: Phase::Ready, ..s },
            },
            _ => s,
        },
        Phase::Ready => match e {
            Event::Command(inv) => match request_spec(inv) {
                Ok(Some(_)) => Session { phase: Phase::Waiting, calls: (s.calls + 1) as u64 },
                _ => Session { phase: Phase::Finished, ..s },
            },
            _ => s,
        },
        Phase::Waiting => match e {
            Event::Reply(_) => Session { phase: Phase::Finished, ..s },
            _ => s,
        },
        Phase::Finished => s,
    }
}

/// Whether `a` is what a run in state `s` does on event `e`.
pub open spec fn acts(s: Session, e: Event, a: Action) -> bool {
    match s.phase {
        Phase::Starting => match e {
            Event::Environment { key, secret } => match credentials_spec(key, secret) {
                Err(err) => a == Action::Abort(err),
                Ok(c) => a == Action::Connect(c),
            },
            _ => a is Ignore,
        },
        Phase::Ready => match e {
            Event::Command(inv) => match request_spec(inv) {
                Err(x) => a == Action::Reject(x),
                Ok(None) => a is Report && a->Report_0@ == fallback_text(),
                Ok(Some(req)) => a == Action::Send(req),
            },
            _ => a is Ignore,
        },
        Phase::Waiting => match e {
            Event::Reply(r) => a is Report && a->Report_0@ == reply_text(r),
            _ => a is Ignore,
        },
        Phase::Finished => a is Ignore,
    }
}

/// The state after a sequence of events, taken in order.
pub open spec fn run(s: Session, es: Seq<Event>) -> Session
    decreases es.len(),
{
    if es.len() == 0 {
        s
    } else {
        run(next_state(s, es[0]), es.drop_first())
    }
}

/// A run counts every request it sends: an event adds one to `calls` exactly
/// when it sends, and it sends only while none has been sent.
pub proof fn law_requests_counted(s: Session, e: Event, a: Action)
    requires
        s.wf(),
        acts(s, e, a),
    ensures
        next_state(s, e).wf(),
        next_state(s, e).calls == s.calls + (if a is Send { 1int } else { 0int }),
        a is Send ==> s.calls == 0,
{
}

/// Whatever events come, a run from the start sends at most one request.
pub proof fn law_at_most_one_request(es: Seq<Event>)
    ensures
        run(Session::initial(), es).wf(),
        run(Session::initial(), es).calls <= 1,
{
    lemma_run_keeps_wf(Session::initial(), es);
}

proof fn lemma_run_keeps_wf(s: Session, es: Seq<Event>)
    requires
        s.wf(),
    ensures
        run(s, es).wf(),
    decreases es.len(),
{
    if es.len() > 0 {
        lemma_run_keeps_wf(next_state(s, es[0]), es.drop_first());
    }
}

/// A finished run ignores every later event and stays as it is.
pub proof fn law_finished_is_final(s: Session, e: Event, es: Seq<Event>, a: Action)
    requires
        s.phase is Finished,
    ensures
        next_state(s, e) == s,
        acts(s, e, a) ==> a is Ignore,
        run(s, es) == s,
    decreases es.len(),
{
    if es.len() > 0 {
        law_finished_is_final(s, es[0], es.drop_first(), a);
    }
}

/// Without both credentials a run stops at once: it never reads the command
/// line and never sends a request, whatever events follow.
pub proof fn law_missing_credentials_stop(key: Option<String>, secret: Option<String>, rest: Seq<Event>)
    requires
        !present(key) || !present(secret),
    ensures
        forall|a: Action|
            acts(Session::initial(), Event::Environment { key, secret }, a) ==> a is Abort,
        run(Session::initial(), seq![Event::Environment { key, secret }] + rest) == (Session {
            phase: Phase::Finished,
            calls: 0,
        }),
{
    let es = seq![Event::Environment { key, secret }] + rest;
    assert(es[0] == Event::Environment { key, secret });
    assert(es.drop_first() =~= rest);
    let s1 = next_state(Session::initial(), es[0]);
    law_finished_is_final(s1, es[0], rest, Action::Ignore);
}

/// An `add` command line that leaves out any of its four fields is rejected
/// and sends nothing.
pub proof fn law_add_needs_every_field(
    s: Session,
    domain_name: Option<String>,
    sub_domain: Option<String>,
    record_type: Option<String>,
    value: Option<String>,
)
    requires
        s.wf(),
        s.phase is Ready,
        domain_name is None || sub_domain is None || record_type is None || value is None,
    ensures
        ({
            let e = Event::Command(Invocation::Add { domain_name, sub_domain, record_type, value });
            &&& forall|a: Action| acts(s, e, a) ==> a is Reject
            &&& next_state(s, e) == (Session { phase: Phase::Finished, calls: 0 })
        }),
{
}

/// An `update` command line that leaves out any of its four fields is
/// rejected and sends nothing.
pub proof fn law_update_needs_every_field(
    s: Session,
    id: Option<String>,
    sub_domain: Option<String>,
    record_type: Option<String>,
    value: Option<String>,
)
    requires
        s.wf(),
        s.phase is Ready,
        id is None || sub_domain is None || record_type is None || value is None,
    ensures
        ({
            let e = Event::Command(Invocation::Update { id, sub_domain, record_type, value });
            &&& forall|a: Action| acts(s, e, a) ==> a is Reject
            &&& next_state(s, e) == (Session { phase: Phase::Finished, calls: 0 })
        }),
{
}

/// A complete `add` command line sends one request with exactly its four
/// fields, and the service's receipt is then shown as it came.
pub proof fn law_add_sends_and_reports(
    s: Session,
    domain_name: String,
    sub_domain: String,
    record_type: String,
    value: String,
    receipt: RecordReceipt,
)
    requires
        s.wf(),
        s.phase is Ready,
    ensures
        ({
            let e = Event::Command(
                Invocation::Add {
                    domain_name: Some(domain_name),
                    sub_domain: Some(sub_domain),
                    record_type: Some(record_type),
                    value: Some(value),
                },
            );
            let s1 = next_state(s, e);
            let r = Event::Reply(Reply::Created(receipt));
            &&& forall|a: Action|
                acts(s, e, a) ==> a == Action::Send(
                    Request::Add { domain_name, sub_domain, record_type, value },
                )
            &&& s1.calls == 1
            &&& forall|a: Action|
                acts(s1, r, a) ==> a is Report && a->Report_0@ == receipt_text(receipt)
            &&& next_state(s1, r) == (Session { phase: Phase::Finished, calls: 1 })
        }),
{
}

/// A failed request is reported with the service's message and is not sent
/// again, whatever events follow.
pub proof fn law_failure_reported_without_retry(s: Session, message: String, rest: Seq<Event>)
    requires
        s.wf(),
        s.phase is Waiting,
    ensures
        forall|a: Action|
            acts(s, Event::Reply(Reply::Failed(message)), a) ==> a is Report && a->Report_0@
                == message@,
        run(s, seq![Event::Reply(Reply::Failed(message))] + rest) == (Session {
            phase: Phase::Finished,
            calls: 1,
        }),
{
    let es = seq![Event::Reply(Reply::Failed(message))] + rest;
    assert(es[0] == Event::Reply(Reply::Failed(message)));
    assert(es.drop_first() =~= rest);
    let s1 = next_state(s, es[0]);
    law_finished_is_final(s1, es[0], rest, Action::Ignore);
}

/// A command line with no subcommand shows the fallback message and sends
/// nothing.
pub proof fn law_no_subcommand(s: Session)
    requires
        s.wf(),
        s.phase is Ready,
    ensures
        forall|a: Action|
            acts(s, Event::Command(Invocation::NoSubcommand), a) ==> a is Report
                && a->Report_0@ == fallback_text(),
        next_state(s, Event::Command(Invocation::NoSubcommand)) == (Session {
            phase: Phase::Finished,
            calls: 0,
        }),
{
}

} // verus!

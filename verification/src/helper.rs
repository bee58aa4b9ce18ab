//! The command loop of the remote helper, as a state machine.
//!
//! The helper waits for a line, answers it, and waits again. `step` says
//! what a line asks for; `Session` remembers whether the stream of commands
//! has ended. The program around it reads the lines, makes the connections
//! that a step asks for, and writes what `deliver` hands it.

use vstd::prelude::*;
use vstd::string::*;
use crate::client::{response_view, FetchError};
use crate::command::{command_of, parse_command, split_spaces, strings_view, Command, CommandView};
use crate::endpoint::{
    endpoint_with_query,
    export_query,
    export_query_of,
    Endpoint,
    LIST_QUERY,
};
use crate::framing::{FramedResponse, FramedSeq};
use crate::progress::{import_note, import_note_of};

verus! {

/// What the helper answers to `capabilities`: the one capability `import`,
/// then an empty line.
pub const CAPABILITIES_REPLY: &'static str = "import\n\n";

/// One request to the remote: the query to put to the endpoint, and whether
/// the size of the answer is reported on the diagnostic channel.
#[derive(Debug)]
pub struct Request {
    pub query: String,
    pub report: bool,
}

/// A request, with its query as a sequence of characters.
pub struct RequestView {
    pub query: Seq<char>,
    pub report: bool,
}

impl View for Request {
    type V = RequestView;

    open spec fn view(&self) -> RequestView {
        RequestView { query: self.query@, report: self.report }
    }
}

/// What a vector of requests holds.
pub open spec fn requests_view(v: Seq<Request>) -> Seq<RequestView> {
    Seq::new(v.len(), |i: int| v[i]@)
}

/// Why the helper gives up.
#[derive(Debug)]
pub enum HelperError {
    /// git sent a command that the helper does not know; its first word is
    /// kept.
    UnknownCommand(String),
}

impl HelperError {
    /// The error in words.
    pub fn message(&self) -> (text: &'static str)
        ensures
            text@ == "unknown command from git"@,
    {
        "unknown command from git"
    }
}

/// What the helper does for one line.
#[derive(Debug)]
pub enum Step {
    /// Write this text to git, then wait for the next line.
    Reply(String),
    /// Make these requests, one after the other, hand each answer to
    /// `deliver`, then wait for the next line.
    Fetch(Vec<Request>),
    /// The stream of commands has ended: leave, with success.
    Finish,
    /// Leave at once, with this error.
    Abort(HelperError),
}

/// A step, with its strings as sequences of characters. `Abort` holds the
/// word that was not understood.
pub enum StepView {
    Reply(Seq<char>),
    Fetch(Seq<RequestView>),
    Finish,
    Abort(Seq<char>),
}

impl View for Step {
    type V = StepView;

    open spec fn view(&self) -> StepView {
        match self {
            Step::Reply(text) => StepView::Reply(text@),
            Step::Fetch(requests) => StepView::Fetch(requests_view(requests@)),
            Step::Finish => StepView::Finish,
            Step::Abort(HelperError::UnknownCommand(word)) => StepView::Abort(word@),
        }
    }
}

/// The request that `list` makes.
pub open spec fn list_request() -> RequestView {
    RequestView { query: LIST_QUERY@, report: false }
}

/// The requests that `import` makes: one for each ref, in the order of
/// the refs.
pub open spec fn import_requests(refs: Seq<Seq<char>>) -> Seq<RequestView> {
    Seq::new(refs.len(), |i: int| RequestView { query: export_query_of(refs[i]), report: true })
}

/// The step that answers a command.
pub open spec fn step_for(command: CommandView) -> StepView {
    match command {
        CommandView::Capabilities => StepView::Reply(CAPABILITIES_REPLY@),
        CommandView::List => StepView::Fetch(seq![list_request()]),
        CommandView::Import(refs) => StepView::Fetch(import_requests(refs)),
        CommandView::Terminate => StepView::Finish,
        CommandView::Unrecognized(word) => StepView::Abort(word),
    }
}

/// The step that answers a line.
pub open spec fn step_of(line: Seq<char>) -> StepView {
    step_for(command_of(line))
}

/// Says what the helper does for a command.
pub fn respond(command: Command) -> (step: Step)
    ensures
        step@ == step_for(command@),
{
    match command {
        Command::Capabilities => Step::Reply(CAPABILITIES_REPLY.to_owned()),
        Command::List => {
            let mut requests: Vec<Request> = Vec::new();
            requests.push(Request { query: LIST_QUERY.to_owned(), report: false });
            assert(requests_view(requests@) =~= seq![list_request()]);
            Step::Fetch(requests)
        },
        Command::Import(refs) => {
            let mut requests: Vec<Request> = Vec::new();
            let mut i: usize = 0;
            while i < refs.len()
                invariant
                    i <= refs.len(),
                    requests@.len() == i,
                    forall|k: int|
                        0 <= k < i ==> (#[trigger] requests@[k])@ == (RequestView {
                            query: export_query_of(refs@[k]@),
                            report: true,
                        }),
                decreases refs.len() - i,
            {
                let query = export_query(refs[i].as_str());
                requests.push(Request { query, report: true });
                i = i + 1;
            }
            assert(requests_view(requests@) =~= import_requests(strings_view(refs@)));
            Step::Fetch(requests)
        },
        Command::Terminate => Step::Finish,
        Command::Unrecognized(word) => Step::Abort(HelperError::UnknownCommand(word)),
    }
}

/// Says what the helper does for a line.
pub fn step(line: &str) -> (step: Step)
    ensures
        step@ == step_of(line@),
{
    respond(parse_command(line))
}

/// The endpoint that a request with `query` is sent to, or the failure of
/// a request that cannot be built.
pub open spec fn target_of(base: Seq<char>, query: Seq<char>) -> Result<Seq<char>, FetchError> {
    match endpoint_with_query(base, query) {
        Some(target) => Ok(target),
        None => Err(FetchError::Resolve),
    }
}

/// The result of `Request::endpoint`, as a value of the model.
pub open spec fn target_view(target: Result<Endpoint, FetchError>) -> Result<
    Seq<char>,
    FetchError,
> {
    match target {
        Ok(endpoint) => Ok(endpoint@),
        Err(e) => Err(e),
    }
}

impl Request {
    /// The endpoint that this request is sent to: `base` with the request's
    /// query in the place of its own.
    ///
    /// A request that cannot be built names no server: it fails as one
    /// whose host does not resolve.
    pub fn endpoint(&self, base: &Endpoint) -> (target: Result<Endpoint, FetchError>)
        ensures
            target_view(target) == target_of(base@, self.query@),
    {
        match base.with_query(self.query.as_str()) {
            Some(target) => Ok(target),
            None => Err(FetchError::Resolve),
        }
    }
}

/// What is written for one request: bytes for git, and perhaps a note for
/// the diagnostic channel.
#[derive(Debug)]
pub struct Delivery {
    pub output: Vec<u8>,
    pub note: Option<String>,
}

/// A delivery, with its bytes and its note as sequences.
pub struct DeliveryView {
    pub output: Seq<u8>,
    pub note: Option<Seq<char>>,
}

impl View for Delivery {
    type V = DeliveryView;

    open spec fn view(&self) -> DeliveryView {
        DeliveryView {
            output: self.output@,
            note: match self.note {
                Some(text) => Some(text@),
                None => None,
            },
        }
    }
}

/// What is written for a request with this answer. A body goes to git as
/// it came; its size is noted where the request asks for that. A request
/// that failed leaves no trace.
pub open spec fn delivered(report: bool, response: Result<FramedSeq, FetchError>) -> DeliveryView {
    match response {
        Ok(f) => DeliveryView {
            output: f.body,
            note: if report {
                Some(import_note_of(f.body.len()))
            } else {
                None
            },
        },
        Err(_) => DeliveryView { output: Seq::<u8>::empty(), note: None },
    }
}

/// Says what to write for the answer to a request.
pub fn deliver(request: &Request, response: Result<FramedResponse, FetchError>) -> (delivery:
    Delivery)
    ensures
        delivery@ == delivered(request.report, response_view(response)),
{
    match response {
        Ok(f) => {
            let note = if request.report {
                Some(import_note(f.body.len()))
            } else {
                None
            };
            Delivery { output: f.body, note }
        },
        Err(_) => Delivery { output: Vec::new(), note: None },
    }
}

/// Where a session stands.
#[derive(Debug, Clone, Copy, PartialEq, Eq, Structural)]
pub enum Status {
    /// The helper waits for a command.
    Awaiting,
    /// git has ended the stream of commands.
    Finished,
    /// The helper has given up on a command that it does not know.
    Aborted,
}

/// Where a session stands once it has seen `line`. Only a waiting session
/// reads the line.
pub open spec fn status_after(status: Status, line: Seq<char>) -> Status {
    if status == Status::Awaiting {
        match step_of(line) {
            StepView::Finish => Status::Finished,
            StepView::Abort(_) => Status::Aborted,
            _ => Status::Awaiting,
        }
    } else {
        status
    }
}

/// The step that a session in `status` takes for `line`: none, unless it
/// waits for a command.
pub open spec fn step_taken(status: Status, line: Seq<char>) -> Option<StepView> {
    if status == Status::Awaiting {
        Some(step_of(line))
    } else {
        None
    }
}

/// Where a session stands once it has seen all of `lines`, in order.
pub open spec fn status_after_all(status: Status, lines: Seq<Seq<char>>) -> Status
    decreases lines.len(),
{
    if lines.len() == 0 {
        status
    } else {
        status_after(status_after_all(status, lines.drop_last()), lines.last())
    }
}

/// An optional step, as a value of the model.
pub open spec fn option_step_view(o: Option<Step>) -> Option<StepView> {
    match o {
        Some(s) => Some(s@),
        None => None,
    }
}

/// One run of the helper, from its start to the end of the commands.
#[derive(Debug)]
pub struct Session {
    status: Status,
}

impl Session {
    /// Where the session stands.
    pub closed spec fn spec_status(&self) -> Status {
        self.status
    }

    /// A session that waits for its first command.
    pub fn new() -> (session: Session)
        ensures
            session.spec_status() == Status::Awaiting,
    {
        Session { status: Status::Awaiting }
    }

    /// Where the session stands.
    #[verifier::when_used_as_spec(spec_status)]
    pub fn status(&self) -> (status: Status)
        ensures
            status == self.spec_status(),
    {
        self.status
    }

    /// Hands the session the next line from git.
    ///
    /// A waiting session answers with the step for that line, and stops
    /// waiting where the step is `Finish` or `Abort`. A session that has
    /// ended does not read the line: it answers nothing and stays as it is.
    pub fn feed(&mut self, line: &str) -> (step: Option<Step>)
        ensures
            option_step_view(step) == step_taken(old(self).spec_status(), line@),
            final(self).spec_status() == status_after(old(self).spec_status(), line@),
    {
        match self.status {
            Status::Awaiting => {
                let step = step(line);
                match &step {
                    Step::Finish => {
                        self.status = Status::Finished;
                    },
                    Step::Abort(_) => {
                        self.status = Status::Aborted;
                    },
                    _ => {},
                }
                Some(step)
            },
            _ => None,
        }
    }
}

/// The first word alone names the command: `capabilities`, whatever
/// follows it on the line, is answered with `import` and an empty line, and
/// the session goes on waiting.
pub proof fn lemma_capabilities_reply(line: Seq<char>)
    requires
        split_spaces(line)[0] == "capabilities"@,
    ensures
        step_of(line) == StepView::Reply("import\n\n"@),
        step_taken(Status::Awaiting, line) == Some(StepView::Reply("import\n\n"@)),
        status_after(Status::Awaiting, line) == Status::Awaiting,
{
}

/// The empty line ends a waiting session, with nothing to write and no
/// error.
pub proof fn lemma_empty_line_finishes()
    ensures
        step_of(Seq::<char>::empty()) == StepView::Finish,
        status_after(Status::Awaiting, Seq::<char>::empty()) == Status::Finished,
{
    crate::command::lemma_empty_line_terminates();
}

/// A first word that names no command makes a waiting session give up.
pub proof fn lemma_unknown_word_aborts(line: Seq<char>)
    requires
        split_spaces(line)[0] != "capabilities"@,
        split_spaces(line)[0] != "list"@,
        split_spaces(line)[0] != "import"@,
        split_spaces(line)[0].len() > 0,
    ensures
        step_of(line) == StepView::Abort(split_spaces(line)[0]),
        status_after(Status::Awaiting, line) == Status::Aborted,
{
}

/// A session that has ended stays ended: whatever lines follow, it takes
/// no step for any of them and stands where it stood.
pub proof fn lemma_ended_session_is_inert(status: Status, lines: Seq<Seq<char>>)
    requires
        status != Status::Awaiting,
    ensures
        status_after_all(status, lines) == status,
        forall|k: int|
            0 <= k < lines.len() ==> step_taken(
                #[trigger] status_after_all(status, lines.take(k)),
                lines[k],
            ).is_none(),
    decreases lines.len(),
{
    if lines.len() > 0 {
        lemma_ended_session_is_inert(status, lines.drop_last());
        assert forall|k: int| 0 <= k < lines.len() implies step_taken(
            #[trigger] status_after_all(status, lines.take(k)),
            lines[k],
        ).is_none() by {
            lemma_ended_session_is_inert(status, lines.take(k));
        }
    }
}

/// Once a line has ended the session, no later line is read: if the
/// session does not wait after the first `n` lines, it takes no step for
/// any line from the `n`-th on, and stands at the end where it stood then.
pub proof fn lemma_nothing_after_the_end(lines: Seq<Seq<char>>, n: int)
    requires
        0 <= n <= lines.len(),
        status_after_all(Status::Awaiting, lines.take(n)) != Status::Awaiting,
    ensures
        status_after_all(Status::Awaiting, lines) == status_after_all(
            Status::Awaiting,
            lines.take(n),
        ),
        forall|k: int|
            n <= k < lines.len() ==> step_taken(
                #[trigger] status_after_all(Status::Awaiting, lines.take(k)),
                lines[k],
            ).is_none(),
    decreases lines.len() - n,
{
    let ended = status_after_all(Status::Awaiting, lines.take(n));
    assert forall|k: int| n <= k <= lines.len() implies status_after_all(
        Status::Awaiting,
        lines.take(k),
    ) == ended by {
        lemma_status_stays(lines, n, k);
    }
    assert(lines.take(lines.len() as int) =~= lines);
}

proof fn lemma_status_stays(lines: Seq<Seq<char>>, n: int, k: int)
    requires
        0 <= n <= k <= lines.len(),
        status_after_all(Status::Awaiting, lines.take(n)) != Status::Awaiting,
    ensures
        status_after_all(Status::Awaiting, lines.take(k)) == status_after_all(
            Status::Awaiting,
            lines.take(n),
        ),
    decreases k - n,
{
    if k > n {
        lemma_status_stays(lines, n, k - 1);
        assert(lines.take(k).drop_last() =~= lines.take(k - 1));
    }
}

} // verus!

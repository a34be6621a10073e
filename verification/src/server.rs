//! The one-shot listener that receives the identity provider's redirect.
//!
//! The library does not open the port. It says which step is due, and moves on
//! with what the step gave; the steps themselves are the caller's.

use vstd::prelude::*;
use vstd::string::StringExecFns;

verus! {

/// The address on which the listener is bound: this machine only.
pub const LISTEN_ADDRESS: &'static str = "127.0.0.1";

/// The local port that the identity provider redirects to.
pub const REDIRECT_PORT: u16 = 8080;

/// What stands before the request's path and query to make it a full URL.
pub const CALLBACK_BASE: &'static str = "http://localhost";

/// The status of the page that answers the callback.
pub const CONFIRMATION_STATUS: u16 = 200;

/// The page that answers the callback.
pub const CONFIRMATION_PAGE: &'static str =
    "\n                <html>\n                    <head>\n                        <title>ログイン完了</title>\n                        <style>\n                            body { font-family: sans-serif; text-align: center; margin-top: 50px; }\n                            h1 { color: #4CAF50; }\n                        </style>\n                    </head>\n                    <body>\n                        <h1>ログインが完了しました</h1>\n                        <p>このウィンドウを閉じてください。</p>\n                    </body>\n                </html>\n            ";

/// A parsed URL. Only `url` looks inside one.
#[verifier::external_type_specification]
#[verifier::external_body]
pub struct ExUrl(url::Url);

/// What `url` reports for text that is no absolute URL.
#[verifier::external_type_specification]
#[verifier::external_body]
pub struct ExUrlParseError(url::ParseError);

/// The name and value pairs of the query of `u`, decoded, in order.
pub uninterp spec fn url_query_pairs(u: url::Url) -> Seq<(Seq<char>, Seq<char>)>;

/// The decoded pairs of the query of the URL that `input` is; `None` where `url`
/// rejects `input`.
pub uninterp spec fn query_of_text(input: Seq<char>) -> Option<Seq<(Seq<char>, Seq<char>)>>;

/// `url::Url::parse`: the URL that `input` is, or the error where it is no
/// absolute URL. Which of the two, and what the URL's query holds, depends on
/// `input` alone.
#[verifier::external_body]
fn parse_url(input: &str) -> (r: Result<url::Url, url::ParseError>)
    ensures
        match r {
            Ok(u) => query_of_text(input@) == Some(url_query_pairs(u)),
            Err(_) => query_of_text(input@) is None,
        },
{
    url::Url::parse(input)
}

/// `url::Url::query_pairs`: the pairs of the query, each name and value as an
/// owned string, in the order of the query.
#[verifier::external_body]
fn query_pairs(u: &url::Url) -> (r: Vec<(String, String)>)
    ensures
        pairs_view(r@) == url_query_pairs(*u),
{
    u.query_pairs().into_owned().collect()
}

/// A list of pairs with its strings as sequences.
pub open spec fn pairs_view(pairs: Seq<(String, String)>) -> Seq<(Seq<char>, Seq<char>)> {
    Seq::new(pairs.len(), |i: int| (pairs[i].0@, pairs[i].1@))
}

/// The value of the first pair named `code`.
pub open spec fn first_code(pairs: Seq<(Seq<char>, Seq<char>)>) -> Option<Seq<char>>
    decreases pairs.len(),
{
    if pairs.len() == 0 {
        None
    } else if pairs[0].0 == "code"@ {
        Some(pairs[0].1)
    } else {
        first_code(pairs.drop_first())
    }
}

/// How one attempt to receive the callback ends.
#[derive(Debug, Clone, PartialEq, Eq)]
pub enum LoopbackOutcome {
    /// The callback carried this authorization code.
    Code(String),
    /// The port is held by another listener; no server was started.
    PortInUse,
    /// The port was free but the server did not start.
    ServerStartFailed,
    /// The callback's address could not be read as a URL.
    CallbackUrlUnparseable,
    /// The callback carried no `code` parameter.
    CodeMissingInCallback,
    /// No request could be received.
    ReceiveFailed,
}

/// A [`LoopbackOutcome`] with its string as a sequence.
pub enum LoopbackOutcomeView {
    Code(Seq<char>),
    PortInUse,
    ServerStartFailed,
    CallbackUrlUnparseable,
    CodeMissingInCallback,
    ReceiveFailed,
}

impl View for LoopbackOutcome {
    type V = LoopbackOutcomeView;

    open spec fn view(&self) -> LoopbackOutcomeView {
        match *self {
            LoopbackOutcome::Code(code) => LoopbackOutcomeView::Code(code@),
            LoopbackOutcome::PortInUse => LoopbackOutcomeView::PortInUse,
            LoopbackOutcome::ServerStartFailed => LoopbackOutcomeView::ServerStartFailed,
            LoopbackOutcome::CallbackUrlUnparseable => LoopbackOutcomeView::CallbackUrlUnparseable,
            LoopbackOutcome::CodeMissingInCallback => LoopbackOutcomeView::CodeMissingInCallback,
            LoopbackOutcome::ReceiveFailed => LoopbackOutcomeView::ReceiveFailed,
        }
    }
}

/// The outcome that the query of a callback gives; `None` is a callback whose
/// address is no URL.
pub open spec fn outcome_of_query(
    query: Option<Seq<(Seq<char>, Seq<char>)>>,
) -> LoopbackOutcomeView {
    match query {
        None => LoopbackOutcomeView::CallbackUrlUnparseable,
        Some(pairs) => match first_code(pairs) {
            Some(code) => LoopbackOutcomeView::Code(code),
            None => LoopbackOutcomeView::CodeMissingInCallback,
        },
    }
}

/// The outcome that a callback for `target` gives, `target` being the path and
/// query of the request.
pub open spec fn outcome_of_target(target: Seq<char>) -> LoopbackOutcomeView {
    outcome_of_query(query_of_text(CALLBACK_BASE@ + target))
}

/// A list of pairs that may be missing, with its strings as sequences.
pub open spec fn query_view(query: Option<Vec<(String, String)>>) -> Option<
    Seq<(Seq<char>, Seq<char>)>,
> {
    match query {
        Some(pairs) => Some(pairs_view(pairs@)),
        None => None,
    }
}

/// Picks the authorization code out of the pairs of a query.
pub fn code_in(pairs: &Vec<(String, String)>) -> (r: Option<String>)
    ensures
        match r {
            Some(code) => first_code(pairs_view(pairs@)) == Some(code@),
            None => first_code(pairs_view(pairs@)) is None,
        },
{
    let name = String::from_str("code");
    let ghost all = pairs_view(pairs@);
    assert(all.skip(0) == all);
    let mut i: usize = 0;
    while i < pairs.len()
        invariant
            0 <= i <= pairs@.len(),
            name@ == "code"@,
            all == pairs_view(pairs@),
            first_code(all) == first_code(all.skip(i as int)),
        decreases pairs@.len() - i,
    {
        assert(all.skip(i as int)[0] == (pairs@[i as int].0@, pairs@[i as int].1@));
        if pairs[i].0 == name {
            return Some(pairs[i].1.clone());
        }
        assert(all.skip(i as int).drop_first() == all.skip(i + 1));
        i += 1;
    }
    None
}

/// Decides the outcome from the query of a callback; `None` is a callback whose
/// address is no URL.
pub fn outcome_from_query(query: &Option<Vec<(String, String)>>) -> (r: LoopbackOutcome)
    ensures
        r@ == outcome_of_query(query_view(*query)),
{
    match query {
        None => LoopbackOutcome::CallbackUrlUnparseable,
        Some(pairs) => match code_in(pairs) {
            Some(code) => LoopbackOutcome::Code(code),
            None => LoopbackOutcome::CodeMissingInCallback,
        },
    }
}

/// Whether `text` is an absolute URL.
pub fn is_absolute_url(text: &str) -> (r: bool)
    ensures
        r == (query_of_text(text@) is Some),
{
    parse_url(text).is_ok()
}

/// The full URL of a callback for `target`.
pub fn callback_url(target: &str) -> (r: String)
    ensures
        r@ == CALLBACK_BASE@ + target@,
{
    let mut url = String::from_str(CALLBACK_BASE);
    url.append(target);
    url
}

/// Reads the query of a callback for `target`; `None` where its address is no
/// URL.
pub fn callback_query(target: &str) -> (r: Option<Vec<(String, String)>>)
    ensures
        query_view(r) == query_of_text(CALLBACK_BASE@ + target@),
{
    let url = callback_url(target);
    match parse_url(url.as_str()) {
        Ok(parsed) => Some(query_pairs(&parsed)),
        Err(_) => None,
    }
}

/// Decides the outcome of a callback for `target`, the path and query of the
/// request that arrived.
pub fn outcome_of_callback(target: &str) -> (r: LoopbackOutcome)
    ensures
        r@ == outcome_of_target(target@),
{
    let query = callback_query(target);
    outcome_from_query(&query)
}

/// One attempt to receive the callback: probe the port, start the server,
/// receive one request, answer it, close the server. Each attempt ends with
/// exactly one [`LoopbackOutcome`].
#[derive(Debug, Clone, PartialEq, Eq)]
pub enum Listener {
    /// The port is to be probed: bound and released at once.
    Probing,
    /// The port was free and the server is to be started on it.
    Starting,
    /// The server runs and waits for the one request.
    Receiving,
    /// A request arrived, the outcome is decided, and the page is to be sent.
    Responding(LoopbackOutcome),
    /// The server is to be closed.
    Closing(LoopbackOutcome),
    /// The attempt has ended.
    Finished(LoopbackOutcome),
}

/// A [`Listener`] with its string as a sequence.
pub enum ListenerView {
    Probing,
    Starting,
    Receiving,
    Responding(LoopbackOutcomeView),
    Closing(LoopbackOutcomeView),
    Finished(LoopbackOutcomeView),
}

impl View for Listener {
    type V = ListenerView;

    open spec fn view(&self) -> ListenerView {
        match *self {
            Listener::Probing => ListenerView::Probing,
            Listener::Starting => ListenerView::Starting,
            Listener::Receiving => ListenerView::Receiving,
            Listener::Responding(outcome) => ListenerView::Responding(outcome@),
            Listener::Closing(outcome) => ListenerView::Closing(outcome@),
            Listener::Finished(outcome) => ListenerView::Finished(outcome@),
        }
    }
}

/// What the caller is to do next for a [`Listener`].
#[derive(Debug, Clone, Copy, PartialEq, Eq, Structural)]
pub enum ListenerStep {
    /// Bind `port` on [`LISTEN_ADDRESS`] and release it at once.
    ProbePort { port: u16 },
    /// Start the HTTP server on `port` of [`LISTEN_ADDRESS`].
    StartServer { port: u16 },
    /// Wait for one request.
    ReceiveRequest,
    /// Answer the request with [`CONFIRMATION_PAGE`] and [`CONFIRMATION_STATUS`].
    SendPage,
    /// Shut the server down, which releases the port.
    CloseServer,
}

/// What a step gave.
#[derive(Debug, Clone, PartialEq, Eq)]
pub enum ListenerEvent {
    /// The probe ran; `free` where the port could be bound.
    PortProbed { free: bool },
    /// The start ran; `started` where the server now listens.
    ServerStarted { started: bool },
    /// The wait ended: with the path and query of a request, or with none where
    /// receiving failed.
    RequestReceived { target: Option<String> },
    /// The page was sent, or could not be.
    PageSent { sent: bool },
    /// The server is shut down.
    ServerClosed,
}

/// A [`ListenerEvent`] with its string as a sequence.
pub enum ListenerEventView {
    PortProbed { free: bool },
    ServerStarted { started: bool },
    RequestReceived { target: Option<Seq<char>> },
    PageSent { sent: bool },
    ServerClosed,
}

impl View for ListenerEvent {
    type V = ListenerEventView;

    open spec fn view(&self) -> ListenerEventView {
        match *self {
            ListenerEvent::PortProbed { free } => ListenerEventView::PortProbed { free },
            ListenerEvent::ServerStarted { started } => ListenerEventView::ServerStarted {
                started,
            },
            ListenerEvent::RequestReceived { target } => ListenerEventView::RequestReceived {
                target: match target {
                    Some(t) => Some(t@),
                    None => None,
                },
            },
            ListenerEvent::PageSent { sent } => ListenerEventView::PageSent { sent },
            ListenerEvent::ServerClosed => ListenerEventView::ServerClosed,
        }
    }
}

impl ListenerView {
    /// The step that is due in this state; none once the attempt has ended.
    pub open spec fn due(self, port: u16) -> Option<ListenerStep> {
        match self {
            ListenerView::Probing => Some(ListenerStep::ProbePort { port }),
            ListenerView::Starting => Some(ListenerStep::StartServer { port }),
            ListenerView::Receiving => Some(ListenerStep::ReceiveRequest),
            ListenerView::Responding(_) => Some(ListenerStep::SendPage),
            ListenerView::Closing(_) => Some(ListenerStep::CloseServer),
            ListenerView::Finished(_) => None,
        }
    }

    /// The state after `event`. An event that does not belong to the step that
    /// was due changes nothing.
    ///
    /// A port that is not free ends the attempt before any server is started. The
    /// outcome of a request is decided when it arrives; whether the page could
    /// then be sent does not change it.
    pub open spec fn after(self, event: ListenerEventView) -> ListenerView {
        match (self, event) {
            (ListenerView::Probing, ListenerEventView::PortProbed { free }) => if free {
                ListenerView::Starting
            } else {
                ListenerView::Finished(LoopbackOutcomeView::PortInUse)
            },
            (ListenerView::Starting, ListenerEventView::ServerStarted { started }) => if started {
                ListenerView::Receiving
            } else {
                ListenerView::Finished(LoopbackOutcomeView::ServerStartFailed)
            },
            (ListenerView::Receiving, ListenerEventView::RequestReceived { target }) =>
                match target {
                    Some(t) => ListenerView::Responding(outcome_of_target(t)),
                    None => ListenerView::Closing(LoopbackOutcomeView::ReceiveFailed),
                },
            (ListenerView::Responding(outcome), ListenerEventView::PageSent { .. }) =>
                ListenerView::Closing(outcome),
            (ListenerView::Closing(outcome), ListenerEventView::ServerClosed) =>
                ListenerView::Finished(outcome),
            _ => self,
        }
    }

    /// Whether the server runs in this state and holds the port.
    pub open spec fn holds_port(self) -> bool {
        self is Receiving || self is Responding || self is Closing
    }

    /// The outcome, once the attempt has ended.
    pub open spec fn outcome(self) -> Option<LoopbackOutcomeView> {
        match self {
            ListenerView::Finished(outcome) => Some(outcome),
            _ => None,
        }
    }
}

/// An outcome that may be missing, with its string as a sequence.
pub open spec fn outcome_view(outcome: Option<LoopbackOutcome>) -> Option<LoopbackOutcomeView> {
    match outcome {
        Some(o) => Some(o@),
        None => None,
    }
}

impl Listener {
    /// An attempt that has not begun.
    pub fn start() -> (r: Listener)
        ensures
            r@ == ListenerView::Probing,
    {
        Listener::Probing
    }

    /// The step to take next, for a listener on `port`.
    pub fn step(&self, port: u16) -> (r: Option<ListenerStep>)
        ensures
            r == self@.due(port),
    {
        match self {
            Listener::Probing => Some(ListenerStep::ProbePort { port }),
            Listener::Starting => Some(ListenerStep::StartServer { port }),
            Listener::Receiving => Some(ListenerStep::ReceiveRequest),
            Listener::Responding(_) => Some(ListenerStep::SendPage),
            Listener::Closing(_) => Some(ListenerStep::CloseServer),
            Listener::Finished(_) => None,
        }
    }

    /// Moves on with what the step gave.
    pub fn on_event(self, event: ListenerEvent) -> (r: Listener)
        ensures
            r@ == self@.after(event@),
    {
        match (self, event) {
            (Listener::Probing, ListenerEvent::PortProbed { free }) => if free {
                Listener::Starting
            } else {
                Listener::Finished(LoopbackOutcome::PortInUse)
            },
            (Listener::Starting, ListenerEvent::ServerStarted { started }) => if started {
                Listener::Receiving
            } else {
                Listener::Finished(LoopbackOutcome::ServerStartFailed)
            },
            (Listener::Receiving, ListenerEvent::RequestReceived { target }) => match target {
                Some(t) => Listener::Responding(outcome_of_callback(t.as_str())),
                None => Listener::Closing(LoopbackOutcome::ReceiveFailed),
            },
            (Listener::Responding(outcome), ListenerEvent::PageSent { .. }) => Listener::Closing(
                outcome,
            ),
            (Listener::Closing(outcome), ListenerEvent::ServerClosed) => Listener::Finished(
                outcome,
            ),
            (state, _) => state,
        }
    }

    /// The outcome of the attempt, once it has ended.
    pub fn outcome(self) -> (r: Option<LoopbackOutcome>)
        ensures
            outcome_view(r) == self@.outcome(),
    {
        match self {
            Listener::Finished(outcome) => Some(outcome),
            _ => None,
        }
    }
}

/// A port that is held by another listener ends the attempt at the first step:
/// the only step taken is the probe, and no server is started.
pub proof fn lemma_busy_port_ends_at_once(port: u16)
    ensures
        ListenerView::Probing.due(port) == Some(ListenerStep::ProbePort { port }),
        ListenerView::Probing.after(ListenerEventView::PortProbed { free: false })
            == ListenerView::Finished(LoopbackOutcomeView::PortInUse),
        ListenerView::Probing.after(ListenerEventView::PortProbed { free: false }).due(port)
            is None,
{
}

/// A server that runs is closed before the attempt ends: from a state that
/// holds the port, the only way to the end is the closing of the server.
pub proof fn lemma_port_is_released_before_the_end(state: ListenerView, event: ListenerEventView)
    requires
        state.holds_port(),
        state.after(event) is Finished,
    ensures
        state is Closing,
        event is ServerClosed,
        !state.after(event).holds_port(),
{
}

/// A request that arrived decides the outcome. What follows is the page and the
/// closing of the server, and nothing else; whether the page could be sent does
/// not matter.
pub proof fn lemma_request_decides_the_outcome(target: Seq<char>, sent: bool, port: u16)
    ensures
        ({
            let received = ListenerView::Receiving.after(
                ListenerEventView::RequestReceived { target: Some(target) },
            );
            let answered = received.after(ListenerEventView::PageSent { sent });
            let closed = answered.after(ListenerEventView::ServerClosed);
            &&& received.due(port) == Some(ListenerStep::SendPage)
            &&& answered.due(port) == Some(ListenerStep::CloseServer)
            &&& closed.due(port) is None
            &&& closed.outcome() == Some(outcome_of_target(target))
        }),
{
}

/// A callback without a `code` parameter gives `CodeMissingInCallback`, and one
/// whose address is no URL gives `CallbackUrlUnparseable`; any other gives the
/// code.
pub proof fn lemma_outcome_of_target(target: Seq<char>)
    ensures
        query_of_text(CALLBACK_BASE@ + target) is None ==> outcome_of_target(target)
            == LoopbackOutcomeView::CallbackUrlUnparseable,
        forall|pairs: Seq<(Seq<char>, Seq<char>)>|
            query_of_text(CALLBACK_BASE@ + target) == Some(pairs) && first_code(pairs) is None
                ==> outcome_of_target(target) == LoopbackOutcomeView::CodeMissingInCallback,
        forall|pairs: Seq<(Seq<char>, Seq<char>)>, code: Seq<char>|
            query_of_text(CALLBACK_BASE@ + target) == Some(pairs) && first_code(pairs) == Some(code)
                ==> outcome_of_target(target) == LoopbackOutcomeView::Code(code),
{
}

/// An attempt that has ended stays as it is, and asks for no further step: it
/// has one outcome.
pub proof fn lemma_finished_listener_stays(
    outcome: LoopbackOutcomeView,
    event: ListenerEventView,
    port: u16,
)
    ensures
        ListenerView::Finished(outcome).after(event) == ListenerView::Finished(outcome),
        ListenerView::Finished(outcome).due(port) is None,
{
}

/// The value of the first pair named `code` is the value at the first position
/// that holds the name.
pub proof fn lemma_first_code_position(pairs: Seq<(Seq<char>, Seq<char>)>)
    ensures
        match first_code(pairs) {
            Some(code) => exists|i: int|
                0 <= i < pairs.len() && pairs[i].0 == "code"@ && pairs[i].1 == code && forall|
                    j: int,
                | 0 <= j < i ==> pairs[j].0 != "code"@,
            None => forall|i: int| 0 <= i < pairs.len() ==> pairs[i].0 != "code"@,
        },
    decreases pairs.len(),
{
    if pairs.len() > 0 && pairs[0].0 != "code"@ {
        let rest = pairs.drop_first();
        lemma_first_code_position(rest);
        match first_code(rest) {
            Some(code) => {
                let i = choose|i: int|
                    0 <= i < rest.len() && rest[i].0 == "code"@ && rest[i].1 == code && forall|
                        j: int,
                    | 0 <= j < i ==> rest[j].0 != "code"@;
                assert(pairs[i + 1] == rest[i]);
                assert forall|j: int| 0 <= j < i + 1 implies pairs[j].0 != "code"@ by {
                    if j > 0 {
                        assert(pairs[j] == rest[j - 1]);
                    }
                }
            },
            None => {
                assert forall|i: int| 0 <= i < pairs.len() implies pairs[i].0 != "code"@ by {
                    if i > 0 {
                        assert(pairs[i] == rest[i - 1]);
                    }
                }
            },
        }
    } else if pairs.len() > 0 {
        assert(pairs[0].0 == "code"@ && pairs[0].1 == first_code(pairs)->0);
    }
}

/// One step of the attempt to receive the callback: takes what the last step
/// gave, and says where the attempt stands and which step is due on `port`.
pub fn wait_for_redirect_code(listener: Listener, event: ListenerEvent, port: u16) -> (r: (
    Listener,
    Option<ListenerStep>,
))
    ensures
        r.0@ == listener@.after(event@),
        r.1 == r.0@.due(port),
{
    let next = listener.on_event(event);
    let due = next.step(port);
    (next, due)
}

impl ListenerEventView {
    /// Whether this event is what carrying out `step` gives.
    pub open spec fn answers(self, step: ListenerStep) -> bool {
        match (step, self) {
            (ListenerStep::ProbePort { .. }, ListenerEventView::PortProbed { .. }) => true,
            (ListenerStep::StartServer { .. }, ListenerEventView::ServerStarted { .. }) => true,
            (ListenerStep::ReceiveRequest, ListenerEventView::RequestReceived { .. }) => true,
            (ListenerStep::SendPage, ListenerEventView::PageSent { .. }) => true,
            (ListenerStep::CloseServer, ListenerEventView::ServerClosed) => true,
            _ => false,
        }
    }
}

impl ListenerView {
    /// The most steps that the attempt can still take.
    pub open spec fn steps_left(self) -> nat {
        match self {
            ListenerView::Probing => 5,
            ListenerView::Starting => 4,
            ListenerView::Receiving => 3,
            ListenerView::Responding(_) => 2,
            ListenerView::Closing(_) => 1,
            ListenerView::Finished(_) => 0,
        }
    }
}

/// Every step that is carried out brings the attempt nearer its end, so an
/// attempt takes five steps at most; and it has an outcome exactly when no step
/// is left.
pub proof fn lemma_listener_moves_to_its_end(
    state: ListenerView,
    event: ListenerEventView,
    port: u16,
)
    ensures
        state.due(port) is Some && event.answers(state.due(port)->0) ==> state.after(
            event,
        ).steps_left() < state.steps_left(),
        state.due(port) is None <==> state.steps_left() == 0,
        state.outcome() is Some <==> state.steps_left() == 0,
{
}

/// An attempt on a free port that receives a callback with a `code` parameter
/// ends with that code: the value of the first such parameter.
pub proof fn lemma_callback_with_a_code_ends_with_it(
    target: Seq<char>,
    pairs: Seq<(Seq<char>, Seq<char>)>,
    code: Seq<char>,
    sent: bool,
)
    requires
        query_of_text(CALLBACK_BASE@ + target) == Some(pairs),
        first_code(pairs) == Some(code),
    ensures
        ListenerView::Probing.after(ListenerEventView::PortProbed { free: true }).after(
            ListenerEventView::ServerStarted { started: true },
        ).after(ListenerEventView::RequestReceived { target: Some(target) }).after(
            ListenerEventView::PageSent { sent },
        ).after(ListenerEventView::ServerClosed) == ListenerView::Finished(
            LoopbackOutcomeView::Code(code),
        ),
{
}

} // verus!

//! What happens when the application starts: resume the session if there is
//! one, then find or create the spreadsheet.

use crate::auth::{
    get_user_email, get_user_email_request, identity_in, login_with_saved_token, SavedTokenView,
    StoredCredential, StoredCredentialView, USERINFO_URL,
};
use crate::commands::is_logged_in;
use crate::error::ErrorKind;
use crate::http::{HttpReply, RemoteCall, RemoteCallView};
use crate::sheet::{FindOrCreateBook, FindOrCreateBookView};
use crate::time::Timestamp;
use vstd::prelude::*;

verus! {

/// One start of the application.
#[derive(Debug, Clone, PartialEq, Eq)]
pub enum InitApp {
    /// The credential file is to be looked at.
    CheckingCredential,
    /// The session is resumed and its account is to be looked up.
    Identifying { access_token: String },
    /// The account is known and the spreadsheet is being found or created.
    Resolving { access_token: String, email: String, book: FindOrCreateBook },
    /// No account is signed in: the sign-in screen is to be shown.
    FirstLaunch,
    /// The session is resumed and the spreadsheet is known.
    Ready { email: String, spreadsheet_id: String },
    /// The start has failed.
    Failed(ErrorKind),
}

/// An [`InitApp`] with its strings as sequences.
pub enum InitAppView {
    CheckingCredential,
    Identifying { access_token: Seq<char> },
    Resolving { access_token: Seq<char>, email: Seq<char>, book: FindOrCreateBookView },
    FirstLaunch,
    Ready { email: Seq<char>, spreadsheet_id: Seq<char> },
    Failed(ErrorKind),
}

impl View for InitApp {
    type V = InitAppView;

    open spec fn view(&self) -> InitAppView {
        match *self {
            InitApp::CheckingCredential => InitAppView::CheckingCredential,
            InitApp::Identifying { access_token } => InitAppView::Identifying {
                access_token: access_token@,
            },
            InitApp::Resolving { access_token, email, book } => InitAppView::Resolving {
                access_token: access_token@,
                email: email@,
                book: book@,
            },
            InitApp::FirstLaunch => InitAppView::FirstLaunch,
            InitApp::Ready { email, spreadsheet_id } => InitAppView::Ready {
                email: email@,
                spreadsheet_id: spreadsheet_id@,
            },
            InitApp::Failed(e) => InitAppView::Failed(e),
        }
    }
}

/// What the caller is to do next for an [`InitApp`].
#[derive(Debug, Clone, PartialEq, Eq)]
pub enum InitStep {
    /// Look at the credential file and read the clock.
    ReadCredential,
    /// Send `call` with `access_token` as bearer authorization.
    Send { access_token: String, call: RemoteCall },
}

/// An [`InitStep`] with its strings as sequences.
pub enum InitStepView {
    ReadCredential,
    Send { access_token: Seq<char>, call: RemoteCallView },
}

impl View for InitStep {
    type V = InitStepView;

    open spec fn view(&self) -> InitStepView {
        match *self {
            InitStep::ReadCredential => InitStepView::ReadCredential,
            InitStep::Send { access_token, call } => InitStepView::Send {
                access_token: access_token@,
                call: call@,
            },
        }
    }
}

/// What a step of an [`InitApp`] gave.
#[derive(Debug, Clone, PartialEq, Eq)]
pub enum InitEvent {
    /// The credential file holds `stored`, and the clock read `now`.
    Credential { stored: StoredCredential, now: Timestamp },
    /// The request ended with `reply`; `None` where no reply arrived.
    Reply(Option<HttpReply>),
}

/// An [`InitEvent`] with its strings as sequences.
pub enum InitEventView {
    Credential { stored: StoredCredentialView, now: Timestamp },
    Reply(Option<HttpReply>),
}

impl View for InitEvent {
    type V = InitEventView;

    open spec fn view(&self) -> InitEventView {
        match *self {
            InitEvent::Credential { stored, now } => InitEventView::Credential {
                stored: stored@,
                now,
            },
            InitEvent::Reply(reply) => InitEventView::Reply(reply),
        }
    }
}

/// Where the start stands once the attempt to find or create the spreadsheet
/// has moved on to `book`.
pub open spec fn resolved(
    access_token: Seq<char>,
    email: Seq<char>,
    book: FindOrCreateBookView,
) -> InitAppView {
    match book {
        FindOrCreateBookView::Done(spreadsheet_id) => InitAppView::Ready { email, spreadsheet_id },
        FindOrCreateBookView::Failed(e) => InitAppView::Failed(e),
        _ => InitAppView::Resolving { access_token, email, book },
    }
}

impl InitAppView {
    /// The step that is due in this state; none once the start has ended.
    pub open spec fn due(self) -> Option<InitStepView> {
        match self {
            InitAppView::CheckingCredential => Some(InitStepView::ReadCredential),
            InitAppView::Identifying { access_token } => Some(
                InitStepView::Send {
                    access_token,
                    call: RemoteCallView::Get { url: USERINFO_URL@ },
                },
            ),
            InitAppView::Resolving { access_token, book, .. } => match book.due() {
                Some(call) => Some(InitStepView::Send { access_token, call }),
                None => None,
            },
            _ => None,
        }
    }

    /// The state after `event`. An event that does not belong to the step that
    /// was due changes nothing.
    ///
    /// Without a credential file nothing is resumed and nothing is sent. With
    /// one, the stored credential is used if the clock is before its expiry; the
    /// identity provider is asked for the account, never for a new token.
    pub open spec fn after(self, event: InitEventView) -> InitAppView {
        match (self, event) {
            (InitAppView::CheckingCredential, InitEventView::Credential { stored, now }) =>
                if !stored.present() {
                    InitAppView::FirstLaunch
                } else {
                    match stored.access_token_at(now) {
                        Ok(access_token) => InitAppView::Identifying { access_token },
                        Err(e) => InitAppView::Failed(e),
                    }
                },
            (InitAppView::Identifying { access_token }, InitEventView::Reply(reply)) =>
                match identity_in(reply) {
                    Ok(email) => InitAppView::Resolving {
                        access_token,
                        email,
                        book: FindOrCreateBookView::Lookup,
                    },
                    Err(e) => InitAppView::Failed(e),
                },
            (InitAppView::Resolving { access_token, email, book }, InitEventView::Reply(reply)) =>
                resolved(access_token, email, book.after(reply)),
            _ => self,
        }
    }

    /// Whether the start has ended.
    pub open spec fn ended(self) -> bool {
        self is FirstLaunch || self is Ready || self is Failed
    }
}

/// A step that may be missing, with its strings as sequences.
pub open spec fn step_view(step: Option<InitStep>) -> Option<InitStepView> {
    match step {
        Some(s) => Some(s@),
        None => None,
    }
}

impl InitApp {
    /// A start that has not begun.
    pub fn start() -> (r: InitApp)
        ensures
            r@ == InitAppView::CheckingCredential,
    {
        InitApp::CheckingCredential
    }

    /// The step to take next.
    pub fn step(&self) -> (r: Option<InitStep>)
        ensures
            step_view(r) == self@.due(),
    {
        match self {
            InitApp::CheckingCredential => Some(InitStep::ReadCredential),
            InitApp::Identifying { access_token } => Some(
                InitStep::Send {
                    access_token: access_token.clone(),
                    call: get_user_email_request(),
                },
            ),
            InitApp::Resolving { access_token, book, .. } => match book.request() {
                Some(call) => Some(InitStep::Send { access_token: access_token.clone(), call }),
                None => None,
            },
            _ => None,
        }
    }

    /// Moves on with what the step gave.
    pub fn on_event(self, event: InitEvent) -> (r: InitApp)
        ensures
            r@ == self@.after(event@),
    {
        match (self, event) {
            (InitApp::CheckingCredential, InitEvent::Credential { stored, now }) => {
                if !is_logged_in(&stored) {
                    InitApp::FirstLaunch
                } else {
                    match login_with_saved_token(stored, now) {
                        Ok(access_token) => InitApp::Identifying { access_token },
                        Err(e) => InitApp::Failed(e),
                    }
                }
            },
            (InitApp::Identifying { access_token }, InitEvent::Reply(reply)) => {
                match get_user_email(&reply) {
                    Ok(email) => InitApp::Resolving {
                        access_token,
                        email,
                        book: FindOrCreateBook::start(),
                    },
                    Err(e) => InitApp::Failed(e),
                }
            },
            (InitApp::Resolving { access_token, email, book }, InitEvent::Reply(reply)) => {
                match book.on_reply(&reply) {
                    FindOrCreateBook::Done(spreadsheet_id) => InitApp::Ready {
                        email,
                        spreadsheet_id,
                    },
                    FindOrCreateBook::Failed(e) => InitApp::Failed(e),
                    book => InitApp::Resolving { access_token, email, book },
                }
            },
            (state, _) => state,
        }
    }

    /// Whether the start has ended.
    pub fn ended(&self) -> (r: bool)
        ensures
            r == self@.ended(),
    {
        match self {
            InitApp::FirstLaunch => true,
            InitApp::Ready { .. } => true,
            InitApp::Failed(_) => true,
            _ => false,
        }
    }
}

/// A start that finds an expired credential fails with `Expired` at once: no
/// request is due, so nothing is sent to any service.
pub proof fn lemma_expired_credential_sends_nothing(token: SavedTokenView, now: Timestamp)
    requires
        !token.expires_at.ahead_of(now),
    ensures
        InitAppView::CheckingCredential.due() == Some(InitStepView::ReadCredential),
        InitAppView::CheckingCredential.after(
            InitEventView::Credential { stored: StoredCredentialView::Present(token), now },
        ) == InitAppView::Failed(ErrorKind::Expired),
        InitAppView::Failed(ErrorKind::Expired).due() is None,
{
}

/// A start without a credential file ends at the sign-in screen, and sends
/// nothing.
pub proof fn lemma_first_launch_sends_nothing(now: Timestamp)
    ensures
        InitAppView::CheckingCredential.after(
            InitEventView::Credential { stored: StoredCredentialView::Missing, now },
        ) == InitAppView::FirstLaunch,
        InitAppView::FirstLaunch.due() is None,
{
}

/// A start that has ended stays as it is, and asks for no further step.
pub proof fn lemma_ended_start_stays(state: InitAppView, event: InitEventView)
    requires
        state.ended(),
    ensures
        state.after(event) == state,
        state.due() is None,
{
}

/// While the spreadsheet is being found or created, the requests of the start
/// are those of that attempt, each sent with the resumed access token.
pub proof fn lemma_start_sends_what_resolution_asks(
    access_token: Seq<char>,
    email: Seq<char>,
    book: FindOrCreateBookView,
)
    requires
        !book.ended(),
    ensures
        book.due() is Some,
        (InitAppView::Resolving { access_token, email, book }).due() == Some(
            InitStepView::Send { access_token, call: book.due()->0 },
        ),
{
}

/// One step of the start: takes what the last step gave, and says where the
/// start stands and which step is due now.
pub fn init_app(state: InitApp, event: InitEvent) -> (r: (InitApp, Option<InitStep>))
    ensures
        r.0@ == state@.after(event@),
        step_view(r.1) == r.0@.due(),
{
    let next = state.on_event(event);
    let due = next.step();
    (next, due)
}

impl InitEventView {
    /// Whether this event is what carrying out `step` gives.
    pub open spec fn answers(self, step: InitStepView) -> bool {
        match (step, self) {
            (InitStepView::ReadCredential, InitEventView::Credential { .. }) => true,
            (InitStepView::Send { .. }, InitEventView::Reply(_)) => true,
            _ => false,
        }
    }
}

impl InitAppView {
    /// The most steps that the start can still take.
    pub open spec fn steps_left(self) -> nat {
        match self {
            InitAppView::CheckingCredential => 5,
            InitAppView::Identifying { .. } => 4,
            InitAppView::Resolving { book, .. } => book.requests_left(),
            _ => 0,
        }
    }
}

/// Every step that is carried out brings the start nearer its end, so a start
/// takes five steps at most, four of them requests; and no step is due exactly
/// when none is left.
pub proof fn lemma_start_moves_to_its_end(state: InitAppView, event: InitEventView)
    ensures
        state.due() is Some && event.answers(state.due()->0) ==> state.after(event).steps_left()
            < state.steps_left(),
        state.due() is None <==> state.steps_left() == 0,
        state.ended() ==> state.steps_left() == 0,
{
}

} // verus!

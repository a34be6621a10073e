//! The credential of the signed-in account, and the interactive sign-in that
//! obtains one.

use crate::error::ErrorKind;
use crate::http::{status_is_success, HttpReply, RemoteCall, RemoteCallView};
use crate::json::{json_of_text, member_of, parse_json, text_at, text_in, Json, JsonModel};
use crate::server::{is_absolute_url, query_of_text, LoopbackOutcome, LoopbackOutcomeView};
use crate::text::opt_text;
use crate::time::{Expiry, Timestamp};
use vstd::prelude::*;
use vstd::string::StringExecFns;

verus! {

/// The identity provider's authorization endpoint, which the browser visits.
pub const AUTH_URL: &'static str = "https://accounts.google.com/o/oauth2/v2/auth";

/// The identity provider's token endpoint.
pub const TOKEN_URL: &'static str = "https://oauth2.googleapis.com/token";

/// The identity provider's user-info endpoint.
pub const USERINFO_URL: &'static str = "https://www.googleapis.com/oauth2/v1/userinfo?alt=json";

/// The lifetime of a token whose grant reports none, in seconds.
pub const DEFAULT_LIFETIME_SECS: u64 = 3600;

/// The name of the credential file in the installation's configuration folder.
pub const TOKEN_FILE_NAME: &'static str = "token.json";

/// The client configuration of a sign-in. The redirect address is the one that
/// is registered with the identity provider and that the listener serves.
#[derive(Debug, Clone, PartialEq, Eq)]
pub struct LoginParams {
    pub client_id: String,
    pub client_secret: String,
    pub redirect_uri: String,
}

impl LoginParams {
    /// Whether the redirect address is an absolute URL. The exchange cannot be
    /// asked for with one that is not.
    pub fn redirect_is_url(&self) -> (r: bool)
        ensures
            r == (query_of_text(self.redirect_uri@) is Some),
    {
        is_absolute_url(self.redirect_uri.as_str())
    }
}

/// The credential of the signed-in account: one per installation.
#[derive(Debug, Clone, PartialEq, Eq)]
pub struct SavedToken {
    pub access_token: String,
    pub refresh_token: String,
    pub expires_at: Expiry,
    pub email: String,
}

/// A [`SavedToken`] with its strings as sequences.
pub struct SavedTokenView {
    pub access_token: Seq<char>,
    pub refresh_token: Seq<char>,
    pub expires_at: Expiry,
    pub email: Seq<char>,
}

impl View for SavedToken {
    type V = SavedTokenView;

    open spec fn view(&self) -> SavedTokenView {
        SavedTokenView {
            access_token: self.access_token@,
            refresh_token: self.refresh_token@,
            expires_at: self.expires_at,
            email: self.email@,
        }
    }
}

impl SavedTokenView {
    /// Whether the credential may be used at `now`: only before its expiry.
    pub open spec fn valid_at(self, now: Timestamp) -> bool {
        self.expires_at.ahead_of(now)
    }
}

/// What the identity provider grants for an authorization code.
#[derive(Debug, Clone, PartialEq, Eq)]
pub struct TokenGrant {
    pub access_token: String,
    pub refresh_token: Option<String>,
    /// The lifetime that the provider reports, in seconds.
    pub expires_in: Option<u64>,
}

/// A [`TokenGrant`] with its strings as sequences.
pub struct TokenGrantView {
    pub access_token: Seq<char>,
    pub refresh_token: Option<Seq<char>>,
    pub expires_in: Option<u64>,
}

impl View for TokenGrant {
    type V = TokenGrantView;

    open spec fn view(&self) -> TokenGrantView {
        TokenGrantView {
            access_token: self.access_token@,
            refresh_token: opt_text(self.refresh_token),
            expires_in: self.expires_in,
        }
    }
}

impl TokenGrantView {
    /// The lifetime of the granted token in seconds: the reported one, or
    /// [`DEFAULT_LIFETIME_SECS`].
    pub open spec fn lifetime(self) -> u64 {
        match self.expires_in {
            Some(secs) => secs,
            None => DEFAULT_LIFETIME_SECS,
        }
    }

    /// The credential that is stored for this grant, captured at `now` for the
    /// account `email`; none for a grant without a refresh token.
    pub open spec fn credential(self, email: Seq<char>, now: Timestamp) -> Option<SavedTokenView> {
        match self.refresh_token {
            Some(refresh_token) => Some(
                SavedTokenView {
                    access_token: self.access_token,
                    refresh_token,
                    expires_at: now.expiry_after(self.lifetime()),
                    email,
                },
            ),
            None => None,
        }
    }
}

impl TokenGrant {
    /// The lifetime of the granted token in seconds.
    pub fn lifetime_secs(&self) -> (r: u64)
        ensures
            r == self@.lifetime(),
    {
        match self.expires_in {
            Some(secs) => secs,
            None => DEFAULT_LIFETIME_SECS,
        }
    }
}

/// A credential that may be missing, with its strings as sequences.
pub open spec fn opt_token(token: Option<SavedToken>) -> Option<SavedTokenView> {
    match token {
        Some(t) => Some(t@),
        None => None,
    }
}

/// A string or an error, with the string as a sequence.
pub open spec fn text_result(r: Result<String, ErrorKind>) -> Result<Seq<char>, ErrorKind> {
    match r {
        Ok(s) => Ok(s@),
        Err(e) => Err(e),
    }
}

/// Builds the credential to store: it expires `expires_in` seconds after `now`,
/// the time at which the token was captured.
pub fn save_token(
    access_token: &str,
    refresh_token: &str,
    expires_in: u64,
    email: &str,
    now: Timestamp,
) -> (r: SavedToken)
    ensures
        r@ == (SavedTokenView {
            access_token: access_token@,
            refresh_token: refresh_token@,
            expires_at: now.expiry_after(expires_in),
            email: email@,
        }),
{
    SavedToken {
        access_token: String::from_str(access_token),
        refresh_token: String::from_str(refresh_token),
        expires_at: now.expires_after(expires_in),
        email: String::from_str(email),
    }
}

/// Builds the credential to store for a grant; none for a grant without a
/// refresh token.
pub fn credential_for(grant: &TokenGrant, email: &str, now: Timestamp) -> (r: Option<SavedToken>)
    ensures
        opt_token(r) == grant@.credential(email@, now),
{
    match &grant.refresh_token {
        Some(refresh_token) => Some(
            save_token(
                grant.access_token.as_str(),
                refresh_token.as_str(),
                grant.lifetime_secs(),
                email,
                now,
            ),
        ),
        None => None,
    }
}

/// What the credential file holds, as the caller found it.
#[derive(Debug, Clone, PartialEq, Eq)]
pub enum StoredCredential {
    /// There is no credential file.
    Missing,
    /// There is a file, but it could not be read as a credential.
    Corrupt,
    /// There is a file and it holds this credential.
    Present(SavedToken),
}

/// A [`StoredCredential`] with its strings as sequences.
pub enum StoredCredentialView {
    Missing,
    Corrupt,
    Present(SavedTokenView),
}

impl View for StoredCredential {
    type V = StoredCredentialView;

    open spec fn view(&self) -> StoredCredentialView {
        match *self {
            StoredCredential::Missing => StoredCredentialView::Missing,
            StoredCredential::Corrupt => StoredCredentialView::Corrupt,
            StoredCredential::Present(token) => StoredCredentialView::Present(token@),
        }
    }
}

impl StoredCredentialView {
    /// The credential to resume with at `now`. A credential at or past its expiry
    /// is never handed out; it stays where it is.
    pub open spec fn usable_at(self, now: Timestamp) -> Result<SavedTokenView, ErrorKind> {
        match self {
            StoredCredentialView::Missing => Err(ErrorKind::NoStoredCredential),
            StoredCredentialView::Corrupt => Err(ErrorKind::CorruptCredentialFile),
            StoredCredentialView::Present(token) => if token.valid_at(now) {
                Ok(token)
            } else {
                Err(ErrorKind::Expired)
            },
        }
    }

    /// The access token to resume with at `now`.
    pub open spec fn access_token_at(self, now: Timestamp) -> Result<Seq<char>, ErrorKind> {
        match self.usable_at(now) {
            Ok(token) => Ok(token.access_token),
            Err(e) => Err(e),
        }
    }

    /// The account that is signed in at `now`.
    pub open spec fn email_at(self, now: Timestamp) -> Result<Seq<char>, ErrorKind> {
        match self.usable_at(now) {
            Ok(token) => Ok(token.email),
            Err(e) => Err(e),
        }
    }
}

/// Hands out the stored credential if it may be used at `now`.
pub fn load_token(stored: StoredCredential, now: Timestamp) -> (r: Result<SavedToken, ErrorKind>)
    ensures
        match r {
            Ok(token) => stored@.usable_at(now) == Ok::<SavedTokenView, ErrorKind>(token@),
            Err(e) => stored@.usable_at(now) == Err::<SavedTokenView, ErrorKind>(e),
        },
{
    match stored {
        StoredCredential::Missing => Err(ErrorKind::NoStoredCredential),
        StoredCredential::Corrupt => Err(ErrorKind::CorruptCredentialFile),
        StoredCredential::Present(token) => if token.expires_at.is_ahead_of(&now) {
            Ok(token)
        } else {
            Err(ErrorKind::Expired)
        },
    }
}

/// Resumes the session from the stored credential: its access token, if the
/// credential may be used at `now`. The identity provider is not asked.
pub fn login_with_saved_token(stored: StoredCredential, now: Timestamp) -> (r: Result<
    String,
    ErrorKind,
>)
    ensures
        text_result(r) == stored@.access_token_at(now),
{
    match load_token(stored, now) {
        Ok(token) => Ok(token.access_token),
        Err(e) => Err(e),
    }
}

/// The request that asks the identity provider whose token it is.
pub fn get_user_email_request() -> (r: RemoteCall)
    ensures
        r@ == (RemoteCallView::Get { url: USERINFO_URL@ }),
{
    RemoteCall::Get { url: String::from_str(USERINFO_URL) }
}

/// The address that a user-info document gives: its member `email`, where that
/// is a string.
pub open spec fn account_in(info: JsonModel) -> Option<Seq<char>> {
    text_in(member_of(info, "email"@))
}

/// Reads the address from a user-info document.
pub fn account_of(info: &Json) -> (r: Option<String>)
    ensures
        opt_text(r) == account_in(info.model()),
{
    text_at(info.member("email"))
}

/// The account that a reply to [`get_user_email_request`] names. The lookup
/// succeeds only where the reply arrived with a status in the success class, its
/// body is JSON, and the document gives an address; in every other case it
/// fails.
pub open spec fn identity_in(reply: Option<HttpReply>) -> Result<Seq<char>, ErrorKind> {
    match reply {
        None => Err(ErrorKind::IdentityLookupFailed),
        Some(r) => if !status_is_success(r.status) {
            Err(ErrorKind::IdentityLookupFailed)
        } else {
            match json_of_text(r.body@) {
                None => Err(ErrorKind::IdentityLookupFailed),
                Some(info) => match account_in(info) {
                    Some(email) => Ok(email),
                    None => Err(ErrorKind::IdentityLookupFailed),
                },
            }
        },
    }
}

/// Reads the reply to [`get_user_email_request`].
pub fn get_user_email(reply: &Option<HttpReply>) -> (r: Result<String, ErrorKind>)
    ensures
        text_result(r) == identity_in(*reply),
{
    match reply {
        None => Err(ErrorKind::IdentityLookupFailed),
        Some(r) => {
            if !r.is_success() {
                return Err(ErrorKind::IdentityLookupFailed);
            }
            match parse_json(r.body.as_str()) {
                None => Err(ErrorKind::IdentityLookupFailed),
                Some(info) => match account_of(&info) {
                    Some(email) => Ok(email),
                    None => Err(ErrorKind::IdentityLookupFailed),
                },
            }
        },
    }
}

/// What the exchange of a code yields once the account behind the grant was
/// looked up at `now`: the account's address, and the credential to store for
/// it, which a grant without a refresh token does not have. A lookup that fails
/// fails the exchange.
pub open spec fn exchange_outcome(
    grant: TokenGrantView,
    identity: Option<HttpReply>,
    now: Timestamp,
) -> Result<(Seq<char>, Option<SavedTokenView>), ErrorKind> {
    match identity_in(identity) {
        Ok(email) => Ok((email, grant.credential(email, now))),
        Err(e) => Err(e),
    }
}

/// Finishes the exchange of a code: reads the reply to the user-info request
/// for the granted token and builds the credential to store, captured at `now`.
pub fn exchange_code_for_token(
    grant: &TokenGrant,
    identity: &Option<HttpReply>,
    now: Timestamp,
) -> (r: Result<(String, Option<SavedToken>), ErrorKind>)
    ensures
        match r {
            Ok((email, token)) => exchange_outcome(grant@, *identity, now) == Ok::<
                (Seq<char>, Option<SavedTokenView>),
                ErrorKind,
            >((email@, opt_token(token))),
            Err(e) => exchange_outcome(grant@, *identity, now) == Err::<
                (Seq<char>, Option<SavedTokenView>),
                ErrorKind,
            >(e),
        },
{
    match get_user_email(identity) {
        Ok(email) => {
            let token = credential_for(grant, email.as_str(), now);
            Ok((email, token))
        },
        Err(e) => Err(e),
    }
}

impl SavedToken {
    /// A copy of the credential.
    pub fn duplicate(&self) -> (r: SavedToken)
        ensures
            r@ == self@,
    {
        SavedToken {
            access_token: self.access_token.clone(),
            refresh_token: self.refresh_token.clone(),
            expires_at: self.expires_at,
            email: self.email.clone(),
        }
    }
}

/// The failure that an outcome of the listener stands for; none for a code.
pub open spec fn outcome_error(outcome: LoopbackOutcomeView) -> Option<ErrorKind> {
    match outcome {
        LoopbackOutcomeView::Code(_) => None,
        LoopbackOutcomeView::PortInUse => Some(ErrorKind::PortInUse),
        LoopbackOutcomeView::ServerStartFailed => Some(ErrorKind::ServerStartFailed),
        LoopbackOutcomeView::CallbackUrlUnparseable => Some(ErrorKind::CallbackUrlUnparseable),
        LoopbackOutcomeView::CodeMissingInCallback => Some(ErrorKind::CodeMissingInCallback),
        LoopbackOutcomeView::ReceiveFailed => Some(ErrorKind::ReceiveFailed),
    }
}

/// Sorts an outcome of the listener into the code it carries or the failure it
/// stands for.
pub fn code_or_error(outcome: LoopbackOutcome) -> (r: Result<String, ErrorKind>)
    ensures
        match r {
            Ok(code) => outcome@ == LoopbackOutcomeView::Code(code@),
            Err(e) => outcome_error(outcome@) == Some(e),
        },
{
    match outcome {
        LoopbackOutcome::Code(code) => Ok(code),
        LoopbackOutcome::PortInUse => Err(ErrorKind::PortInUse),
        LoopbackOutcome::ServerStartFailed => Err(ErrorKind::ServerStartFailed),
        LoopbackOutcome::CallbackUrlUnparseable => Err(ErrorKind::CallbackUrlUnparseable),
        LoopbackOutcome::CodeMissingInCallback => Err(ErrorKind::CodeMissingInCallback),
        LoopbackOutcome::ReceiveFailed => Err(ErrorKind::ReceiveFailed),
    }
}

/// One interactive sign-in: receive the code, exchange it, look up the account,
/// store the credential. The steps follow one another; nothing is retried.
#[derive(Debug, Clone, PartialEq, Eq)]
pub enum Login {
    /// The listener is to be run for the authorization code.
    AwaitingCode,
    /// The code is to be exchanged for a token.
    Exchanging { code: String },
    /// The token is granted and its account is to be looked up.
    Identifying { grant: TokenGrant },
    /// The credential is to be stored, replacing any earlier one.
    Saving { token: SavedToken },
    /// The sign-in has ended with the account's address.
    Done { email: String },
    /// The sign-in has failed.
    Failed(ErrorKind),
}

/// A [`Login`] with its strings as sequences.
pub enum LoginView {
    AwaitingCode,
    Exchanging { code: Seq<char> },
    Identifying { grant: TokenGrantView },
    Saving { token: SavedTokenView },
    Done { email: Seq<char> },
    Failed(ErrorKind),
}

impl View for Login {
    type V = LoginView;

    open spec fn view(&self) -> LoginView {
        match *self {
            Login::AwaitingCode => LoginView::AwaitingCode,
            Login::Exchanging { code } => LoginView::Exchanging { code: code@ },
            Login::Identifying { grant } => LoginView::Identifying { grant: grant@ },
            Login::Saving { token } => LoginView::Saving { token: token@ },
            Login::Done { email } => LoginView::Done { email: email@ },
            Login::Failed(e) => LoginView::Failed(e),
        }
    }
}

/// What the caller is to do next for a [`Login`].
#[derive(Debug, Clone, PartialEq, Eq)]
pub enum LoginStep {
    /// Run the listener to its outcome.
    Listen,
    /// Exchange `code` at [`TOKEN_URL`], with the client configuration.
    ExchangeCode { code: String },
    /// Send [`get_user_email_request`] with `access_token`, and read the clock.
    LookupIdentity { access_token: String },
    /// Write the credential file.
    Save(SavedToken),
}

/// A [`LoginStep`] with its strings as sequences.
pub enum LoginStepView {
    Listen,
    ExchangeCode { code: Seq<char> },
    LookupIdentity { access_token: Seq<char> },
    Save(SavedTokenView),
}

impl View for LoginStep {
    type V = LoginStepView;

    open spec fn view(&self) -> LoginStepView {
        match *self {
            LoginStep::Listen => LoginStepView::Listen,
            LoginStep::ExchangeCode { code } => LoginStepView::ExchangeCode { code: code@ },
            LoginStep::LookupIdentity { access_token } => LoginStepView::LookupIdentity {
                access_token: access_token@,
            },
            LoginStep::Save(token) => LoginStepView::Save(token@),
        }
    }
}

/// What a step of a [`Login`] gave.
#[derive(Debug, Clone, PartialEq, Eq)]
pub enum LoginEvent {
    /// The listener ended.
    Callback(LoopbackOutcome),
    /// The exchange ended: with a grant, or with none where it failed.
    Exchanged(Option<TokenGrant>),
    /// The user-info request ended with `reply`, and the clock read `now`.
    Identified { reply: Option<HttpReply>, now: Timestamp },
    /// The credential file was written, or could not be.
    Saved { stored: bool },
}

/// A [`LoginEvent`] with its strings as sequences.
pub enum LoginEventView {
    Callback(LoopbackOutcomeView),
    Exchanged(Option<TokenGrantView>),
    Identified { reply: Option<HttpReply>, now: Timestamp },
    Saved { stored: bool },
}

impl View for LoginEvent {
    type V = LoginEventView;

    open spec fn view(&self) -> LoginEventView {
        match *self {
            LoginEvent::Callback(outcome) => LoginEventView::Callback(outcome@),
            LoginEvent::Exchanged(grant) => LoginEventView::Exchanged(
                match grant {
                    Some(g) => Some(g@),
                    None => None,
                },
            ),
            LoginEvent::Identified { reply, now } => LoginEventView::Identified { reply, now },
            LoginEvent::Saved { stored } => LoginEventView::Saved { stored },
        }
    }
}

impl LoginView {
    /// The step that is due in this state; none once the sign-in has ended.
    pub open spec fn due(self) -> Option<LoginStepView> {
        match self {
            LoginView::AwaitingCode => Some(LoginStepView::Listen),
            LoginView::Exchanging { code } => Some(LoginStepView::ExchangeCode { code }),
            LoginView::Identifying { grant } => Some(
                LoginStepView::LookupIdentity { access_token: grant.access_token },
            ),
            LoginView::Saving { token } => Some(LoginStepView::Save(token)),
            _ => None,
        }
    }

    /// The state after `event`. An event that does not belong to the step that
    /// was due changes nothing.
    ///
    /// Each outcome of the listener but a code fails the sign-in with its own
    /// category. A grant without a refresh token signs in without storing a
    /// credential.
    pub open spec fn after(self, event: LoginEventView) -> LoginView {
        match (self, event) {
            (LoginView::AwaitingCode, LoginEventView::Callback(outcome)) => match outcome {
                LoopbackOutcomeView::Code(code) => LoginView::Exchanging { code },
                _ => LoginView::Failed(outcome_error(outcome).unwrap()),
            },
            (LoginView::Exchanging { .. }, LoginEventView::Exchanged(granted)) => match granted {
                Some(grant) => LoginView::Identifying { grant },
                None => LoginView::Failed(ErrorKind::TokenExchangeFailed),
            },
            (LoginView::Identifying { grant }, LoginEventView::Identified { reply, now }) =>
                match exchange_outcome(grant, reply, now) {
                    Err(e) => LoginView::Failed(e),
                    Ok((_, Some(token))) => LoginView::Saving { token },
                    Ok((email, None)) => LoginView::Done { email },
                },
            (LoginView::Saving { token }, LoginEventView::Saved { stored }) => if stored {
                LoginView::Done { email: token.email }
            } else {
                LoginView::Failed(ErrorKind::CredentialSaveFailed)
            },
            _ => self,
        }
    }

    /// Whether the sign-in has ended.
    pub open spec fn ended(self) -> bool {
        self is Done || self is Failed
    }

    /// The result of the sign-in, once it has ended: the account's address.
    pub open spec fn outcome(self) -> Option<Result<Seq<char>, ErrorKind>> {
        match self {
            LoginView::Done { email } => Some(Ok(email)),
            LoginView::Failed(e) => Some(Err(e)),
            _ => None,
        }
    }
}

/// A step that may be missing, with its strings as sequences.
pub open spec fn step_view(step: Option<LoginStep>) -> Option<LoginStepView> {
    match step {
        Some(s) => Some(s@),
        None => None,
    }
}

/// The result of a sign-in that may be missing, with its string as a sequence.
pub open spec fn login_result_view(outcome: Option<Result<String, ErrorKind>>) -> Option<
    Result<Seq<char>, ErrorKind>,
> {
    match outcome {
        Some(r) => Some(text_result(r)),
        None => None,
    }
}

impl Login {
    /// A sign-in that has not begun.
    pub fn start() -> (r: Login)
        ensures
            r@ == LoginView::AwaitingCode,
    {
        Login::AwaitingCode
    }

    /// The step to take next.
    pub fn step(&self) -> (r: Option<LoginStep>)
        ensures
            step_view(r) == self@.due(),
    {
        match self {
            Login::AwaitingCode => Some(LoginStep::Listen),
            Login::Exchanging { code } => Some(LoginStep::ExchangeCode { code: code.clone() }),
            Login::Identifying { grant } => Some(
                LoginStep::LookupIdentity { access_token: grant.access_token.clone() },
            ),
            Login::Saving { token } => Some(LoginStep::Save(token.duplicate())),
            _ => None,
        }
    }

    /// Moves on with what the step gave.
    pub fn on_event(self, event: LoginEvent) -> (r: Login)
        ensures
            r@ == self@.after(event@),
    {
        match (self, event) {
            (Login::AwaitingCode, LoginEvent::Callback(outcome)) => match code_or_error(outcome) {
                Ok(code) => Login::Exchanging { code },
                Err(e) => Login::Failed(e),
            },
            (Login::Exchanging { .. }, LoginEvent::Exchanged(granted)) => match granted {
                Some(grant) => Login::Identifying { grant },
                None => Login::Failed(ErrorKind::TokenExchangeFailed),
            },
            (Login::Identifying { grant }, LoginEvent::Identified { reply, now }) =>
                match exchange_code_for_token(&grant, &reply, now) {
                    Err(e) => Login::Failed(e),
                    Ok((_, Some(token))) => Login::Saving { token },
                    Ok((email, None)) => Login::Done { email },
                },
            (Login::Saving { token }, LoginEvent::Saved { stored }) => if stored {
                Login::Done { email: token.email }
            } else {
                Login::Failed(ErrorKind::CredentialSaveFailed)
            },
            (state, _) => state,
        }
    }

    /// The result of the sign-in, once it has ended.
    pub fn result(self) -> (r: Option<Result<String, ErrorKind>>)
        ensures
            login_result_view(r) == self@.outcome(),
    {
        match self {
            Login::Done { email } => Some(Ok(email)),
            Login::Failed(e) => Some(Err(e)),
            _ => None,
        }
    }
}

/// A sign-in whose callback carries a code, whose exchange grants a refresh
/// token and whose account is found stores one credential and ends with the
/// account's address. The credential holds the granted tokens and the address,
/// and expires the granted lifetime after the time of capture.
pub proof fn lemma_sign_in_stores_the_grant(
    code: Seq<char>,
    grant: TokenGrantView,
    reply: Option<HttpReply>,
    now: Timestamp,
)
    requires
        grant.refresh_token is Some,
        identity_in(reply) is Ok,
    ensures
        ({
            let email = identity_in(reply)->Ok_0;
            let token = SavedTokenView {
                access_token: grant.access_token,
                refresh_token: grant.refresh_token->0,
                expires_at: Expiry {
                    secs: (now.secs + grant.lifetime()) as i128,
                    nanos: now.nanos,
                },
                email,
            };
            let coded = LoginView::AwaitingCode.after(
                LoginEventView::Callback(LoopbackOutcomeView::Code(code)),
            );
            let granted = coded.after(LoginEventView::Exchanged(Some(grant)));
            let known = granted.after(LoginEventView::Identified { reply, now });
            let stored = known.after(LoginEventView::Saved { stored: true });
            &&& coded.due() == Some(LoginStepView::ExchangeCode { code })
            &&& granted.due() == Some(
                LoginStepView::LookupIdentity { access_token: grant.access_token },
            )
            &&& known.due() == Some(LoginStepView::Save(token))
            &&& stored == LoginView::Done { email }
            &&& StoredCredentialView::Present(token).email_at(now) == if grant.lifetime() > 0 {
                Ok::<Seq<char>, ErrorKind>(email)
            } else {
                Err::<Seq<char>, ErrorKind>(ErrorKind::Expired)
            }
        }),
{
}

/// A callback that brings no code fails the sign-in with the category of the
/// listener's outcome, before anything is exchanged or stored.
pub proof fn lemma_sign_in_fails_without_a_code(outcome: LoopbackOutcomeView)
    requires
        !(outcome is Code),
    ensures
        outcome_error(outcome) is Some,
        LoginView::AwaitingCode.after(LoginEventView::Callback(outcome)) == LoginView::Failed(
            outcome_error(outcome)->0,
        ),
        LoginView::AwaitingCode.after(LoginEventView::Callback(outcome)).due() is None,
{
}

/// A sign-in that has ended stays as it is, and asks for no further step.
pub proof fn lemma_ended_sign_in_stays(state: LoginView, event: LoginEventView)
    requires
        state.ended(),
    ensures
        state.after(event) == state,
        state.due() is None,
{
}

/// A stored credential is handed out exactly while the clock is before its
/// expiry; at the expiry and after it the answer is `Expired`, for the access
/// token and for the account alike.
pub proof fn lemma_expired_credential_is_refused(token: SavedTokenView, now: Timestamp)
    ensures
        token.expires_at.ahead_of(now) ==> StoredCredentialView::Present(token).access_token_at(now)
            == Ok::<Seq<char>, ErrorKind>(token.access_token),
        !token.expires_at.ahead_of(now) ==> StoredCredentialView::Present(token).access_token_at(
            now,
        ) == Err::<Seq<char>, ErrorKind>(ErrorKind::Expired),
        !token.expires_at.ahead_of(now) ==> StoredCredentialView::Present(token).email_at(now)
            == Err::<Seq<char>, ErrorKind>(ErrorKind::Expired),
{
}

impl LoginEventView {
    /// Whether this event is what carrying out `step` gives.
    pub open spec fn answers(self, step: LoginStepView) -> bool {
        match (step, self) {
            (LoginStepView::Listen, LoginEventView::Callback(_)) => true,
            (LoginStepView::ExchangeCode { .. }, LoginEventView::Exchanged(_)) => true,
            (LoginStepView::LookupIdentity { .. }, LoginEventView::Identified { .. }) => true,
            (LoginStepView::Save(_), LoginEventView::Saved { .. }) => true,
            _ => false,
        }
    }
}

impl LoginView {
    /// The most steps that the sign-in can still take.
    pub open spec fn steps_left(self) -> nat {
        match self {
            LoginView::AwaitingCode => 4,
            LoginView::Exchanging { .. } => 3,
            LoginView::Identifying { .. } => 2,
            LoginView::Saving { .. } => 1,
            _ => 0,
        }
    }
}

/// Every step that is carried out brings the sign-in nearer its end, so a
/// sign-in takes four steps at most; and it has a result exactly when no step is
/// left.
pub proof fn lemma_sign_in_moves_to_its_end(state: LoginView, event: LoginEventView)
    ensures
        state.due() is Some && event.answers(state.due()->0) ==> state.after(event).steps_left()
            < state.steps_left(),
        state.due() is None <==> state.steps_left() == 0,
        state.outcome() is Some <==> state.steps_left() == 0,
{
}

/// A lookup of the account that fails fails the sign-in: nothing is stored and
/// no further step is due, whatever was granted. The lookup fails wherever the
/// reply does not name an account: no address is made up for it.
pub proof fn lemma_failed_lookup_stores_nothing(
    grant: TokenGrantView,
    reply: Option<HttpReply>,
    now: Timestamp,
)
    requires
        identity_in(reply) is Err,
    ensures
        identity_in(reply) == Err::<Seq<char>, ErrorKind>(ErrorKind::IdentityLookupFailed),
        exchange_outcome(grant, reply, now) == Err::<
            (Seq<char>, Option<SavedTokenView>),
            ErrorKind,
        >(ErrorKind::IdentityLookupFailed),
        (LoginView::Identifying { grant }).after(LoginEventView::Identified { reply, now })
            == LoginView::Failed(ErrorKind::IdentityLookupFailed),
        LoginView::Failed(ErrorKind::IdentityLookupFailed).due() is None,
{
}

/// The account of a reply is named by the reply itself: a lookup that succeeds
/// gives the string member `email` of a JSON body that came with a status in the
/// success class.
pub proof fn lemma_identity_is_what_the_reply_names(reply: Option<HttpReply>, email: Seq<char>)
    requires
        identity_in(reply) == Ok::<Seq<char>, ErrorKind>(email),
    ensures
        reply is Some,
        status_is_success(reply->0.status),
        json_of_text(reply->0.body@) is Some,
        account_in(json_of_text(reply->0.body@)->0) == Some(email),
{
}

} // verus!

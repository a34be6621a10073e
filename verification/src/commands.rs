//! What the user interface asks about the session.

use crate::auth::{
    load_token, step_view, text_result, Login, LoginEvent, LoginStep, SavedTokenView,
    StoredCredential, StoredCredentialView,
};
use crate::error::ErrorKind;
use crate::time::Timestamp;
use vstd::prelude::*;
use vstd::string::StringExecFns;

verus! {

/// What is to happen to the credential file.
#[derive(Debug, Clone, Copy, PartialEq, Eq, Structural)]
pub enum FileStep {
    /// Leave it as it is.
    Nothing,
    /// Delete it.
    RemoveFile,
}

impl StoredCredentialView {
    /// Whether there is a credential file, whatever it holds.
    pub open spec fn present(self) -> bool {
        !(self is Missing)
    }

    /// What the credential file holds once `step` is carried out.
    pub open spec fn after_step(self, step: FileStep) -> StoredCredentialView {
        match step {
            FileStep::Nothing => self,
            FileStep::RemoveFile => StoredCredentialView::Missing,
        }
    }

    /// What signing out does to the credential file: a file that is there is
    /// deleted.
    pub open spec fn sign_out_step(self) -> FileStep {
        if self.present() {
            FileStep::RemoveFile
        } else {
            FileStep::Nothing
        }
    }
}

/// Whether an account is signed in: whether there is a credential file. The
/// expiry is not looked at.
pub fn is_logged_in(stored: &StoredCredential) -> (r: bool)
    ensures
        r == stored@.present(),
{
    match stored {
        StoredCredential::Missing => false,
        _ => true,
    }
}

/// Signs out: says what is to happen to the credential file.
pub fn logout(stored: &StoredCredential) -> (r: FileStep)
    ensures
        r == stored@.sign_out_step(),
{
    if is_logged_in(stored) {
        FileStep::RemoveFile
    } else {
        FileStep::Nothing
    }
}

/// The address of the signed-in account, if the stored credential may be used
/// at `now`.
pub fn get_current_user(stored: StoredCredential, now: Timestamp) -> (r: Result<String, ErrorKind>)
    ensures
        text_result(r) == stored@.email_at(now),
{
    match load_token(stored, now) {
        Ok(token) => Ok(token.email),
        Err(e) => Err(e),
    }
}

/// The message for a failure to name the signed-in account: that nobody is
/// signed in where there is no credential file, and the fixed message of the
/// category for every other failure.
pub open spec fn current_user_failure_text(error: ErrorKind) -> Seq<char> {
    match error {
        ErrorKind::NoStoredCredential => "ログインしていません"@,
        _ => error.message_text(),
    }
}

/// Words a failure of [`get_current_user`] for the user.
pub fn current_user_failure_message(error: ErrorKind) -> (r: String)
    ensures
        r@ == current_user_failure_text(error),
{
    match error {
        ErrorKind::NoStoredCredential => String::from_str("ログインしていません"),
        _ => error.message(),
    }
}

/// After signing out no account is signed in, whatever was stored.
pub proof fn lemma_signed_out_after_logout(stored: StoredCredentialView)
    ensures
        !stored.after_step(stored.sign_out_step()).present(),
{
}

/// A credential file counts as signed in by being there: also where the
/// credential in it has expired and is refused for use.
pub proof fn lemma_presence_alone_counts(token: SavedTokenView, now: Timestamp)
    ensures
        StoredCredentialView::Present(token).present(),
        !token.valid_at(now) ==> StoredCredentialView::Present(token).email_at(now) == Err::<
            Seq<char>,
            ErrorKind,
        >(ErrorKind::Expired),
        StoredCredentialView::Corrupt.present(),
        !StoredCredentialView::Missing.present(),
{
}

/// One step of the interactive sign-in: takes what the last step gave, and says
/// where the sign-in stands and which step is due now.
pub fn start_google_login(login: Login, event: LoginEvent) -> (r: (Login, Option<LoginStep>))
    ensures
        r.0@ == login@.after(event@),
        step_view(r.1) == r.0@.due(),
{
    let next = login.on_event(event);
    let due = next.step();
    (next, due)
}

} // verus!

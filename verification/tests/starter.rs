use shiftbuilder::auth::{get_user_email_request, SavedToken, StoredCredential};
use shiftbuilder::drive::get_file_id_request;
use shiftbuilder::error::ErrorKind;
use shiftbuilder::http::HttpReply;
use shiftbuilder::sheet::FindOrCreateBook;
use shiftbuilder::starter::{init_app, InitApp, InitEvent, InitStep};
use shiftbuilder::time::{Expiry, Timestamp};

fn credential_until(secs: i128) -> StoredCredential {
    StoredCredential::Present(SavedToken {
        access_token: "access".to_string(),
        refresh_token: "refresh".to_string(),
        expires_at: Expiry { secs, nanos: 0 },
        email: "stored@example.com".to_string(),
    })
}

fn start_reply(body: &str) -> InitEvent {
    InitEvent::Reply(Some(HttpReply { status: 200, body: body.to_string() }))
}

fn resumed() -> InitApp {
    InitApp::start().on_event(InitEvent::Credential {
        stored: credential_until(2000),
        now: Timestamp::new(1000, 0),
    })
}

#[test]
fn start_without_a_credential_shows_the_sign_in() {
    let state = InitApp::start();
    assert_eq!(state.step(), Some(InitStep::ReadCredential));
    assert!(!state.ended());
    let state = state.on_event(InitEvent::Credential {
        stored: StoredCredential::Missing,
        now: Timestamp::new(1000, 0),
    });
    assert_eq!(state, InitApp::FirstLaunch);
    assert_eq!(state.step(), None);
    assert!(state.ended());
}

#[test]
fn start_with_an_expired_credential_sends_nothing() {
    let state = InitApp::start().on_event(InitEvent::Credential {
        stored: credential_until(2000),
        now: Timestamp::new(2001, 0),
    });
    assert_eq!(state, InitApp::Failed(ErrorKind::Expired));
    assert_eq!(state.step(), None);
    assert!(state.ended());
}

#[test]
fn start_with_a_corrupt_credential_fails() {
    let state = InitApp::start().on_event(InitEvent::Credential {
        stored: StoredCredential::Corrupt,
        now: Timestamp::new(0, 0),
    });
    assert_eq!(state, InitApp::Failed(ErrorKind::CorruptCredentialFile));
}

#[test]
fn start_resumes_identifies_and_resolves() {
    let state = resumed();
    assert_eq!(
        state.step(),
        Some(InitStep::Send { access_token: "access".to_string(), call: get_user_email_request() })
    );
    let state = state.on_event(start_reply("{\"email\": \"who@example.com\"}"));
    assert_eq!(
        state,
        InitApp::Resolving {
            access_token: "access".to_string(),
            email: "who@example.com".to_string(),
            book: FindOrCreateBook::Lookup,
        }
    );
    assert_eq!(
        state.step(),
        Some(InitStep::Send {
            access_token: "access".to_string(),
            call: get_file_id_request("shiftbuilder_config.json"),
        })
    );
    let state = state.on_event(start_reply("{\"files\": [{\"id\": \"F1\"}]}"));
    assert!(!state.ended());
    let state = state.on_event(start_reply("{\"spreadsheet_id\": \"B7\"}"));
    assert_eq!(
        state,
        InitApp::Ready { email: "who@example.com".to_string(), spreadsheet_id: "B7".to_string() }
    );
    assert_eq!(state.step(), None);
    assert!(state.ended());
}

#[test]
fn start_creates_the_spreadsheet_on_first_use() {
    let state = resumed()
        .on_event(start_reply("{\"email\": \"who@example.com\"}"))
        .on_event(start_reply("{\"files\": []}"))
        .on_event(start_reply("{\"spreadsheetId\": \"B1\", \"spreadsheetUrl\": \"u\"}"))
        .on_event(start_reply("{}"));
    assert_eq!(
        state,
        InitApp::Ready { email: "who@example.com".to_string(), spreadsheet_id: "B1".to_string() }
    );
}

#[test]
fn start_fails_where_the_identity_lookup_fails() {
    assert_eq!(
        resumed().on_event(InitEvent::Reply(None)),
        InitApp::Failed(ErrorKind::IdentityLookupFailed)
    );
}

#[test]
fn start_fails_where_the_resolution_fails() {
    let state = resumed()
        .on_event(start_reply("{\"email\": \"who@example.com\"}"))
        .on_event(start_reply("{\"files\": [{\"id\": \"F1\"}]}"))
        .on_event(start_reply("{\"nothing\": true}"));
    assert_eq!(state, InitApp::Failed(ErrorKind::PointerMalformed));
}

#[test]
fn start_ignores_events_that_are_not_due() {
    let state = InitApp::start().on_event(InitEvent::Reply(None));
    assert_eq!(state, InitApp::CheckingCredential);
    let state = resumed().on_event(InitEvent::Credential {
        stored: StoredCredential::Missing,
        now: Timestamp::new(0, 0),
    });
    assert_eq!(state, InitApp::Identifying { access_token: "access".to_string() });
    let ready = InitApp::Ready { email: "e".to_string(), spreadsheet_id: "s".to_string() };
    assert_eq!(ready.clone().on_event(InitEvent::Reply(None)), ready);
}

#[test]
fn init_app_steps_through_one_start() {
    let (state, due) = init_app(
        InitApp::start(),
        InitEvent::Credential { stored: credential_until(2000), now: Timestamp::new(1, 0) },
    );
    assert_eq!(
        due,
        Some(InitStep::Send { access_token: "access".to_string(), call: get_user_email_request() })
    );
    let (state, due) = init_app(state, InitEvent::Reply(None));
    assert_eq!(due, None);
    assert_eq!(state, InitApp::Failed(ErrorKind::IdentityLookupFailed));
}

#[test]
fn resume_of_an_expired_credential_counts_no_request() {
    let mut requests = 0;
    let mut reads = 0;
    let mut state = InitApp::start();
    let mut due = state.step();
    while let Some(step) = due {
        let event = match step {
            InitStep::ReadCredential => {
                reads += 1;
                let now = Timestamp::new(2000, 0);
                InitEvent::Credential { stored: credential_until(2000), now }
            }
            InitStep::Send { .. } => {
                requests += 1;
                InitEvent::Reply(None)
            }
        };
        (state, due) = init_app(state, event);
    }
    assert_eq!(state, InitApp::Failed(ErrorKind::Expired));
    assert_eq!(reads, 1);
    assert_eq!(requests, 0);
}

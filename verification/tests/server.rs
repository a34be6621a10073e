use shiftbuilder::server::{
    callback_query, callback_url, code_in, is_absolute_url, outcome_from_query,
    outcome_of_callback, wait_for_redirect_code, Listener,
    ListenerEvent, ListenerStep, LoopbackOutcome, CALLBACK_BASE, CONFIRMATION_PAGE,
    CONFIRMATION_STATUS, LISTEN_ADDRESS, REDIRECT_PORT,
};

fn pair(name: &str, value: &str) -> (String, String) {
    (name.to_string(), value.to_string())
}

fn received(target: &str) -> ListenerEvent {
    ListenerEvent::RequestReceived { target: Some(target.to_string()) }
}

fn listening() -> Listener {
    Listener::start()
        .on_event(ListenerEvent::PortProbed { free: true })
        .on_event(ListenerEvent::ServerStarted { started: true })
}

#[test]
fn callback_with_a_code_gives_the_code() {
    assert_eq!(outcome_of_callback("/?code=abc123"), LoopbackOutcome::Code("abc123".to_string()));
    assert_eq!(
        outcome_of_callback("/callback?state=xyz&code=4-0Ab&scope=email"),
        LoopbackOutcome::Code("4-0Ab".to_string())
    );
}

#[test]
fn callback_code_is_percent_decoded() {
    assert_eq!(
        outcome_of_callback("/?code=4%2F0AbC+d%3D"),
        LoopbackOutcome::Code("4/0AbC d=".to_string())
    );
}

#[test]
fn callback_with_two_codes_gives_the_first() {
    assert_eq!(
        outcome_of_callback("/?code=first&code=second"),
        LoopbackOutcome::Code("first".to_string())
    );
}

#[test]
fn callback_with_an_empty_code_gives_the_empty_code() {
    assert_eq!(outcome_of_callback("/?code="), LoopbackOutcome::Code(String::new()));
    assert_eq!(outcome_of_callback("/?code"), LoopbackOutcome::Code(String::new()));
}

#[test]
fn callback_without_a_code_is_missing_code() {
    assert_eq!(outcome_of_callback("/"), LoopbackOutcome::CodeMissingInCallback);
    assert_eq!(outcome_of_callback(""), LoopbackOutcome::CodeMissingInCallback);
    assert_eq!(
        outcome_of_callback("/?error=access_denied"),
        LoopbackOutcome::CodeMissingInCallback
    );
    assert_eq!(outcome_of_callback("/?Code=abc"), LoopbackOutcome::CodeMissingInCallback);
    assert_eq!(outcome_of_callback("/code=abc"), LoopbackOutcome::CodeMissingInCallback);
    assert_eq!(outcome_of_callback("/#code=abc"), LoopbackOutcome::CodeMissingInCallback);
}

#[test]
fn callback_that_is_no_url_is_unparseable() {
    assert_eq!(outcome_of_callback(":99999/"), LoopbackOutcome::CallbackUrlUnparseable);
    assert_eq!(outcome_of_callback(":x/?code=abc"), LoopbackOutcome::CallbackUrlUnparseable);
    assert_eq!(outcome_of_callback(" /?code=abc"), LoopbackOutcome::CallbackUrlUnparseable);
}

#[test]
fn callback_url_stands_on_the_local_host() {
    assert_eq!(CALLBACK_BASE, "http://localhost");
    assert_eq!(callback_url("/?code=abc"), "http://localhost/?code=abc");
    assert_eq!(callback_url(""), "http://localhost");
}

#[test]
fn absolute_urls_are_told_from_other_text() {
    assert!(is_absolute_url("http://localhost/?code=abc"));
    assert!(is_absolute_url("mailto:someone@example.com"));
    assert!(!is_absolute_url("/?code=abc"));
    assert!(!is_absolute_url("http://"));
    assert!(!is_absolute_url(""));
}

#[test]
fn callback_query_lists_the_pairs_in_order() {
    assert_eq!(
        callback_query("/?a=1&b=two%20words&a=3"),
        Some(vec![pair("a", "1"), pair("b", "two words"), pair("a", "3")])
    );
    assert_eq!(callback_query("/"), Some(vec![]));
    assert_eq!(callback_query(":99999/"), None);
}

#[test]
fn code_in_picks_the_first_pair_named_code() {
    assert_eq!(code_in(&vec![]), None);
    assert_eq!(code_in(&vec![pair("state", "s")]), None);
    assert_eq!(
        code_in(&vec![pair("state", "s"), pair("code", "c1"), pair("code", "c2")]),
        Some("c1".to_string())
    );
    assert_eq!(code_in(&vec![pair("code", "")]), Some(String::new()));
    assert_eq!(code_in(&vec![pair("codes", "x"), pair("cod", "y")]), None);
}

#[test]
fn outcome_from_query_covers_the_three_cases() {
    assert_eq!(outcome_from_query(&None), LoopbackOutcome::CallbackUrlUnparseable);
    assert_eq!(outcome_from_query(&Some(vec![])), LoopbackOutcome::CodeMissingInCallback);
    assert_eq!(
        outcome_from_query(&Some(vec![pair("error", "denied")])),
        LoopbackOutcome::CodeMissingInCallback
    );
    assert_eq!(
        outcome_from_query(&Some(vec![pair("code", "X")])),
        LoopbackOutcome::Code("X".to_string())
    );
}

#[test]
fn listener_on_a_busy_port_ends_with_port_in_use() {
    let listener = Listener::start();
    assert_eq!(listener.step(REDIRECT_PORT), Some(ListenerStep::ProbePort { port: 8080 }));
    let listener = listener.on_event(ListenerEvent::PortProbed { free: false });
    assert_eq!(listener.step(REDIRECT_PORT), None);
    assert_eq!(listener.outcome(), Some(LoopbackOutcome::PortInUse));
}

#[test]
fn listener_that_cannot_start_ends_with_server_start_failed() {
    let listener = Listener::start().on_event(ListenerEvent::PortProbed { free: true });
    assert_eq!(listener.step(9000), Some(ListenerStep::StartServer { port: 9000 }));
    let listener = listener.on_event(ListenerEvent::ServerStarted { started: false });
    assert_eq!(listener.step(9000), None);
    assert_eq!(listener.outcome(), Some(LoopbackOutcome::ServerStartFailed));
}

#[test]
fn listener_that_receives_nothing_closes_and_fails() {
    let listener = listening();
    assert_eq!(listener.step(REDIRECT_PORT), Some(ListenerStep::ReceiveRequest));
    let listener = listener.on_event(ListenerEvent::RequestReceived { target: None });
    assert_eq!(listener.step(REDIRECT_PORT), Some(ListenerStep::CloseServer));
    assert_eq!(listener.clone().outcome(), None);
    let listener = listener.on_event(ListenerEvent::ServerClosed);
    assert_eq!(listener.outcome(), Some(LoopbackOutcome::ReceiveFailed));
}

#[test]
fn listener_answers_then_closes_then_gives_the_code() {
    let listener = listening().on_event(received("/?code=X"));
    assert_eq!(listener, Listener::Responding(LoopbackOutcome::Code("X".to_string())));
    assert_eq!(listener.step(REDIRECT_PORT), Some(ListenerStep::SendPage));
    let listener = listener.on_event(ListenerEvent::PageSent { sent: true });
    assert_eq!(listener.step(REDIRECT_PORT), Some(ListenerStep::CloseServer));
    let listener = listener.on_event(ListenerEvent::ServerClosed);
    assert_eq!(listener.step(REDIRECT_PORT), None);
    assert_eq!(listener.outcome(), Some(LoopbackOutcome::Code("X".to_string())));
}

#[test]
fn listener_answers_a_callback_without_a_code_too() {
    let listener = listening().on_event(received("/?error=access_denied"));
    assert_eq!(listener.step(REDIRECT_PORT), Some(ListenerStep::SendPage));
    let listener = listener
        .on_event(ListenerEvent::PageSent { sent: true })
        .on_event(ListenerEvent::ServerClosed);
    assert_eq!(listener.outcome(), Some(LoopbackOutcome::CodeMissingInCallback));
}

#[test]
fn listener_answers_an_unparseable_callback_too() {
    let listener = listening().on_event(received(":99999/"));
    assert_eq!(listener.step(REDIRECT_PORT), Some(ListenerStep::SendPage));
    let listener = listener
        .on_event(ListenerEvent::PageSent { sent: true })
        .on_event(ListenerEvent::ServerClosed);
    assert_eq!(listener.outcome(), Some(LoopbackOutcome::CallbackUrlUnparseable));
}

#[test]
fn listener_outcome_does_not_depend_on_the_page_being_sent() {
    let listener = listening()
        .on_event(received("/?code=X"))
        .on_event(ListenerEvent::PageSent { sent: false })
        .on_event(ListenerEvent::ServerClosed);
    assert_eq!(listener.outcome(), Some(LoopbackOutcome::Code("X".to_string())));
}

#[test]
fn listener_ignores_events_that_are_not_due() {
    let listener = Listener::start().on_event(ListenerEvent::ServerClosed);
    assert_eq!(listener, Listener::Probing);
    let listener = listener.on_event(received("/?code=X"));
    assert_eq!(listener, Listener::Probing);
    let listener = listening().on_event(ListenerEvent::PortProbed { free: false });
    assert_eq!(listener, Listener::Receiving);
    let listener = listener.on_event(received("/?code=X")).on_event(received("/?code=Y"));
    assert_eq!(listener, Listener::Responding(LoopbackOutcome::Code("X".to_string())));
}

#[test]
fn listener_that_has_finished_stays_finished() {
    let listener = Listener::start().on_event(ListenerEvent::PortProbed { free: false });
    let listener = listener
        .on_event(ListenerEvent::PortProbed { free: true })
        .on_event(ListenerEvent::ServerStarted { started: true })
        .on_event(received("/?code=X"))
        .on_event(ListenerEvent::ServerClosed);
    assert_eq!(listener, Listener::Finished(LoopbackOutcome::PortInUse));
}

#[test]
fn confirmation_page_is_the_fixed_page() {
    assert_eq!(CONFIRMATION_STATUS, 200);
    assert_eq!(REDIRECT_PORT, 8080);
    assert_eq!(LISTEN_ADDRESS, "127.0.0.1");
    assert!(CONFIRMATION_PAGE.contains("<title>ログイン完了</title>"));
    assert!(CONFIRMATION_PAGE.contains("<h1>ログインが完了しました</h1>"));
    assert!(CONFIRMATION_PAGE.contains("<p>このウィンドウを閉じてください。</p>"));
    assert!(CONFIRMATION_PAGE.contains("h1 { color: #4CAF50; }"));
    assert!(CONFIRMATION_PAGE.trim_start().starts_with("<html>"));
    assert!(CONFIRMATION_PAGE.trim_end().ends_with("</html>"));
}

#[test]
fn wait_for_redirect_code_steps_through_one_attempt() {
    let port = 8123;
    let listener = Listener::start();
    let (listener, due) =
        wait_for_redirect_code(listener, ListenerEvent::PortProbed { free: true }, port);
    assert_eq!(due, Some(ListenerStep::StartServer { port: 8123 }));
    let (listener, due) =
        wait_for_redirect_code(listener, ListenerEvent::ServerStarted { started: true }, port);
    assert_eq!(due, Some(ListenerStep::ReceiveRequest));
    let (listener, due) = wait_for_redirect_code(listener, received("/?code=Q"), port);
    assert_eq!(due, Some(ListenerStep::SendPage));
    let (listener, due) =
        wait_for_redirect_code(listener, ListenerEvent::PageSent { sent: true }, port);
    assert_eq!(due, Some(ListenerStep::CloseServer));
    let (listener, due) = wait_for_redirect_code(listener, ListenerEvent::ServerClosed, port);
    assert_eq!(due, None);
    assert_eq!(listener.outcome(), Some(LoopbackOutcome::Code("Q".to_string())));
}

#[test]
fn listener_on_a_busy_port_takes_one_step_and_starts_no_server() {
    let mut steps = Vec::new();
    let mut listener = Listener::start();
    let mut due = listener.step(REDIRECT_PORT);
    while let Some(step) = due {
        steps.push(step);
        let event = match step {
            ListenerStep::ProbePort { .. } => ListenerEvent::PortProbed { free: false },
            ListenerStep::StartServer { .. } => ListenerEvent::ServerStarted { started: true },
            ListenerStep::ReceiveRequest => received("/?code=X"),
            ListenerStep::SendPage => ListenerEvent::PageSent { sent: true },
            ListenerStep::CloseServer => ListenerEvent::ServerClosed,
        };
        (listener, due) = wait_for_redirect_code(listener, event, REDIRECT_PORT);
    }
    assert_eq!(steps, vec![ListenerStep::ProbePort { port: 8080 }]);
    assert_eq!(listener.outcome(), Some(LoopbackOutcome::PortInUse));
}

#[test]
fn listener_takes_five_steps_to_a_code() {
    let mut steps = Vec::new();
    let mut listener = Listener::start();
    let mut due = listener.step(REDIRECT_PORT);
    while let Some(step) = due {
        steps.push(step);
        let event = match step {
            ListenerStep::ProbePort { .. } => ListenerEvent::PortProbed { free: true },
            ListenerStep::StartServer { .. } => ListenerEvent::ServerStarted { started: true },
            ListenerStep::ReceiveRequest => received("/?code=X"),
            ListenerStep::SendPage => ListenerEvent::PageSent { sent: true },
            ListenerStep::CloseServer => ListenerEvent::ServerClosed,
        };
        (listener, due) = wait_for_redirect_code(listener, event, REDIRECT_PORT);
    }
    assert_eq!(
        steps,
        vec![
            ListenerStep::ProbePort { port: 8080 },
            ListenerStep::StartServer { port: 8080 },
            ListenerStep::ReceiveRequest,
            ListenerStep::SendPage,
            ListenerStep::CloseServer,
        ]
    );
    assert_eq!(listener.outcome(), Some(LoopbackOutcome::Code("X".to_string())));
}

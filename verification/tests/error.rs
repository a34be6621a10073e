use shiftbuilder::error::ErrorKind;

fn every_error_kind() -> Vec<ErrorKind> {
    vec![
        ErrorKind::PortInUse,
        ErrorKind::ServerStartFailed,
        ErrorKind::CallbackUrlUnparseable,
        ErrorKind::CodeMissingInCallback,
        ErrorKind::ReceiveFailed,
        ErrorKind::TokenExchangeFailed,
        ErrorKind::IdentityLookupFailed,
        ErrorKind::NoStoredCredential,
        ErrorKind::Expired,
        ErrorKind::CorruptCredentialFile,
        ErrorKind::CredentialSaveFailed,
        ErrorKind::PointerLookupFailed,
        ErrorKind::PointerMalformed,
        ErrorKind::DocumentCreateFailed,
        ErrorKind::PointerCreateFailed,
    ]
}

#[test]
fn error_tags_are_distinct() {
    let kinds = every_error_kind();
    for (i, a) in kinds.iter().enumerate() {
        for (j, b) in kinds.iter().enumerate() {
            if i != j {
                assert_ne!(a.tag(), b.tag());
            }
        }
    }
}

#[test]
fn listener_errors_keep_their_tags() {
    assert_eq!(ErrorKind::PortInUse.tag(), "port_in_use");
    assert_eq!(ErrorKind::ServerStartFailed.tag(), "server_error");
    assert_eq!(ErrorKind::CallbackUrlUnparseable.tag(), "url_parse_error");
    assert_eq!(ErrorKind::CodeMissingInCallback.tag(), "missing_code");
    assert_eq!(ErrorKind::ReceiveFailed.tag(), "error_code");
}

#[test]
fn error_messages_are_fixed() {
    assert_eq!(
        ErrorKind::PortInUse.message(),
        "ポート8080が既に使用されています。他のアプリケーションを終了してください。"
    );
    assert_eq!(ErrorKind::ServerStartFailed.message(), "サーバーの起動に失敗しました。");
    assert_eq!(ErrorKind::CallbackUrlUnparseable.message(), "URLの解析に失敗しました。");
    assert_eq!(ErrorKind::CodeMissingInCallback.message(), "認証コードの取得に失敗しました。");
    assert_eq!(ErrorKind::ReceiveFailed.message(), "認証コードの取得に失敗しました。");
    assert_eq!(ErrorKind::NoStoredCredential.message(), "保存されたトークンがありません");
    assert_eq!(ErrorKind::Expired.message(), "トークンの有効期限が切れています");
    for kind in every_error_kind() {
        assert!(!kind.message().is_empty());
        assert_eq!(kind.message(), kind.message());
    }
}

//! The ways in which signing in and resolving the backing document fail.

use vstd::prelude::*;
use vstd::string::StringExecFns;

verus! {

/// One category per failure. Nothing is retried: the first failure of an attempt
/// is its result.
#[derive(Debug, Clone, Copy, PartialEq, Eq, Structural)]
pub enum ErrorKind {
    /// The callback port is held by another listener.
    PortInUse,
    /// The callback listener could not be started on a free port.
    ServerStartFailed,
    /// The callback's address could not be read as a URL.
    CallbackUrlUnparseable,
    /// The callback carried no `code` parameter.
    CodeMissingInCallback,
    /// No callback could be received.
    ReceiveFailed,
    /// The identity provider did not exchange the code for a token.
    TokenExchangeFailed,
    /// The account behind the token could not be looked up.
    IdentityLookupFailed,
    /// No credential is stored on this installation.
    NoStoredCredential,
    /// The stored credential is past its expiry.
    Expired,
    /// The stored credential could not be read back.
    CorruptCredentialFile,
    /// The new credential could not be written.
    CredentialSaveFailed,
    /// The pointer file was found but its content could not be fetched.
    PointerLookupFailed,
    /// The pointer file does not name a spreadsheet.
    PointerMalformed,
    /// The remote store did not create the spreadsheet.
    DocumentCreateFailed,
    /// The spreadsheet exists but the pointer to it could not be stored.
    PointerCreateFailed,
}

impl ErrorKind {
    /// The category's tag.
    pub open spec fn tag_text(self) -> Seq<char> {
        match self {
            ErrorKind::PortInUse => "port_in_use"@,
            ErrorKind::ServerStartFailed => "server_error"@,
            ErrorKind::CallbackUrlUnparseable => "url_parse_error"@,
            ErrorKind::CodeMissingInCallback => "missing_code"@,
            ErrorKind::ReceiveFailed => "error_code"@,
            ErrorKind::TokenExchangeFailed => "token_exchange_failed"@,
            ErrorKind::IdentityLookupFailed => "identity_lookup_failed"@,
            ErrorKind::NoStoredCredential => "no_stored_credential"@,
            ErrorKind::Expired => "expired"@,
            ErrorKind::CorruptCredentialFile => "corrupt_credential_file"@,
            ErrorKind::CredentialSaveFailed => "credential_save_failed"@,
            ErrorKind::PointerLookupFailed => "pointer_lookup_failed"@,
            ErrorKind::PointerMalformed => "pointer_malformed"@,
            ErrorKind::DocumentCreateFailed => "document_create_failed"@,
            ErrorKind::PointerCreateFailed => "pointer_create_failed"@,
        }
    }

    /// The message shown to the user for the category.
    pub open spec fn message_text(self) -> Seq<char> {
        match self {
            ErrorKind::PortInUse =>
                "ポート8080が既に使用されています。他のアプリケーションを終了してください。"@,
            ErrorKind::ServerStartFailed => "サーバーの起動に失敗しました。"@,
            ErrorKind::CallbackUrlUnparseable => "URLの解析に失敗しました。"@,
            ErrorKind::CodeMissingInCallback => "認証コードの取得に失敗しました。"@,
            ErrorKind::ReceiveFailed => "認証コードの取得に失敗しました。"@,
            ErrorKind::TokenExchangeFailed => "トークン取得失敗"@,
            ErrorKind::IdentityLookupFailed => "ユーザー情報取得失敗"@,
            ErrorKind::NoStoredCredential => "保存されたトークンがありません"@,
            ErrorKind::Expired => "トークンの有効期限が切れています"@,
            ErrorKind::CorruptCredentialFile => "トークンのデシリアライズに失敗"@,
            ErrorKind::CredentialSaveFailed => "トークンの保存に失敗"@,
            ErrorKind::PointerLookupFailed => "ファイル取得失敗"@,
            ErrorKind::PointerMalformed => "spreadsheet_idが見つかりません"@,
            ErrorKind::DocumentCreateFailed => "スプレッドシートの作成に失敗"@,
            ErrorKind::PointerCreateFailed => "Drive保存失敗"@,
        }
    }

    /// The category's tag.
    pub fn tag(&self) -> (r: &'static str)
        ensures
            r@ == self.tag_text(),
    {
        match self {
            ErrorKind::PortInUse => "port_in_use",
            ErrorKind::ServerStartFailed => "server_error",
            ErrorKind::CallbackUrlUnparseable => "url_parse_error",
            ErrorKind::CodeMissingInCallback => "missing_code",
            ErrorKind::ReceiveFailed => "error_code",
            ErrorKind::TokenExchangeFailed => "token_exchange_failed",
            ErrorKind::IdentityLookupFailed => "identity_lookup_failed",
            ErrorKind::NoStoredCredential => "no_stored_credential",
            ErrorKind::Expired => "expired",
            ErrorKind::CorruptCredentialFile => "corrupt_credential_file",
            ErrorKind::CredentialSaveFailed => "credential_save_failed",
            ErrorKind::PointerLookupFailed => "pointer_lookup_failed",
            ErrorKind::PointerMalformed => "pointer_malformed",
            ErrorKind::DocumentCreateFailed => "document_create_failed",
            ErrorKind::PointerCreateFailed => "pointer_create_failed",
        }
    }

    /// The message shown to the user for the category.
    pub fn message(&self) -> (r: String)
        ensures
            r@ == self.message_text(),
    {
        match self {
            ErrorKind::PortInUse => String::from_str(
                "ポート8080が既に使用されています。他のアプリケーションを終了してください。",
            ),
            ErrorKind::ServerStartFailed => String::from_str("サーバーの起動に失敗しました。"),
            ErrorKind::CallbackUrlUnparseable => String::from_str("URLの解析に失敗しました。"),
            ErrorKind::CodeMissingInCallback => String::from_str("認証コードの取得に失敗しました。"),
            ErrorKind::ReceiveFailed => String::from_str("認証コードの取得に失敗しました。"),
            ErrorKind::TokenExchangeFailed => String::from_str("トークン取得失敗"),
            ErrorKind::IdentityLookupFailed => String::from_str("ユーザー情報取得失敗"),
            ErrorKind::NoStoredCredential => String::from_str("保存されたトークンがありません"),
            ErrorKind::Expired => String::from_str("トークンの有効期限が切れています"),
            ErrorKind::CorruptCredentialFile => String::from_str("トークンのデシリアライズに失敗"),
            ErrorKind::CredentialSaveFailed => String::from_str("トークンの保存に失敗"),
            ErrorKind::PointerLookupFailed => String::from_str("ファイル取得失敗"),
            ErrorKind::PointerMalformed => String::from_str("spreadsheet_idが見つかりません"),
            ErrorKind::DocumentCreateFailed => String::from_str("スプレッドシートの作成に失敗"),
            ErrorKind::PointerCreateFailed => String::from_str("Drive保存失敗"),
        }
    }
}

} // verus!

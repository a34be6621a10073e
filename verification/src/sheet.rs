//! The spreadsheet that holds the application's data, and the sheets in it.

use crate::drive::{
    file_content_url, file_listing_url, found_file, get_file_content, get_file_content_request,
    get_file_id, get_file_id_request, load_from_sheet_config, pointer_target,
    pointer_text_target,
};
use crate::error::ErrorKind;
use crate::http::{
    call_view, rejection, rejection_of, reply_text, status_is_success, FormPart, FormPartView,
    HttpReply, RemoteCall, RemoteCallView,
};
use crate::json::{
    and_member, element_at, element_in, int_at, int_in, items_in, json_of_text, list_with,
    member_at, member_in, member_of, models_of, object_with, parse_json, text_at, text_in, Json,
    JsonModel,
};
use crate::text::join3;
use vstd::prelude::*;
use vstd::string::StringExecFns;

verus! {

/// The name of the pointer file.
pub const CONFIG_FILE_NAME: &'static str = "shiftbuilder_config.json";

/// The title of the spreadsheet.
pub const BOOK_NAME: &'static str = "shiftbuilder_data";

/// The address under which spreadsheets are created and read.
pub const SHEET_URL: &'static str = "https://sheets.googleapis.com/v4/spreadsheets";

/// The address to which files are uploaded.
pub const UPLOAD_URL: &'static str =
    "https://www.googleapis.com/upload/drive/v3/files?uploadType=multipart";

/// The content type of the pointer file, and of what describes it.
pub const POINTER_MIME_TYPE: &'static str = "application/json";

/// The name of the form part that describes an uploaded file.
pub const METADATA_PART: &'static str = "metadata";

/// The name of the form part that holds an uploaded file.
pub const MEDIA_PART: &'static str = "media";

/// The folder that holds the pointer file.
pub const POINTER_FOLDER: &'static str = "appDataFolder";

/// The ways in which work on the sheets of a spreadsheet fails.
#[derive(Debug, Clone, Copy, PartialEq, Eq, Structural)]
pub enum SheetError {
    /// No reply arrived.
    RequestFailed,
    /// The service answered with a status outside the success class.
    ApiRejected,
    /// The reply is no JSON, or lacks what every such reply has.
    ReplyMalformed,
    /// The spreadsheet's description holds no list of sheets.
    SheetsMissing,
    /// No sheet has the title asked for.
    SheetNotFound,
    /// The sheet is there but the reply gives no id for it.
    SheetIdMissing,
}

impl SheetError {
    /// The message shown to the user for the failure, `sheet_name` being the
    /// title that was asked for.
    pub open spec fn message_text(self, sheet_name: Seq<char>) -> Seq<char> {
        match self {
            SheetError::RequestFailed => "リクエストに失敗"@,
            SheetError::ApiRejected => "APIエラー"@,
            SheetError::ReplyMalformed => "JSONの解析に失敗"@,
            SheetError::SheetsMissing => "sheetsが存在しません"@,
            SheetError::SheetNotFound => "シート '"@ + sheet_name + "' が見つかりませんでした"@,
            SheetError::SheetIdMissing => "sheetIdの取得に失敗しました"@,
        }
    }

    /// The message shown to the user for the failure.
    pub fn message(&self, sheet_name: &str) -> (r: String)
        ensures
            r@ == self.message_text(sheet_name@),
    {
        match self {
            SheetError::RequestFailed => String::from_str("リクエストに失敗"),
            SheetError::ApiRejected => String::from_str("APIエラー"),
            SheetError::ReplyMalformed => String::from_str("JSONの解析に失敗"),
            SheetError::SheetsMissing => String::from_str("sheetsが存在しません"),
            SheetError::SheetNotFound => join3("シート '", sheet_name, "' が見つかりませんでした"),
            SheetError::SheetIdMissing => String::from_str("sheetIdの取得に失敗しました"),
        }
    }
}

/// The requests on a spreadsheet that the service may refuse.
#[derive(Debug, Clone, Copy, PartialEq, Eq, Structural)]
pub enum SheetOperation {
    /// Adding a sheet.
    AddSheet,
    /// Deleting a sheet.
    RemoveSheet,
    /// Listing the sheets.
    ListSheets,
    /// Asking for the spreadsheet by its title.
    GetBook,
}

impl SheetOperation {
    /// How the message for a refusal of this request begins.
    pub open spec fn refusal_text(self) -> Seq<char> {
        match self {
            SheetOperation::AddSheet => "APIエラー"@,
            SheetOperation::RemoveSheet => "削除失敗"@,
            SheetOperation::ListSheets => "シート一覧取得失敗"@,
            SheetOperation::GetBook => "スプレッドシートの取得に失敗"@,
        }
    }

    /// How the message for a refusal of this request begins.
    pub fn refusal(&self) -> (r: &'static str)
        ensures
            r@ == self.refusal_text(),
    {
        match self {
            SheetOperation::AddSheet => "APIエラー",
            SheetOperation::RemoveSheet => "削除失敗",
            SheetOperation::ListSheets => "シート一覧取得失敗",
            SheetOperation::GetBook => "スプレッドシートの取得に失敗",
        }
    }
}

/// The message for the failure `error` of `operation`, `reply` being the reply
/// that ended it. A refusal by the service is reported with what the service
/// said: the beginning for the request, `": "`, and the reply's body. Every
/// other failure has its fixed message.
pub open spec fn failure_text(
    operation: SheetOperation,
    error: SheetError,
    sheet_name: Seq<char>,
    reply: Option<HttpReply>,
) -> Seq<char> {
    match (error, rejection_of(reply)) {
        (SheetError::ApiRejected, Some(said)) => operation.refusal_text() + ": "@ + said,
        (SheetError::ApiRejected, None) => operation.refusal_text(),
        _ => error.message_text(sheet_name),
    }
}

/// Words the failure `error` of `operation` for the user, with what the service
/// said where it refused.
pub fn failure_message(
    operation: SheetOperation,
    error: SheetError,
    sheet_name: &str,
    reply: &Option<HttpReply>,
) -> (r: String)
    ensures
        r@ == failure_text(operation, error, sheet_name@, *reply),
{
    match error {
        SheetError::ApiRejected => match rejection(reply) {
            Some(said) => join3(operation.refusal(), ": ", said.as_str()),
            None => String::from_str(operation.refusal()),
        },
        _ => error.message(sheet_name),
    }
}

/// The message for the failure `error` of finding or creating the spreadsheet,
/// `reply` being the reply that ended the attempt. Where the service refused to
/// create the spreadsheet or to store the pointer, the message ends with `": "`
/// and what the service said.
pub open spec fn resolution_failure_text(error: ErrorKind, reply: Option<HttpReply>) -> Seq<char> {
    match (error, rejection_of(reply)) {
        (ErrorKind::DocumentCreateFailed, Some(said)) => error.message_text() + ": "@ + said,
        (ErrorKind::PointerCreateFailed, Some(said)) => error.message_text() + ": "@ + said,
        _ => error.message_text(),
    }
}

/// Words the failure `error` of finding or creating the spreadsheet for the
/// user, with what the service said where it refused.
pub fn resolution_failure_message(error: ErrorKind, reply: &Option<HttpReply>) -> (r: String)
    ensures
        r@ == resolution_failure_text(error, *reply),
{
    let fixed = error.message();
    match error {
        ErrorKind::DocumentCreateFailed | ErrorKind::PointerCreateFailed => match rejection(reply) {
            Some(said) => join3(fixed.as_str(), ": ", said.as_str()),
            None => fixed,
        },
        _ => fixed,
    }
}

/// A spreadsheet as the service describes it on creation.
#[derive(Debug, Clone, PartialEq, Eq)]
pub struct CreatedBook {
    pub spreadsheet_id: String,
    pub spreadsheet_url: String,
}

/// The address of the description of the sheets of `book_id`.
pub open spec fn sheet_info_url(book_id: Seq<char>) -> Seq<char> {
    "https://sheets.googleapis.com/v4/spreadsheets/"@ + book_id + "?fields=sheets.properties"@
}

/// The address that takes batch updates of `book_id`.
pub open spec fn batch_update_url(book_id: Seq<char>) -> Seq<char> {
    "https://sheets.googleapis.com/v4/spreadsheets/"@ + book_id + ":batchUpdate"@
}

/// The address that [`get_book_id_request`] asks.
pub open spec fn book_lookup_url() -> Seq<char> {
    SHEET_URL@ + "?q="@ + BOOK_NAME@ + "&spaces=appDataFolder&fields=files(id,name)"@
}

/// The body that asks for a new spreadsheet: `{"properties": {"title": ..}}` with
/// [`BOOK_NAME`] as the title.
pub open spec fn create_book_body() -> JsonModel {
    object_with("properties"@, object_with("title"@, JsonModel::Text(BOOK_NAME@)))
}

/// The request that creates the spreadsheet.
pub fn create_book_request() -> (r: RemoteCall)
    ensures
        r@ == (RemoteCallView::PostJson { url: SHEET_URL@, body: create_book_body() }),
{
    RemoteCall::PostJson {
        url: String::from_str(SHEET_URL),
        body: Json::object_with("properties", Json::object_with("title", Json::text(BOOK_NAME))),
    }
}

/// The id and the address in the description of a spreadsheet; both are strings
/// there.
pub open spec fn described_book(doc: JsonModel) -> Option<(Seq<char>, Seq<char>)> {
    match (text_in(member_of(doc, "spreadsheetId"@)), text_in(member_of(doc, "spreadsheetUrl"@))) {
        (Some(id), Some(url)) => Some((id, url)),
        _ => None,
    }
}

/// Reads the description of a spreadsheet.
pub fn created_book(doc: &Json) -> (r: Option<CreatedBook>)
    ensures
        match r {
            Some(book) => described_book(doc.model()) == Some(
                (book.spreadsheet_id@, book.spreadsheet_url@),
            ),
            None => described_book(doc.model()) is None,
        },
{
    match text_at(doc.member("spreadsheetId")) {
        Some(spreadsheet_id) => match text_at(doc.member("spreadsheetUrl")) {
            Some(spreadsheet_url) => Some(CreatedBook { spreadsheet_id, spreadsheet_url }),
            None => None,
        },
        None => None,
    }
}

/// The spreadsheet that a reply describes: the reply arrived with a status in the
/// success class and its body is the description of a spreadsheet.
pub open spec fn book_in_reply(reply: Option<HttpReply>) -> Option<(Seq<char>, Seq<char>)> {
    match reply {
        Some(r) => if status_is_success(r.status) {
            match json_of_text(r.body@) {
                Some(doc) => described_book(doc),
                None => None,
            }
        } else {
            None
        },
        None => None,
    }
}

/// Reads the reply to [`create_book_request`].
pub fn create_book(reply: &Option<HttpReply>) -> (r: Result<CreatedBook, ErrorKind>)
    ensures
        match r {
            Ok(book) => book_in_reply(*reply) == Some(
                (book.spreadsheet_id@, book.spreadsheet_url@),
            ),
            Err(e) => e == ErrorKind::DocumentCreateFailed && book_in_reply(*reply) is None,
        },
{
    match reply {
        Some(r) => {
            if !r.is_success() {
                return Err(ErrorKind::DocumentCreateFailed);
            }
            match parse_json(r.body.as_str()) {
                Some(doc) => match created_book(&doc) {
                    Some(book) => Ok(book),
                    None => Err(ErrorKind::DocumentCreateFailed),
                },
                None => Err(ErrorKind::DocumentCreateFailed),
            }
        },
        None => Err(ErrorKind::DocumentCreateFailed),
    }
}

/// What describes the pointer file: its name, its content type, and the folder
/// that holds it.
pub open spec fn pointer_metadata() -> JsonModel {
    and_member(
        and_member(
            object_with("name"@, JsonModel::Text(CONFIG_FILE_NAME@)),
            "mimeType"@,
            JsonModel::Text(POINTER_MIME_TYPE@),
        ),
        "parents"@,
        list_with(JsonModel::Text(POINTER_FOLDER@)),
    )
}

/// What the pointer file holds for `spreadsheet_id`: `{"spreadsheet_id": ..}`.
pub open spec fn pointer_content(spreadsheet_id: Seq<char>) -> JsonModel {
    object_with("spreadsheet_id"@, JsonModel::Text(spreadsheet_id))
}

/// The upload that stores a pointer file with the content `content`.
pub open spec fn pointer_upload(content: JsonModel) -> RemoteCallView {
    RemoteCallView::Upload {
        url: UPLOAD_URL@,
        metadata: FormPartView {
            name: METADATA_PART@,
            mime_type: POINTER_MIME_TYPE@,
            content: pointer_metadata(),
        },
        media: FormPartView { name: MEDIA_PART@, mime_type: POINTER_MIME_TYPE@, content },
    }
}

/// The request that stores the pointer to `spreadsheet_id`.
pub fn upload_config_request(spreadsheet_id: &str) -> (r: RemoteCall)
    ensures
        r@ == pointer_upload(pointer_content(spreadsheet_id@)),
{
    let metadata = Json::object_with("name", Json::text(CONFIG_FILE_NAME)).and_member(
        "mimeType",
        Json::text(POINTER_MIME_TYPE),
    ).and_member("parents", Json::list_with(Json::text(POINTER_FOLDER)));
    RemoteCall::Upload {
        url: String::from_str(UPLOAD_URL),
        metadata: FormPart {
            name: String::from_str(METADATA_PART),
            mime_type: String::from_str(POINTER_MIME_TYPE),
            content: metadata,
        },
        media: FormPart {
            name: String::from_str(MEDIA_PART),
            mime_type: String::from_str(POINTER_MIME_TYPE),
            content: Json::object_with("spreadsheet_id", Json::text(spreadsheet_id)),
        },
    }
}

/// A stored pointer names the spreadsheet it was stored for.
pub proof fn lemma_pointer_content_names_its_spreadsheet(spreadsheet_id: Seq<char>)
    ensures
        pointer_target(pointer_content(spreadsheet_id)) == Some(spreadsheet_id),
{
    let members = seq![("spreadsheet_id"@, JsonModel::Text(spreadsheet_id))];
    assert(members[0].0 == "spreadsheet_id"@);
}

/// Whether a reply arrived with a status in the success class.
pub open spec fn accepted(reply: Option<HttpReply>) -> bool {
    match reply {
        Some(r) => status_is_success(r.status),
        None => false,
    }
}

/// Reads the reply to [`upload_config_request`].
pub fn upload_config_to_drive(reply: &Option<HttpReply>) -> (r: Result<(), ErrorKind>)
    ensures
        r == if accepted(*reply) {
            Ok::<(), ErrorKind>(())
        } else {
            Err::<(), ErrorKind>(ErrorKind::PointerCreateFailed)
        },
{
    match reply {
        Some(r) => if r.is_success() {
            Ok(())
        } else {
            Err(ErrorKind::PointerCreateFailed)
        },
        None => Err(ErrorKind::PointerCreateFailed),
    }
}

/// The request that asks for the spreadsheet by its title.
pub fn get_book_id_request() -> (r: RemoteCall)
    ensures
        r@ == (RemoteCallView::Get { url: book_lookup_url() }),
{
    let head = join3(SHEET_URL, "?q=", BOOK_NAME);
    let mut url = head;
    url.append("&spaces=appDataFolder&fields=files(id,name)");
    assert(url@ =~= book_lookup_url());
    RemoteCall::Get { url }
}

/// What a reply to [`get_book_id_request`] yields.
pub open spec fn book_id_outcome(reply: Option<HttpReply>) -> Result<Seq<char>, SheetError> {
    match reply {
        None => Err(SheetError::RequestFailed),
        Some(r) => if !status_is_success(r.status) {
            Err(SheetError::ApiRejected)
        } else {
            match book_in_reply(reply) {
                Some(book) => Ok(book.0),
                None => Err(SheetError::ReplyMalformed),
            }
        },
    }
}

/// Reads the reply to [`get_book_id_request`].
pub fn get_book_id(reply: &Option<HttpReply>) -> (r: Result<String, SheetError>)
    ensures
        match r {
            Ok(id) => book_id_outcome(*reply) == Ok::<Seq<char>, SheetError>(id@),
            Err(e) => book_id_outcome(*reply) == Err::<Seq<char>, SheetError>(e),
        },
{
    match reply {
        None => Err(SheetError::RequestFailed),
        Some(r) => {
            if !r.is_success() {
                return Err(SheetError::ApiRejected);
            }
            match create_book(reply) {
                Ok(book) => Ok(book.spreadsheet_id),
                Err(_) => Err(SheetError::ReplyMalformed),
            }
        },
    }
}

/// The batch update that adds a sheet titled `title`:
/// `{"requests": [{"addSheet": {"properties": {"title": ..}}}]}`.
pub open spec fn add_sheet_body(title: Seq<char>) -> JsonModel {
    object_with(
        "requests"@,
        list_with(
            object_with(
                "addSheet"@,
                object_with("properties"@, object_with("title"@, JsonModel::Text(title))),
            ),
        ),
    )
}

/// The request that adds a sheet titled `sheet_name` to `book_id`.
pub fn add_sheet_request(book_id: &str, sheet_name: &str) -> (r: RemoteCall)
    ensures
        r@ == (RemoteCallView::PostJson {
            url: batch_update_url(book_id@),
            body: add_sheet_body(sheet_name@),
        }),
{
    let properties = Json::object_with("title", Json::text(sheet_name));
    let added = Json::object_with("addSheet", Json::object_with("properties", properties));
    RemoteCall::PostJson {
        url: join3("https://sheets.googleapis.com/v4/spreadsheets/", book_id, ":batchUpdate"),
        body: Json::object_with("requests", Json::list_with(added)),
    }
}

/// The id of the sheet that the first reply of a batch update reports as added.
pub open spec fn added_sheet_id(doc: JsonModel) -> Option<i64> {
    int_in(
        member_in(
            member_in(
                member_in(element_in(member_of(doc, "replies"@), 0), "addSheet"@),
                "properties"@,
            ),
            "sheetId"@,
        ),
    )
}

/// Reads the id of the added sheet from the reply to a batch update.
pub fn new_sheet_id(doc: &Json) -> (r: Option<i64>)
    ensures
        r == added_sheet_id(doc.model()),
{
    int_at(
        member_at(
            member_at(member_at(element_at(doc.member("replies"), 0), "addSheet"), "properties"),
            "sheetId",
        ),
    )
}

/// What a reply to [`add_sheet_request`] yields.
pub open spec fn add_sheet_outcome(reply: Option<HttpReply>) -> Result<i64, SheetError> {
    match reply {
        None => Err(SheetError::RequestFailed),
        Some(r) => if !status_is_success(r.status) {
            Err(SheetError::ApiRejected)
        } else {
            match json_of_text(r.body@) {
                None => Err(SheetError::ReplyMalformed),
                Some(doc) => match added_sheet_id(doc) {
                    Some(id) => Ok(id),
                    None => Err(SheetError::SheetIdMissing),
                },
            }
        },
    }
}

/// Reads the reply to [`add_sheet_request`]: the id of the new sheet.
pub fn add_sheet(reply: &Option<HttpReply>) -> (r: Result<i64, SheetError>)
    ensures
        r == add_sheet_outcome(*reply),
{
    match reply {
        None => Err(SheetError::RequestFailed),
        Some(r) => {
            if !r.is_success() {
                return Err(SheetError::ApiRejected);
            }
            match parse_json(r.body.as_str()) {
                None => Err(SheetError::ReplyMalformed),
                Some(doc) => match new_sheet_id(&doc) {
                    Some(id) => Ok(id),
                    None => Err(SheetError::SheetIdMissing),
                },
            }
        },
    }
}

/// The request that asks for the description of the sheets of `book_id`.
pub fn sheet_info_request(book_id: &str) -> (r: RemoteCall)
    ensures
        r@ == (RemoteCallView::Get { url: sheet_info_url(book_id@) }),
{
    RemoteCall::Get {
        url: join3(
            "https://sheets.googleapis.com/v4/spreadsheets/",
            book_id,
            "?fields=sheets.properties",
        ),
    }
}

/// The batch update that deletes the sheet `sheet_id`:
/// `{"requests": [{"deleteSheet": {"sheetId": ..}}]}`.
pub open spec fn delete_sheet_body(sheet_id: i64) -> JsonModel {
    object_with(
        "requests"@,
        list_with(
            object_with("deleteSheet"@, object_with("sheetId"@, JsonModel::Number(Some(sheet_id)))),
        ),
    )
}

/// The request that deletes the sheet `sheet_id` of `book_id`.
pub fn delete_sheet_request(book_id: &str, sheet_id: i64) -> (r: RemoteCall)
    ensures
        r@ == (RemoteCallView::PostJson {
            url: batch_update_url(book_id@),
            body: delete_sheet_body(sheet_id),
        }),
{
    let target = Json::object_with("sheetId", Json::number(sheet_id));
    let deleted = Json::object_with("deleteSheet", target);
    RemoteCall::PostJson {
        url: join3("https://sheets.googleapis.com/v4/spreadsheets/", book_id, ":batchUpdate"),
        body: Json::object_with("requests", Json::list_with(deleted)),
    }
}

/// The title in the description of one sheet.
pub open spec fn sheet_title(sheet: JsonModel) -> Option<Seq<char>> {
    text_in(member_in(member_of(sheet, "properties"@), "title"@))
}

/// The id in the description of one sheet.
pub open spec fn sheet_id(sheet: JsonModel) -> Option<i64> {
    int_in(member_in(member_of(sheet, "properties"@), "sheetId"@))
}

/// The first sheet titled `name` in a list of descriptions.
pub open spec fn first_titled(sheets: Seq<JsonModel>, name: Seq<char>) -> Option<JsonModel>
    decreases sheets.len(),
{
    if sheets.len() == 0 {
        None
    } else if sheet_title(sheets[0]) == Some(name) {
        Some(sheets[0])
    } else {
        first_titled(sheets.drop_first(), name)
    }
}

/// The id of the sheet titled `name` in the description of a spreadsheet: that of
/// the first sheet with the title.
pub open spec fn titled_sheet_id(doc: JsonModel, name: Seq<char>) -> Result<i64, SheetError> {
    match items_in(member_of(doc, "sheets"@)) {
        None => Err(SheetError::SheetsMissing),
        Some(sheets) => match first_titled(sheets, name) {
            None => Err(SheetError::SheetNotFound),
            Some(sheet) => match sheet_id(sheet) {
                Some(id) => Ok(id),
                None => Err(SheetError::SheetIdMissing),
            },
        },
    }
}

/// Reads the title of one sheet.
fn title_of(sheet: &Json) -> (r: Option<String>)
    ensures
        match r {
            Some(t) => sheet_title(sheet.model()) == Some(t@),
            None => sheet_title(sheet.model()) is None,
        },
{
    text_at(member_at(sheet.member("properties"), "title"))
}

/// Reads the id of one sheet.
fn id_of(sheet: &Json) -> (r: Option<i64>)
    ensures
        r == sheet_id(sheet.model()),
{
    int_at(member_at(sheet.member("properties"), "sheetId"))
}

/// Whether one sheet is titled `name`.
fn is_titled(sheet: &Json, name: &String) -> (r: bool)
    ensures
        r == (sheet_title(sheet.model()) == Some(name@)),
{
    match title_of(sheet) {
        Some(t) => t == *name,
        None => false,
    }
}

/// Looks up the sheet titled `sheet_name` in the description of a spreadsheet.
pub fn find_sheet_id(doc: &Json, sheet_name: &str) -> (r: Result<i64, SheetError>)
    ensures
        r == titled_sheet_id(doc.model(), sheet_name@),
{
    let listed = match doc.member("sheets") {
        Some(j) => j.as_items(),
        None => None,
    };
    match listed {
        None => Err(SheetError::SheetsMissing),
        Some(sheets) => {
            let wanted = sheet_name.to_string();
            let ghost all = models_of(sheets@);
            assert(all.skip(0) == all);
            let mut i: usize = 0;
            while i < sheets.len()
                invariant
                    0 <= i <= sheets@.len(),
                    wanted@ == sheet_name@,
                    all == models_of(sheets@),
                    items_in(member_of(doc.model(), "sheets"@)) == Some(all),
                    first_titled(all, sheet_name@) == first_titled(all.skip(i as int), sheet_name@),
                decreases sheets@.len() - i,
            {
                assert(all.skip(i as int)[0] == sheets@[i as int].model());
                if is_titled(&sheets[i], &wanted) {
                    return match id_of(&sheets[i]) {
                        Some(id) => Ok(id),
                        None => Err(SheetError::SheetIdMissing),
                    };
                }
                assert(all.skip(i as int).drop_first() == all.skip(i + 1));
                i += 1;
            }
            Err(SheetError::SheetNotFound)
        },
    }
}

/// What the reply to [`sheet_info_request`] says of the sheet titled `name`,
/// whatever the reply's status.
pub open spec fn sheet_to_remove(reply: Option<HttpReply>, name: Seq<char>) -> Result<
    i64,
    SheetError,
> {
    match reply {
        None => Err(SheetError::RequestFailed),
        Some(r) => match json_of_text(r.body@) {
            None => Err(SheetError::ReplyMalformed),
            Some(doc) => titled_sheet_id(doc, name),
        },
    }
}

/// What the reply to [`delete_sheet_request`] says.
pub open spec fn deletion_outcome(reply: Option<HttpReply>) -> RemoveSheet {
    match reply {
        None => RemoveSheet::Failed(SheetError::RequestFailed),
        Some(r) => if status_is_success(r.status) {
            RemoveSheet::Removed
        } else {
            RemoveSheet::Failed(SheetError::ApiRejected)
        },
    }
}

/// Removing the sheet with a given title from a spreadsheet: look the title up,
/// then delete the sheet by its id.
#[derive(Debug, Clone, Copy, PartialEq, Eq, Structural)]
pub enum RemoveSheet {
    /// The spreadsheet's sheets are to be asked for.
    FindSheet,
    /// The sheet is known and is to be deleted.
    DeleteSheet { sheet_id: i64 },
    /// The sheet is gone.
    Removed,
    /// The attempt has failed.
    Failed(SheetError),
}

impl RemoveSheet {
    /// The request that is due in this state; none once the attempt has ended.
    pub open spec fn due(self, book_id: Seq<char>) -> Option<RemoteCallView> {
        match self {
            RemoveSheet::FindSheet => Some(RemoteCallView::Get { url: sheet_info_url(book_id) }),
            RemoveSheet::DeleteSheet { sheet_id } => Some(
                RemoteCallView::PostJson {
                    url: batch_update_url(book_id),
                    body: delete_sheet_body(sheet_id),
                },
            ),
            _ => None,
        }
    }

    /// The state after the reply to the request that was due. `None` is a request
    /// that got no reply.
    pub open spec fn after(self, sheet_name: Seq<char>, reply: Option<HttpReply>) -> RemoveSheet {
        match self {
            RemoveSheet::FindSheet => match sheet_to_remove(reply, sheet_name) {
                Ok(sheet_id) => RemoveSheet::DeleteSheet { sheet_id },
                Err(e) => RemoveSheet::Failed(e),
            },
            RemoveSheet::DeleteSheet { .. } => deletion_outcome(reply),
            _ => self,
        }
    }

    /// Whether the attempt has ended.
    pub open spec fn ended(self) -> bool {
        self is Removed || self is Failed
    }

    /// A removal that has not begun.
    pub fn start() -> (r: RemoveSheet)
        ensures
            r == RemoveSheet::FindSheet,
    {
        RemoveSheet::FindSheet
    }

    /// The request to send next, for the spreadsheet `book_id`.
    pub fn request(&self, book_id: &str) -> (r: Option<RemoteCall>)
        ensures
            call_view(r) == self.due(book_id@),
    {
        match self {
            RemoveSheet::FindSheet => Some(sheet_info_request(book_id)),
            RemoveSheet::DeleteSheet { sheet_id } => Some(delete_sheet_request(book_id, *sheet_id)),
            _ => None,
        }
    }

    /// Moves on with the reply to the request that was due.
    pub fn on_reply(self, sheet_name: &str, reply: &Option<HttpReply>) -> (r: RemoveSheet)
        ensures
            r == self.after(sheet_name@, *reply),
    {
        match self {
            RemoveSheet::FindSheet => {
                let found = match reply {
                    None => Err(SheetError::RequestFailed),
                    Some(r) => match parse_json(r.body.as_str()) {
                        None => Err(SheetError::ReplyMalformed),
                        Some(doc) => find_sheet_id(&doc, sheet_name),
                    },
                };
                match found {
                    Ok(sheet_id) => RemoveSheet::DeleteSheet { sheet_id },
                    Err(e) => RemoveSheet::Failed(e),
                }
            },
            RemoveSheet::DeleteSheet { .. } => match reply {
                None => RemoveSheet::Failed(SheetError::RequestFailed),
                Some(r) => if r.is_success() {
                    RemoveSheet::Removed
                } else {
                    RemoveSheet::Failed(SheetError::ApiRejected)
                },
            },
            _ => self,
        }
    }

    /// The result of the attempt, once it has ended.
    pub fn result(&self) -> (r: Option<Result<(), SheetError>>)
        ensures
            r is Some == self.ended(),
            r == Some(Ok::<(), SheetError>(())) <==> self is Removed,
            forall|e: SheetError|
                r == Some(Err::<(), SheetError>(e)) <==> self == RemoveSheet::Failed(e),
    {
        match self {
            RemoveSheet::Removed => Some(Ok(())),
            RemoveSheet::Failed(e) => Some(Err(*e)),
            _ => None,
        }
    }
}

/// The title and the id in the description of one sheet.
pub open spec fn sheet_entry(sheet: JsonModel) -> Option<(Seq<char>, i64)> {
    match (sheet_title(sheet), sheet_id(sheet)) {
        (Some(title), Some(id)) => Some((title, id)),
        _ => None,
    }
}

/// Whether every description in a list gives a title and an id.
pub open spec fn all_described(sheets: Seq<JsonModel>) -> bool {
    forall|i: int| 0 <= i < sheets.len() ==> (#[trigger] sheet_entry(sheets[i])) is Some
}

/// The titles and ids of a list of sheets, in order.
pub open spec fn sheet_entries(sheets: Seq<JsonModel>) -> Seq<(Seq<char>, i64)> {
    Seq::new(sheets.len(), |i: int| sheet_entry(sheets[i]).unwrap())
}

/// The map from title to id that a list of entries builds up from its first entry
/// to its last: where a title comes twice, the later id stands.
pub open spec fn index_of(entries: Seq<(Seq<char>, i64)>) -> Map<Seq<char>, i64>
    decreases entries.len(),
{
    if entries.len() == 0 {
        Map::empty()
    } else {
        index_of(entries.drop_last()).insert(entries.last().0, entries.last().1)
    }
}

/// A list of entries with its titles as sequences.
pub open spec fn entries_view(list: Seq<(String, i64)>) -> Seq<(Seq<char>, i64)> {
    Seq::new(list.len(), |i: int| (list[i].0@, list[i].1))
}

/// Whether no title comes twice in a list of entries.
pub open spec fn distinct_titles(entries: Seq<(Seq<char>, i64)>) -> bool {
    forall|i: int, j: int| 0 <= i < j < entries.len() ==> entries[i].0 != entries[j].0
}

/// The sheets of a spreadsheet by title, from its description. A description
/// without a list of sheets, or with a sheet that lacks a title or an id, is
/// malformed.
pub open spec fn sheets_by_title(doc: JsonModel) -> Result<Map<Seq<char>, i64>, SheetError> {
    match items_in(member_of(doc, "sheets"@)) {
        Some(sheets) => if all_described(sheets) {
            Ok(index_of(sheet_entries(sheets)))
        } else {
            Err(SheetError::ReplyMalformed)
        },
        None => Err(SheetError::ReplyMalformed),
    }
}

/// What a reply to [`sheet_info_request`] yields as the list of sheets.
pub open spec fn listed_sheets(reply: Option<HttpReply>) -> Result<
    Map<Seq<char>, i64>,
    SheetError,
> {
    match reply {
        None => Err(SheetError::RequestFailed),
        Some(r) => if !status_is_success(r.status) {
            Err(SheetError::ApiRejected)
        } else {
            match json_of_text(r.body@) {
                None => Err(SheetError::ReplyMalformed),
                Some(doc) => sheets_by_title(doc),
            }
        },
    }
}

/// Giving a listed title a new id in place is the same as recording the id under
/// the title.
proof fn lemma_index_of_update(entries: Seq<(Seq<char>, i64)>, at: int, id: i64)
    requires
        0 <= at < entries.len(),
        distinct_titles(entries),
    ensures
        index_of(entries.update(at, (entries[at].0, id))) == index_of(entries).insert(
            entries[at].0,
            id,
        ),
    decreases entries.len(),
{
    let title = entries[at].0;
    let updated = entries.update(at, (title, id));
    let rest = entries.drop_last();
    if at == entries.len() - 1 {
        assert(updated.drop_last() == rest);
        assert(index_of(updated) =~= index_of(entries).insert(title, id));
    } else {
        assert(updated.drop_last() == rest.update(at, (title, id)));
        assert(rest[at] == entries[at]);
        lemma_index_of_update(rest, at, id);
        assert(entries.last().0 != title);
        assert(updated.last() == entries.last());
        assert(index_of(updated) =~= index_of(entries).insert(title, id));
    }
}

/// Records `id` under `title`: in place where the title is listed, at the end
/// where it is not.
fn record_sheet(list: &mut Vec<(String, i64)>, title: String, id: i64)
    requires
        distinct_titles(entries_view(old(list)@)),
    ensures
        distinct_titles(entries_view(final(list)@)),
        index_of(entries_view(final(list)@)) == index_of(entries_view(old(list)@)).insert(
            title@,
            id,
        ),
{
    let ghost before = entries_view(list@);
    let mut j: usize = 0;
    while j < list.len()
        invariant
            0 <= j <= list@.len(),
            list@ == old(list)@,
            before == entries_view(list@),
            distinct_titles(before),
            forall|k: int| 0 <= k < j ==> before[k].0 != title@,
        decreases list@.len() - j,
    {
        if list[j].0 == title {
            proof {
                lemma_index_of_update(before, j as int, id);
            }
            list[j] = (title, id);
            assert(entries_view(list@) =~= before.update(j as int, (before[j as int].0, id)));
            return ;
        }
        j += 1;
    }
    list.push((title, id));
    let ghost after = entries_view(list@);
    assert(after.drop_last() =~= before);
    assert forall|a: int, b: int| 0 <= a < b < after.len() implies after[a].0 != after[b].0 by {
        assert(after[a] == before[a]);
        if b < before.len() {
            assert(after[b] == before[b]);
        }
    }
}

/// Reads the sheets of a spreadsheet from its description: one entry for each
/// title, with the id that [`sheets_by_title`] gives it.
pub fn sheet_index(doc: &Json) -> (r: Result<Vec<(String, i64)>, SheetError>)
    ensures
        match r {
            Ok(list) => distinct_titles(entries_view(list@)) && sheets_by_title(doc.model())
                == Ok::<Map<Seq<char>, i64>, SheetError>(index_of(entries_view(list@))),
            Err(e) => sheets_by_title(doc.model()) == Err::<Map<Seq<char>, i64>, SheetError>(e),
        },
{
    let listed = match doc.member("sheets") {
        Some(j) => j.as_items(),
        None => None,
    };
    match listed {
        None => Err(SheetError::ReplyMalformed),
        Some(sheets) => {
            let ghost all = models_of(sheets@);
            let mut out: Vec<(String, i64)> = Vec::new();
            let mut i: usize = 0;
            assert(sheet_entries(all).take(0) =~= entries_view(out@));
            while i < sheets.len()
                invariant
                    0 <= i <= sheets@.len(),
                    all == models_of(sheets@),
                    items_in(member_of(doc.model(), "sheets"@)) == Some(all),
                    forall|k: int| 0 <= k < i ==> (#[trigger] sheet_entry(all[k])) is Some,
                    distinct_titles(entries_view(out@)),
                    index_of(entries_view(out@)) == index_of(sheet_entries(all).take(i as int)),
                decreases sheets@.len() - i,
            {
                assert(all[i as int] == sheets@[i as int].model());
                let title = title_of(&sheets[i]);
                let id = id_of(&sheets[i]);
                match (title, id) {
                    (Some(title), Some(id)) => {
                        assert(sheet_entries(all).take(i + 1).drop_last() =~= sheet_entries(
                            all,
                        ).take(i as int));
                        record_sheet(&mut out, title, id);
                    },
                    _ => {
                        assert(sheet_entry(all[i as int]) is None);
                        return Err(SheetError::ReplyMalformed);
                    },
                }
                i += 1;
            }
            assert(sheet_entries(all).take(i as int) =~= sheet_entries(all));
            Ok(out)
        },
    }
}

/// What a map records under `title`.
pub open spec fn recorded(map: Map<Seq<char>, i64>, title: Seq<char>) -> Option<i64> {
    if map.contains_key(title) {
        Some(map[title])
    } else {
        None
    }
}

/// Looks `title` up in a list of entries as in the map that the list stands for.
pub fn listed_id(list: &Vec<(String, i64)>, title: &str) -> (r: Option<i64>)
    ensures
        r == recorded(index_of(entries_view(list@)), title@),
{
    let wanted = title.to_string();
    let ghost all = entries_view(list@);
    let mut found: Option<i64> = None;
    let mut i: usize = 0;
    assert(all.take(0).len() == 0);
    while i < list.len()
        invariant
            0 <= i <= list@.len(),
            wanted@ == title@,
            all == entries_view(list@),
            found == recorded(index_of(all.take(i as int)), title@),
        decreases list@.len() - i,
    {
        assert(all.take(i + 1).drop_last() =~= all.take(i as int));
        assert(all.take(i + 1).last() == (list@[i as int].0@, list@[i as int].1));
        if list[i].0 == wanted {
            found = Some(list[i].1);
        }
        i += 1;
    }
    assert(all.take(i as int) =~= all);
    found
}

/// Reads the reply to [`sheet_info_request`] as the sheets by title: a list with
/// each title once, which stands for the map from title to id and is read with
/// [`listed_id`].
pub fn get_sheet_list(reply: &Option<HttpReply>) -> (r: Result<Vec<(String, i64)>, SheetError>)
    ensures
        match r {
            Ok(list) => distinct_titles(entries_view(list@)) && listed_sheets(*reply) == Ok::<
                Map<Seq<char>, i64>,
                SheetError,
            >(index_of(entries_view(list@))),
            Err(e) => listed_sheets(*reply) == Err::<Map<Seq<char>, i64>, SheetError>(e),
        },
{
    match reply {
        None => Err(SheetError::RequestFailed),
        Some(r) => {
            if !r.is_success() {
                return Err(SheetError::ApiRejected);
            }
            match parse_json(r.body.as_str()) {
                None => Err(SheetError::ReplyMalformed),
                Some(doc) => sheet_index(&doc),
            }
        },
    }
}

/// Finding the spreadsheet through its pointer file, or creating both: one
/// attempt, from the first request to its result. Nothing is retried.
#[derive(Debug, Clone, PartialEq, Eq)]
pub enum FindOrCreateBook {
    /// The pointer file is to be looked for.
    Lookup,
    /// The pointer file is there and its content is to be fetched.
    ReadPointer { file_id: String },
    /// No pointer file was found and the spreadsheet is to be created.
    CreateBook,
    /// The spreadsheet is created and the pointer to it is to be stored.
    StorePointer { spreadsheet_id: String },
    /// The attempt has ended with the id of the spreadsheet.
    Done(String),
    /// The attempt has ended without one.
    Failed(ErrorKind),
}

/// A [`FindOrCreateBook`] with its strings as sequences.
pub enum FindOrCreateBookView {
    Lookup,
    ReadPointer { file_id: Seq<char> },
    CreateBook,
    StorePointer { spreadsheet_id: Seq<char> },
    Done(Seq<char>),
    Failed(ErrorKind),
}

impl View for FindOrCreateBook {
    type V = FindOrCreateBookView;

    open spec fn view(&self) -> FindOrCreateBookView {
        match *self {
            FindOrCreateBook::Lookup => FindOrCreateBookView::Lookup,
            FindOrCreateBook::ReadPointer { file_id } => FindOrCreateBookView::ReadPointer {
                file_id: file_id@,
            },
            FindOrCreateBook::CreateBook => FindOrCreateBookView::CreateBook,
            FindOrCreateBook::StorePointer { spreadsheet_id } =>
                FindOrCreateBookView::StorePointer { spreadsheet_id: spreadsheet_id@ },
            FindOrCreateBook::Done(id) => FindOrCreateBookView::Done(id@),
            FindOrCreateBook::Failed(e) => FindOrCreateBookView::Failed(e),
        }
    }
}

impl FindOrCreateBookView {
    /// The request that is due in this state; none once the attempt has ended.
    pub open spec fn due(self) -> Option<RemoteCallView> {
        match self {
            FindOrCreateBookView::Lookup => Some(
                RemoteCallView::Get { url: file_listing_url(CONFIG_FILE_NAME@) },
            ),
            FindOrCreateBookView::ReadPointer { file_id } => Some(
                RemoteCallView::Get { url: file_content_url(file_id) },
            ),
            FindOrCreateBookView::CreateBook => Some(
                RemoteCallView::PostJson { url: SHEET_URL@, body: create_book_body() },
            ),
            FindOrCreateBookView::StorePointer { spreadsheet_id } => Some(
                pointer_upload(pointer_content(spreadsheet_id)),
            ),
            _ => None,
        }
    }

    /// The state after the reply to the request that was due. `None` is a request
    /// that got no reply.
    ///
    /// A lookup that fails in any way counts as a pointer file that is not there.
    /// A pointer file that is there but cannot be fetched or read ends the
    /// attempt: nothing is created in its place. So does a pointer that cannot be
    /// stored, though the spreadsheet then exists.
    pub open spec fn after(self, reply: Option<HttpReply>) -> FindOrCreateBookView {
        match self {
            FindOrCreateBookView::Lookup => match found_file(reply) {
                Some(file_id) => FindOrCreateBookView::ReadPointer { file_id },
                None => FindOrCreateBookView::CreateBook,
            },
            FindOrCreateBookView::ReadPointer { .. } => match reply_text(reply) {
                None => FindOrCreateBookView::Failed(ErrorKind::PointerLookupFailed),
                Some(content) => match pointer_text_target(content) {
                    Some(id) => FindOrCreateBookView::Done(id),
                    None => FindOrCreateBookView::Failed(ErrorKind::PointerMalformed),
                },
            },
            FindOrCreateBookView::CreateBook => match book_in_reply(reply) {
                Some(book) => FindOrCreateBookView::StorePointer { spreadsheet_id: book.0 },
                None => FindOrCreateBookView::Failed(ErrorKind::DocumentCreateFailed),
            },
            FindOrCreateBookView::StorePointer { spreadsheet_id } => if accepted(reply) {
                FindOrCreateBookView::Done(spreadsheet_id)
            } else {
                FindOrCreateBookView::Failed(ErrorKind::PointerCreateFailed)
            },
            _ => self,
        }
    }

    /// Whether the attempt has ended.
    pub open spec fn ended(self) -> bool {
        self is Done || self is Failed
    }

    /// The result of the attempt, once it has ended.
    pub open spec fn outcome(self) -> Option<Result<Seq<char>, ErrorKind>> {
        match self {
            FindOrCreateBookView::Done(id) => Some(Ok(id)),
            FindOrCreateBookView::Failed(e) => Some(Err(e)),
            _ => None,
        }
    }
}

/// The result of an attempt, with its string as a sequence.
pub open spec fn outcome_view(outcome: Option<Result<String, ErrorKind>>) -> Option<
    Result<Seq<char>, ErrorKind>,
> {
    match outcome {
        Some(Ok(id)) => Some(Ok(id@)),
        Some(Err(e)) => Some(Err(e)),
        None => None,
    }
}

impl FindOrCreateBook {
    /// An attempt that has not begun.
    pub fn start() -> (r: FindOrCreateBook)
        ensures
            r@ == FindOrCreateBookView::Lookup,
    {
        FindOrCreateBook::Lookup
    }

    /// The request to send next.
    pub fn request(&self) -> (r: Option<RemoteCall>)
        ensures
            call_view(r) == self@.due(),
    {
        match self {
            FindOrCreateBook::Lookup => Some(get_file_id_request(CONFIG_FILE_NAME)),
            FindOrCreateBook::ReadPointer { file_id } => Some(
                get_file_content_request(file_id.as_str()),
            ),
            FindOrCreateBook::CreateBook => Some(create_book_request()),
            FindOrCreateBook::StorePointer { spreadsheet_id } => Some(
                upload_config_request(spreadsheet_id.as_str()),
            ),
            _ => None,
        }
    }

    /// Moves on with the reply to the request that was due.
    pub fn on_reply(self, reply: &Option<HttpReply>) -> (r: FindOrCreateBook)
        ensures
            r@ == self@.after(*reply),
    {
        match self {
            FindOrCreateBook::Lookup => match get_file_id(reply) {
                Some(file_id) => FindOrCreateBook::ReadPointer { file_id },
                None => FindOrCreateBook::CreateBook,
            },
            FindOrCreateBook::ReadPointer { .. } => match get_file_content(reply) {
                Err(e) => FindOrCreateBook::Failed(e),
                Ok(content) => match load_from_sheet_config(content.as_str()) {
                    Ok(id) => FindOrCreateBook::Done(id),
                    Err(e) => FindOrCreateBook::Failed(e),
                },
            },
            FindOrCreateBook::CreateBook => match create_book(reply) {
                Ok(book) => FindOrCreateBook::StorePointer { spreadsheet_id: book.spreadsheet_id },
                Err(e) => FindOrCreateBook::Failed(e),
            },
            FindOrCreateBook::StorePointer { spreadsheet_id } => match upload_config_to_drive(
                reply,
            ) {
                Ok(()) => FindOrCreateBook::Done(spreadsheet_id),
                Err(e) => FindOrCreateBook::Failed(e),
            },
            FindOrCreateBook::Done(id) => FindOrCreateBook::Done(id),
            FindOrCreateBook::Failed(e) => FindOrCreateBook::Failed(e),
        }
    }

    /// The result of the attempt, once it has ended.
    pub fn result(self) -> (r: Option<Result<String, ErrorKind>>)
        ensures
            outcome_view(r) == self@.outcome(),
    {
        match self {
            FindOrCreateBook::Done(id) => Some(Ok(id)),
            FindOrCreateBook::Failed(e) => Some(Err(e)),
            _ => None,
        }
    }
}

/// One step of finding or creating the spreadsheet: takes the reply to the
/// request that was due, and says where the attempt stands and which request is
/// due now.
pub fn find_or_create_book(state: FindOrCreateBook, reply: &Option<HttpReply>) -> (r: (
    FindOrCreateBook,
    Option<RemoteCall>,
))
    ensures
        r.0@ == state@.after(*reply),
        call_view(r.1) == r.0@.due(),
{
    let next = state.on_reply(reply);
    let due = next.request();
    (next, due)
}

/// One step of removing the sheet titled `sheet_name` from `book_id`: takes the
/// reply to the request that was due, and says where the attempt stands and
/// which request is due now.
pub fn remove_sheet(
    state: RemoveSheet,
    book_id: &str,
    sheet_name: &str,
    reply: &Option<HttpReply>,
) -> (r: (RemoveSheet, Option<RemoteCall>))
    ensures
        r.0 == state.after(sheet_name@, *reply),
        call_view(r.1) == r.0.due(book_id@),
{
    let next = state.on_reply(sheet_name, reply);
    let due = next.request(book_id);
    (next, due)
}

impl FindOrCreateBookView {
    /// The most requests that the attempt can still send.
    pub open spec fn requests_left(self) -> nat {
        match self {
            FindOrCreateBookView::Lookup => 3,
            FindOrCreateBookView::CreateBook => 2,
            FindOrCreateBookView::ReadPointer { .. } => 1,
            FindOrCreateBookView::StorePointer { .. } => 1,
            _ => 0,
        }
    }
}

/// Every reply brings the attempt nearer its end, so an attempt sends three
/// requests at most; and it has a result exactly when no request is left.
pub proof fn lemma_resolution_moves_to_its_end(
    state: FindOrCreateBookView,
    reply: Option<HttpReply>,
)
    ensures
        !state.ended() ==> state.after(reply).requests_left() < state.requests_left(),
        state.due() is None <==> state.requests_left() == 0,
        state.outcome() is Some <==> state.requests_left() == 0,
{
}

impl RemoveSheet {
    /// The most requests that the attempt can still send.
    pub open spec fn requests_left(self) -> nat {
        match self {
            RemoveSheet::FindSheet => 2,
            RemoveSheet::DeleteSheet { .. } => 1,
            _ => 0,
        }
    }
}

/// Every reply brings the removal nearer its end, so a removal sends two
/// requests at most; and it has ended exactly when no request is left.
pub proof fn lemma_removal_moves_to_its_end(
    state: RemoveSheet,
    book_id: Seq<char>,
    sheet_name: Seq<char>,
    reply: Option<HttpReply>,
)
    ensures
        !state.ended() ==> state.after(sheet_name, reply).requests_left() < state.requests_left(),
        state.due(book_id) is None <==> state.requests_left() == 0,
        state.ended() <==> state.requests_left() == 0,
{
}

/// A deletion that the service refuses fails the removal, with nothing further
/// due, and is reported with what the service said.
pub proof fn lemma_refused_deletion_reports_what_was_said(
    sheet_id: i64,
    book_id: Seq<char>,
    sheet_name: Seq<char>,
    reply: Option<HttpReply>,
)
    requires
        rejection_of(reply) is Some,
    ensures
        (RemoveSheet::DeleteSheet { sheet_id }).after(sheet_name, reply) == RemoveSheet::Failed(
            SheetError::ApiRejected,
        ),
        RemoveSheet::Failed(SheetError::ApiRejected).due(book_id) is None,
        failure_text(SheetOperation::RemoveSheet, SheetError::ApiRejected, sheet_name, reply)
            == "削除失敗"@ + ": "@ + rejection_of(reply)->0,
{
}

} // verus!

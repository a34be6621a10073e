//! The file store in which the pointer to the spreadsheet is kept.

use crate::error::ErrorKind;
use crate::http::{reply_text, HttpReply, RemoteCall, RemoteCallView};
use crate::json::{
    element_at, element_in, json_of_text, member_at, member_in, member_of, parse_json, text_at,
    text_in, Json, JsonModel,
};
use crate::text::{join2, join3};
use vstd::prelude::*;
use vstd::string::StringSliceAdditionalSpecFns;

verus! {

/// The address under which files are listed and fetched.
pub const DRIVE_URL: &'static str = "https://www.googleapis.com/drive/v3/files";

/// The message for a listing that names no file.
pub const FILE_NOT_FOUND_MESSAGE: &'static str = "ファイルが見つかりません";

/// Bytes that percent-encoding leaves as they are: ASCII letters and digits,
/// `-`, `.`, `_` and `~`.
pub open spec fn is_unreserved(b: u8) -> bool {
    ||| 0x30 <= b <= 0x39
    ||| 0x41 <= b <= 0x5a
    ||| 0x61 <= b <= 0x7a
    ||| b == 0x2d
    ||| b == 0x2e
    ||| b == 0x5f
    ||| b == 0x7e
}

/// The upper-case hexadecimal digit for a value below sixteen.
pub open spec fn hex_digit(d: u8) -> char {
    if d < 10 {
        (0x30 + d) as u8 as char
    } else {
        (0x37 + d) as u8 as char
    }
}

/// One byte, percent-encoded.
pub open spec fn percent_encoded_byte(b: u8) -> Seq<char> {
    if is_unreserved(b) {
        seq![b as char]
    } else {
        seq!['%', hex_digit(b / 16), hex_digit(b % 16)]
    }
}

/// A run of bytes, percent-encoded byte by byte.
pub open spec fn percent_encoded(bytes: Seq<u8>) -> Seq<char>
    decreases bytes.len(),
{
    if bytes.len() == 0 {
        Seq::empty()
    } else {
        percent_encoded_byte(bytes[0]) + percent_encoded(bytes.drop_first())
    }
}

/// `urlencoding::encode`: the UTF-8 bytes of `data` with every byte but ASCII
/// letters, digits, `-`, `.`, `_` and `~` written as `%` and two upper-case
/// hexadecimal digits.
#[verifier::external_body]
fn percent_encode(data: &str) -> (r: String)
    ensures
        r@ == percent_encoded(data.spec_bytes()),
{
    urlencoding::encode(data).into_owned()
}

/// The search expression for a file named `name` in the application's private
/// folder.
pub open spec fn file_query(name: Seq<char>) -> Seq<char> {
    "name = '"@ + name + "' and 'appDataFolder' in parents"@
}

/// The address that lists the files named `name` in the application's private
/// folder.
pub open spec fn file_listing_url(name: Seq<char>) -> Seq<char> {
    DRIVE_URL@ + "?q="@ + percent_encoded(vstd::utf8::encode_utf8(file_query(name)))
        + "&spaces=appDataFolder&fields=files(id,name)"@
}

/// The address of the content of the file `file_id`.
pub open spec fn file_content_url(file_id: Seq<char>) -> Seq<char> {
    "https://www.googleapis.com/drive/v3/files/"@ + file_id + "?alt=media"@
}

/// The request that looks for a file named `name`.
pub fn get_file_id_request(name: &str) -> (r: RemoteCall)
    ensures
        r@ == (RemoteCallView::Get { url: file_listing_url(name@) }),
{
    let query = join3("name = '", name, "' and 'appDataFolder' in parents");
    let encoded = percent_encode(query.as_str());
    let head = join3(DRIVE_URL, "?q=", encoded.as_str());
    let url = join2(head.as_str(), "&spaces=appDataFolder&fields=files(id,name)");
    assert(url@ =~= file_listing_url(name@));
    RemoteCall::Get { url }
}

/// The id of the first file of a listing.
pub open spec fn listed_file_id(listing: JsonModel) -> Option<Seq<char>> {
    text_in(member_in(element_in(member_of(listing, "files"@), 0), "id"@))
}

/// The id of the first file that a listing names, if it names one with an id.
pub fn first_listed_file(listing: &Json) -> (r: Option<String>)
    ensures
        match r {
            Some(id) => listed_file_id(listing.model()) == Some(id@),
            None => listed_file_id(listing.model()) is None,
        },
{
    text_at(member_at(element_at(listing.member("files"), 0), "id"))
}

/// The file that a reply to [`get_file_id_request`] names: the id of the first
/// listed file, whatever the status. A reply that did not arrive, is no JSON or
/// lists no file with an id names none.
pub open spec fn found_file(reply: Option<HttpReply>) -> Option<Seq<char>> {
    match reply {
        Some(r) => match json_of_text(r.body@) {
            Some(listing) => listed_file_id(listing),
            None => None,
        },
        None => None,
    }
}

/// Reads the reply to [`get_file_id_request`].
pub fn get_file_id(reply: &Option<HttpReply>) -> (r: Option<String>)
    ensures
        match r {
            Some(id) => found_file(*reply) == Some(id@),
            None => found_file(*reply) is None,
        },
{
    match reply {
        Some(r) => match parse_json(r.body.as_str()) {
            Some(listing) => first_listed_file(&listing),
            None => None,
        },
        None => None,
    }
}

/// The request that fetches the content of the file `file_id`.
pub fn get_file_content_request(file_id: &str) -> (r: RemoteCall)
    ensures
        r@ == (RemoteCallView::Get { url: file_content_url(file_id@) }),
{
    RemoteCall::Get {
        url: join3("https://www.googleapis.com/drive/v3/files/", file_id, "?alt=media"),
    }
}

/// Reads the reply to [`get_file_content_request`]: the body of any reply that
/// arrived, whatever its status.
pub fn get_file_content(reply: &Option<HttpReply>) -> (r: Result<String, ErrorKind>)
    ensures
        match r {
            Ok(content) => reply_text(*reply) == Some(content@),
            Err(e) => e == ErrorKind::PointerLookupFailed && reply_text(*reply) is None,
        },
{
    match reply {
        Some(r) => Ok(r.body.clone()),
        None => Err(ErrorKind::PointerLookupFailed),
    }
}

/// The spreadsheet that a pointer document names.
pub open spec fn pointer_target(pointer: JsonModel) -> Option<Seq<char>> {
    text_in(member_of(pointer, "spreadsheet_id"@))
}

/// The spreadsheet that a parsed pointer file names, if it names one.
pub fn spreadsheet_id_of(pointer: &Json) -> (r: Option<String>)
    ensures
        match r {
            Some(id) => pointer_target(pointer.model()) == Some(id@),
            None => pointer_target(pointer.model()) is None,
        },
{
    text_at(pointer.member("spreadsheet_id"))
}

/// The spreadsheet that the text of a pointer file names.
pub open spec fn pointer_text_target(content: Seq<char>) -> Option<Seq<char>> {
    match json_of_text(content) {
        Some(pointer) => pointer_target(pointer),
        None => None,
    }
}

/// Reads the content of the pointer file. Content that is no JSON, or has no
/// string member `spreadsheet_id`, is malformed.
pub fn load_from_sheet_config(content: &str) -> (r: Result<String, ErrorKind>)
    ensures
        match r {
            Ok(id) => pointer_text_target(content@) == Some(id@),
            Err(e) => e == ErrorKind::PointerMalformed && pointer_text_target(content@) is None,
        },
{
    match parse_json(content) {
        Some(pointer) => match spreadsheet_id_of(&pointer) {
            Some(id) => Ok(id),
            None => Err(ErrorKind::PointerMalformed),
        },
        None => Err(ErrorKind::PointerMalformed),
    }
}

} // verus!

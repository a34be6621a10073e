use shiftbuilder::drive::{
    first_listed_file, get_file_content, get_file_content_request, get_file_id,
    get_file_id_request, load_from_sheet_config, spreadsheet_id_of, DRIVE_URL,
};
use shiftbuilder::error::ErrorKind;
use shiftbuilder::http::{rejection, HttpReply, RemoteCall};
use shiftbuilder::json::Json;

fn drive_reply(status: u16, body: &str) -> Option<HttpReply> {
    Some(HttpReply { status, body: body.to_string() })
}

#[test]
fn file_listing_request_encodes_the_query() {
    assert_eq!(DRIVE_URL, "https://www.googleapis.com/drive/v3/files");
    assert_eq!(
        get_file_id_request("shiftbuilder_config.json"),
        RemoteCall::Get {
            url: "https://www.googleapis.com/drive/v3/files?q=name%20%3D%20%27shiftbuilder_config.json%27%20and%20%27appDataFolder%27%20in%20parents&spaces=appDataFolder&fields=files(id,name)"
                .to_string()
        }
    );
}

#[test]
fn file_listing_request_encodes_every_byte_of_the_name() {
    assert_eq!(
        get_file_id_request("a-b_c.d~e/設定+%"),
        RemoteCall::Get {
            url: "https://www.googleapis.com/drive/v3/files?q=name%20%3D%20%27a-b_c.d~e%2F%E8%A8%AD%E5%AE%9A%2B%25%27%20and%20%27appDataFolder%27%20in%20parents&spaces=appDataFolder&fields=files(id,name)"
                .to_string()
        }
    );
}

#[test]
fn file_id_is_that_of_the_first_listed_file() {
    let listing = drive_reply(
        200,
        "{\"files\": [{\"id\": \"f1\", \"name\": \"a\"}, {\"id\": \"f2\", \"name\": \"a\"}]}",
    );
    assert_eq!(get_file_id(&listing), Some("f1".to_string()));
}

#[test]
fn file_id_is_read_whatever_the_status() {
    assert_eq!(
        get_file_id(&drive_reply(500, "{\"files\": [{\"id\": \"f1\"}]}")),
        Some("f1".to_string())
    );
}

#[test]
fn file_id_is_none_where_the_listing_names_no_file() {
    assert_eq!(get_file_id(&None), None);
    assert_eq!(get_file_id(&drive_reply(200, "{\"files\": []}")), None);
    assert_eq!(get_file_id(&drive_reply(200, "{}")), None);
    assert_eq!(get_file_id(&drive_reply(200, "{\"files\": {\"id\": \"f1\"}}")), None);
    assert_eq!(get_file_id(&drive_reply(200, "{\"files\": [{\"id\": 5}]}")), None);
    assert_eq!(get_file_id(&drive_reply(200, "{\"files\": [{\"name\": \"a\"}]}")), None);
    assert_eq!(get_file_id(&drive_reply(200, "<html>")), None);
    assert_eq!(get_file_id(&drive_reply(401, "{\"error\": {\"code\": 401}}")), None);
}

#[test]
fn first_listed_file_reads_a_parsed_listing() {
    let file = Json::Object(vec![("id".to_string(), Json::Text("f9".to_string()))]);
    let listing = Json::Object(vec![("files".to_string(), Json::Array(vec![file]))]);
    assert_eq!(first_listed_file(&listing), Some("f9".to_string()));
    assert_eq!(first_listed_file(&Json::Null), None);
}

#[test]
fn file_content_request_names_the_file() {
    assert_eq!(
        get_file_content_request("f1"),
        RemoteCall::Get {
            url: "https://www.googleapis.com/drive/v3/files/f1?alt=media".to_string()
        }
    );
}

#[test]
fn file_content_is_the_body_of_any_reply() {
    assert_eq!(get_file_content(&drive_reply(200, "text")), Ok("text".to_string()));
    assert_eq!(get_file_content(&drive_reply(404, "gone")), Ok("gone".to_string()));
    assert_eq!(get_file_content(&drive_reply(200, "")), Ok(String::new()));
    assert_eq!(get_file_content(&None), Err(ErrorKind::PointerLookupFailed));
}

#[test]
fn pointer_names_the_spreadsheet() {
    assert_eq!(load_from_sheet_config("{\"spreadsheet_id\": \"S1\"}"), Ok("S1".to_string()));
    assert_eq!(
        load_from_sheet_config("{\"other\": 1, \"spreadsheet_id\": \"S2\"}"),
        Ok("S2".to_string())
    );
    assert_eq!(load_from_sheet_config("{\"spreadsheet_id\": \"\"}"), Ok(String::new()));
}

#[test]
fn pointer_without_a_spreadsheet_is_malformed() {
    assert_eq!(load_from_sheet_config("{}"), Err(ErrorKind::PointerMalformed));
    assert_eq!(load_from_sheet_config("{\"spreadsheet_id\": 7}"), Err(ErrorKind::PointerMalformed));
    assert_eq!(
        load_from_sheet_config("{\"spreadsheet_id\": null}"),
        Err(ErrorKind::PointerMalformed)
    );
    assert_eq!(load_from_sheet_config("[\"spreadsheet_id\"]"), Err(ErrorKind::PointerMalformed));
    assert_eq!(load_from_sheet_config("not json"), Err(ErrorKind::PointerMalformed));
    assert_eq!(load_from_sheet_config(""), Err(ErrorKind::PointerMalformed));
}

#[test]
fn spreadsheet_id_of_reads_a_parsed_pointer() {
    let pointer = Json::Object(vec![("spreadsheet_id".to_string(), Json::Text("S".to_string()))]);
    assert_eq!(spreadsheet_id_of(&pointer), Some("S".to_string()));
    assert_eq!(spreadsheet_id_of(&Json::Object(vec![])), None);
}

#[test]
fn rejection_hands_out_the_body_of_a_refusal() {
    assert_eq!(rejection(&None), None);
    assert_eq!(rejection(&drive_reply(200, "ok")), None);
    assert_eq!(rejection(&drive_reply(299, "ok")), None);
    assert_eq!(rejection(&drive_reply(300, "moved")), Some("moved".to_string()));
    assert_eq!(rejection(&drive_reply(404, "")), Some(String::new()));
    assert_eq!(rejection(&drive_reply(199, "early")), Some("early".to_string()));
}

use shiftbuilder::error::ErrorKind;
use shiftbuilder::http::{HttpReply, RemoteCall};
use shiftbuilder::json::Json;
use shiftbuilder::sheet::FindOrCreateBook;

/// A remote store in memory: the text of one pointer file at most, and every
/// spreadsheet that was created.
struct MemoryStore {
    pointer: Option<String>,
    books: Vec<String>,
    pointer_uploads_fail: bool,
}

fn empty_store() -> MemoryStore {
    MemoryStore { pointer: None, books: vec![], pointer_uploads_fail: false }
}

fn render(json: &Json) -> String {
    match json {
        Json::Text(s) => format!("\"{}\"", s),
        Json::Object(members) => {
            let inner: Vec<String> =
                members.iter().map(|(k, v)| format!("\"{}\": {}", k, render(v))).collect();
            format!("{{{}}}", inner.join(", "))
        }
        _ => panic!("the pointer file holds strings only"),
    }
}

fn serve(store: &mut MemoryStore, call: RemoteCall) -> Option<HttpReply> {
    let ok = |body: String| Some(HttpReply { status: 200, body });
    match call {
        RemoteCall::Get { url } => {
            if url.contains("/files?q=") {
                match &store.pointer {
                    Some(_) => ok("{\"files\": [{\"id\": \"pointer-file\"}]}".to_string()),
                    None => ok("{\"files\": []}".to_string()),
                }
            } else {
                match &store.pointer {
                    Some(content) => ok(content.clone()),
                    None => Some(HttpReply { status: 404, body: "{}".to_string() }),
                }
            }
        }
        RemoteCall::PostJson { .. } => {
            let id = format!("book-{}", store.books.len() + 1);
            store.books.push(id.clone());
            ok(format!("{{\"spreadsheetId\": \"{}\", \"spreadsheetUrl\": \"https://s/{}\"}}", id, id))
        }
        RemoteCall::Upload { media, .. } => {
            if store.pointer_uploads_fail {
                Some(HttpReply { status: 500, body: "{}".to_string() })
            } else {
                store.pointer = Some(render(&media.content));
                ok("{\"id\": \"pointer-file\"}".to_string())
            }
        }
    }
}

fn resolve(store: &mut MemoryStore) -> Result<String, ErrorKind> {
    let mut state = FindOrCreateBook::start();
    let mut sent = 0;
    while let Some(call) = state.request() {
        sent += 1;
        assert!(sent <= 3);
        let reply = serve(store, call);
        state = state.on_reply(&reply);
    }
    state.result().unwrap()
}

fn advance(store: &mut MemoryStore, state: FindOrCreateBook) -> FindOrCreateBook {
    let call = state.request().unwrap();
    let reply = serve(store, call);
    state.on_reply(&reply)
}

#[test]
fn two_resolutions_in_sequence_give_the_same_document() {
    let mut store = empty_store();
    let first = resolve(&mut store);
    let second = resolve(&mut store);
    assert_eq!(first, Ok("book-1".to_string()));
    assert_eq!(second, first);
    assert_eq!(store.books, vec!["book-1".to_string()]);
    assert_eq!(store.pointer, Some("{\"spreadsheet_id\": \"book-1\"}".to_string()));
}

#[test]
fn resolution_against_a_stored_pointer_creates_nothing() {
    let mut store = empty_store();
    store.pointer = Some("{\"spreadsheet_id\": \"old-book\"}".to_string());
    assert_eq!(resolve(&mut store), Ok("old-book".to_string()));
    assert!(store.books.is_empty());
}

#[test]
fn two_overlapping_resolutions_create_two_documents() {
    let mut store = empty_store();
    let a = advance(&mut store, FindOrCreateBook::start());
    let b = advance(&mut store, FindOrCreateBook::start());
    assert_eq!(a, FindOrCreateBook::CreateBook);
    assert_eq!(b, FindOrCreateBook::CreateBook);
    let a = advance(&mut store, a);
    let b = advance(&mut store, b);
    let a = advance(&mut store, a);
    let b = advance(&mut store, b);
    assert_eq!(a.result(), Some(Ok("book-1".to_string())));
    assert_eq!(b.result(), Some(Ok("book-2".to_string())));
    assert_eq!(store.books.len(), 2);
    assert_eq!(store.pointer, Some("{\"spreadsheet_id\": \"book-2\"}".to_string()));
}

#[test]
fn an_unstored_pointer_leaves_an_orphan_and_the_next_attempt_creates_another() {
    let mut store = empty_store();
    store.pointer_uploads_fail = true;
    assert_eq!(resolve(&mut store), Err(ErrorKind::PointerCreateFailed));
    assert_eq!(store.books, vec!["book-1".to_string()]);
    assert_eq!(store.pointer, None);
    store.pointer_uploads_fail = false;
    assert_eq!(resolve(&mut store), Ok("book-2".to_string()));
    assert_eq!(store.books.len(), 2);
}

use rouchdb::database::{push_segments, Body, Database, Method, Request};
use rouchdb::documents::{
    BulkDocsRequest, DocsRequest, DocsRequestEntry, ReplicationLog, RevsDiffRequest,
};
use rouchdb::error::Error;
use rouchdb::locator::{append_pair, locate, push_segment, root};
use rouchdb::text::{text_fits, split_text, TEXT_LIMIT};

fn database() -> Database {
    Database::new("http://localhost:5984/db".to_string())
}

fn get(url: &str) -> Request {
    Request { method: Method::Get, url: url.to_string(), body: Body::Empty }
}

#[test]
fn locate_gives_the_serialization() {
    assert_eq!(locate("http://localhost:5984/db"), Some("http://localhost:5984/db".to_string()));
    assert_eq!(locate("HTTP://LocalHost:5984"), Some("http://localhost:5984/".to_string()));
    assert_eq!(locate("http://h/a b"), Some("http://h/a%20b".to_string()));
}

#[test]
fn locate_refuses_what_is_no_absolute_url() {
    assert_eq!(locate("not a url"), None);
    assert_eq!(locate("/db"), None);
    assert_eq!(locate(""), None);
}

#[test]
fn locate_refuses_a_text_over_the_limit() {
    let mut long = "http://h/".to_string();
    long.push_str(&"a".repeat(TEXT_LIMIT));
    assert!(!text_fits(&long));
    assert_eq!(locate(&long), None);
    let mut short = "http://h/".to_string();
    short.push_str(&"a".repeat(100));
    assert!(text_fits(&short));
    assert_eq!(locate(&short), Some(short.clone()));
}

#[test]
fn text_fits_counts_bytes() {
    assert!(text_fits(&"a".repeat(TEXT_LIMIT)));
    assert!(!text_fits(&"a".repeat(TEXT_LIMIT + 1)));
    assert!(!text_fits(&"é".repeat(TEXT_LIMIT / 2 + 1)));
    assert!(text_fits(&"é".repeat(TEXT_LIMIT / 2)));
}

#[test]
fn root_drops_path_query_and_fragment() {
    assert_eq!(root("http://localhost:5984/db"), Some("http://localhost:5984/".to_string()));
    assert_eq!(root("http://u:p@h:1/a/b?x=1#f"), Some("http://u:p@h:1/".to_string()));
    assert_eq!(root("mailto:a@b.c"), None);
    assert_eq!(root("nonsense"), None);
}

#[test]
fn push_segment_appends_and_encodes() {
    let base = Some("http://h/db".to_string());
    assert_eq!(push_segment(base, "_changes"), Some("http://h/db/_changes".to_string()));
    let base = Some("http://h/db".to_string());
    assert_eq!(push_segment(base, "a/b c%"), Some("http://h/db/a%2Fb%20c%25".to_string()));
    let base = Some("http://h/".to_string());
    assert_eq!(push_segment(base, "x"), Some("http://h/x".to_string()));
    let base = Some("http://h/db/".to_string());
    assert_eq!(push_segment(base, "x"), Some("http://h/db//x".to_string()));
    let base = Some("http://h/db?q=1#f".to_string());
    assert_eq!(push_segment(base, "x"), Some("http://h/db/x?q=1#f".to_string()));
}

#[test]
fn push_segment_refuses_what_cannot_be_a_base() {
    assert_eq!(push_segment(Some("mailto:a@b.c".to_string()), "x"), None);
    assert_eq!(push_segment(Some("nonsense".to_string()), "x"), None);
    assert_eq!(push_segment(None, "x"), None);
    assert_eq!(push_segment(Some("http://h/db".to_string()), &"a".repeat(TEXT_LIMIT + 1)), None);
}

#[test]
fn append_pair_appends_and_encodes() {
    let url = Some("http://h/db".to_string());
    assert_eq!(append_pair(url, "feed", "normal"), Some("http://h/db?feed=normal".to_string()));
    let url = Some("http://h/db?feed=normal".to_string());
    assert_eq!(
        append_pair(url, "since", "5-g1 &x"),
        Some("http://h/db?feed=normal&since=5-g1+%26x".to_string())
    );
    assert_eq!(append_pair(None, "a", "b"), None);
    assert_eq!(append_pair(Some("nonsense".to_string()), "a", "b"), None);
    assert_eq!(
        append_pair(Some("http://h/db".to_string()), "a", &"b".repeat(TEXT_LIMIT + 1)),
        None
    );
}

#[test]
fn push_segments_appends_each_in_order() {
    let segments = vec!["_local".to_string(), "abc".to_string()];
    assert_eq!(
        push_segments(Some("http://h/db".to_string()), &segments),
        Some("http://h/db/_local/abc".to_string())
    );
    assert_eq!(
        push_segments(Some("http://h/db".to_string()), &Vec::new()),
        Some("http://h/db".to_string())
    );
    assert_eq!(push_segments(None, &segments), None);
}

#[test]
fn split_text_at_each_separator() {
    assert_eq!(split_text("_local/abc", '/'), vec!["_local".to_string(), "abc".to_string()]);
    assert_eq!(split_text("abc", '/'), vec!["abc".to_string()]);
    assert_eq!(split_text("", '/'), vec!["".to_string()]);
    assert_eq!(split_text("/", '/'), vec!["".to_string(), "".to_string()]);
    assert_eq!(
        split_text("a//b/", '/'),
        vec!["a".to_string(), "".to_string(), "b".to_string(), "".to_string()]
    );
    assert_eq!(split_text("é/ü", '/'), vec!["é".to_string(), "ü".to_string()]);
}

#[test]
fn server_info_request_reads_the_root() {
    assert_eq!(database().server_info_request(), Ok(get("http://localhost:5984/")));
}

#[test]
fn database_info_request_reads_the_database() {
    assert_eq!(database().database_info_request(), Ok(get("http://localhost:5984/db")));
}

#[test]
fn replication_log_request_reads_the_local_document() {
    assert_eq!(
        database().replication_log_request("1bf51c3933afe7dc78acaa7736abd881"),
        Ok(get("http://localhost:5984/db/_local/1bf51c3933afe7dc78acaa7736abd881"))
    );
}

#[test]
fn save_replication_log_request_puts_the_document_under_its_name() {
    let log = ReplicationLog {
        _id: "_local/abc".to_string(),
        _rev: Some("0-1".to_string()),
        source_last_seq: Some("5-g1".to_string()),
        session_id: Some(7),
    };
    let request = database().save_replication_log_request(log.clone()).unwrap();
    assert_eq!(request.method, Method::Put);
    assert_eq!(request.url, "http://localhost:5984/db/_local/abc");
    assert_eq!(request.body, Body::Log(log));
}

#[test]
fn changes_request_without_since() {
    assert_eq!(
        database().changes_request(&None),
        Ok(get("http://localhost:5984/db/_changes?feed=normal&style=all_docs&limit=1000"))
    );
}

#[test]
fn changes_request_with_since() {
    assert_eq!(
        database().changes_request(&Some("5-g1".to_string())),
        Ok(get("http://localhost:5984/db/_changes?feed=normal&style=all_docs&limit=1000&since=5-g1"))
    );
}

#[test]
fn changes_request_encodes_since() {
    assert_eq!(
        database().changes_request(&Some("5-g1[a b]".to_string())),
        Ok(get(
            "http://localhost:5984/db/_changes?feed=normal&style=all_docs&limit=1000&since=5-g1%5Ba+b%5D"
        ))
    );
}

#[test]
fn revs_diff_request_posts_the_mapping() {
    let revs = RevsDiffRequest { body: vec![("a".to_string(), vec!["1-x".to_string()])] };
    let request = database().revs_diff_request(revs).unwrap();
    assert_eq!(request.method, Method::Post);
    assert_eq!(request.url, "http://localhost:5984/db/_revs_diff");
    assert_eq!(
        request.body,
        Body::Revs(RevsDiffRequest { body: vec![("a".to_string(), vec!["1-x".to_string()])] })
    );
}

#[test]
fn docs_request_asks_for_ancestry_and_attachments() {
    let docs = DocsRequest {
        docs: vec![DocsRequestEntry { id: "a".to_string(), rev: "1-x".to_string() }],
    };
    let request = database().docs_request(docs.clone()).unwrap();
    assert_eq!(request.method, Method::Post);
    assert_eq!(request.url, "http://localhost:5984/db/_bulk_get?revs=true&attachments=true");
    assert_eq!(request.body, Body::Docs(docs));
}

#[test]
fn save_docs_request_posts_the_documents() {
    let request =
        database().save_docs_request(BulkDocsRequest { docs: Vec::new(), new_edits: false }).unwrap();
    assert_eq!(request.method, Method::Post);
    assert_eq!(request.url, "http://localhost:5984/db/_bulk_docs");
    assert_eq!(request.body, Body::Install(BulkDocsRequest { docs: Vec::new(), new_edits: false }));
}

#[test]
fn requests_keep_the_prefix_of_the_database() {
    let nested = Database::new("http://h/a/b".to_string());
    assert_eq!(nested.changes_request(&None).unwrap().url,
        "http://h/a/b/_changes?feed=normal&style=all_docs&limit=1000");
    assert_eq!(nested.server_info_request().unwrap().url, "http://h/");
    assert_eq!(nested.replication_log_request("x").unwrap().url, "http://h/a/b/_local/x");
}

#[test]
fn requests_of_what_is_no_address_are_errors() {
    let nowhere = Database::new("nowhere".to_string());
    let error = Err(Error::Address("nowhere".to_string()));
    assert_eq!(nowhere.server_info_request(), error);
    assert_eq!(nowhere.database_info_request(), error);
    assert_eq!(nowhere.replication_log_request("x"), error);
    assert_eq!(nowhere.changes_request(&None), error);
    assert_eq!(nowhere.revs_diff_request(RevsDiffRequest { body: Vec::new() }), error);
    assert_eq!(nowhere.docs_request(DocsRequest { docs: Vec::new() }), error);
    assert_eq!(
        nowhere.save_docs_request(BulkDocsRequest { docs: Vec::new(), new_edits: false }),
        error
    );
    assert_eq!(nowhere.save_replication_log_request(ReplicationLog::fresh("x")), error);
}

#[test]
fn database_keeps_its_address() {
    assert_eq!(database().url(), "http://localhost:5984/db");
}

#[test]
fn request_to_an_address() {
    let request = database().request(Some("http://h/x".to_string()), Method::Post, Body::Empty);
    assert_eq!(
        request,
        Ok(Request { method: Method::Post, url: "http://h/x".to_string(), body: Body::Empty })
    );
}

#[test]
fn request_without_an_address() {
    let request = database().request(None, Method::Get, Body::Empty);
    assert_eq!(request, Err(Error::Address("http://localhost:5984/db".to_string())));
}

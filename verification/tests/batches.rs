use rouchdb::batch::{first_unanswered, is_answered, record, rev_hash};
use rouchdb::documents::{
    Change, Changes, ChangesRow, DocsRequest, DocsRequestEntry, DocsResponse, DocsResponseDoc,
    DocsResponseEntry, Document, Revisions, RevsDiff, RevsDiffEntry, RevsDiffRequest,
};
use rouchdb::text::copy_texts;

fn texts(items: &[&str]) -> Vec<String> {
    items.iter().map(|item| item.to_string()).collect()
}

fn row(seq: &str, id: &str, revs: &[&str]) -> ChangesRow {
    ChangesRow {
        seq: seq.to_string(),
        id: id.to_string(),
        changes: revs.iter().map(|rev| Change { rev: rev.to_string() }).collect(),
        deleted: false,
    }
}

fn entry(id: &str, revs: &[&str]) -> (String, Vec<String>) {
    (id.to_string(), texts(revs))
}

fn pair(id: &str, rev: &str) -> DocsRequestEntry {
    DocsRequestEntry { id: id.to_string(), rev: rev.to_string() }
}

fn document(id: &str, rev: &str, start: usize, ids: &[&str]) -> Document {
    Document {
        id: id.to_string(),
        rev: rev.to_string(),
        revisions: Revisions::new(start, texts(ids)),
        content: format!("{{\"_id\":\"{}\",\"_rev\":\"{}\"}}", id, rev),
    }
}

#[test]
fn copy_texts_copies_each() {
    assert_eq!(copy_texts(&texts(&["a", "", "c"])), texts(&["a", "", "c"]));
    assert_eq!(copy_texts(&Vec::new()), Vec::<String>::new());
}

#[test]
fn row_revs_in_order() {
    assert_eq!(row("1", "a", &["2-x", "2-y"]).revs(), texts(&["2-x", "2-y"]));
    assert_eq!(row("1", "a", &[]).revs(), Vec::<String>::new());
}

#[test]
fn record_adds_a_new_document_at_the_end() {
    let mut entries = vec![entry("a", &["1-x"])];
    record(&mut entries, "b".to_string(), texts(&["1-y"]));
    assert_eq!(entries, vec![entry("a", &["1-x"]), entry("b", &["1-y"])]);
}

#[test]
fn record_replaces_what_a_document_had() {
    let mut entries = vec![entry("a", &["1-x"]), entry("b", &["1-y"])];
    record(&mut entries, "a".to_string(), texts(&["2-z", "2-w"]));
    assert_eq!(entries, vec![entry("a", &["2-z", "2-w"]), entry("b", &["1-y"])]);
}

#[test]
fn from_changes_maps_each_document_to_its_revisions() {
    let changes = Changes {
        last_seq: "3-g1".to_string(),
        results: vec![
            row("1-g1", "a", &["1-r1"]),
            row("2-g1", "b", &["1-r2"]),
            row("3-g1", "c", &["1-r3", "1-r4"]),
        ],
    };
    assert_eq!(
        RevsDiffRequest::from_changes(&changes),
        RevsDiffRequest {
            body: vec![entry("a", &["1-r1"]), entry("b", &["1-r2"]), entry("c", &["1-r3", "1-r4"])]
        }
    );
}

#[test]
fn from_changes_keeps_the_last_row_of_a_document() {
    let changes = Changes {
        last_seq: "3-g1".to_string(),
        results: vec![
            row("1-g1", "a", &["1-r1"]),
            row("2-g1", "b", &["1-r2"]),
            row("3-g1", "a", &["2-r3"]),
        ],
    };
    assert_eq!(
        RevsDiffRequest::from_changes(&changes),
        RevsDiffRequest { body: vec![entry("a", &["2-r3"]), entry("b", &["1-r2"])] }
    );
}

#[test]
fn from_changes_of_an_empty_batch() {
    let changes = Changes { last_seq: "0".to_string(), results: Vec::new() };
    assert_eq!(RevsDiffRequest::from_changes(&changes), RevsDiffRequest { body: Vec::new() });
}

#[test]
fn from_diff_lists_each_missing_revision_with_its_document() {
    let diff = RevsDiff {
        body: vec![
            ("a".to_string(), RevsDiffEntry { missing: texts(&["1-r1", "2-r2"]) }),
            ("b".to_string(), RevsDiffEntry { missing: Vec::new() }),
            ("c".to_string(), RevsDiffEntry { missing: texts(&["1-r3"]) }),
        ],
    };
    assert_eq!(
        DocsRequest::from_diff(&diff),
        DocsRequest { docs: vec![pair("a", "1-r1"), pair("a", "2-r2"), pair("c", "1-r3")] }
    );
}

#[test]
fn from_diff_of_nothing_missing() {
    assert_eq!(
        DocsRequest::from_diff(&RevsDiff { body: Vec::new() }),
        DocsRequest { docs: Vec::new() }
    );
}

#[test]
fn documents_flattens_in_the_order_of_the_answer() {
    let response = DocsResponse {
        results: vec![
            DocsResponseEntry {
                id: "a".to_string(),
                docs: vec![
                    DocsResponseDoc { ok: document("a", "1-r1", 1, &["r1"]) },
                    DocsResponseDoc { ok: document("a", "2-r2", 2, &["r2", "r1"]) },
                ],
            },
            DocsResponseEntry { id: "b".to_string(), docs: Vec::new() },
            DocsResponseEntry {
                id: "c".to_string(),
                docs: vec![DocsResponseDoc { ok: document("c", "1-r3", 1, &["r3"]) }],
            },
        ],
    };
    assert_eq!(
        response.documents(),
        vec![
            document("a", "1-r1", 1, &["r1"]),
            document("a", "2-r2", 2, &["r2", "r1"]),
            document("c", "1-r3", 1, &["r3"]),
        ]
    );
    assert_eq!(DocsResponse { results: Vec::new() }.documents(), Vec::<Document>::new());
}

#[test]
fn revisions_hand_out_what_they_were_made_of() {
    let revisions = Revisions::new(2, texts(&["r2", "r1"]));
    assert_eq!(revisions.start(), 2);
    assert_eq!(revisions.ids(), &texts(&["r2", "r1"]));
    assert_eq!(revisions.clone(), revisions);
}

#[test]
fn rev_hash_is_what_follows_the_first_hyphen() {
    assert_eq!(rev_hash("1-abc"), Some("abc".to_string()));
    assert_eq!(rev_hash("12-a-b"), Some("a-b".to_string()));
    assert_eq!(rev_hash("-x"), Some("x".to_string()));
    assert_eq!(rev_hash("3-"), Some("".to_string()));
    assert_eq!(rev_hash("1-é"), Some("é".to_string()));
    assert_eq!(rev_hash("abc"), None);
    assert_eq!(rev_hash(""), None);
}

#[test]
fn is_answered_by_a_document_with_the_hash_first() {
    let docs = vec![document("a", "1-r1", 1, &["r1"]), document("b", "2-r2", 2, &["r2", "r0"])];
    assert!(is_answered(&pair("a", "1-r1"), &docs));
    assert!(is_answered(&pair("b", "2-r2"), &docs));
    assert!(!is_answered(&pair("b", "1-r0"), &docs));
    assert!(!is_answered(&pair("a", "2-r2"), &docs));
    assert!(!is_answered(&pair("c", "1-r1"), &docs));
    assert!(!is_answered(&pair("a", "r1"), &docs));
    assert!(!is_answered(&pair("a", "1-r1"), &Vec::new()));
    assert!(!is_answered(&pair("a", "1-r1"), &vec![document("a", "1-r1", 1, &[])]));
}

#[test]
fn first_unanswered_finds_the_first_gap() {
    let docs = vec![document("a", "1-r1", 1, &["r1"]), document("c", "1-r3", 1, &["r3"])];
    let all = DocsRequest { docs: vec![pair("a", "1-r1"), pair("c", "1-r3")] };
    assert_eq!(first_unanswered(&all, &docs), None);
    let more =
        DocsRequest { docs: vec![pair("a", "1-r1"), pair("b", "1-r2"), pair("d", "1-r4")] };
    assert_eq!(first_unanswered(&more, &docs), Some(&pair("b", "1-r2")));
    assert_eq!(first_unanswered(&DocsRequest { docs: Vec::new() }, &docs), None);
    assert_eq!(first_unanswered(&all, &Vec::new()), Some(&pair("a", "1-r1")));
}

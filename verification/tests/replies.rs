use rouchdb::database::{Reply, STATUS_CREATED, STATUS_NOT_FOUND, STATUS_OK};
use rouchdb::documents::{DatabaseInfo, ReplicationLog, ServerInfo};
use rouchdb::error::{Error, Failure, Stage};
use rouchdb::text::decimal_of;

fn answer<T>(status: u16, body: &str, value: Option<T>) -> Reply<T> {
    Reply::Answer { status, body: body.to_string(), value }
}

#[test]
fn value_of_the_expected_status() {
    let reply = answer(200, "{\"uuid\":\"u\"}", Some(ServerInfo { uuid: "u".to_string() }));
    assert_eq!(reply.value(STATUS_OK), Ok(ServerInfo { uuid: "u".to_string() }));
}

#[test]
fn value_of_another_status_is_an_upstream_error() {
    let reply = answer(500, "boom", Some(DatabaseInfo { update_seq: "5-g1".to_string() }));
    assert_eq!(
        reply.value(STATUS_OK),
        Err(Error::Upstream { status: 500, body: "boom".to_string() })
    );
    let reply: Reply<ServerInfo> = answer(404, "{}", None);
    assert_eq!(reply.value(STATUS_OK), Err(Error::Upstream { status: 404, body: "{}".to_string() }));
    let reply = answer(201, "{}", Some(ServerInfo { uuid: "u".to_string() }));
    assert_eq!(reply.value(STATUS_OK), Err(Error::Upstream { status: 201, body: "{}".to_string() }));
}

#[test]
fn value_of_an_unreadable_body_is_a_decode_error() {
    let reply: Reply<ServerInfo> = answer(200, "{\"uid\":1}", None);
    assert_eq!(reply.value(STATUS_OK), Err(Error::Decode("{\"uid\":1}".to_string())));
}

#[test]
fn value_of_a_lost_request_is_a_transport_error() {
    let reply: Reply<ServerInfo> = Reply::Lost("connection refused".to_string());
    assert_eq!(reply.value(STATUS_OK), Err(Error::Transport("connection refused".to_string())));
}

#[test]
fn done_goes_by_the_status_alone() {
    let reply: Reply<()> = answer(201, "{\"ok\":true}", None);
    assert_eq!(reply.done(STATUS_CREATED), Ok(()));
    let reply: Reply<()> = answer(201, "", Some(()));
    assert_eq!(reply.done(STATUS_CREATED), Ok(()));
    let reply: Reply<()> = answer(200, "{\"ok\":true}", Some(()));
    assert_eq!(
        reply.done(STATUS_CREATED),
        Err(Error::Upstream { status: 200, body: "{\"ok\":true}".to_string() })
    );
    let reply: Reply<()> = answer(409, "conflict", None);
    assert_eq!(
        reply.done(STATUS_CREATED),
        Err(Error::Upstream { status: 409, body: "conflict".to_string() })
    );
    let reply: Reply<()> = Reply::Lost("timed out".to_string());
    assert_eq!(reply.done(STATUS_CREATED), Err(Error::Transport("timed out".to_string())));
}

#[test]
fn log_found() {
    let found = ReplicationLog {
        _id: "_local/abc".to_string(),
        _rev: Some("0-4".to_string()),
        source_last_seq: Some("5-g1".to_string()),
        session_id: Some(7),
    };
    let reply = answer(200, "{}", Some(found.clone()));
    assert_eq!(reply.log("abc"), Ok(found));
}

#[test]
fn log_missing_is_a_fresh_one() {
    let reply: Reply<ReplicationLog> = answer(STATUS_NOT_FOUND, "{\"error\":\"not_found\"}", None);
    assert_eq!(
        reply.log("abc"),
        Ok(ReplicationLog {
            _id: "_local/abc".to_string(),
            _rev: None,
            source_last_seq: None,
            session_id: None
        })
    );
    assert_eq!(ReplicationLog::local_id("abc"), "_local/abc");
}

#[test]
fn log_of_another_status_is_an_upstream_error() {
    let reply: Reply<ReplicationLog> = answer(401, "unauthorized", None);
    assert_eq!(
        reply.log("abc"),
        Err(Error::Upstream { status: 401, body: "unauthorized".to_string() })
    );
    let reply: Reply<ReplicationLog> = answer(200, "[]", None);
    assert_eq!(reply.log("abc"), Err(Error::Decode("[]".to_string())));
    let reply: Reply<ReplicationLog> = Reply::Lost("dns".to_string());
    assert_eq!(reply.log("abc"), Err(Error::Transport("dns".to_string())));
}

#[test]
fn decimal_of_numbers() {
    assert_eq!(decimal_of(0), "0");
    assert_eq!(decimal_of(7), "7");
    assert_eq!(decimal_of(10), "10");
    assert_eq!(decimal_of(404), "404");
    assert_eq!(decimal_of(1000), "1000");
    assert_eq!(decimal_of(65535), "65535");
}

#[test]
fn stage_names() {
    assert_eq!(Stage::Identify.name(), "identify");
    assert_eq!(Stage::LoadCheckpoints.name(), "load checkpoints");
    assert_eq!(Stage::Changes.name(), "changes");
    assert_eq!(Stage::Diff.name(), "diff");
    assert_eq!(Stage::Fetch.name(), "fetch");
    assert_eq!(Stage::Install.name(), "install");
    assert_eq!(Stage::SaveCheckpoints.name(), "save checkpoints");
}

#[test]
fn error_messages() {
    assert_eq!(Error::Address("x y".to_string()).message(), "not a usable address: x y");
    assert_eq!(Error::Transport("refused".to_string()).message(), "no answer: refused");
    assert_eq!(
        Error::Upstream { status: 500, body: "boom".to_string() }.message(),
        "status 500: boom"
    );
    assert_eq!(Error::Decode("[]".to_string()).message(), "unreadable answer: []");
    assert_eq!(
        Error::Protocol { id: "a".to_string(), rev: "1-r1".to_string() }.message(),
        "no document for revision 1-r1 of a"
    );
}

#[test]
fn describe_names_the_stage_and_the_error() {
    let failure = Failure {
        stage: Stage::Install,
        error: Error::Upstream { status: 500, body: "boom".to_string() },
    };
    assert_eq!(failure.describe(), "install: status 500: boom");
    let failure = Failure { stage: Stage::Identify, error: Error::Transport("refused".to_string()) };
    assert_eq!(failure.describe(), "identify: no answer: refused");
}

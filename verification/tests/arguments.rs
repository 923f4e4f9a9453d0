use rouchdb::error::Error;
use rouchdb::rouch::{Args, Rouch};

#[test]
fn args_keep_what_was_typed() {
    let args = Args::new("http://a/x".to_string(), "http://b/y".to_string());
    assert_eq!(args.source(), "http://a/x");
    assert_eq!(args.target(), "http://b/y");
}

#[test]
fn replicator_between_the_two_databases() {
    let rouch = Rouch::new(Args::new("HTTP://A.example/x".to_string(), "http://b.example:80/y".to_string()));
    let replicator = rouch.replicator().unwrap();
    assert_eq!(replicator.source().url(), "http://a.example/x");
    assert_eq!(replicator.target().url(), "http://b.example/y");
}

#[test]
fn replicator_refuses_what_is_no_address() {
    let rouch = Rouch::new(Args::new("a/x".to_string(), "http://b/y".to_string()));
    assert_eq!(rouch.replicator(), Err(Error::Address("a/x".to_string())));
    let rouch = Rouch::new(Args::new("http://a/x".to_string(), "".to_string()));
    assert_eq!(rouch.replicator(), Err(Error::Address("".to_string())));
    let rouch = Rouch::new(Args::new("x".to_string(), "y".to_string()));
    assert_eq!(rouch.replicator(), Err(Error::Address("x".to_string())));
}

use pulse::{collect_universes, Error, ErrorKind, InitInfo, RemoteFailure, StoredUniverse};

fn kind(failure: RemoteFailure) -> ErrorKind {
    Error::from(failure).kind
}

#[test]
fn not_found_status() {
    assert_eq!(kind(RemoteFailure::Response { status: 404 }), ErrorKind::NotFound);
}

#[test]
fn forbidden_status() {
    assert_eq!(kind(RemoteFailure::Response { status: 403 }), ErrorKind::Forbidden);
}

#[test]
fn server_error_statuses() {
    for status in [500, 502, 503, 599] {
        assert_eq!(kind(RemoteFailure::Response { status }), ErrorKind::RobloxServer);
    }
}

#[test]
fn other_statuses_are_unknown() {
    for status in [400, 401, 429, 499, 600, 302] {
        assert_eq!(kind(RemoteFailure::Response { status }), ErrorKind::Unknown);
    }
}

#[test]
fn transport_failure_is_unknown() {
    assert_eq!(kind(RemoteFailure::Transport), ErrorKind::Unknown);
}

#[test]
fn failed_universe_lookups_are_skipped() {
    let lookups = vec![
        (1, Ok("One".to_string())),
        (2, Err(Error { kind: ErrorKind::NotFound })),
        (3, Ok("Three".to_string())),
    ];
    let found = collect_universes(&lookups);
    assert_eq!(
        found,
        vec![
            StoredUniverse { id: 1, name: "One".to_string() },
            StoredUniverse { id: 3, name: "Three".to_string() },
        ]
    );
    assert!(collect_universes(&vec![]).is_empty());
}

#[test]
fn init_info_holds_token_flag() {
    assert!(InitInfo { token: true }.token);
}

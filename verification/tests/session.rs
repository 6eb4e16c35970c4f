use budgeters_server::auth::Permissions;
use budgeters_server::http::{CookieHeader, Rejection};
use budgeters_server::session::{
    check_session, fresh_session, fresh_session_at, fresh_session_result, generate_session_id,
    remove_session, remove_session_result, session_id_from, update_session, update_session_at,
    update_session_result, verify_session_at, verify_session_id, FreshSession, PermissionLookup,
    ResolveError, SessionError, SessionInfo, Verification, SESSION_ID_BITS, SESSION_ID_BYTES,
    SESSION_ID_LENGTH,
};
use budgeters_server::store::{DatabaseFault, PermissionColumn, StoreFailure, StoreRequest};
use budgeters_server::time::{SessionTime, Timestamp, DEFAULT_SESSION_SECONDS};

fn at(seconds: i64, nanos: u32) -> Timestamp {
    Timestamp { seconds, nanos }
}

fn outage(message: &str) -> StoreFailure {
    StoreFailure { message: message.to_string(), database: None }
}

fn refusal(message: &str, code: Option<&str>, constraint: Option<&str>) -> StoreFailure {
    StoreFailure {
        message: message.to_string(),
        database: Some(DatabaseFault {
            code: code.map(str::to_string),
            constraint: constraint.map(str::to_string),
        }),
    }
}

fn record(id: &str, expires: Timestamp, username: Option<&str>) -> SessionInfo {
    SessionInfo::from_parts(id.to_string(), expires, username.map(str::to_string))
}

#[test]
fn session_id_constants_agree() {
    assert_eq!(SESSION_ID_BITS, 256);
    assert_eq!(SESSION_ID_BYTES * 8, SESSION_ID_BITS);
    assert_eq!(SESSION_ID_LENGTH, 44);
}

#[test]
fn session_id_encodes_its_bytes() {
    assert_eq!(
        session_id_from(&[0u8; 32]),
        "AAAAAAAAAAAAAAAAAAAAAAAAAAAAAAAAAAAAAAAAAAA="
    );
    assert_eq!(
        session_id_from(&[255u8; 32]),
        "//////////////////////////////////////////8="
    );
    let mut bytes = [0u8; 32];
    for (i, b) in bytes.iter_mut().enumerate() {
        *b = i as u8;
    }
    assert_eq!(
        session_id_from(&bytes),
        "AAECAwQFBgcICQoLDA0ODxAREhMUFRYXGBkaGxwdHh8="
    );
}

#[test]
fn session_ids_have_fixed_length_and_differ() {
    let first = generate_session_id();
    let second = generate_session_id();
    assert_eq!(first.len(), SESSION_ID_LENGTH);
    assert_eq!(second.len(), SESSION_ID_LENGTH);
    assert_ne!(first, second);
    assert!(first.ends_with('='));
}

#[test]
fn default_session_time_is_two_hours() {
    assert_eq!(DEFAULT_SESSION_SECONDS, 2 * 60 * 60);
    assert_eq!(SessionTime::default(), SessionTime::from_seconds(7200));
    assert_eq!(SessionTime::default().seconds, 7200);
}

#[test]
fn timestamps_are_ordered_by_seconds_then_nanos() {
    assert!(at(1, 0).is_at_or_before(&at(1, 0)));
    assert!(at(1, 0).is_at_or_before(&at(1, 1)));
    assert!(!at(1, 1).is_at_or_before(&at(1, 0)));
    assert!(at(1, 999_999_999).is_at_or_before(&at(2, 0)));
    assert!(!at(2, 0).is_at_or_before(&at(1, 999_999_999)));
    assert!(at(-5, 3).is_at_or_before(&at(0, 0)));
}

#[test]
fn timestamps_are_extended_by_whole_seconds() {
    assert_eq!(at(1000, 5).extend(SessionTime::from_seconds(7200)), at(8200, 5));
    assert_eq!(at(-10, 0).extend(SessionTime::from_seconds(10)), at(0, 0));
    assert_eq!(
        at(1000, 5).checked_extend(SessionTime::from_seconds(0)),
        Some(at(1000, 5))
    );
    assert_eq!(
        at(i64::MAX - 1, 0).checked_extend(SessionTime::from_seconds(1)),
        Some(at(i64::MAX, 0))
    );
    assert_eq!(at(i64::MAX, 0).checked_extend(SessionTime::from_seconds(1)), None);
}

#[test]
fn new_session_is_anonymous_and_expires_after_one_lifetime() {
    let info = SessionInfo::new_at("abc".to_string(), at(1000, 5), SessionTime::default());
    assert_eq!(info.session_id(), "abc");
    assert_eq!(info.expiration_date(), at(8200, 5));
    assert_eq!(info.username(), None);
    assert_eq!(info, record("abc", at(8200, 5), None));
}

#[test]
fn new_session_reads_the_clock() {
    let before = chrono::Utc::now().timestamp();
    let info = SessionInfo::new("abc".to_string(), SessionTime::from_seconds(100));
    let after = chrono::Utc::now().timestamp();
    assert_eq!(info.session_id(), "abc");
    assert_eq!(info.username(), None);
    assert!(before + 100 <= info.expiration_date().seconds);
    assert!(info.expiration_date().seconds <= after + 100);
    assert!(info.expiration_date().nanos < 1_000_000_000);
}

#[test]
fn session_record_accessors() {
    let info = record("id-1", at(7, 9), Some("alice"));
    assert_eq!(info.session_id(), "id-1");
    assert_eq!(info.expiration_date(), at(7, 9));
    assert_eq!(info.username(), Some("alice"));
    assert_eq!(info.clone(), info);
    assert!(info.is_expired_at(&at(7, 9)));
    assert!(info.is_expired_at(&at(8, 0)));
    assert!(!info.is_expired_at(&at(7, 8)));
}

#[test]
fn session_requests() {
    let info = record("id-1", at(7, 9), None);
    assert_eq!(info.try_insert(), StoreRequest::InsertSession(info.clone()));
    assert_eq!(
        SessionInfo::try_read("id-1"),
        StoreRequest::ReadSession { session_id: "id-1".to_string() }
    );
    assert_eq!(
        remove_session("id-1"),
        StoreRequest::RemoveSession { session_id: "id-1".to_string() }
    );
}

#[test]
fn fresh_session_candidate() {
    let candidate = fresh_session_at(&[0u8; 32], at(50, 1), SessionTime::from_seconds(10));
    assert_eq!(
        candidate,
        record("AAAAAAAAAAAAAAAAAAAAAAAAAAAAAAAAAAAAAAAAAAA=", at(60, 1), None)
    );
    let drawn = fresh_session(SessionTime::default());
    assert_eq!(drawn.session_id().len(), SESSION_ID_LENGTH);
    assert_eq!(drawn.username(), None);
    assert_ne!(drawn.session_id(), fresh_session(SessionTime::default()).session_id());
}

#[test]
fn fresh_session_is_issued_when_inserted() {
    let candidate = record("id-1", at(7, 9), None);
    assert_eq!(
        fresh_session_result(candidate, Ok(1)),
        FreshSession::Issued("id-1".to_string())
    );
}

#[test]
fn fresh_session_collision_is_retried_not_surfaced() {
    let candidate = record("id-1", at(7, 9), None);
    assert_eq!(
        fresh_session_result(
            candidate,
            Err(refusal("duplicate key", Some("23505"), Some("session_id")))
        ),
        FreshSession::Collision
    );
}

#[test]
fn fresh_session_fails_on_other_failures() {
    assert_eq!(
        fresh_session_result(
            record("id-1", at(7, 9), None),
            Err(refusal("foreign key", Some("23503"), Some("username")))
        ),
        FreshSession::Failed("foreign key".to_string())
    );
    assert_eq!(
        fresh_session_result(
            record("id-1", at(7, 9), None),
            Err(refusal("duplicate key", Some("23505"), None))
        ),
        FreshSession::Failed("duplicate key".to_string())
    );
    assert_eq!(
        fresh_session_result(record("id-1", at(7, 9), None), Err(outage("pool timed out"))),
        FreshSession::Failed("pool timed out".to_string())
    );
}

#[test]
fn check_session_outcomes() {
    let info = record("id-1", at(7, 9), Some("alice"));
    assert_eq!(check_session(Ok(Some(info.clone()))), Ok(info));
    assert_eq!(check_session(Ok(None)), Err(SessionError::SessionIdNotFound));
    assert_eq!(
        check_session(Err(outage("pool timed out"))),
        Err(SessionError::DatabaseError("pool timed out".to_string()))
    );
}

#[test]
fn update_session_renews_for_one_lifetime() {
    assert_eq!(
        update_session_at("id-1".to_string(), "alice", at(1000, 5), SessionTime::default()),
        StoreRequest::UpdateSession {
            session_id: "id-1".to_string(),
            username: "alice".to_string(),
            expiration_date: at(8200, 5),
        }
    );
    let before = chrono::Utc::now().timestamp();
    let request = update_session("id-1".to_string(), "alice", SessionTime::from_seconds(30));
    let after = chrono::Utc::now().timestamp();
    match request {
        StoreRequest::UpdateSession { session_id, username, expiration_date } => {
            assert_eq!(session_id, "id-1");
            assert_eq!(username, "alice");
            assert!(before + 30 <= expiration_date.seconds);
            assert!(expiration_date.seconds <= after + 30);
        }
        other => panic!("not an update: {:?}", other),
    }
}

#[test]
fn update_session_outcomes() {
    assert_eq!(update_session_result(Ok(1)), Ok(()));
    assert_eq!(update_session_result(Ok(0)), Err(SessionError::SessionIdNotFound));
    assert_eq!(update_session_result(Ok(2)), Err(SessionError::SessionIdNotFound));
    assert_eq!(
        update_session_result(Err(outage("pool timed out"))),
        Err(SessionError::DatabaseError("pool timed out".to_string()))
    );
}

#[test]
fn remove_session_outcomes() {
    assert_eq!(remove_session_result(Ok(1)), Ok(()));
    assert_eq!(remove_session_result(Ok(0)), Ok(()));
    assert_eq!(
        remove_session_result(Err(outage("pool timed out"))),
        Err(SessionError::DatabaseError("pool timed out".to_string()))
    );
}

#[test]
fn verify_session_outcomes() {
    let info = record("id-1", at(100, 500), None);
    assert_eq!(
        verify_session_at("id-1", Ok(Some(info.clone())), at(100, 499)),
        Ok(Verification::Valid)
    );
    assert_eq!(
        verify_session_at("id-1", Ok(Some(info.clone())), at(100, 500)),
        Ok(Verification::Expired { removal: remove_session("id-1") })
    );
    assert_eq!(
        verify_session_at("id-1", Ok(Some(info.clone())), at(101, 0)),
        Ok(Verification::Expired { removal: remove_session("id-1") })
    );
    assert_eq!(verify_session_at("id-1", Ok(None), at(0, 0)), Ok(Verification::Invalid));
    assert_eq!(
        verify_session_at("id-1", Err(outage("pool timed out")), at(0, 0)),
        Err(SessionError::DatabaseError("pool timed out".to_string()))
    );
    assert!(Verification::Valid.is_valid());
    assert!(!Verification::Invalid.is_valid());
    assert!(!Verification::Expired { removal: remove_session("id-1") }.is_valid());
}

#[test]
fn verify_session_reads_the_clock() {
    let long_gone = record("id-1", at(1, 0), None);
    assert_eq!(
        verify_session_id("id-1", Ok(Some(long_gone))),
        Ok(Verification::Expired { removal: remove_session("id-1") })
    );
    let far_off = record("id-1", at(i64::MAX, 0), None);
    assert_eq!(verify_session_id("id-1", Ok(Some(far_off))), Ok(Verification::Valid));
    assert_eq!(verify_session_id("id-1", Ok(None)), Ok(Verification::Invalid));
    assert_eq!(
        verify_session_id("id-1", Err(outage("pool timed out"))),
        Err(SessionError::DatabaseError("pool timed out".to_string()))
    );
}

#[test]
fn session_errors_in_words() {
    assert_eq!(
        SessionError::SessionIdNotFound.to_string(),
        "Session id cannot be found in the database."
    );
    assert_eq!(
        SessionError::SessionExpired.to_string(),
        "Session of given id has expired."
    );
    assert_eq!(
        SessionError::DatabaseError("pool timed out".to_string()).to_string(),
        "DatabaseError. pool timed out"
    );
}

#[test]
fn session_of_a_request_is_looked_for() {
    let with_cookie = CookieHeader::Present { session_cookie: Some("id-1".to_string()) };
    let without_cookie = CookieHeader::Present { session_cookie: None };
    assert_eq!(
        SessionInfo::from_request(&with_cookie, true),
        Ok(StoreRequest::ReadSession { session_id: "id-1".to_string() })
    );
    assert_eq!(
        SessionInfo::from_request(&CookieHeader::Absent, true),
        Err(Rejection { status: 500, message: "No cookies were found".to_string() })
    );
    assert_eq!(
        SessionInfo::from_request(&CookieHeader::Absent, false),
        Err(Rejection { status: 500, message: "No cookies were found".to_string() })
    );
    assert_eq!(
        SessionInfo::from_request(&with_cookie, false),
        Err(Rejection {
            status: 500,
            message: "Cannot establish connection with database.".to_string()
        })
    );
    assert_eq!(
        SessionInfo::from_request(&without_cookie, false),
        Err(Rejection {
            status: 500,
            message: "Cannot establish connection with database.".to_string()
        })
    );
    assert_eq!(
        SessionInfo::from_request(&without_cookie, true),
        Err(Rejection { status: 400, message: "No session cookie was found".to_string() })
    );
}

#[test]
fn session_of_a_request_is_read() {
    let info = record("id-1", at(7, 9), Some("alice"));
    assert_eq!(SessionInfo::from_read(Ok(Some(info.clone()))), Ok(info));
    assert_eq!(
        SessionInfo::from_read(Ok(None)),
        Err(Rejection {
            status: 500,
            message: "Cannot find user session in database. Try again.".to_string()
        })
    );
    assert_eq!(
        SessionInfo::from_read(Err(outage("pool timed out"))),
        Err(Rejection { status: 500, message: "Database error has occured".to_string() })
    );
}

#[test]
fn anonymous_session_has_no_permissions() {
    assert_eq!(
        record("id-1", at(7, 9), None).read_permissions(),
        PermissionLookup::Anonymous
    );
    assert_eq!(
        record("id-1", at(7, 9), Some("alice")).read_permissions(),
        PermissionLookup::Ask(StoreRequest::ReadPermissions { username: "alice".to_string() })
    );
}

#[test]
fn permissions_are_resolved_from_the_row() {
    for level in [Permissions::User, Permissions::Moderator, Permissions::Admin] {
        assert_eq!(
            SessionInfo::read_permissions_result(Ok(Some(PermissionColumn::Text(
                level.to_string()
            )))),
            Ok(level)
        );
    }
}

#[test]
fn missing_permission_is_an_integrity_violation() {
    let error =
        SessionInfo::read_permissions_result(Ok(Some(PermissionColumn::Null))).unwrap_err();
    assert_eq!(error, ResolveError::MissingPermission);
    assert!(error.is_integrity_violation());
    assert_eq!(error.to_string(), "Credentials in database hold no permission.");
}

#[test]
fn missing_credentials_are_an_integrity_violation() {
    let error = SessionInfo::read_permissions_result(Ok(None)).unwrap_err();
    assert_eq!(error, ResolveError::MissingCredential);
    assert!(error.is_integrity_violation());
    assert_eq!(error.to_string(), "Tables in database has conflicting data.");
}

#[test]
fn unknown_permission_is_an_integrity_violation() {
    let error = SessionInfo::read_permissions_result(Ok(Some(PermissionColumn::Text(
        "Root".to_string(),
    ))))
    .unwrap_err();
    assert_eq!(error, ResolveError::UnknownPermission("Root".to_string()));
    assert!(error.is_integrity_violation());
    assert_eq!(
        error.to_string(),
        "Given string does not represent application's permission."
    );
}

#[test]
fn failed_permission_reads_are_store_errors() {
    let error = SessionInfo::read_permissions_result(Err(outage("pool timed out"))).unwrap_err();
    assert_eq!(error, ResolveError::Store("pool timed out".to_string()));
    assert!(!error.is_integrity_violation());
    assert_eq!(error.to_string(), "pool timed out");
    assert_eq!(
        SessionInfo::read_permissions_result(Ok(Some(PermissionColumn::Unreadable(outage(
            "mismatched types"
        ))))),
        Err(ResolveError::Store("mismatched types".to_string()))
    );
}

#[test]
fn store_failures_are_told_apart() {
    let taken = refusal("duplicate key", Some("23505"), Some("session_id"));
    assert!(taken.violates("session_id"));
    assert!(!taken.violates("username"));
    assert!(taken.has_code("23505"));
    assert!(!taken.has_code("23503"));
    let bare = refusal("syntax", None, None);
    assert!(!bare.violates("session_id"));
    assert!(!bare.has_code("23505"));
    let down = outage("pool timed out");
    assert!(!down.violates("session_id"));
    assert!(!down.has_code("23505"));
}

use corral_validate::session::{
    has_lapsed, hydrate_user, live_session_user, resolve_user, parse_expiry, session_lapsed, SessionRow, UserRow,
};
use corral_validate::validator::CorralValidator;

fn seed(path: &str) {
    let conn = rusqlite::Connection::open(path).unwrap();
    conn.execute_batch(
        r#"CREATE TABLE IF NOT EXISTS "session" ("token" TEXT PRIMARY KEY, "userId" TEXT, "expiresAt" TEXT);
           CREATE TABLE IF NOT EXISTS "user" ("id" TEXT PRIMARY KEY, "email" TEXT, "name" TEXT, "plan" TEXT,
               "role" TEXT, "emailVerified" INTEGER, "createdAt" TEXT);
           INSERT OR REPLACE INTO "session" VALUES ('tok_abc', 'u1', '2999-01-01T00:00:00Z');
           INSERT OR REPLACE INTO "session" VALUES ('tok_old', 'u1', '2000-01-01T00:00:00Z');
           INSERT OR REPLACE INTO "session" VALUES ('tok_naive', 'u2', '2999-01-01 00:00:00');
           INSERT OR REPLACE INTO "session" VALUES ('tok_naive_old', 'u2', '2000-01-01 00:00:00');
           INSERT OR REPLACE INTO "session" VALUES ('tok_bad', 'u1', 'next tuesday');
           INSERT OR REPLACE INTO "session" VALUES ('tok_orphan', 'nobody', '2999-01-01T00:00:00Z');
           INSERT OR REPLACE INTO "user" VALUES ('u1', 'u1@example.com', 'Una', 'pro', 'admin', 1, '2024-01-01');
           INSERT OR REPLACE INTO "session" VALUES ('tok_blob', 'u5', '2999-01-01T00:00:00Z');
           INSERT OR REPLACE INTO "user" VALUES ('u5', 'u5@example.com', NULL, X'01', X'02', 'yes', '2024-05-05');
           INSERT OR REPLACE INTO "user" VALUES ('u2', 'u2@example.com', NULL, NULL, NULL, 0, '2024-02-02');"#,
    )
    .unwrap();
}

fn validator(tag: &str) -> CorralValidator {
    let path = format!("/tmp/corral_validate_{tag}.db");
    seed(&path);
    CorralValidator::new(&path).unwrap()
}

#[test]
fn live_session_returns_stored_user() {
    let v = validator("live");
    let u = v.validate_session("tok_abc").unwrap().unwrap();
    assert_eq!(u.id, "u1");
    assert_eq!(u.email, "u1@example.com");
    assert_eq!(u.name, Some("Una".to_string()));
    assert_eq!(u.plan, "pro");
    assert_eq!(u.role, "admin");
    assert!(u.email_verified);
    assert_eq!(u.created_at, "2024-01-01");
}

#[test]
fn past_session_returns_nothing() {
    let v = validator("past");
    assert!(v.validate_session("tok_old").unwrap().is_none());
    assert!(v.validate_session("tok_naive_old").unwrap().is_none());
}

#[test]
fn unknown_token_returns_nothing() {
    let v = validator("unknown");
    assert!(v.validate_session("no_such_token").unwrap().is_none());
}

#[test]
fn unreadable_expiry_fails_closed() {
    let v = validator("unreadable");
    assert!(v.validate_session("tok_bad").unwrap().is_none());
}

#[test]
fn orphaned_session_returns_nothing() {
    let v = validator("orphan");
    assert!(v.validate_session("tok_orphan").unwrap().is_none());
}

#[test]
fn naive_expiry_and_null_columns_take_defaults() {
    let v = validator("defaults");
    let u = v.validate_session("tok_naive").unwrap().unwrap();
    assert_eq!(u.id, "u2");
    assert_eq!(u.name, None);
    assert_eq!(u.plan, "free");
    assert_eq!(u.role, "user");
    assert!(!u.email_verified);
}

#[test]
fn missing_tables_are_a_store_error() {
    let v = CorralValidator::new(":memory:").unwrap();
    assert!(v.validate_session("tok_abc").is_err());
}

#[test]
fn expiry_layouts_parse() {
    assert_eq!(parse_expiry("2999-01-01T00:00:00Z"), Some((32472144000, 0)));
    assert_eq!(parse_expiry("2000-01-01 00:00:00"), Some((946684800, 0)));
    assert_eq!(parse_expiry("2024-05-06T09:08:09.5+02:00"), Some((1714979289, 500_000_000)));
    assert_eq!(parse_expiry("yesterday"), None);
}

#[test]
fn lapse_is_at_or_before_now() {
    let now = (1000, 5);
    assert!(has_lapsed(Some((1000, 5)), now));
    assert!(has_lapsed(Some((999, 900)), now));
    assert!(!has_lapsed(Some((1000, 6)), now));
    assert!(has_lapsed(None, now));
    assert!(session_lapsed("garbage", now));
    assert!(!session_lapsed("2999-01-01T00:00:00Z", now));
    assert!(session_lapsed("1970-01-01 00:16:40", (1000, 0)));
}

#[test]
fn session_rows_lead_to_user_ids() {
    let now = (946684800, 0);
    assert_eq!(live_session_user(None, Some(now)), None);
    let live = SessionRow { user_id: "u1".to_string(), expires_at: "2999-01-01T00:00:00Z".to_string() };
    assert_eq!(live_session_user(Some(live), Some(now)), Some("u1".to_string()));
    let old = SessionRow { user_id: "u1".to_string(), expires_at: "2000-01-01T00:00:00Z".to_string() };
    assert_eq!(live_session_user(Some(old), Some(now)), None);
}

#[test]
fn hydration_fills_defaults() {
    let row = UserRow {
        id: "u3".to_string(),
        email: "c@example.com".to_string(),
        name: Some("Cy".to_string()),
        plan: None,
        role: None,
        email_verified: None,
        created_at: "2024-03-03".to_string(),
    };
    let u = hydrate_user(row);
    assert_eq!(u.plan, "free");
    assert_eq!(u.role, "user");
    assert!(!u.email_verified);
    assert_eq!(u.name, Some("Cy".to_string()));
    assert_eq!(u.id, "u3");
}

#[test]
fn builder_keeps_settings() {
    let path = "/tmp/corral_validate_builder.db";
    seed(path);
    let v = CorralValidator::builder(path).with_auth_server(true).build().unwrap();
    assert!(v.wants_auth_server());
    assert_eq!(v.db_path(), path);
    let plain = CorralValidator::builder(path).build().unwrap();
    assert!(!plain.wants_auth_server());
}

#[test]
fn missing_user_row_gives_nothing() {
    assert!(resolve_user(None).is_none());
    let row = UserRow {
        id: "u4".to_string(),
        email: "d@example.com".to_string(),
        name: None,
        plan: Some("team".to_string()),
        role: Some("admin".to_string()),
        email_verified: Some(true),
        created_at: "2024-04-04".to_string(),
    };
    let u = resolve_user(Some(row)).unwrap();
    assert_eq!(u.plan, "team");
    assert_eq!(u.role, "admin");
    assert!(u.email_verified);
}

#[test]
fn unreadable_plan_and_role_take_defaults() {
    let v = validator("blob");
    let u = v.validate_session("tok_blob").unwrap().unwrap();
    assert_eq!(u.id, "u5");
    assert_eq!(u.plan, "free");
    assert_eq!(u.role, "user");
    assert!(!u.email_verified);
}

#[test]
fn unread_clock_gives_no_user() {
    let now = None;
    let live = SessionRow { user_id: "u1".to_string(), expires_at: "2999-01-01T00:00:00Z".to_string() };
    assert_eq!(live_session_user(Some(live), now), None);
}

#[test]
fn expiry_equal_to_now_has_lapsed() {
    let live = SessionRow { user_id: "u1".to_string(), expires_at: "2000-01-01T00:00:00Z".to_string() };
    assert_eq!(live_session_user(Some(live), Some((946684800, 0))), None);
}

#[test]
fn validation_at_a_given_instant() {
    let v = validator("at");
    let early = v.validate_session_at("tok_abc", Some((0, 0))).0.unwrap();
    assert_eq!(early.map(|u| u.id), Some("u1".to_string()));
    let at_expiry = v.validate_session_at("tok_abc", Some((32472144000, 0))).0.unwrap();
    assert!(at_expiry.is_none());
    let no_clock = v.validate_session_at("tok_abc", None).0.unwrap();
    assert!(no_clock.is_none());
    assert!(v.validate_session_at("tok_old", Some((0, 0))).0.unwrap().is_some());
}

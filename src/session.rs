//! Resolving a session token to a user: store lookups, expiry, hydration.

use vstd::prelude::*;
use crate::token::opt_view;
use rusqlite::OptionalExtension;

verus! {

#[verifier::external_type_specification]
#[verifier::external_body]
pub struct ExConnection(rusqlite::Connection);

#[verifier::external_type_specification]
#[verifier::external_body]
pub struct ExSqlError(rusqlite::Error);

/// An authenticated user.
#[derive(Debug, Clone)]
pub struct User {
    pub id: String,
    pub email: String,
    pub name: Option<String>,
    pub plan: String,
    pub role: String,
    pub email_verified: bool,
    pub created_at: String,
}

/// A row of the `user` table as read: the optional columns stay optional,
/// and a plan, role or verified flag that could not be read is `None`.
#[derive(Debug, Clone)]
pub struct UserRow {
    pub id: String,
    pub email: String,
    pub name: Option<String>,
    pub plan: Option<String>,
    pub role: Option<String>,
    pub email_verified: Option<bool>,
    pub created_at: String,
}

/// A row of the `session` table as read: the owning user's id and the raw expiry.
#[derive(Debug, Clone)]
pub struct SessionRow {
    pub user_id: String,
    pub expires_at: String,
}

/// Seconds since the Unix epoch (UTC) and the nanoseconds past them.
pub type Stamp = (i64, u32);

/// `a` is not later than `b`.
pub open spec fn at_or_before(a: Stamp, b: Stamp) -> bool {
    a.0 < b.0 || (a.0 == b.0 && a.1 <= b.1)
}

/// The instant that an RFC 3339 text names.
pub uninterp spec fn rfc3339_instant(s: Seq<char>) -> Option<Stamp>;

/// The instant that a text without offset names under `fmt`, taken as UTC.
pub uninterp spec fn naive_utc_instant(s: Seq<char>, fmt: Seq<char>) -> Option<Stamp>;

/// The second accepted expiry layout, `YYYY-MM-DD HH:MM:SS`.
pub open spec fn naive_layout() -> Seq<char> {
    "%Y-%m-%d %H:%M:%S"@
}

/// The expiry a session's text gives: RFC 3339 first, else the naive layout in UTC.
pub open spec fn expiry_instant(s: Seq<char>) -> Option<Stamp> {
    match rfc3339_instant(s) {
        Some(t) => Some(t),
        None => naive_utc_instant(s, naive_layout()),
    }
}

/// A session with this expiry has lapsed at `now`: when the expiry is at or
/// before `now`, or when there is none to read.
pub open spec fn lapsed(expiry: Option<Stamp>, now: Stamp) -> bool {
    match expiry {
        Some(e) => at_or_before(e, now),
        None => true,
    }
}

/// Relies on chrono's `DateTime::parse_from_rfc3339`, read back as its UTC
/// timestamp and sub-second nanoseconds: a function of the text alone.
#[verifier::external_body]
fn parse_rfc3339(s: &str) -> (r: Option<Stamp>)
    ensures
        r == rfc3339_instant(s@),
{
    chrono::DateTime::parse_from_rfc3339(s).ok().map(|t| (t.timestamp(), t.timestamp_subsec_nanos()))
}

/// Relies on chrono's `NaiveDateTime::parse_from_str` and `and_utc`, read
/// back as the UTC timestamp and sub-second nanoseconds: a function of the
/// text and the layout alone.
#[verifier::external_body]
fn parse_naive_utc(s: &str, fmt: &str) -> (r: Option<Stamp>)
    ensures
        r == naive_utc_instant(s@, fmt@),
{
    chrono::NaiveDateTime::parse_from_str(s, fmt).ok().map(
        |t| (t.and_utc().timestamp(), t.and_utc().timestamp_subsec_nanos()),
    )
}

/// Relies on std's `SystemTime::now` and `duration_since` for the system
/// clock, and on chrono's `DateTime::from_timestamp` (which returns `None`
/// rather than panicking out of its range) to read it as a UTC timestamp and
/// its sub-second nanoseconds; the nanoseconds come from a `Duration` and so
/// stay under one second. A clock before 1970 gives `None`.
#[verifier::external_body]
fn utc_now() -> (r: Option<Stamp>)
    ensures
        r matches Some(t) ==> t.1 < 1_000_000_000,
{
    match std::time::SystemTime::now().duration_since(std::time::UNIX_EPOCH) {
        Ok(d) => chrono::DateTime::from_timestamp(d.as_secs() as i64, d.subsec_nanos())
            .map(|t| (t.timestamp(), t.timestamp_subsec_nanos())),
        Err(_) => None,
    }
}

/// The expiry that `s` gives, in either accepted layout.
pub fn parse_expiry(s: &str) -> (r: Option<Stamp>)
    ensures
        r == expiry_instant(s@),
{
    match parse_rfc3339(s) {
        Some(t) => Some(t),
        None => parse_naive_utc(s, "%Y-%m-%d %H:%M:%S"),
    }
}

/// Whether a session with this expiry has lapsed at `now`.
pub fn has_lapsed(expiry: Option<Stamp>, now: Stamp) -> (r: bool)
    ensures
        r == lapsed(expiry, now),
{
    match expiry {
        Some(e) => e.0 < now.0 || (e.0 == now.0 && e.1 <= now.1),
        None => true,
    }
}

/// Whether a session that expires at the text `expires_at` has lapsed at `now`.
pub fn session_lapsed(expires_at: &str, now: Stamp) -> (r: bool)
    ensures
        r == lapsed(expiry_instant(expires_at@), now),
{
    has_lapsed(parse_expiry(expires_at), now)
}

pub open spec fn session_row_view(r: Option<SessionRow>) -> Option<(Seq<char>, Seq<char>)> {
    match r {
        Some(s) => Some((s.user_id@, s.expires_at@)),
        None => None,
    }
}

/// The user to load for a session lookup at `now`: none for a missing or
/// lapsed session, and none when the clock could not be read.
pub open spec fn live_user_id(row: Option<(Seq<char>, Seq<char>)>, now: Option<Stamp>) -> Option<
    Seq<char>,
> {
    match row {
        None => None,
        Some(r) => match now {
            None => None,
            Some(n) => if lapsed(expiry_instant(r.1), n) {
                None
            } else {
                Some(r.0)
            },
        },
    }
}

/// The id of the user that a session lookup leads to at `now`, if any.
pub fn live_session_user(row: Option<SessionRow>, now: Option<Stamp>) -> (r: Option<String>)
    ensures
        opt_view(r) == live_user_id(session_row_view(row), now),
{
    match row {
        None => None,
        Some(s) => match now {
            None => None,
            Some(n) => if session_lapsed(s.expires_at.as_str(), n) {
                None
            } else {
                Some(s.user_id)
            },
        },
    }
}

/// `u` is the user that `row` describes, with plan `free`, role `user` and
/// an unverified address where the row leaves them out.
pub open spec fn hydrated_from(u: User, row: UserRow) -> bool {
    &&& u.id@ == row.id@
    &&& u.email@ == row.email@
    &&& opt_view(u.name) == opt_view(row.name)
    &&& u.plan@ == match row.plan {
        Some(p) => p@,
        None => "free"@,
    }
    &&& u.role@ == match row.role {
        Some(r) => r@,
        None => "user"@,
    }
    &&& u.email_verified == match row.email_verified {
        Some(b) => b,
        None => false,
    }
    &&& u.created_at@ == row.created_at@
}

/// The user that a row describes, with the defaults for what it leaves out.
pub fn hydrate_user(row: UserRow) -> (u: User)
    ensures
        hydrated_from(u, row),
{
    let UserRow { id, email, name, plan, role, email_verified, created_at } = row;
    let plan = match plan {
        Some(p) => p,
        None => String::from_str("free"),
    };
    let role = match role {
        Some(r) => r,
        None => String::from_str("user"),
    };
    let email_verified = match email_verified {
        Some(b) => b,
        None => false,
    };
    User { id, email, name, plan, role, email_verified, created_at }
}

/// The user that a user lookup gives: none where no row came back (an
/// orphaned session), else the row with its defaults filled in.
pub fn resolve_user(row: Option<UserRow>) -> (r: Option<User>)
    ensures
        r is Some <==> row is Some,
        r matches Some(u) ==> hydrated_from(u, row->0),
{
    match row {
        Some(u) => Some(hydrate_user(u)),
        None => None,
    }
}

/// Relies on rusqlite's `Connection::open`: opens (or creates) the store at `path`.
#[verifier::external_body]
pub(crate) fn open_store(path: &str) -> (r: Result<rusqlite::Connection, rusqlite::Error>) {
    rusqlite::Connection::open(path)
}

/// Relies on rusqlite's `Connection::query_row` and `optional`: the session
/// row whose token is `token`, `None` where no row matches.
#[verifier::external_body]
fn find_session(conn: &rusqlite::Connection, token: &str) -> (r: Result<
    Option<SessionRow>,
    rusqlite::Error,
>) {
    conn.query_row(
        r#"SELECT "userId", "expiresAt" FROM "session" WHERE "token" = ?1"#,
        [token],
        |row| Ok(SessionRow { user_id: row.get(0)?, expires_at: row.get(1)? }),
    ).optional()
}

/// Relies on rusqlite's `Connection::query_row` and `optional`: the user row
/// whose id is `id`, `None` where no row matches; a plan or role that does
/// not read as text, and a verified flag that does not read as a boolean,
/// are kept as `None`.
#[verifier::external_body]
fn find_user(conn: &rusqlite::Connection, id: &str) -> (r: Result<Option<UserRow>, rusqlite::Error>) {
    conn.query_row(
        r#"SELECT "id","email","name","plan","role","emailVerified","createdAt" FROM "user" WHERE "id" = ?1"#,
        [id],
        |row| Ok(UserRow {
            id: row.get(0)?, email: row.get(1)?, name: row.get(2)?, plan: row.get(3).ok().flatten(),
            role: row.get(4).ok().flatten(), email_verified: row.get(5).ok(), created_at: row.get(6)?,
        }),
    ).optional()
}

/// The outcome of a validation that read the session row `session` and,
/// where that led to a user, the user row `user`: no user unless the session
/// is live at `now`, and then the user row with its defaults filled in, or
/// nothing for an orphaned session.
pub open spec fn validated_from(
    res: Option<User>,
    session: Option<SessionRow>,
    user: Option<UserRow>,
    now: Option<Stamp>,
) -> bool {
    match live_user_id(session_row_view(session), now) {
        None => res is None,
        Some(_) => (res is Some <==> user is Some) && (res matches Some(u) ==> hydrated_from(
            u,
            user->0,
        )),
    }
}

/// The user that the session `token` belongs to at `now`, read through
/// `conn`: nothing for an unknown token, a lapsed session or a missing user.
/// Only a failure of the store itself is an error. The rows read come back
/// as ghost values: the session row, and the user row where one was looked up.
pub fn resolve_session(conn: &rusqlite::Connection, token: &str, now: Option<Stamp>) -> (r: (
    Result<Option<User>, rusqlite::Error>,
    Ghost<Option<SessionRow>>,
    Ghost<Option<UserRow>>,
))
    ensures
        r.0 matches Ok(res) ==> validated_from(res, r.1@, r.2@, now),
        live_user_id(session_row_view(r.1@), now) is None ==> r.2@ is None,
{
    let row = match find_session(conn, token) {
        Ok(row) => row,
        Err(e) => return (Err(e), Ghost(None), Ghost(None)),
    };
    let ghost session = row;
    let user_id = match live_session_user(row, now) {
        Some(id) => id,
        None => return (Ok(None), Ghost(session), Ghost(None)),
    };
    match find_user(conn, user_id.as_str()) {
        Ok(urow) => {
            let ghost user = urow;
            (Ok(resolve_user(urow)), Ghost(session), Ghost(user))
        },
        Err(e) => (Err(e), Ghost(session), Ghost(None)),
    }
}

/// The current time on the system clock; `None` when it reads before 1970.
pub fn now_utc() -> (r: Option<Stamp>)
    ensures
        r matches Some(t) ==> t.1 < 1_000_000_000,
{
    utc_now()
}

/// An unknown token resolves to no user; neither does any session when the
/// clock could not be read.
pub proof fn lemma_unknown_session(user_id: Seq<char>, expires_at: Seq<char>, now: Option<Stamp>)
    ensures
        live_user_id(None, now) is None,
        live_user_id(Some((user_id, expires_at)), None) is None,
{
}

/// A session whose expiry is strictly before `now` leads to no user.
pub proof fn lemma_past_expiry(user_id: Seq<char>, expires_at: Seq<char>, now: Stamp)
    requires
        expiry_instant(expires_at) matches Some(e) && at_or_before(e, now) && e != now,
    ensures
        live_user_id(Some((user_id, expires_at)), Some(now)) is None,
{
}

/// A session whose expiry reads in neither layout has lapsed: it leads to no user.
pub proof fn lemma_unreadable_expiry(user_id: Seq<char>, expires_at: Seq<char>, now: Stamp)
    requires
        rfc3339_instant(expires_at) is None,
        naive_utc_instant(expires_at, naive_layout()) is None,
    ensures
        lapsed(expiry_instant(expires_at), now),
        live_user_id(Some((user_id, expires_at)), Some(now)) is None,
{
}

/// A session whose expiry is later than `now` leads to its user, and that
/// user is the row with the defaults filled in.
pub proof fn lemma_live_session(
    user_id: Seq<char>,
    expires_at: Seq<char>,
    now: Stamp,
    row: UserRow,
    u: User,
)
    requires
        expiry_instant(expires_at) matches Some(e) && !at_or_before(e, now),
        hydrated_from(u, row),
    ensures
        live_user_id(Some((user_id, expires_at)), Some(now)) == Some(user_id),
        u.plan@ == (match row.plan {
            Some(p) => p@,
            None => "free"@,
        }),
        u.role@ == (match row.role {
            Some(r) => r@,
            None => "user"@,
        }),
{
}

} // verus!

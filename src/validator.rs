//! The validator, its builder, and the authorization check on plans.

use vstd::prelude::*;
use crate::plan::{plan_level, plan_meets};
use crate::session::{now_utc, open_store, resolve_session, validated_from, SessionRow, Stamp, User, UserRow};

verus! {

/// Builder for configuring a `CorralValidator`.
pub struct CorralValidatorBuilder {
    db_path: String,
    auth_server: bool,
}

impl CorralValidatorBuilder {
    /// Path of the shared store.
    pub closed spec fn path(&self) -> Seq<char> {
        self.db_path@
    }

    /// Whether the companion process is to be started.
    pub closed spec fn wants_auth_server(&self) -> bool {
        self.auth_server
    }

    /// Enable or disable starting the companion auth server.
    pub fn with_auth_server(self, enabled: bool) -> (r: Self)
        ensures
            r.path() == self.path(),
            r.wants_auth_server() == enabled,
    {
        CorralValidatorBuilder { db_path: self.db_path, auth_server: enabled }
    }

    /// Build the validator once the store opens; the companion process, if
    /// asked for, is the caller's to start (see `auth_server_requested`).
    pub fn build(self) -> (r: Result<CorralValidator, rusqlite::Error>)
        ensures
            r matches Ok(v) ==> v.path() == self.path() && v.auth_server_requested()
                == self.wants_auth_server(),
    {
        match open_store(self.db_path.as_str()) {
            Ok(_) => Ok(CorralValidator { db_path: self.db_path, auth_server: self.auth_server }),
            Err(e) => Err(e),
        }
    }
}

/// Session validator backed by the shared store.
pub struct CorralValidator {
    db_path: String,
    auth_server: bool,
}

impl CorralValidator {
    /// Path of the shared store.
    pub closed spec fn path(&self) -> Seq<char> {
        self.db_path@
    }

    /// Whether the companion process was asked for.
    pub closed spec fn auth_server_requested(&self) -> bool {
        self.auth_server
    }

    /// A validator without the companion process, once the store opens.
    pub fn new(db_path: &str) -> (r: Result<Self, rusqlite::Error>)
        ensures
            r matches Ok(v) ==> v.path() == db_path@ && !v.auth_server_requested(),
    {
        match open_store(db_path) {
            Ok(_) => Ok(CorralValidator { db_path: String::from_str(db_path), auth_server: false }),
            Err(e) => Err(e),
        }
    }

    /// A builder for the store at `db_path`, with the companion process off.
    pub fn builder(db_path: &str) -> (r: CorralValidatorBuilder)
        ensures
            r.path() == db_path@,
            !r.wants_auth_server(),
    {
        CorralValidatorBuilder { db_path: String::from_str(db_path), auth_server: false }
    }

    /// Path of the shared store.
    pub fn db_path(&self) -> (r: &str)
        ensures
            r@ == self.path(),
    {
        self.db_path.as_str()
    }

    /// Whether the companion process was asked for.
    pub fn wants_auth_server(&self) -> (r: bool)
        ensures
            r == self.auth_server_requested(),
    {
        self.auth_server
    }

    /// The user that `token` belongs to at `now`, if its session exists and
    /// is live at `now` and its user exists; nothing when `now` is `None`
    /// (a clock that could not be read). Each call opens its own connection;
    /// only a failure of the store is an error. The session row read, and the
    /// user row where one was looked up, come back as ghost values.
    pub fn validate_session_at(&self, token: &str, now: Option<Stamp>) -> (r: (
        Result<Option<User>, rusqlite::Error>,
        Ghost<Option<SessionRow>>,
        Ghost<Option<UserRow>>,
    ))
        ensures
            r.0 matches Ok(res) ==> validated_from(res, r.1@, r.2@, now),
    {
        let conn = match open_store(self.db_path.as_str()) {
            Ok(c) => c,
            Err(e) => return (Err(e), Ghost(None), Ghost(None)),
        };
        resolve_session(&conn, token, now)
    }

    /// The user that `token` belongs to now: `validate_session_at` at the
    /// system clock's reading, whose contract states the outcome over the
    /// rows read and that reading. A user returned here is one that a live
    /// session row and a user row give, with the defaults filled in, at some
    /// reading of the clock.
    pub fn validate_session(&self, token: &str) -> (r: Result<Option<User>, rusqlite::Error>)
        ensures
            r matches Ok(Some(u)) ==> exists|s: SessionRow, ur: UserRow, n: Stamp|
                #[trigger] validated_from(Some(u), Some(s), Some(ur), Some(n)),
    {
        let now = now_utc();
        let r = self.validate_session_at(token, now);
        proof {
            if r.0 is Ok && r.0->Ok_0 is Some {
                let u = r.0->Ok_0->Some_0;
                assert(validated_from(Some(u), Some(r.1@->0), Some(r.2@->0), Some(now->0)));
            }
        }
        r.0
    }

    /// Whether the user's plan ranks at least as high as `plan`.
    pub fn require_plan(user: &User, plan: &str) -> (r: bool)
        ensures
            r == plan_meets(user.plan@, plan@),
    {
        plan_level(user.plan.as_str()) >= plan_level(plan)
    }
}

/// A user resolved from a request's session token.
pub struct CorralUser(pub User);

} // verus!

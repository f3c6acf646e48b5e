//! Shared record fields: the deployment environment, tenant ownership,
//! and the metadata block every persisted entity carries.

use vstd::prelude::*;

verus! {

/// The deployment environment a credential or connection is scoped to.
#[derive(Debug, Clone, Copy, PartialEq, Eq, Structural)]
pub enum Environment {
    Test,
    Live,
}

impl Environment {
    /// The textual form used inside keys and filters.
    pub fn as_str(&self) -> (r: &'static str)
        ensures
            r@ == spec_environment_str(*self),
    {
        proof {
            reveal_strlit("test");
            reveal_strlit("live");
        }
        match self {
            Environment::Test => "test",
            Environment::Live => "live",
        }
    }
}

/// The characters of an environment's textual form.
pub open spec fn spec_environment_str(e: Environment) -> Seq<char> {
    match e {
        Environment::Test => "test"@,
        Environment::Live => "live"@,
    }
}

/// Tenant identity: every persisted entity carries it, and list queries
/// filter on its `id`.
#[derive(Debug, Clone)]
pub struct Ownership {
    pub id: String,
    pub user_id: Option<String>,
    pub client_id: String,
}

impl Ownership {
    pub fn new(id: &str) -> (r: Ownership)
        ensures
            r.id@ == id@,
            r.user_id is None,
            r.client_id@ == id@,
    {
        Ownership { id: id.to_owned(), user_id: None, client_id: id.to_owned() }
    }
}

/// Bookkeeping every persisted record carries. Deletion is logical:
/// `deleted` filters the record out of list results.
#[derive(Debug, Clone, Copy)]
pub struct RecordMetadata {
    pub created_at: i64,
    pub updated_at: i64,
    pub updated: bool,
    pub active: bool,
    pub deprecated: bool,
    pub deleted: bool,
    pub version: u64,
}

impl RecordMetadata {
    /// The metadata a record created at `now` starts with.
    pub open spec fn spec_new(now: i64) -> RecordMetadata {
        RecordMetadata {
            created_at: now,
            updated_at: now,
            updated: false,
            active: true,
            deprecated: false,
            deleted: false,
            version: 1,
        }
    }

    /// Fresh metadata for a record created at `now`.
    pub fn new(now: i64) -> (r: RecordMetadata)
        ensures
            r == RecordMetadata::spec_new(now),
    {
        RecordMetadata {
            created_at: now,
            updated_at: now,
            updated: false,
            active: true,
            deprecated: false,
            deleted: false,
            version: 1,
        }
    }

    /// Record that the entity was changed at `now`.
    pub fn mark_updated(&mut self, now: i64)
        ensures
            *final(self) == (RecordMetadata { updated_at: now, updated: true, ..*old(self) }),
    {
        self.updated_at = now;
        self.updated = true;
    }

    /// Take the record out of service without deleting it.
    pub fn mark_deprecated(&mut self)
        ensures
            *final(self) == (RecordMetadata { deprecated: true, ..*old(self) }),
    {
        self.deprecated = true;
    }

    /// Stop the record from being acted on.
    pub fn mark_inactive(&mut self)
        ensures
            *final(self) == (RecordMetadata { active: false, ..*old(self) }),
    {
        self.active = false;
    }

    /// Logically delete the record: list queries no longer return it.
    pub fn mark_deleted(&mut self, now: i64)
        ensures
            *final(self) == (RecordMetadata {
                deleted: true,
                active: false,
                updated_at: now,
                updated: true,
                ..*old(self)
            }),
    {
        self.deleted = true;
        self.active = false;
        self.updated_at = now;
        self.updated = true;
    }
}

impl Default for RecordMetadata {
    /// Metadata of a record whose creation instant is not yet known.
    fn default() -> (r: RecordMetadata)
        ensures
            r == RecordMetadata::spec_new(0),
    {
        RecordMetadata::new(0)
    }
}

} // verus!

//! Identifiers: opaque strings with a type prefix and a time-ordered
//! suffix. Equality is byte equality.

use vstd::prelude::*;
use crate::errors::PicaError;
use crate::external::{alnum_token, is_alnum, utc_now};
use crate::text::{dec_chars, u64_to_string};

verus! {

/// The entity classes an identifier can name.
#[derive(Debug, Clone, Copy, PartialEq, Eq, Structural)]
pub enum IdPrefix {
    Archive,
    Connection,
    ConnectionDefinition,
    ConnectionOAuthDefinition,
    EventAccess,
    Event,
    Task,
    Transaction,
}

/// The textual form of a prefix.
pub open spec fn spec_prefix_str(p: IdPrefix) -> Seq<char> {
    match p {
        IdPrefix::Archive => "archive"@,
        IdPrefix::Connection => "conn"@,
        IdPrefix::ConnectionDefinition => "conn_def"@,
        IdPrefix::ConnectionOAuthDefinition => "conn_oauth_def"@,
        IdPrefix::EventAccess => "evt_ac"@,
        IdPrefix::Event => "evt"@,
        IdPrefix::Task => "task"@,
        IdPrefix::Transaction => "tx"@,
    }
}

impl IdPrefix {
    pub fn as_str(&self) -> (r: &'static str)
        ensures
            r@ == spec_prefix_str(*self),
    {
        match self {
            IdPrefix::Archive => "archive",
            IdPrefix::Connection => "conn",
            IdPrefix::ConnectionDefinition => "conn_def",
            IdPrefix::ConnectionOAuthDefinition => "conn_oauth_def",
            IdPrefix::EventAccess => "evt_ac",
            IdPrefix::Event => "evt",
            IdPrefix::Task => "task",
            IdPrefix::Transaction => "tx",
        }
    }

    /// The prefix whose textual form is `s`, if any: `Some` exactly on
    /// the eight known names.
    pub fn try_from_str(s: &str) -> (r: Result<IdPrefix, PicaError>)
        ensures
            r is Ok <==> exists|p: IdPrefix| s@ == spec_prefix_str(p),
            r matches Ok(p) ==> s@ == spec_prefix_str(p),
            r matches Err(e) ==> e.kind == crate::errors::ErrorKind::BadRequest,
    {
        proof {
            reveal_strlit("archive");
            reveal_strlit("conn");
            reveal_strlit("conn_def");
            reveal_strlit("conn_oauth_def");
            reveal_strlit("evt_ac");
            reveal_strlit("evt");
            reveal_strlit("task");
            reveal_strlit("tx");
        }
        if s.unicode_len() == str_len_lit("archive") && substring_eq(s, "archive") {
            proof {
                assert(s@ == spec_prefix_str(IdPrefix::Archive));
            }
            Ok(IdPrefix::Archive)
        } else if s.unicode_len() == str_len_lit("conn") && substring_eq(s, "conn") {
            proof {
                assert(s@ == spec_prefix_str(IdPrefix::Connection));
            }
            Ok(IdPrefix::Connection)
        } else if s.unicode_len() == str_len_lit("conn_def") && substring_eq(s, "conn_def") {
            proof {
                assert(s@ == spec_prefix_str(IdPrefix::ConnectionDefinition));
            }
            Ok(IdPrefix::ConnectionDefinition)
        } else if s.unicode_len() == str_len_lit("conn_oauth_def") && substring_eq(
            s,
            "conn_oauth_def",
        ) {
            proof {
                assert(s@ == spec_prefix_str(IdPrefix::ConnectionOAuthDefinition));
            }
            Ok(IdPrefix::ConnectionOAuthDefinition)
        } else if s.unicode_len() == str_len_lit("evt_ac") && substring_eq(s, "evt_ac") {
            proof {
                assert(s@ == spec_prefix_str(IdPrefix::EventAccess));
            }
            Ok(IdPrefix::EventAccess)
        } else if s.unicode_len() == str_len_lit("evt") && substring_eq(s, "evt") {
            proof {
                assert(s@ == spec_prefix_str(IdPrefix::Event));
            }
            Ok(IdPrefix::Event)
        } else if s.unicode_len() == str_len_lit("task") && substring_eq(s, "task") {
            proof {
                assert(s@ == spec_prefix_str(IdPrefix::Task));
            }
            Ok(IdPrefix::Task)
        } else if s.unicode_len() == str_len_lit("tx") && substring_eq(s, "tx") {
            proof {
                assert(s@ == spec_prefix_str(IdPrefix::Transaction));
            }
            Ok(IdPrefix::Transaction)
        } else {
            proof {
                if exists|p: IdPrefix| s@ == spec_prefix_str(p) {
                    let p = choose|p: IdPrefix| s@ == spec_prefix_str(p);
                    match p {
                        IdPrefix::Archive => assert(s@ != spec_prefix_str(IdPrefix::Archive)),
                        IdPrefix::Connection => assert(s@ != spec_prefix_str(
                            IdPrefix::Connection,
                        )),
                        IdPrefix::ConnectionDefinition => assert(s@ != spec_prefix_str(
                            IdPrefix::ConnectionDefinition,
                        )),
                        IdPrefix::ConnectionOAuthDefinition => assert(s@ != spec_prefix_str(
                            IdPrefix::ConnectionOAuthDefinition,
                        )),
                        IdPrefix::EventAccess => assert(s@ != spec_prefix_str(
                            IdPrefix::EventAccess,
                        )),
                        IdPrefix::Event => assert(s@ != spec_prefix_str(IdPrefix::Event)),
                        IdPrefix::Task => assert(s@ != spec_prefix_str(IdPrefix::Task)),
                        IdPrefix::Transaction => assert(s@ != spec_prefix_str(
                            IdPrefix::Transaction,
                        )),
                    }
                }
            }
            Err(PicaError::bad_request("unknown id prefix"))
        }
    }
}

/// Length of a literal, usable where the literal has been revealed.
fn str_len_lit(s: &str) -> (r: usize)
    ensures
        r == s@.len(),
{
    s.unicode_len()
}

/// Character-for-character equality of two strings of equal length.
fn substring_eq(a: &str, b: &str) -> (r: bool)
    requires
        a@.len() == b@.len(),
    ensures
        r <==> a@ == b@,
{
    let n = a.unicode_len();
    let mut i: usize = 0;
    while i < n
        invariant
            0 <= i <= n,
            n == a@.len() == b@.len(),
            forall|j: int| 0 <= j < i ==> a@[j] == b@[j],
        decreases n - i,
    {
        if a.get_char(i) != b.get_char(i) {
            return false;
        }
        i = i + 1;
    }
    proof {
        assert(a@ =~= b@);
    }
    true
}

/// The textual form of an identifier with the given parts:
/// `prefix::millis::token`.
pub open spec fn spec_id_chars(p: IdPrefix, millis: int, token: Seq<char>) -> Seq<char> {
    spec_prefix_str(p) + "::"@ + dec_chars(millis) + "::"@ + token
}

/// An identifier. Its value is an opaque string; equality is byte
/// equality.
#[derive(Debug)]
pub struct Id {
    pub value: String,
}

impl Clone for Id {
    fn clone(&self) -> (r: Id)
        ensures
            r == *self,
    {
        Id { value: self.value.clone() }
    }
}

impl Id {
    /// Adopt an existing identifier string.
    pub fn from_string(value: String) -> (r: Id)
        ensures
            r.value@ == value@,
    {
        Id { value }
    }

    /// A fresh identifier for the given class, stamped with the current
    /// time and random material.
    pub fn now(prefix: IdPrefix) -> (r: Id)
        ensures
            exists|millis: int, token: Seq<char>|
                {
                    &&& millis >= 0
                    &&& token.len() == 10
                    &&& (forall|i: int| 0 <= i < token.len() ==> is_alnum(#[trigger] token[i]))
                    &&& r.value@ == spec_id_chars(prefix, millis, token)
                },
    {
        let now = utc_now();
        let token = alnum_token(10);
        let mut value = prefix.as_str().to_owned();
        value.append("::");
        let millis = u64_to_string(now.millis as u64);
        value.append(millis.as_str());
        value.append("::");
        value.append(token.as_str());
        proof {
            assert(value@ == spec_id_chars(prefix, now.millis as int, token@));
        }
        Id { value }
    }

    pub fn as_str(&self) -> (r: &str)
        ensures
            r@ == self.value@,
    {
        self.value.as_str()
    }
}

/// The answer of the id-minting endpoint.
#[derive(Debug, Clone)]
pub struct GenerateIdResponse {
    pub id: String,
}

/// Mint a fresh identifier for a named class: rejected exactly when the
/// name is not one of the known prefixes; a minted id carries that prefix
/// followed by a time stamp and a random token.
pub fn generate_id(prefix: &str) -> (r: Result<GenerateIdResponse, PicaError>)
    ensures
        r is Ok <==> exists|p: IdPrefix| prefix@ == spec_prefix_str(p),
        r matches Err(e) ==> e.kind == crate::errors::ErrorKind::BadRequest,
        r matches Ok(resp) ==> exists|p: IdPrefix, millis: int, token: Seq<char>|
            {
                &&& prefix@ == spec_prefix_str(p)
                &&& millis >= 0
                &&& token.len() == 10
                &&& (forall|i: int| 0 <= i < token.len() ==> is_alnum(#[trigger] token[i]))
                &&& resp.id@ == #[trigger] spec_id_chars(p, millis, token)
            },
{
    let parsed = IdPrefix::try_from_str(prefix)?;
    let id = Id::now(parsed);
    proof {
        let (millis, token) = choose|millis: int, token: Seq<char>|
            {
                &&& millis >= 0
                &&& token.len() == 10
                &&& (forall|i: int| 0 <= i < token.len() ==> is_alnum(#[trigger] token[i]))
                &&& id.value@ == spec_id_chars(parsed, millis, token)
            };
        assert(id.value@ == spec_id_chars(parsed, millis, token));
    }
    Ok(GenerateIdResponse { id: id.value })
}

} // verus!

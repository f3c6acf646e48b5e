//! The loss-of-connection callback: marks the connection deprecated and
//! inactive, and does nothing the second time — replaying it is safe.

use vstd::prelude::*;
use crate::connection::Connection;
use crate::errors::{ErrorKind, PicaError};
use crate::record::RecordMetadata;

verus! {

/// The metadata after one loss-of-connection callback at `now`: an
/// active record is deprecated, deactivated and stamped; an inactive one
/// is left alone.
pub open spec fn spec_connection_lost(m: RecordMetadata, now: i64) -> RecordMetadata {
    if m.active {
        RecordMetadata { deprecated: true, active: false, updated: true, updated_at: now, ..m }
    } else {
        m
    }
}

/// Apply one loss-of-connection callback to a connection. Returns
/// whether anything changed (and hence whether resources are to be torn
/// down).
pub fn connection_lost_transition(conn: &mut Connection, now: i64) -> (changed: bool)
    ensures
        changed == old(conn).record_metadata.active,
        final(conn).record_metadata == spec_connection_lost(old(conn).record_metadata, now),
        *final(conn) == (Connection {
            record_metadata: final(conn).record_metadata,
            ..*old(conn)
        }),
        !final(conn).record_metadata.active,
        old(conn).record_metadata.active ==> final(conn).record_metadata.deprecated,
{
    if conn.record_metadata.active {
        conn.record_metadata.mark_deprecated();
        conn.record_metadata.mark_inactive();
        conn.record_metadata.mark_updated(now);
        true
    } else {
        false
    }
}

/// Replaying the callback changes nothing: the second application leaves
/// the metadata exactly where the first left it (deprecated, inactive),
/// whatever instants the two replays carry.
pub proof fn lemma_connection_lost_idempotent(m: RecordMetadata, now1: i64, now2: i64)
    ensures
        spec_connection_lost(spec_connection_lost(m, now1), now2) == spec_connection_lost(m, now1),
        !spec_connection_lost(m, now1).active,
        m.active ==> spec_connection_lost(m, now1).deprecated,
{
}

/// Answer the callback for the connection the store found: unknown ids
/// are not-found; a known connection is transitioned (idempotently) and
/// returned with success both times.
pub fn database_connection_lost_callback(found: Option<Connection>, now: i64) -> (r: Result<
    Connection,
    PicaError,
>)
    ensures
        r is Ok <==> found is Some,
        found is None ==> (r matches Err(e) && e.kind == ErrorKind::NotFound),
        r matches Ok(c) ==> (found matches Some(f) && c.record_metadata == spec_connection_lost(
            f.record_metadata,
            now,
        ) && c == (Connection { record_metadata: c.record_metadata, ..f })
            && !c.record_metadata.active),
{
    match found {
        None => Err(PicaError::not_found("Connection not found")),
        Some(mut conn) => {
            connection_lost_transition(&mut conn, now);
            Ok(conn)
        },
    }
}

} // verus!

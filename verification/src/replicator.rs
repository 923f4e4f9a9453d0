//! The replicator: the identity of a replication, the reconciling of its
//! two checkpoints, and the advancing of them.

use vstd::prelude::*;
use crate::database::Database;
use crate::digest::{md5_hex, md5_hex_of};
use crate::documents::{LogModel, ReplicationLog, ServerInfo};
use crate::text::Text;

verus! {

/// The identity of the replication between two servers: the hexadecimal MD5
/// digest of the source's identifier followed by the target's.
pub open spec fn replication_id(source: Text, target: Text) -> Text {
    md5_hex(source + target)
}

/// The sequence from which a replication resumes: the one that both
/// checkpoints record, where both were written by the same session; `None`
/// where either lacks a session or a sequence, or the two differ in one.
pub open spec fn common_ancestor(source: LogModel, target: LogModel) -> Option<Text> {
    if source.session_id is None || target.session_id is None {
        None
    } else if source.session_id != target.session_id {
        None
    } else if source.source_last_seq is None || target.source_last_seq is None {
        None
    } else if source.source_last_seq != target.source_last_seq {
        None
    } else {
        source.source_last_seq
    }
}

/// A replication resumes from a sequence if and only if both checkpoints
/// carry one and the same session and both carry that sequence.
pub proof fn lemma_common_ancestor_is_strict(source: LogModel, target: LogModel, seq: Text)
    ensures
        common_ancestor(source, target) == Some(seq) <==> {
            &&& source.session_id is Some
            &&& source.session_id == target.session_id
            &&& source.source_last_seq == Some(seq)
            &&& target.source_last_seq == Some(seq)
        },
        common_ancestor(source, target) is None <==> !{
            &&& source.session_id is Some
            &&& source.session_id == target.session_id
            &&& source.source_last_seq is Some
            &&& source.source_last_seq == target.source_last_seq
        },
{
}

/// A checkpoint after a batch: the session that ran the batch and the
/// sequence that the batch reached; the name and the revision stay.
pub open spec fn advanced(log: LogModel, session_id: u128, last_seq: Text) -> LogModel {
    LogModel {
        id: log.id,
        rev: log.rev,
        source_last_seq: Some(last_seq),
        session_id: Some(session_id),
    }
}

impl ReplicationLog {
    /// Records in a checkpoint the session and the sequence of a batch.
    pub fn advance(self, session_id: u128, last_seq: String) -> (log: Self)
        ensures
            log@ == advanced(self@, session_id, last_seq@),
    {
        ReplicationLog {
            _id: self._id,
            _rev: self._rev,
            source_last_seq: Some(last_seq),
            session_id: Some(session_id),
        }
    }
}

/// A replication from a source database to a target database.
#[derive(Debug, PartialEq, Eq)]
pub struct Replicator {
    source: Database,
    target: Database,
}

impl Replicator {
    /// The replication from `source` to `target`.
    pub fn new(source: Database, target: Database) -> (replicator: Self)
        ensures
            replicator.source_model() == source@,
            replicator.target_model() == target@,
    {
        Replicator { source, target }
    }

    /// The address of the source.
    pub closed spec fn source_model(&self) -> Text {
        self.source@
    }

    /// The address of the target.
    pub closed spec fn target_model(&self) -> Text {
        self.target@
    }

    /// The source database.
    pub fn source(&self) -> (source: &Database)
        ensures
            source@ == self.source_model(),
    {
        &self.source
    }

    /// The target database.
    pub fn target(&self) -> (target: &Database)
        ensures
            target@ == self.target_model(),
    {
        &self.target
    }

    /// The identity of the replication between two servers.
    pub fn replication_id(
        &self,
        source_server_info: ServerInfo,
        target_server_info: ServerInfo,
    ) -> (id: String)
        ensures
            id@ == replication_id(source_server_info@, target_server_info@),
    {
        let mut joined = source_server_info.uuid;
        joined.append(target_server_info.uuid.as_str());
        md5_hex_of(joined.as_str())
    }

    /// The sequence from which the replication resumes, if the two
    /// checkpoints agree on one.
    pub fn common_ancestor(
        &self,
        source_replication_log: &ReplicationLog,
        target_replication_log: &ReplicationLog,
    ) -> (since: Option<String>)
        ensures
            since.deep_view() == common_ancestor(
                source_replication_log@,
                target_replication_log@,
            ),
    {
        match (source_replication_log.session_id, target_replication_log.session_id) {
            (Some(source_session), Some(target_session)) => {
                if source_session != target_session {
                    return None;
                }
            },
            _ => {
                return None;
            },
        }
        match (&source_replication_log.source_last_seq, &target_replication_log.source_last_seq) {
            (Some(source_seq), Some(target_seq)) => {
                if *source_seq == *target_seq {
                    Some(source_seq.clone())
                } else {
                    None
                }
            },
            _ => None,
        }
    }
}

} // verus!

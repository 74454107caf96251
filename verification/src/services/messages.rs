//! The versions of a message node: the number a new version gets, the base
//! an edit starts from, and what removing a version takes with it.

use vstd::prelude::*;

use crate::error::{fails_not_found, fails_validation, AppError};
use crate::services::channel_service::opt_view;
use crate::text::{concat3, str_eq};

verus! {

/// A version of a node as these rules see it.
#[derive(Debug, Clone, PartialEq, Eq)]
pub struct VersionSlot {
    pub id: String,
    pub version_index: i64,
    pub is_active: bool,
}

/// The highest number among the versions, or zero when there is none.
pub open spec fn highest_index(versions: Seq<VersionSlot>) -> int
    decreases versions.len(),
{
    if versions.len() == 0 {
        0
    } else {
        let rest = highest_index(versions.drop_last());
        if versions.len() == 1 || versions.last().version_index > rest {
            versions.last().version_index as int
        } else {
            rest
        }
    }
}

/// The number of a new version: one past the highest, or one for the first.
pub fn next_version_index(versions: &[VersionSlot]) -> (r: i64)
    requires
        forall|i: int| 0 <= i < versions@.len() ==> (#[trigger] versions@[i]).version_index < i64::MAX,
    ensures
        r == highest_index(versions@) + 1,
{
    let mut best: i64 = 0;
    let mut i: usize = 0;
    while i < versions.len()
        invariant
            i <= versions@.len(),
            forall|k: int| 0 <= k < versions@.len() ==> (#[trigger] versions@[k]).version_index < i64::MAX,
            best == highest_index(versions@.take(i as int)),
            i > 0 ==> exists|k: int| 0 <= k < i && versions@[k].version_index == best,
        decreases versions.len() - i,
    {
        assert(versions@.take(i + 1 as int).drop_last() =~= versions@.take(i as int));
        assert(versions@.take(i + 1 as int).last() == versions@[i as int]);
        if i == 0 || versions[i].version_index > best {
            best = versions[i].version_index;
        }
        i = i + 1;
    }
    assert(versions@.take(versions@.len() as int) =~= versions@);
    best + 1
}

/// An edit starts from a version of the node it edits.
pub fn check_base_version(node_id: &str, base_version_node_id: &str) -> (r: Result<(), AppError>)
    ensures
        r is Ok <==> node_id@ == base_version_node_id@,
        r is Err ==> fails_validation(r, "VALIDATION_ERROR"@, "base_version_id does not belong to node_id"@),
{
    if str_eq(node_id, base_version_node_id) {
        Ok(())
    } else {
        Err(AppError::validation("VALIDATION_ERROR", "base_version_id does not belong to node_id"))
    }
}

/// The position of the version that replaces `removed` as the active one:
/// among the other versions, the last one with the highest number.
pub open spec fn replacement_of(versions: Seq<VersionSlot>, removed: Seq<char>) -> Option<int>
    decreases versions.len(),
{
    if versions.len() == 0 {
        None
    } else {
        let rest = replacement_of(versions.drop_last(), removed);
        let last = versions.last();
        if last.id@ == removed {
            rest
        } else {
            match rest {
                Some(j) => if last.version_index >= versions[j].version_index {
                    Some(versions.len() - 1)
                } else {
                    Some(j)
                },
                None => Some(versions.len() - 1),
            }
        }
    }
}

/// What removing a version of a node does.
#[derive(Debug, Clone, PartialEq, Eq)]
pub enum VersionRemoval {
    /// It was the only version: the node goes.
    DeleteNode,
    /// The version goes; when it was active, `replacement` becomes active.
    DeleteVersion { replacement: Option<String> },
}

/// The position of the first version with the id `id`.
pub open spec fn position_of_version(versions: Seq<VersionSlot>, id: Seq<char>) -> Option<int>
    decreases versions.len(),
{
    if versions.len() == 0 {
        None
    } else {
        match position_of_version(versions.drop_last(), id) {
            Some(i) => Some(i),
            None => if versions.last().id@ == id {
                Some(versions.len() - 1)
            } else {
                None
            },
        }
    }
}

/// What removing the version `version_id` of a node whose versions are
/// `versions` does: a version the node does not have is not found; the only
/// version takes the node with it; an active version hands over to the last
/// of the other versions with the highest number.
pub fn plan_version_removal(versions: &[VersionSlot], version_id: &str) -> (r: Result<VersionRemoval, AppError>)
    ensures
        match position_of_version(versions@, version_id@) {
            None => fails_not_found(r, "message_version '"@ + version_id@ + "' not found"@),
            Some(t) => if versions@.len() == 1 {
                r == Ok::<VersionRemoval, AppError>(VersionRemoval::DeleteNode)
            } else if !versions@[t].is_active {
                r matches Ok(VersionRemoval::DeleteVersion { replacement }) && replacement is None
            } else {
                match replacement_of(versions@, version_id@) {
                    Some(j) => r matches Ok(VersionRemoval::DeleteVersion { replacement }) && opt_view(replacement)
                        == Some(versions@[j].id@),
                    None => fails_validation(
                        r,
                        "VALIDATION_ERROR"@,
                        "failed to select replacement message version"@,
                    ),
                }
            },
        },
{
    let mut target: Option<usize> = None;
    let mut best: Option<usize> = None;
    let mut i: usize = 0;
    while i < versions.len()
        invariant
            i <= versions@.len(),
            match target {
                Some(t) => position_of_version(versions@.take(i as int), version_id@) == Some(t as int),
                None => position_of_version(versions@.take(i as int), version_id@) is None,
            },
            match best {
                Some(b) => replacement_of(versions@.take(i as int), version_id@) == Some(b as int),
                None => replacement_of(versions@.take(i as int), version_id@) is None,
            },
            target matches Some(t) ==> t < i,
            best matches Some(b) ==> b < i,
        decreases versions.len() - i,
    {
        let ghost prefix = versions@.take(i + 1 as int);
        assert(prefix.drop_last() =~= versions@.take(i as int));
        assert(prefix.last() == versions@[i as int]);
        let is_removed = str_eq(versions[i].id.as_str(), version_id);
        if target.is_none() && is_removed {
            target = Some(i);
        }
        if !is_removed {
            match best {
                Some(b) => {
                    assert(prefix[b as int] == versions@[b as int]);
                    if versions[i].version_index >= versions[b].version_index {
                        best = Some(i);
                    }
                },
                None => {
                    best = Some(i);
                },
            }
        }
        i = i + 1;
    }
    assert(versions@.take(versions@.len() as int) =~= versions@);
    let t = match target {
        Some(t) => t,
        None => {
            return Err(AppError::not_found(concat3("message_version '", version_id, "' not found").as_str()));
        },
    };
    if versions.len() == 1 {
        return Ok(VersionRemoval::DeleteNode);
    }
    if !versions[t].is_active {
        return Ok(VersionRemoval::DeleteVersion { replacement: None });
    }
    match best {
        Some(b) => Ok(VersionRemoval::DeleteVersion { replacement: Some(versions[b].id.clone()) }),
        None => Err(AppError::validation("VALIDATION_ERROR", "failed to select replacement message version")),
    }
}

} // verus!

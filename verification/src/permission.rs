//! Who may change a record.
//!
//! A record that asks for it can only be changed by the creator or an
//! administrator of its group. Whether a member is one is asked of the
//! platform; this module decides when to ask and what the answer means.

use vstd::prelude::*;
use crate::group::{Group, GroupModel};

verus! {

/// The identifier of a user.
#[derive(Clone, Copy, Debug, PartialEq, Eq, Structural)]
pub struct UserId(pub i64);

/// The standing of a member in a chat, as the platform reports it.
#[derive(Clone, Copy, Debug, PartialEq, Eq, Structural)]
pub enum MemberStatus {
    Creator,
    Administrator,
    Member,
    Restricted,
    Left,
    Kicked,
    Unknown,
}

/// What the permission check says before the platform has been asked.
#[derive(Clone, Copy, Debug, PartialEq, Eq, Structural)]
pub enum Clearance {
    /// The record is open to everyone.
    Granted,
    /// The standing of this user decides.
    Ask { user: UserId },
    /// The record is guarded and the request names no user.
    MissingUser,
}

/// Whether a member of the standing `status` may change a guarded record.
pub open spec fn is_privileged(status: MemberStatus) -> bool {
    status == MemberStatus::Creator || status == MemberStatus::Administrator
}

/// What the permission check says of a request by `user` on `group`.
pub open spec fn clearance(group: GroupModel, user: Option<UserId>) -> Clearance {
    if !group.require_admin {
        Clearance::Granted
    } else {
        match user {
            Some(user) => Clearance::Ask { user },
            None => Clearance::MissingUser,
        }
    }
}

/// Whether a request by `user`, whose standing is `status`, may change
/// `group`; nothing where a guarded record is asked for by no one.
pub open spec fn authorized(group: GroupModel, user: Option<UserId>, status: MemberStatus) -> Option<
    bool,
> {
    match clearance(group, user) {
        Clearance::Granted => Some(true),
        Clearance::Ask { user } => Some(is_privileged(status)),
        Clearance::MissingUser => None,
    }
}

/// Whether a member of the standing `status` is the creator or an
/// administrator.
pub fn is_admin(status: MemberStatus) -> (out: bool)
    ensures
        out == is_privileged(status),
{
    match status {
        MemberStatus::Creator => true,
        MemberStatus::Administrator => true,
        _ => false,
    }
}

/// The first half of the permission check: whether the request is let
/// through as it is, must wait for the standing of its user, or fails
/// because it names none.
pub fn check_permission(group: &Group, user: Option<UserId>) -> (out: Clearance)
    ensures
        out == clearance(group@, user),
{
    if group.require_admin {
        match user {
            Some(user) => Clearance::Ask { user },
            None => Clearance::MissingUser,
        }
    } else {
        Clearance::Granted
    }
}

/// An open record lets every request through, whoever asks and whatever
/// their standing.
pub proof fn lemma_open_record_admits_all(group: GroupModel, user: Option<UserId>, status: MemberStatus)
    requires
        !group.require_admin,
    ensures
        authorized(group, user, status) == Some(true),
{
}

/// A guarded record lets a known user through exactly where that user is
/// the creator or an administrator.
pub proof fn lemma_guarded_record_admits_privileged(
    group: GroupModel,
    user: UserId,
    status: MemberStatus,
)
    requires
        group.require_admin,
    ensures
        authorized(group, Some(user), status) == Some(
            status == MemberStatus::Creator || status == MemberStatus::Administrator,
        ),
{
}

} // verus!

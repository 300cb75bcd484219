//! Yes-or-no permission checks.
use vstd::prelude::*;
use crate::text::str_eq;
use super::{Realm, User};

verus! {

/// What the database says about the visitor and one realm, for an entity
/// and action.
#[derive(Clone, Copy, Debug)]
pub struct RealmFacts {
    /// the visitor holds some scope for the entity in realms of this kind
    pub has_allowed_scope: bool,
    /// the visitor stewards the realm
    pub is_steward: bool,
    /// the visitor is a root user of the realm
    pub is_realm_root: bool,
    /// one of the visitor's roles holds a permission on the realm (by id or
    /// kind) for the entity and action
    pub role_grants: bool,
    /// one of the visitor's roles holds a record-level permission on a
    /// record of the realm
    pub record_grants: bool,
}

/// Whether the visitor may act on every record of the entity in the realm.
pub open spec fn all_permitted_in_realm_spec(u: User, realm: Realm, f: RealmFacts) -> bool {
    f.has_allowed_scope && (u.is_root || (realm.id == u.realm_id && realm.kind@ == "user"@)
        || (u.in_kernel && f.is_steward) || f.is_realm_root || f.role_grants)
}

/// Whether the visitor may act on every record of the entity in the realm.
pub fn all_permitted_in_realm(u: &User, realm: &Realm, f: &RealmFacts) -> (r: bool)
    ensures
        r == all_permitted_in_realm_spec(*u, *realm, *f),
{
    if !f.has_allowed_scope {
        return false;
    }
    let mut permitted = false;
    if u.is_root || (realm.id == u.realm_id && str_eq(realm.kind.as_str(), "user"))
        || (u.in_kernel && f.is_steward) {
        permitted = true;
    }
    if !permitted {
        permitted = f.is_realm_root;
    }
    if !permitted {
        permitted = f.role_grants;
    }
    permitted
}

/// Whether the visitor may act on some record of the entity in the realm.
pub open spec fn any_permitted_in_realm_spec(u: User, realm: Realm, f: RealmFacts) -> bool {
    f.has_allowed_scope && (u.is_root || realm.id == u.realm_id || (u.in_kernel && f.is_steward)
        || f.is_realm_root || f.role_grants || f.record_grants)
}

/// Whether the visitor may act on some record of the entity in the realm.
pub fn any_permitted_in_realm(u: &User, realm: &Realm, f: &RealmFacts) -> (r: bool)
    ensures
        r == any_permitted_in_realm_spec(*u, *realm, *f),
{
    if !f.has_allowed_scope {
        return false;
    }
    let mut permitted = false;
    if u.is_root || realm.id == u.realm_id || (u.in_kernel && f.is_steward) {
        permitted = true;
    }
    if !permitted {
        permitted = f.is_realm_root;
    }
    if !permitted {
        permitted = f.role_grants;
        if !permitted {
            permitted = f.record_grants;
        }
    }
    permitted
}

/// Whether the visitor may act on every record of a kernel entity: only
/// kernel users, and among them root users, root users of the kernel realm
/// and holders of a kernel-wide role permission.
pub open spec fn all_permitted_in_kernel_spec(u: User, is_kernel_root: bool, role_grants: bool) -> bool {
    u.in_kernel && (u.is_root || is_kernel_root || role_grants)
}

/// Whether the visitor may act on every record of a kernel entity.
pub fn all_permitted_in_kernel(u: &User, is_kernel_root: bool, role_grants: bool) -> (r: bool)
    ensures
        r == all_permitted_in_kernel_spec(*u, is_kernel_root, role_grants),
{
    if !u.in_kernel {
        return false;
    }
    if u.is_root {
        return true;
    }
    if is_kernel_root {
        return true;
    }
    role_grants
}

/// Whether the visitor may act on some record of a kernel entity.
pub open spec fn any_permitted_for_kernel_entity_spec(u: User, role_grants: bool, record_grants: bool) -> bool {
    u.is_root || (u.in_kernel && (role_grants || record_grants))
}

/// Whether the visitor may act on some record of a kernel entity.
pub fn any_permitted_for_kernel_entity(u: &User, role_grants: bool, record_grants: bool) -> (r: bool)
    ensures
        r == any_permitted_for_kernel_entity_spec(*u, role_grants, record_grants),
{
    let mut permitted = u.is_root;
    if !permitted && u.in_kernel {
        permitted = role_grants;
        if !permitted {
            permitted = record_grants;
        }
    }
    permitted
}

/// Whether the visitor may act on every creative of a campaign: root
/// users, members of the campaign's realm, and holders of a role
/// permission on the realm or the campaign.
pub open spec fn all_permitted_in_campaign_spec(u: User, campaign_realm_id: i64, role_grants: bool) -> bool {
    u.is_root || campaign_realm_id == u.realm_id || role_grants
}

/// Whether the visitor may act on every creative of a campaign.
pub fn all_permitted_in_campaign(u: &User, campaign_realm_id: i64, role_grants: bool) -> (r: bool)
    ensures
        r == all_permitted_in_campaign_spec(*u, campaign_realm_id, role_grants),
{
    if u.is_root || campaign_realm_id == u.realm_id {
        return true;
    }
    role_grants
}

/// Whether the visitor may act on one record: root users always, others
/// when the record passes the table's permit filter.
pub fn record_permitted(u: &User, passes_filter: bool) -> (r: bool)
    ensures
        r == (u.is_root || passes_filter),
{
    if u.is_root {
        return true;
    }
    passes_filter
}

/// Whether the visitor may act on a record it owns or not: only its owner.
pub fn owner_permitted(u: &User, owner_id: i64) -> (r: bool)
    ensures
        r == (owner_id == u.id),
{
    owner_id == u.id
}

} // verus!

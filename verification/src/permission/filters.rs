//! Permit filters shared by the realm-scoped tables.
use vstd::prelude::*;
use vstd::string::StringExecFns;
use crate::text::{strings_contain, views_of};
use super::{
    Cond, CondView, FilterView, Fragment, Permission, PermitFilter, ScopeSel, User, collect_ints,
    collect_text_set, collect_texts, finish, frag1, frag2, frags_view, ints_of, push_frag,
    query_or_denied, text_set_of, texts_of,
};

verus! {

/// What the database says about the visitor's standing towards one entity
/// and action; read by the caller before the filter is computed.
#[derive(Clone, Debug)]
pub struct Standing {
    /// id of the kernel realm
    pub kernel_realm_id: i64,
    /// scopes the visitor holds as a steward of `org` realms
    pub steward_org_scopes: Vec<String>,
    /// scopes the visitor holds as a steward of `user` realms
    pub steward_user_scopes: Vec<String>,
    /// ids of the `org` realms the visitor stewards
    pub steward_org_realm_ids: Vec<i64>,
    /// ids of the `user` realms the visitor stewards
    pub steward_user_realm_ids: Vec<i64>,
    /// scopes the visitor holds as root user of the kernel realm
    pub root_kernel_scopes: Vec<String>,
    /// scopes the visitor holds as root user of `org` realms
    pub root_org_scopes: Vec<String>,
    /// scopes the visitor holds as root user of `user` realms
    pub root_user_scopes: Vec<String>,
    /// whether the visitor is a root user of the kernel realm
    pub is_kernel_root: bool,
    /// ids of the `org` realms the visitor is a root user of
    pub root_org_realm_ids: Vec<i64>,
    /// ids of the `user` realms the visitor is a root user of
    pub root_user_realm_ids: Vec<i64>,
    /// scopes allowed to the visitor in the kernel realm
    pub allowed_kernel_scopes: Vec<String>,
    /// scopes allowed to the visitor in `org` realms
    pub allowed_org_scopes: Vec<String>,
    /// scopes allowed to the visitor in `user` realms
    pub allowed_user_scopes: Vec<String>,
    /// ids of the realms the visitor is a member of
    pub member_realm_ids: Vec<i64>,
    /// ids of all realms the visitor stewards
    pub steward_realm_ids: Vec<i64>,
    /// ids of all realms the visitor is a root user of
    pub root_realm_ids: Vec<i64>,
    /// domains of the visitor's verified email addresses
    pub verified_email_domains: Vec<String>,
    /// the permissions of the visitor's roles on the entity and action
    pub permissions: Vec<Permission>,
}

/// One of the scopes is `s`.
pub open spec fn has_scope(scopes: Seq<String>, s: Seq<char>) -> bool {
    exists|i: int| 0 <= i < scopes.len() && (#[trigger] scopes[i])@ == s
}

/// The fragments a steward or root user gets from a set of realms: all
/// their rows under `*`, the rows the visitor owns under `owned`.
pub open spec fn realm_scope_frags(scopes: Seq<String>, ids: Seq<i64>, uid: i64) -> Seq<Seq<CondView>> {
    if scopes.len() == 0 {
        seq![]
    } else if has_scope(scopes, "*"@) {
        seq![seq![CondView::RealmIdIn(ids)]]
    } else if has_scope(scopes, "owned"@) {
        seq![seq![CondView::RealmIdIn(ids), CondView::OwnerEq(uid)]]
    } else {
        seq![]
    }
}

/// What stewardship of `org` and `user` realms grants (kernel users only).
pub open spec fn steward_frags(u: User, st: Standing) -> Seq<Seq<CondView>> {
    if !u.in_kernel {
        seq![]
    } else {
        realm_scope_frags(st.steward_org_scopes@, st.steward_org_realm_ids@, u.id)
            + realm_scope_frags(st.steward_user_scopes@, st.steward_user_realm_ids@, u.id)
    }
}

/// What being root user of the kernel realm grants.
pub open spec fn kernel_root_frags(u: User, st: Standing) -> Seq<Seq<CondView>> {
    let scopes = st.root_kernel_scopes@;
    if scopes.len() == 0 || !st.is_kernel_root {
        seq![]
    } else if has_scope(scopes, "*"@) || has_scope(scopes, "kernel"@) {
        seq![seq![CondView::RealmIdEq(st.kernel_realm_id)]]
    } else if has_scope(scopes, "owned"@) {
        seq![seq![CondView::RealmIdEq(st.kernel_realm_id), CondView::OwnerEq(u.id)]]
    } else {
        seq![]
    }
}

/// What being root user of realms grants, when there is such a realm.
pub open spec fn owned_realms_frags(scopes: Seq<String>, ids: Seq<i64>, uid: i64) -> Seq<Seq<CondView>> {
    if ids.len() == 0 {
        seq![]
    } else {
        realm_scope_frags(scopes, ids, uid)
    }
}

/// What being root user of the kernel realm and of `user` and `org` realms
/// grants.
pub open spec fn realm_owner_frags(u: User, st: Standing) -> Seq<Seq<CondView>> {
    kernel_root_frags(u, st) + owned_realms_frags(st.root_user_scopes@, st.root_user_realm_ids@, u.id)
        + owned_realms_frags(st.root_org_scopes@, st.root_org_realm_ids@, u.id)
}

/// The name of the record-id filter of an entity, as in `creative.id`.
pub open spec fn record_filter_name(entity: Seq<char>) -> Seq<char> {
    entity + ".id"@
}

/// What the permissions of the visitor's roles grant.
pub open spec fn role_frags(u: User, entity: Seq<char>, st: Standing) -> Seq<Seq<CondView>> {
    let ps = st.permissions@;
    let record_ids = ints_of(ps, record_filter_name(entity), ScopeSel::Any);
    let owned_ids = ints_of(ps, "realm.id"@, ScopeSel::Owned);
    let owned_kinds = texts_of(ps, "realm.kind"@, ScopeSel::Owned);
    let realm_ids = ints_of(ps, "realm.id"@, ScopeSel::NotOwned);
    let kinds = text_set_of(ps, "realm.kind"@, ScopeSel::NotOwned);
    (if record_ids.len() > 0 { seq![seq![CondView::IdIn(record_ids)]] } else { seq![] })
    + (if owned_ids.len() > 0 { seq![seq![CondView::OwnerEq(u.id), CondView::RealmIdIn(owned_ids)]] } else { seq![] })
    + (if owned_kinds.len() > 0 { seq![seq![CondView::OwnerEq(u.id), CondView::RealmKindIn(owned_kinds)]] } else { seq![] })
    + (if realm_ids.len() > 0 { seq![seq![CondView::RealmIdIn(realm_ids)]] } else { seq![] })
    + (if u.in_kernel && kinds.len() > 0 { seq![seq![CondView::RealmKindIn(kinds)]] } else { seq![] })
}

/// The permit filter of a realm-scoped table.
pub open spec fn realm_entity_filter(u: User, entity: Seq<char>, st: Standing) -> FilterView {
    if u.is_root {
        FilterView::Allowed
    } else {
        query_or_denied(steward_frags(u, st) + realm_owner_frags(u, st) + role_frags(u, entity, st))
    }
}

/// Whether one of the scopes is `s`.
pub fn scopes_have(scopes: &Vec<String>, s: &str) -> (r: bool)
    ensures
        r == has_scope(scopes@, s@),
{
    strings_contain(scopes, s)
}

/// Appends what a set of realms grants under the given scopes.
pub fn push_realm_scope(frags: &mut Vec<Fragment>, scopes: &Vec<String>, ids: &Vec<i64>, uid: i64)
    ensures
        frags_view(final(frags)@) == frags_view(old(frags)@) + realm_scope_frags(scopes@, ids@, uid),
{
    let ghost before = frags_view(frags@);
    if scopes.len() == 0 {
        assert(frags_view(frags@) =~= before + seq![]);
    } else if scopes_have(scopes, "*") {
        push_frag(frags, frag1(Cond::RealmIdIn(ids.clone())));
        assert(frags_view(frags@) =~= before + seq![seq![CondView::RealmIdIn(ids@)]]);
    } else if scopes_have(scopes, "owned") {
        push_frag(frags, frag2(Cond::RealmIdIn(ids.clone()), Cond::OwnerEq(uid)));
        assert(frags_view(frags@) =~= before + seq![seq![CondView::RealmIdIn(ids@), CondView::OwnerEq(uid)]]);
    } else {
        assert(frags_view(frags@) =~= before + seq![]);
    }
}

/// Appends what stewardship grants.
pub fn push_steward_frags(frags: &mut Vec<Fragment>, u: &User, st: &Standing)
    ensures
        frags_view(final(frags)@) == frags_view(old(frags)@) + steward_frags(*u, *st),
{
    let ghost before = frags_view(frags@);
    if u.in_kernel {
        push_realm_scope(frags, &st.steward_org_scopes, &st.steward_org_realm_ids, u.id);
        push_realm_scope(frags, &st.steward_user_scopes, &st.steward_user_realm_ids, u.id);
        assert(frags_view(frags@) =~= before + steward_frags(*u, *st));
    } else {
        assert(frags_view(frags@) =~= before + seq![]);
    }
}

/// Appends what being root user of realms grants.
pub fn push_realm_owner_frags(frags: &mut Vec<Fragment>, u: &User, st: &Standing)
    ensures
        frags_view(final(frags)@) == frags_view(old(frags)@) + realm_owner_frags(*u, *st),
{
    let ghost before = frags_view(frags@);
    let scopes = &st.root_kernel_scopes;
    if scopes.len() == 0 || !st.is_kernel_root {
    } else if scopes_have(scopes, "*") || scopes_have(scopes, "kernel") {
        push_frag(frags, frag1(Cond::RealmIdEq(st.kernel_realm_id)));
    } else if scopes_have(scopes, "owned") {
        push_frag(frags, frag2(Cond::RealmIdEq(st.kernel_realm_id), Cond::OwnerEq(u.id)));
    }
    assert(frags_view(frags@) =~= before + kernel_root_frags(*u, *st));
    let ghost mid = frags_view(frags@);
    if st.root_user_realm_ids.len() > 0 {
        push_realm_scope(frags, &st.root_user_scopes, &st.root_user_realm_ids, u.id);
    }
    assert(frags_view(frags@) =~= mid + owned_realms_frags(st.root_user_scopes@, st.root_user_realm_ids@, u.id));
    let ghost mid2 = frags_view(frags@);
    if st.root_org_realm_ids.len() > 0 {
        push_realm_scope(frags, &st.root_org_scopes, &st.root_org_realm_ids, u.id);
    }
    assert(frags_view(frags@) =~= mid2 + owned_realms_frags(st.root_org_scopes@, st.root_org_realm_ids@, u.id));
    assert(frags_view(frags@) =~= before + realm_owner_frags(*u, *st));
}

/// The name of the record-id filter of an entity.
pub fn record_name(entity: &str) -> (r: String)
    ensures
        r@ == record_filter_name(entity@),
{
    entity.to_owned().concat(".id")
}

/// Appends what the permissions of the visitor's roles grant.
pub fn push_role_frags(frags: &mut Vec<Fragment>, u: &User, entity: &str, st: &Standing)
    ensures
        frags_view(final(frags)@) == frags_view(old(frags)@) + role_frags(*u, entity@, *st),
{
    let ghost before = frags_view(frags@);
    let ps = &st.permissions;
    let name = record_name(entity);
    let record_ids = collect_ints(ps, name.as_str(), ScopeSel::Any);
    let owned_ids = collect_ints(ps, "realm.id", ScopeSel::Owned);
    let owned_kinds = collect_texts(ps, "realm.kind", ScopeSel::Owned);
    let realm_ids = collect_ints(ps, "realm.id", ScopeSel::NotOwned);
    let kinds = collect_text_set(ps, "realm.kind", ScopeSel::NotOwned);
    let ghost g1 = if record_ids@.len() > 0 { seq![seq![CondView::IdIn(record_ids@)]] } else { seq![] };
    let ghost g2 = if owned_ids@.len() > 0 { seq![seq![CondView::OwnerEq(u.id), CondView::RealmIdIn(owned_ids@)]] } else { seq![] };
    let ghost g3 = if owned_kinds@.len() > 0 { seq![seq![CondView::OwnerEq(u.id), CondView::RealmKindIn(views_of(owned_kinds@))]] } else { seq![] };
    let ghost g4 = if realm_ids@.len() > 0 { seq![seq![CondView::RealmIdIn(realm_ids@)]] } else { seq![] };
    let ghost g5 = if u.in_kernel && kinds@.len() > 0 { seq![seq![CondView::RealmKindIn(views_of(kinds@))]] } else { seq![] };
    if record_ids.len() > 0 {
        push_frag(frags, frag1(Cond::IdIn(record_ids)));
    }
    assert(frags_view(frags@) =~= before + g1);
    if owned_ids.len() > 0 {
        push_frag(frags, frag2(Cond::OwnerEq(u.id), Cond::RealmIdIn(owned_ids)));
    }
    assert(frags_view(frags@) =~= before + g1 + g2);
    if owned_kinds.len() > 0 {
        push_frag(frags, frag2(Cond::OwnerEq(u.id), Cond::RealmKindIn(owned_kinds)));
    }
    assert(frags_view(frags@) =~= before + g1 + g2 + g3);
    if realm_ids.len() > 0 {
        push_frag(frags, frag1(Cond::RealmIdIn(realm_ids)));
    }
    assert(frags_view(frags@) =~= before + g1 + g2 + g3 + g4);
    if u.in_kernel && kinds.len() > 0 {
        push_frag(frags, frag1(Cond::RealmKindIn(kinds)));
    }
    assert(frags_view(frags@) =~= before + g1 + g2 + g3 + g4 + g5);
    assert(views_of(owned_kinds@).len() == owned_kinds@.len());
    assert(views_of(kinds@).len() == kinds@.len());
    assert(g1 + g2 + g3 + g4 + g5 =~= role_frags(*u, entity@, *st));
}

/// The permit filter of a realm-scoped table: stewardship, realm ownership
/// and role permissions each contribute fragments.
pub fn permit_filter(u: &User, entity: &str, st: &Standing) -> (r: PermitFilter)
    ensures
        r@ == realm_entity_filter(*u, entity@, *st),
{
    if u.is_root {
        return PermitFilter::Allowed;
    }
    let mut frags: Vec<Fragment> = Vec::new();
    assert(frags_view(frags@) =~= seq![]);
    push_steward_frags(&mut frags, u, st);
    push_realm_owner_frags(&mut frags, u, st);
    push_role_frags(&mut frags, u, entity, st);
    assert(frags_view(frags@) =~= steward_frags(*u, *st) + realm_owner_frags(*u, *st) + role_frags(*u, entity@, *st));
    finish(frags)
}

} // verus!

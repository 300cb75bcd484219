//! Permit filters of stewards, trade refunds, users, kernel entities and
//! stock entities.
use vstd::prelude::*;
use crate::text::{str_eq, views_of};
use super::{
    Cond, CondView, FilterView, Fragment, Permission, PermitFilter, ScopeSel, User,
    collect_ints, collect_text_set, finish, frag1, frags_view, ints_of, push_frag,
    query_or_denied, text_set_of,
};
use super::filters::{
    Standing, push_realm_owner_frags, push_role_frags, push_steward_frags, realm_owner_frags,
    record_filter_name, record_name, role_frags, steward_frags,
};

verus! {

/// The optional text holds the characters `s`.
pub open spec fn text_is(o: Option<String>, s: Seq<char>) -> bool {
    match o {
        Some(t) => t@ == s,
        None => false,
    }
}

/// The permission grants the whole kernel: it belongs to the kernel realm
/// and filters on the kernel's kind or id.
pub open spec fn grants_whole_kernel(p: Permission, kernel_realm_id: i64) -> bool {
    &&& p.realm_id == kernel_realm_id
    &&& ((p.filter_name@ == "realm.kind"@ && text_is(p.filter_text_value, "kernel"@))
        || (p.filter_name@ == "realm.id"@ && p.filter_int_value == Some(kernel_realm_id)))
}

/// Some permission grants the whole kernel.
pub open spec fn any_grants_whole_kernel(ps: Seq<Permission>, kernel_realm_id: i64) -> bool {
    exists|i: int| 0 <= i < ps.len() && grants_whole_kernel(#[trigger] ps[i], kernel_realm_id)
}

/// Whether the permission grants the whole kernel.
pub fn grants_kernel(p: &Permission, kernel_realm_id: i64) -> (r: bool)
    ensures
        r == grants_whole_kernel(*p, kernel_realm_id),
{
    if p.realm_id != kernel_realm_id {
        return false;
    }
    let by_kind = str_eq(p.filter_name.as_str(), "realm.kind") && match &p.filter_text_value {
        Some(t) => str_eq(t.as_str(), "kernel"),
        None => false,
    };
    let by_id = str_eq(p.filter_name.as_str(), "realm.id") && match p.filter_int_value {
        Some(v) => v == kernel_realm_id,
        None => false,
    };
    by_kind || by_id
}

/// Whether some permission grants the whole kernel.
pub fn any_grants_kernel(ps: &Vec<Permission>, kernel_realm_id: i64) -> (r: bool)
    ensures
        r == any_grants_whole_kernel(ps@, kernel_realm_id),
{
    let mut i: usize = 0;
    while i < ps.len()
        invariant
            i <= ps@.len(),
            forall|k: int| 0 <= k < i ==> !grants_whole_kernel(#[trigger] ps@[k], kernel_realm_id),
        decreases ps@.len() - i,
    {
        if grants_kernel(&ps[i], kernel_realm_id) {
            return true;
        }
        i = i + 1;
    }
    false
}

// ---------------------------------------------------------------------
// stewards
// ---------------------------------------------------------------------

/// The permit filter of stewards: only kernel users see stewards; root
/// users and viewers see them all.
pub open spec fn steward_filter(u: User, action: Seq<char>, st: Standing) -> FilterView {
    if !u.in_kernel {
        FilterView::Denied
    } else if u.is_root || action == "view"@ {
        FilterView::Allowed
    } else if any_grants_whole_kernel(st.permissions@, st.kernel_realm_id) {
        FilterView::Query(seq![seq![CondView::IdNotNull]])
    } else {
        FilterView::Query(seq![seq![CondView::RealmsTableIdIn(ints_of(st.permissions@, "steward.id"@, ScopeSel::Any))]])
    }
}

/// The permit filter of stewards.
pub fn steward_permit_filter(u: &User, action: &str, st: &Standing) -> (r: PermitFilter)
    ensures
        r@ == steward_filter(*u, action@, *st),
{
    if !u.in_kernel {
        return PermitFilter::Denied;
    }
    if u.is_root || str_eq(action, "view") {
        return PermitFilter::Allowed;
    }
    let mut frags: Vec<Fragment> = Vec::new();
    assert(frags_view(frags@) =~= seq![]);
    if any_grants_kernel(&st.permissions, st.kernel_realm_id) {
        push_frag(&mut frags, frag1(Cond::IdNotNull));
        assert(frags_view(frags@) =~= seq![seq![CondView::IdNotNull]]);
        return PermitFilter::Query(frags);
    }
    let record_ids = collect_ints(&st.permissions, "steward.id", ScopeSel::Any);
    push_frag(&mut frags, frag1(Cond::RealmsTableIdIn(record_ids)));
    assert(frags_view(frags@) =~= seq![seq![CondView::RealmsTableIdIn(ints_of(st.permissions@, "steward.id"@, ScopeSel::Any))]]);
    PermitFilter::Query(frags)
}

/// Whether the visitor may act on a steward, given whether the generic
/// row check lets it.
pub fn steward_permitted(u: &User, action: &str, record_permitted: bool) -> (r: bool)
    ensures
        r == (u.in_kernel && (u.is_root || action@ == "view"@ || record_permitted)),
{
    if !u.in_kernel {
        return false;
    }
    if u.is_root || (str_eq(action, "view") && u.in_kernel) {
        return true;
    }
    record_permitted
}

// ---------------------------------------------------------------------
// trade refunds
// ---------------------------------------------------------------------

/// What the visitor's roles grant on refunds.
pub open spec fn refund_role_frags(st: Standing) -> Seq<Seq<CondView>> {
    let ps = st.permissions@;
    if any_grants_whole_kernel(ps, st.kernel_realm_id) {
        seq![seq![CondView::IdNotNull]]
    } else {
        let record_ids = ints_of(ps, "trade_refund.id"@, ScopeSel::Any);
        let realm_ids = ints_of(ps, "realm.id"@, ScopeSel::NotOwned);
        let kinds = text_set_of(ps, "realm.kind"@, ScopeSel::NotOwned);
        (if record_ids.len() > 0 { seq![seq![CondView::IdIn(record_ids)]] } else { seq![] })
        + (if realm_ids.len() > 0 { seq![seq![CondView::RealmIdIn(realm_ids)]] } else { seq![] })
        + (if kinds.len() > 0 { seq![seq![CondView::RealmKindIn(kinds)]] } else { seq![] })
    }
}

/// The permit filter of trade refunds.
pub open spec fn refund_filter(u: User, st: Standing) -> FilterView {
    if u.is_root {
        FilterView::Allowed
    } else {
        query_or_denied(refund_role_frags(st))
    }
}

/// The permit filter of trade refunds.
pub fn refund_permit_filter(u: &User, st: &Standing) -> (r: PermitFilter)
    ensures
        r@ == refund_filter(*u, *st),
{
    if u.is_root {
        return PermitFilter::Allowed;
    }
    let mut frags: Vec<Fragment> = Vec::new();
    assert(frags_view(frags@) =~= seq![]);
    let ps = &st.permissions;
    if any_grants_kernel(ps, st.kernel_realm_id) {
        push_frag(&mut frags, frag1(Cond::IdNotNull));
        assert(frags_view(frags@) =~= refund_role_frags(*st));
        return finish(frags);
    }
    let record_ids = collect_ints(ps, "trade_refund.id", ScopeSel::Any);
    let realm_ids = collect_ints(ps, "realm.id", ScopeSel::NotOwned);
    let kinds = collect_text_set(ps, "realm.kind", ScopeSel::NotOwned);
    let ghost rv = record_ids@;
    let ghost iv = realm_ids@;
    let ghost kv = views_of(kinds@);
    assert(kv.len() == kinds@.len());
    if record_ids.len() > 0 {
        push_frag(&mut frags, frag1(Cond::IdIn(record_ids)));
    }
    if realm_ids.len() > 0 {
        push_frag(&mut frags, frag1(Cond::RealmIdIn(realm_ids)));
    }
    if kinds.len() > 0 {
        push_frag(&mut frags, frag1(Cond::RealmKindIn(kinds)));
    }
    assert(frags_view(frags@) =~= (if rv.len() > 0 { seq![seq![CondView::IdIn(rv)]] } else { seq![] })
        + (if iv.len() > 0 { seq![seq![CondView::RealmIdIn(iv)]] } else { seq![] })
        + (if kv.len() > 0 { seq![seq![CondView::RealmKindIn(kv)]] } else { seq![] }));
    finish(frags)
}

// ---------------------------------------------------------------------
// users
// ---------------------------------------------------------------------

/// What every visitor sees of users: colleagues by verified email domain,
/// kernel stewards and the members of its realms when viewing; itself
/// when editing.
pub open spec fn user_base_frags(u: User, action: Seq<char>, st: Standing) -> Seq<Seq<CondView>> {
    if action == "view"@ {
        (if st.verified_email_domains@.len() > 0 {
            seq![seq![CondView::VerifiedEmailDomainIn(views_of(st.verified_email_domains@))]]
        } else {
            seq![]
        }) + seq![seq![CondView::KernelSteward], seq![CondView::SharesRealmWith(u.id)]]
    } else if action == "edit"@ {
        seq![seq![CondView::IdEq(u.id)]]
    } else {
        seq![]
    }
}

/// What the roles of a kernel visitor grant on users.
pub open spec fn user_role_frags(u: User, action: Seq<char>, st: Standing) -> Seq<Seq<CondView>> {
    let ps = st.permissions@;
    if !u.in_kernel {
        seq![]
    } else if any_grants_whole_kernel(ps, st.kernel_realm_id) {
        seq![seq![CondView::IdNotNull]]
    } else {
        let record_ids = ints_of(ps, "user.id"@, ScopeSel::Any);
        let realm_ids = ints_of(ps, "realm.id"@, ScopeSel::NotOwned);
        (if record_ids.len() > 0 { seq![seq![CondView::IdIn(record_ids)]] } else { seq![] })
        + (if realm_ids.len() > 0 && action == "view"@ { seq![seq![CondView::MemberOfRealms(realm_ids)]] } else { seq![] })
    }
}

/// The permit filter of users.
pub open spec fn user_filter(u: User, action: Seq<char>, st: Standing) -> FilterView {
    if u.is_root {
        FilterView::Allowed
    } else if action == "view"@ && u.in_kernel {
        FilterView::Allowed
    } else {
        query_or_denied(user_base_frags(u, action, st) + user_role_frags(u, action, st))
    }
}

/// The permit filter of users.
#[verifier::rlimit(40)]
pub fn user_permit_filter(u: &User, action: &str, st: &Standing) -> (r: PermitFilter)
    ensures
        r@ == user_filter(*u, action@, *st),
{
    if u.is_root {
        return PermitFilter::Allowed;
    }
    let mut frags: Vec<Fragment> = Vec::new();
    assert(frags_view(frags@) =~= seq![]);
    if str_eq(action, "view") {
        if u.in_kernel {
            return PermitFilter::Allowed;
        }
        if st.verified_email_domains.len() > 0 {
            push_frag(&mut frags, frag1(Cond::VerifiedEmailDomainIn(st.verified_email_domains.clone())));
        }
        push_frag(&mut frags, frag1(Cond::KernelSteward));
        push_frag(&mut frags, frag1(Cond::SharesRealmWith(u.id)));
    } else if str_eq(action, "edit") {
        push_frag(&mut frags, frag1(Cond::IdEq(u.id)));
    }
    assert(frags_view(frags@) =~= user_base_frags(*u, action@, *st));
    let ghost base = frags_view(frags@);
    if u.in_kernel {
        let ps = &st.permissions;
        if any_grants_kernel(ps, st.kernel_realm_id) {
            push_frag(&mut frags, frag1(Cond::IdNotNull));
            assert(frags_view(frags@) =~= base + user_role_frags(*u, action@, *st));
            return finish(frags);
        }
        let record_ids = collect_ints(ps, "user.id", ScopeSel::Any);
        let realm_ids = collect_ints(ps, "realm.id", ScopeSel::NotOwned);
        let ghost rv = record_ids@;
        let ghost iv = realm_ids@;
        if record_ids.len() > 0 {
            push_frag(&mut frags, frag1(Cond::IdIn(record_ids)));
        }
        if realm_ids.len() > 0 && str_eq(action, "view") {
            push_frag(&mut frags, frag1(Cond::MemberOfRealms(realm_ids)));
        }
        assert(frags_view(frags@) =~= base + (if rv.len() > 0 { seq![seq![CondView::IdIn(rv)]] } else { seq![] })
            + (if iv.len() > 0 && action@ == "view"@ { seq![seq![CondView::MemberOfRealms(iv)]] } else { seq![] }));
    }
    assert(frags_view(frags@) =~= user_base_frags(*u, action@, *st) + user_role_frags(*u, action@, *st));
    finish(frags)
}

/// What the database says about a target user when a visitor acts on it.
#[derive(Clone, Copy, Debug)]
pub struct UserRelation {
    /// the target is a steward
    pub target_is_steward: bool,
    /// the two share the domain of a verified email address
    pub share_verified_domain: bool,
    /// the two are members of a common realm
    pub share_realm: bool,
    /// the generic row check on users lets the visitor act
    pub record_permitted: bool,
}

/// Whether `visitor` may act on the user `target`.
pub open spec fn user_permitted_spec(target: User, visitor: User, action: Seq<char>, rel: UserRelation) -> bool {
    if target.is_root && !visitor.in_kernel {
        false
    } else if target.id == visitor.id && (action == "view"@ || action == "edit"@) {
        true
    } else if action == "view"@ {
        visitor.in_kernel
            || (target.in_kernel && (visitor.is_root || target.id < 100 || rel.target_is_steward))
            || rel.share_verified_domain || rel.share_realm
    } else {
        visitor.is_root || rel.record_permitted
    }
}

/// Whether `visitor` may act on the user `target`.
pub fn user_permitted(target: &User, visitor: &User, action: &str, rel: &UserRelation) -> (r: bool)
    ensures
        r == user_permitted_spec(*target, *visitor, action@, *rel),
{
    if target.is_root && !visitor.in_kernel {
        return false;
    }
    if target.id == visitor.id && (str_eq(action, "view") || str_eq(action, "edit")) {
        return true;
    }
    if str_eq(action, "view") {
        if visitor.in_kernel {
            return true;
        }
        let allowed = if target.in_kernel {
            if visitor.is_root || target.id < 100 {
                true
            } else {
                rel.target_is_steward
            }
        } else {
            false
        };
        if allowed {
            return allowed;
        }
        if rel.share_verified_domain {
            return true;
        }
        return rel.share_realm;
    }
    if visitor.is_root {
        return true;
    }
    rel.record_permitted
}

// ---------------------------------------------------------------------
// kernel entities and stock entities
// ---------------------------------------------------------------------

/// Some permission grants every record (`realm.kind` = `kernel`, scope `*`).
pub open spec fn grants_all_records(ps: Seq<Permission>) -> bool {
    exists|i: int| 0 <= i < ps.len() && {
        let p = #[trigger] ps[i];
        p.filter_name@ == "realm.kind"@ && p.scope@ == "*"@ && text_is(p.filter_text_value, "kernel"@)
    }
}

/// The permit filter of an entity that lives in the kernel.
pub open spec fn kernel_entity_filter(u: User, entity: Seq<char>, st: Standing) -> FilterView {
    if u.is_root || st.is_kernel_root {
        FilterView::Allowed
    } else if u.in_kernel && grants_all_records(st.permissions@) {
        FilterView::Allowed
    } else {
        let ids = ints_of(st.permissions@, record_filter_name(entity), ScopeSel::Any);
        query_or_denied(if u.in_kernel && ids.len() > 0 { seq![seq![CondView::IdIn(ids)]] } else { seq![] })
    }
}

fn grants_every_record(ps: &Vec<Permission>) -> (r: bool)
    ensures
        r == grants_all_records(ps@),
{
    let mut i: usize = 0;
    while i < ps.len()
        invariant
            i <= ps@.len(),
            forall|k: int| 0 <= k < i ==> !({
                let p = #[trigger] ps@[k];
                p.filter_name@ == "realm.kind"@ && p.scope@ == "*"@ && text_is(p.filter_text_value, "kernel"@)
            }),
        decreases ps@.len() - i,
    {
        let p = &ps[i];
        let kernel_text = match &p.filter_text_value {
            Some(t) => str_eq(t.as_str(), "kernel"),
            None => false,
        };
        if str_eq(p.filter_name.as_str(), "realm.kind") && str_eq(p.scope.as_str(), "*") && kernel_text {
            return true;
        }
        i = i + 1;
    }
    false
}

/// The permit filter of an entity that lives in the kernel.
pub fn kernel_entity_permit_filter(u: &User, entity: &str, st: &Standing) -> (r: PermitFilter)
    ensures
        r@ == kernel_entity_filter(*u, entity@, *st),
{
    if u.is_root || st.is_kernel_root {
        return PermitFilter::Allowed;
    }
    let mut frags: Vec<Fragment> = Vec::new();
    assert(frags_view(frags@) =~= seq![]);
    if u.in_kernel {
        if grants_every_record(&st.permissions) {
            return PermitFilter::Allowed;
        }
        let name = record_name(entity);
        let ids = collect_ints(&st.permissions, name.as_str(), ScopeSel::Any);
        if ids.len() > 0 {
            push_frag(&mut frags, frag1(Cond::IdIn(ids)));
        }
    }
    assert(frags_view(frags@) =~= (if u.in_kernel && ints_of(st.permissions@, record_filter_name(entity@), ScopeSel::Any).len() > 0 {
        seq![seq![CondView::IdIn(ints_of(st.permissions@, record_filter_name(entity@), ScopeSel::Any))]]
    } else {
        seq![]
    }));
    finish(frags)
}

/// The permit filter of a stock entity (blueprints, molds, fonts): like
/// any realm-scoped table, and public records are always visible.
pub open spec fn stock_filter(u: User, entity: Seq<char>, action: Seq<char>, st: Standing) -> FilterView {
    if u.is_root {
        FilterView::Allowed
    } else if st.allowed_kernel_scopes@.len() == 0 && st.allowed_org_scopes@.len() == 0
        && st.allowed_user_scopes@.len() == 0 {
        FilterView::Denied
    } else {
        query_or_denied(
            steward_frags(u, st) + realm_owner_frags(u, st) + role_frags(u, entity, st)
                + (if action == "view"@ { seq![seq![CondView::IsPublic]] } else { seq![] }),
        )
    }
}

/// The permit filter of a stock entity.
pub fn stock_permit_filter(u: &User, entity: &str, action: &str, st: &Standing) -> (r: PermitFilter)
    ensures
        r@ == stock_filter(*u, entity@, action@, *st),
{
    if u.is_root {
        return PermitFilter::Allowed;
    }
    if st.allowed_kernel_scopes.len() == 0 && st.allowed_org_scopes.len() == 0
        && st.allowed_user_scopes.len() == 0 {
        return PermitFilter::Denied;
    }
    let mut frags: Vec<Fragment> = Vec::new();
    assert(frags_view(frags@) =~= seq![]);
    push_steward_frags(&mut frags, u, st);
    push_realm_owner_frags(&mut frags, u, st);
    push_role_frags(&mut frags, u, entity, st);
    let ghost a = frags_view(frags@);
    if str_eq(action, "view") {
        push_frag(&mut frags, frag1(Cond::IsPublic));
    }
    assert(frags_view(frags@) =~= a + (if action@ == "view"@ { seq![seq![CondView::IsPublic]] } else { seq![] }));
    finish(frags)
}

} // verus!

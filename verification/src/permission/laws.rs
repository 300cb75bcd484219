//! Laws that hold across the permit filters.
use vstd::prelude::*;
use super::{CondView, FilterView, Permission, ScopeSel, User, ints_of};
use super::filters::{Standing, realm_entity_filter, realm_scope_frags};
use super::orders::order_filter;
use super::creatives::creative_filter;
use super::realms::{entity_realms_filter, realm_filter};
use super::tables::{any_grants_whole_kernel, kernel_entity_filter, refund_filter, steward_filter, stock_filter, user_filter};

verus! {

/// A root visitor sees every row of every table, stewards excepted, which
/// only kernel users see.
pub proof fn lemma_root_sees_every_row(u: User, entity: Seq<char>, action: Seq<char>, st: Standing)
    requires
        u.is_root,
    ensures
        realm_entity_filter(u, entity, st) is Allowed,
        order_filter(u, action, st) is Allowed,
        creative_filter(u, action, st) is Allowed,
        realm_filter(u, action, st) is Allowed,
        entity_realms_filter(u, st) is Allowed,
        refund_filter(u, st) is Allowed,
        user_filter(u, action, st) is Allowed,
        kernel_entity_filter(u, entity, st) is Allowed,
        stock_filter(u, entity, action, st) is Allowed,
        steward_filter(u, action, st) is Allowed <==> u.in_kernel,
{
}

/// Viewing a stock entity is never denied to a visitor that holds some
/// scope: public records are always among what it sees.
pub proof fn lemma_public_stock_visible(u: User, entity: Seq<char>, st: Standing)
    requires
        st.allowed_kernel_scopes@.len() > 0 || st.allowed_org_scopes@.len() > 0
            || st.allowed_user_scopes@.len() > 0,
    ensures
        stock_filter(u, entity, "view"@, st) is Allowed || (stock_filter(u, entity, "view"@, st) matches FilterView::Query(fs)
            && fs.contains(seq![CondView::IsPublic])),
{
    if !u.is_root {
        if let FilterView::Query(fs) = stock_filter(u, entity, "view"@, st) {
            assert(fs[fs.len() - 1] == seq![CondView::IsPublic]);
        }
    }
}

/// Outside the kernel, a visitor that is not root may always edit itself.
pub proof fn lemma_users_edit_themselves(u: User, st: Standing)
    requires
        !u.is_root,
        !u.in_kernel,
    ensures
        user_filter(u, "edit"@, st) matches FilterView::Query(fs) && fs.contains(seq![CondView::IdEq(u.id)]),
{
    reveal_strlit("edit");
    reveal_strlit("view");
    assert("edit"@ != "view"@) by {
        assert("edit"@[0] != "view"@[0]);
    }
    let fs = super::tables::user_base_frags(u, "edit"@, st) + super::tables::user_role_frags(u, "edit"@, st);
    assert(fs =~= seq![seq![CondView::IdEq(u.id)]]);
    assert(fs[0] == seq![CondView::IdEq(u.id)]);
}

/// A kernel visitor (not root) that stewards `user` realms under scope `*`
/// sees every row of the `user` realms it stewards: the filter of a
/// realm-scoped table admits the rows whose realm is among exactly those.
pub proof fn lemma_user_realm_stewards_see_their_realms(u: User, entity: Seq<char>, st: Standing)
    requires
        !u.is_root,
        u.in_kernel,
        exists|i: int| 0 <= i < st.steward_user_scopes@.len() && (#[trigger] st.steward_user_scopes@[i])@ == "*"@,
    ensures
        realm_entity_filter(u, entity, st) matches FilterView::Query(fs)
            && fs.contains(seq![CondView::RealmIdIn(st.steward_user_realm_ids@)]),
{
    let org = realm_scope_frags(st.steward_org_scopes@, st.steward_org_realm_ids@, u.id);
    if let FilterView::Query(fs) = realm_entity_filter(u, entity, st) {
        assert(fs[org.len() as int] == seq![CondView::RealmIdIn(st.steward_user_realm_ids@)]);
    }
}

/// A kernel visitor (not root) that stewards `org` realms under scope `*`
/// sees every row of the `org` realms it stewards.
pub proof fn lemma_org_realm_stewards_see_their_realms(u: User, entity: Seq<char>, st: Standing)
    requires
        !u.is_root,
        u.in_kernel,
        exists|i: int| 0 <= i < st.steward_org_scopes@.len() && (#[trigger] st.steward_org_scopes@[i])@ == "*"@,
    ensures
        realm_entity_filter(u, entity, st) matches FilterView::Query(fs)
            && fs.contains(seq![CondView::RealmIdIn(st.steward_org_realm_ids@)]),
{
    if let FilterView::Query(fs) = realm_entity_filter(u, entity, st) {
        assert(fs[0] == seq![CondView::RealmIdIn(st.steward_org_realm_ids@)]);
    }
}

/// Stewardship of one kind of realm grants nothing on the other kind: with
/// no steward scope for `org` realms, which `org` realms the visitor
/// stewards does not change the filter of a realm-scoped table; likewise
/// for `user` realms.
pub proof fn lemma_steward_kinds_kept_apart(u: User, entity: Seq<char>, st: Standing, ids: Vec<i64>)
    ensures
        st.steward_org_scopes@.len() == 0 ==> realm_entity_filter(u, entity, Standing { steward_org_realm_ids: ids, ..st })
            == realm_entity_filter(u, entity, st),
        st.steward_user_scopes@.len() == 0 ==> realm_entity_filter(u, entity, Standing { steward_user_realm_ids: ids, ..st })
            == realm_entity_filter(u, entity, st),
{
}

/// The permissions grant realm `v` to the visitor's roles under a scope
/// other than `owned`.
pub open spec fn grants_realm_id(ps: Seq<Permission>, v: i64) -> bool {
    exists|k: int| 0 <= k < ps.len() && (#[trigger] ps[k]).filter_name@ == "realm.id"@ && ps[k].scope@ != "owned"@
        && ps[k].filter_int_value == Some(v)
}

proof fn lemma_realm_ids_granted(ps: Seq<Permission>, v: i64)
    ensures
        ints_of(ps, "realm.id"@, ScopeSel::NotOwned).contains(v) <==> grants_realm_id(ps, v),
    decreases ps.len(),
{
    if ps.len() > 0 {
        let init = ps.drop_last();
        lemma_realm_ids_granted(init, v);
        let rest = ints_of(init, "realm.id"@, ScopeSel::NotOwned);
        let all = ints_of(ps, "realm.id"@, ScopeSel::NotOwned);
        let p = ps.last();
        let last_grants = p.filter_name@ == "realm.id"@ && p.scope@ != "owned"@ && p.filter_int_value == Some(v);
        // the grants of `ps` are those of `init` and that of its last permission
        assert(grants_realm_id(ps, v) <==> (grants_realm_id(init, v) || last_grants)) by {
            if grants_realm_id(init, v) {
                let k = choose|k: int| 0 <= k < init.len() && (#[trigger] init[k]).filter_name@ == "realm.id"@
                    && init[k].scope@ != "owned"@ && init[k].filter_int_value == Some(v);
                assert(ps[k] == init[k]);
            }
            if last_grants {
                assert(ps[ps.len() - 1] == p);
            }
            if grants_realm_id(ps, v) {
                let k = choose|k: int| 0 <= k < ps.len() && (#[trigger] ps[k]).filter_name@ == "realm.id"@
                    && ps[k].scope@ != "owned"@ && ps[k].filter_int_value == Some(v);
                if k < ps.len() - 1 {
                    assert(init[k] == ps[k]);
                }
            }
        }
        if p.filter_name@ == "realm.id"@ && p.scope@ != "owned"@ && p.filter_int_value is Some {
            let w = p.filter_int_value->0;
            assert(all == rest.push(w));
            assert(all.contains(v) <==> (rest.contains(v) || w == v)) by {
                if rest.contains(v) {
                    let j = choose|j: int| 0 <= j < rest.len() && rest[j] == v;
                    assert(all[j] == rest[j]);
                }
                if w == v {
                    assert(all[rest.len() as int] == w);
                }
                if all.contains(v) {
                    let j = choose|j: int| 0 <= j < all.len() && all[j] == v;
                    if j < rest.len() {
                        assert(rest[j] == all[j]);
                    }
                }
            }
        } else {
            assert(all == rest);
        }
    }
}

/// Outside a kernel-wide grant, a visitor (not root) whose roles are
/// granted realm `v` sees the refunds of realm `v`: the refund filter holds
/// a fragment admitting the realms among a list that holds `v` and only
/// realms its roles are granted.
pub proof fn lemma_refunds_of_granted_realms(u: User, st: Standing, v: i64)
    requires
        !u.is_root,
        !any_grants_whole_kernel(st.permissions@, st.kernel_realm_id),
        grants_realm_id(st.permissions@, v),
    ensures
        refund_filter(u, st) matches FilterView::Query(fs) && exists|j: int| 0 <= j < fs.len() && (#[trigger] fs[j]).len() == 1
            && (fs[j][0] matches CondView::RealmIdIn(ids) && ids.contains(v)
                && forall|x: i64| ids.contains(x) ==> grants_realm_id(st.permissions@, x)),
{
    let ps = st.permissions@;
    let record_ids = ints_of(ps, "trade_refund.id"@, ScopeSel::Any);
    let realm_ids = ints_of(ps, "realm.id"@, ScopeSel::NotOwned);
    lemma_realm_ids_granted(ps, v);
    assert forall|x: i64| realm_ids.contains(x) implies grants_realm_id(ps, x) by {
        lemma_realm_ids_granted(ps, x);
    }
    let a: Seq<Seq<CondView>> = if record_ids.len() > 0 { seq![seq![CondView::IdIn(record_ids)]] } else { seq![] };
    if let FilterView::Query(fs) = refund_filter(u, st) {
        assert(fs[a.len() as int] == seq![CondView::RealmIdIn(realm_ids)]);
    }
}

} // verus!

//! Permit filters of the realms table itself.
use vstd::prelude::*;
use crate::text::{str_eq, views_of};
use super::{
    Cond, CondView, FilterView, Fragment, PermitFilter, ScopeSel, User, collect_ints,
    collect_text_set, finish, frag1, frags_view, ints_of, push_frag, query_or_denied,
    text_set_of,
};
use super::filters::Standing;

verus! {

/// One fragment `id IN ids` when some realm is given.
pub open spec fn ids_frag(ids: Seq<i64>) -> Seq<Seq<CondView>> {
    if ids.len() > 0 { seq![seq![CondView::IdIn(ids)]] } else { seq![] }
}

/// Realms granted through a set of scopes over some realms.
pub open spec fn scoped_ids_frag(scopes: Seq<String>, ids: Seq<i64>) -> Seq<Seq<CondView>> {
    if scopes.len() > 0 { ids_frag(ids) } else { seq![] }
}

/// The permit filter of realms.
pub open spec fn realm_filter(u: User, action: Seq<char>, st: Standing) -> FilterView {
    if u.is_root {
        FilterView::Allowed
    } else {
        let ps = st.permissions@;
        query_or_denied(
            (if action == "view"@ { ids_frag(st.member_realm_ids@) } else { seq![] })
            + (if u.in_kernel {
                scoped_ids_frag(st.steward_user_scopes@, st.steward_user_realm_ids@)
                    + scoped_ids_frag(st.steward_org_scopes@, st.steward_org_realm_ids@)
            } else {
                seq![]
            })
            + (if st.root_kernel_scopes@.len() > 0 && st.is_kernel_root { seq![seq![CondView::KindIsKernel]] } else { seq![] })
            + scoped_ids_frag(st.root_user_scopes@, st.root_user_realm_ids@)
            + scoped_ids_frag(st.root_org_scopes@, st.root_org_realm_ids@)
            + ids_frag(ints_of(ps, "realm.id"@, ScopeSel::NotOwned))
            + (if text_set_of(ps, "realm.kind"@, ScopeSel::Any).len() > 0 {
                seq![seq![CondView::KindIn(text_set_of(ps, "realm.kind"@, ScopeSel::Any))]]
            } else {
                seq![]
            }),
        )
    }
}

/// The realms in which the visitor may act on some entity, from the
/// permissions its roles hold in its own realms.
pub open spec fn entity_realms_filter(u: User, st: Standing) -> FilterView {
    if u.is_root {
        FilterView::Allowed
    } else if st.allowed_kernel_scopes@.len() == 0 && st.allowed_org_scopes@.len() == 0
        && st.allowed_user_scopes@.len() == 0 {
        FilterView::Denied
    } else {
        let ps = st.permissions@;
        let kinds = text_set_of(ps, "realm.kind"@, ScopeSel::NotOwned);
        let ids = ints_of(ps, "realm.id"@, ScopeSel::NotOwned);
        FilterView::Query(
            seq![seq![CondView::IdEq(u.realm_id)]]
            + (if u.in_kernel { seq![seq![CondView::IdIn(st.steward_realm_ids@)]] } else { seq![] })
            + seq![seq![CondView::IdIn(st.root_realm_ids@)]]
            + (if kinds.len() > 0 && ids.len() > 0 {
                seq![seq![CondView::IdInOrKindIn(ids, kinds)]]
            } else if ids.len() > 0 {
                seq![seq![CondView::IdIn(ids)]]
            } else if kinds.len() > 0 {
                seq![seq![CondView::KindIn(kinds)]]
            } else {
                seq![]
            }),
        )
    }
}

fn push_ids(frags: &mut Vec<Fragment>, ids: &Vec<i64>)
    ensures
        frags_view(final(frags)@) == frags_view(old(frags)@) + ids_frag(ids@),
{
    let ghost before = frags_view(frags@);
    if ids.len() > 0 {
        push_frag(frags, frag1(Cond::IdIn(ids.clone())));
    }
    assert(frags_view(frags@) =~= before + ids_frag(ids@));
}

fn push_scoped_ids(frags: &mut Vec<Fragment>, scopes: &Vec<String>, ids: &Vec<i64>)
    ensures
        frags_view(final(frags)@) == frags_view(old(frags)@) + scoped_ids_frag(scopes@, ids@),
{
    let ghost before = frags_view(frags@);
    if scopes.len() > 0 {
        push_ids(frags, ids);
    }
    assert(frags_view(frags@) =~= before + scoped_ids_frag(scopes@, ids@));
}

/// The permit filter of realms: the realms the visitor belongs to (when
/// viewing), stewards, owns, or is granted by its roles.
#[verifier::rlimit(40)]
pub fn realm_permit_filter(u: &User, action: &str, st: &Standing) -> (r: PermitFilter)
    ensures
        r@ == realm_filter(*u, action@, *st),
{
    if u.is_root {
        return PermitFilter::Allowed;
    }
    let ghost ps = st.permissions@;
    let mut frags: Vec<Fragment> = Vec::new();
    assert(frags_view(frags@) =~= seq![]);
    if str_eq(action, "view") {
        push_ids(&mut frags, &st.member_realm_ids);
    }
    let ghost a1 = frags_view(frags@);
    assert(a1 =~= seq![] + (if action@ == "view"@ { ids_frag(st.member_realm_ids@) } else { seq![] }));
    if u.in_kernel {
        push_scoped_ids(&mut frags, &st.steward_user_scopes, &st.steward_user_realm_ids);
        push_scoped_ids(&mut frags, &st.steward_org_scopes, &st.steward_org_realm_ids);
    }
    let ghost a2 = frags_view(frags@);
    assert(a2 =~= a1 + (if u.in_kernel {
        scoped_ids_frag(st.steward_user_scopes@, st.steward_user_realm_ids@)
            + scoped_ids_frag(st.steward_org_scopes@, st.steward_org_realm_ids@)
    } else {
        seq![]
    }));
    if st.root_kernel_scopes.len() > 0 && st.is_kernel_root {
        push_frag(&mut frags, frag1(Cond::KindIsKernel));
    }
    let ghost a3 = frags_view(frags@);
    assert(a3 =~= a2 + (if st.root_kernel_scopes@.len() > 0 && st.is_kernel_root { seq![seq![CondView::KindIsKernel]] } else { seq![] }));
    push_scoped_ids(&mut frags, &st.root_user_scopes, &st.root_user_realm_ids);
    push_scoped_ids(&mut frags, &st.root_org_scopes, &st.root_org_realm_ids);
    let ghost a4 = frags_view(frags@);
    let record_ids = collect_ints(&st.permissions, "realm.id", ScopeSel::NotOwned);
    push_ids(&mut frags, &record_ids);
    let kinds = collect_text_set(&st.permissions, "realm.kind", ScopeSel::Any);
    let ghost a5 = frags_view(frags@);
    let ghost kv = views_of(kinds@);
    if kinds.len() > 0 {
        push_frag(&mut frags, frag1(Cond::KindIn(kinds)));
    }
    assert(kv.len() == kinds@.len());
    assert(frags_view(frags@) =~= a5 + (if kv.len() > 0 { seq![seq![CondView::KindIn(kv)]] } else { seq![] }));
    assert(frags_view(frags@) =~= (if action@ == "view"@ { ids_frag(st.member_realm_ids@) } else { seq![] })
        + (if u.in_kernel {
            scoped_ids_frag(st.steward_user_scopes@, st.steward_user_realm_ids@)
                + scoped_ids_frag(st.steward_org_scopes@, st.steward_org_realm_ids@)
        } else {
            seq![]
        })
        + (if st.root_kernel_scopes@.len() > 0 && st.is_kernel_root { seq![seq![CondView::KindIsKernel]] } else { seq![] })
        + scoped_ids_frag(st.root_user_scopes@, st.root_user_realm_ids@)
        + scoped_ids_frag(st.root_org_scopes@, st.root_org_realm_ids@)
        + ids_frag(ints_of(ps, "realm.id"@, ScopeSel::NotOwned))
        + (if kv.len() > 0 { seq![seq![CondView::KindIn(kv)]] } else { seq![] }));
    finish(frags)
}

/// The realms in which the visitor may act on some entity.
#[verifier::rlimit(40)]
pub fn entity_realms_permit_filter(u: &User, st: &Standing) -> (r: PermitFilter)
    ensures
        r@ == entity_realms_filter(*u, *st),
{
    if u.is_root {
        return PermitFilter::Allowed;
    }
    if st.allowed_kernel_scopes.len() == 0 && st.allowed_org_scopes.len() == 0
        && st.allowed_user_scopes.len() == 0 {
        return PermitFilter::Denied;
    }
    let mut frags: Vec<Fragment> = Vec::new();
    assert(frags_view(frags@) =~= seq![]);
    push_frag(&mut frags, frag1(Cond::IdEq(u.realm_id)));
    if u.in_kernel {
        push_frag(&mut frags, frag1(Cond::IdIn(st.steward_realm_ids.clone())));
    }
    push_frag(&mut frags, frag1(Cond::IdIn(st.root_realm_ids.clone())));
    let ghost a = frags_view(frags@);
    assert(a =~= seq![seq![CondView::IdEq(u.realm_id)]]
        + (if u.in_kernel { seq![seq![CondView::IdIn(st.steward_realm_ids@)]] } else { seq![] })
        + seq![seq![CondView::IdIn(st.root_realm_ids@)]]);
    let kinds = collect_text_set(&st.permissions, "realm.kind", ScopeSel::NotOwned);
    let ids = collect_ints(&st.permissions, "realm.id", ScopeSel::NotOwned);
    let ghost kv = views_of(kinds@);
    let ghost iv = ids@;
    assert(kv.len() == kinds@.len());
    if kinds.len() > 0 && ids.len() > 0 {
        push_frag(&mut frags, frag1(Cond::IdInOrKindIn(ids, kinds)));
    } else if ids.len() > 0 {
        push_frag(&mut frags, frag1(Cond::IdIn(ids)));
    } else if kinds.len() > 0 {
        push_frag(&mut frags, frag1(Cond::KindIn(kinds)));
    }
    assert(frags_view(frags@) =~= a + (if kv.len() > 0 && iv.len() > 0 {
        seq![seq![CondView::IdInOrKindIn(iv, kv)]]
    } else if iv.len() > 0 {
        seq![seq![CondView::IdIn(iv)]]
    } else if kv.len() > 0 {
        seq![seq![CondView::KindIn(kv)]]
    } else {
        seq![]
    }));
    PermitFilter::Query(frags)
}

} // verus!

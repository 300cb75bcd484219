//! Permit filter of trade orders.
//!
//! Outside the kernel, a visitor may view and edit the orders granted to
//! it, but other actions only reach orders that are still open
//! (`created`, `invalided` or `pending_pay`) and not controlled by the
//! kernel.
use vstd::prelude::*;
use crate::text::{str_eq, views_of};
use super::{
    Cond, CondView, FilterView, Fragment, PermitFilter, ScopeSel, User, collect_ints,
    collect_text_set, collect_texts, finish, frag1, frag2, frag3, frag4, frags_view, ints_of,
    push_frag, query_or_denied, text_set_of, texts_of,
};
use super::filters::{Standing, has_scope, push_steward_frags, scopes_have, steward_frags};

verus! {

/// The action only reads or edits.
pub open spec fn views_or_edits(action: Seq<char>) -> bool {
    action == "view"@ || action == "edit"@
}

/// The conditions added outside the kernel for actions other than viewing
/// and editing.
pub open spec fn order_guard(u: User, action: Seq<char>) -> Seq<CondView> {
    if !u.in_kernel && !views_or_edits(action) {
        seq![CondView::OrderStillOpen, CondView::NotKernelControlled]
    } else {
        seq![]
    }
}

/// What being root user of a set of realms grants on their orders.
pub open spec fn order_owner_part(u: User, action: Seq<char>, scopes: Seq<String>, ids: Seq<i64>) -> Seq<Seq<CondView>> {
    if scopes.len() == 0 || ids.len() == 0 {
        seq![]
    } else if has_scope(scopes, "*"@) || has_scope(scopes, "realm"@) {
        seq![seq![CondView::RealmIdIn(ids)] + order_guard(u, action)]
    } else if has_scope(scopes, "owned"@) {
        seq![seq![CondView::RealmIdIn(ids), CondView::OwnerEq(u.id)] + order_guard(u, action)]
    } else {
        seq![]
    }
}

/// What being root user of `user` and `org` realms grants on orders.
pub open spec fn order_owner_frags(u: User, action: Seq<char>, st: Standing) -> Seq<Seq<CondView>> {
    order_owner_part(u, action, st.root_user_scopes@, st.root_user_realm_ids@)
        + order_owner_part(u, action, st.root_org_scopes@, st.root_org_realm_ids@)
}

/// What the visitor's roles grant on orders.
pub open spec fn order_role_frags(u: User, action: Seq<char>, st: Standing) -> Seq<Seq<CondView>> {
    let ps = st.permissions@;
    let record_ids = ints_of(ps, "trade_order.id"@, ScopeSel::Any);
    let owned_ids = ints_of(ps, "realm.id"@, ScopeSel::Owned);
    let owned_kinds = texts_of(ps, "realm.kind"@, ScopeSel::Owned);
    let realm_ids = ints_of(ps, "realm.id"@, ScopeSel::NotOwned);
    let kinds = text_set_of(ps, "realm.kind"@, ScopeSel::NotOwned);
    let g = order_guard(u, action);
    (if record_ids.len() > 0 { seq![seq![CondView::IdIn(record_ids)] + g] } else { seq![] })
    + (if owned_ids.len() > 0 { seq![seq![CondView::OwnerEq(u.id), CondView::RealmIdIn(owned_ids)] + g] } else { seq![] })
    + (if owned_kinds.len() > 0 { seq![seq![CondView::OwnerEq(u.id), CondView::RealmKindIn(owned_kinds)] + g] } else { seq![] })
    + (if realm_ids.len() == 0 {
        seq![]
    } else if !u.in_kernel && !views_or_edits(action) {
        seq![seq![CondView::RealmIdIn(realm_ids), CondView::OrderStillOpen]]
    } else {
        seq![seq![CondView::RealmIdIn(realm_ids)]]
    })
    + (if u.in_kernel && kinds.len() > 0 { seq![seq![CondView::RealmKindIn(kinds)]] } else { seq![] })
}

/// The permit filter of trade orders.
pub open spec fn order_filter(u: User, action: Seq<char>, st: Standing) -> FilterView {
    if u.is_root {
        FilterView::Allowed
    } else {
        query_or_denied(steward_frags(u, st) + order_owner_frags(u, action, st) + order_role_frags(u, action, st))
    }
}

/// Whether the action only reads or edits.
pub fn is_view_or_edit(action: &str) -> (r: bool)
    ensures
        r == views_or_edits(action@),
{
    str_eq(action, "view") || str_eq(action, "edit")
}

/// A fragment of the given conditions followed by the order guard.
fn guarded(u: &User, action: &str, base: Vec<Cond>) -> (f: Fragment)
    ensures
        f@ == base@.map_values(|c: Cond| c@) + order_guard(*u, action@),
{
    let ghost b = base@.map_values(|c: Cond| c@);
    let mut conds = base;
    if !u.in_kernel && !is_view_or_edit(action) {
        conds.push(Cond::OrderStillOpen);
        conds.push(Cond::NotKernelControlled);
    }
    let f = Fragment { conds };
    assert(f@ =~= b + order_guard(*u, action@));
    f
}

fn one(a: Cond) -> (v: Vec<Cond>)
    ensures
        v@.map_values(|c: Cond| c@) == seq![a@],
{
    let mut v: Vec<Cond> = Vec::new();
    v.push(a);
    assert(v@.map_values(|c: Cond| c@) =~= seq![a@]);
    v
}

fn two(a: Cond, b: Cond) -> (v: Vec<Cond>)
    ensures
        v@.map_values(|c: Cond| c@) == seq![a@, b@],
{
    let mut v: Vec<Cond> = Vec::new();
    v.push(a);
    v.push(b);
    assert(v@.map_values(|c: Cond| c@) =~= seq![a@, b@]);
    v
}

/// Appends what being root user of a set of realms grants on orders.
fn push_order_owner_part(frags: &mut Vec<Fragment>, u: &User, action: &str, scopes: &Vec<String>, ids: &Vec<i64>)
    ensures
        frags_view(final(frags)@) == frags_view(old(frags)@) + order_owner_part(*u, action@, scopes@, ids@),
{
    let ghost before = frags_view(frags@);
    if scopes.len() == 0 || ids.len() == 0 {
        assert(frags_view(frags@) =~= before + seq![]);
    } else if scopes_have(scopes, "*") || scopes_have(scopes, "realm") {
        let f = guarded(u, action, one(Cond::RealmIdIn(ids.clone())));
        push_frag(frags, f);
        assert(frags_view(frags@) =~= before + order_owner_part(*u, action@, scopes@, ids@));
    } else if scopes_have(scopes, "owned") {
        let f = guarded(u, action, two(Cond::RealmIdIn(ids.clone()), Cond::OwnerEq(u.id)));
        push_frag(frags, f);
        assert(frags_view(frags@) =~= before + order_owner_part(*u, action@, scopes@, ids@));
    } else {
        assert(frags_view(frags@) =~= before + seq![]);
    }
}

/// Appends what the visitor's roles grant on orders.
#[verifier::rlimit(40)]
fn push_order_role_frags(frags: &mut Vec<Fragment>, u: &User, action: &str, st: &Standing)
    ensures
        frags_view(final(frags)@) == frags_view(old(frags)@) + order_role_frags(*u, action@, *st),
{
    let ghost s2 = frags_view(frags@);

    let ps = &st.permissions;
    let record_ids = collect_ints(ps, "trade_order.id", ScopeSel::Any);
    let owned_ids = collect_ints(ps, "realm.id", ScopeSel::Owned);
    let owned_kinds = collect_texts(ps, "realm.kind", ScopeSel::Owned);
    let realm_ids = collect_ints(ps, "realm.id", ScopeSel::NotOwned);
    let kinds = collect_text_set(ps, "realm.kind", ScopeSel::NotOwned);
    let ghost g = order_guard(*u, action@);
    let ghost g1 = if record_ids@.len() > 0 { seq![seq![CondView::IdIn(record_ids@)] + g] } else { seq![] };
    let ghost g2 = if owned_ids@.len() > 0 { seq![seq![CondView::OwnerEq(u.id), CondView::RealmIdIn(owned_ids@)] + g] } else { seq![] };
    let ghost g3 = if owned_kinds@.len() > 0 { seq![seq![CondView::OwnerEq(u.id), CondView::RealmKindIn(views_of(owned_kinds@))] + g] } else { seq![] };
    let ghost g4 = if realm_ids@.len() == 0 {
        seq![]
    } else if !u.in_kernel && !views_or_edits(action@) {
        seq![seq![CondView::RealmIdIn(realm_ids@), CondView::OrderStillOpen]]
    } else {
        seq![seq![CondView::RealmIdIn(realm_ids@)]]
    };
    let ghost g5 = if u.in_kernel && kinds@.len() > 0 { seq![seq![CondView::RealmKindIn(views_of(kinds@))]] } else { seq![] };
    if record_ids.len() > 0 {
        push_frag(frags, guarded(u, action, one(Cond::IdIn(record_ids))));
    }
    assert(frags_view(frags@) =~= s2 + g1);
    if owned_ids.len() > 0 {
        push_frag(frags, guarded(u, action, two(Cond::OwnerEq(u.id), Cond::RealmIdIn(owned_ids))));
    }
    assert(frags_view(frags@) =~= s2 + g1 + g2);
    if owned_kinds.len() > 0 {
        push_frag(frags, guarded(u, action, two(Cond::OwnerEq(u.id), Cond::RealmKindIn(owned_kinds))));
    }
    assert(frags_view(frags@) =~= s2 + g1 + g2 + g3);
    if realm_ids.len() > 0 {
        if !u.in_kernel && !is_view_or_edit(action) {
            push_frag(frags, frag2(Cond::RealmIdIn(realm_ids), Cond::OrderStillOpen));
        } else {
            push_frag(frags, frag1(Cond::RealmIdIn(realm_ids)));
        }
    }
    assert(frags_view(frags@) =~= s2 + g1 + g2 + g3 + g4);
    if u.in_kernel && kinds.len() > 0 {
        push_frag(frags, frag1(Cond::RealmKindIn(kinds)));
    }
    assert(frags_view(frags@) =~= s2 + g1 + g2 + g3 + g4 + g5);
    assert(views_of(owned_kinds@).len() == owned_kinds@.len());
    assert(views_of(kinds@).len() == kinds@.len());
    assert(g1 + g2 + g3 + g4 + g5 =~= order_role_frags(*u, action@, *st));
    assert(frags_view(frags@) =~= s2 + order_role_frags(*u, action@, *st));
}

/// The permit filter of trade orders.
pub fn order_permit_filter(u: &User, action: &str, st: &Standing) -> (r: PermitFilter)
    ensures
        r@ == order_filter(*u, action@, *st),
{
    if u.is_root {
        return PermitFilter::Allowed;
    }
    let mut frags: Vec<Fragment> = Vec::new();
    assert(frags_view(frags@) =~= seq![]);
    push_steward_frags(&mut frags, u, st);
    let ghost s1 = frags_view(frags@);
    push_order_owner_part(&mut frags, u, action, &st.root_user_scopes, &st.root_user_realm_ids);
    push_order_owner_part(&mut frags, u, action, &st.root_org_scopes, &st.root_org_realm_ids);
    assert(frags_view(frags@) =~= s1 + order_owner_frags(*u, action@, *st));
    let ghost s2 = frags_view(frags@);
    push_order_role_frags(&mut frags, u, action, st);
    assert(frags_view(frags@) =~= s2 + order_role_frags(*u, action@, *st));
    assert(frags_view(frags@) =~= steward_frags(*u, *st) + order_owner_frags(*u, action@, *st) + order_role_frags(*u, action@, *st));
    finish(frags)
}

} // verus!

verus! {

/// Every fragment mentions the condition.
pub open spec fn all_frags_have(fs: Seq<Seq<CondView>>, c: CondView) -> bool {
    forall|i: int| 0 <= i < fs.len() ==> (#[trigger] fs[i]).contains(c)
}

pub proof fn lemma_all_frags_have_concat(a: Seq<Seq<CondView>>, b: Seq<Seq<CondView>>, c: CondView)
    requires
        all_frags_have(a, c),
        all_frags_have(b, c),
    ensures
        all_frags_have(a + b, c),
{
    assert forall|i: int| 0 <= i < (a + b).len() implies (#[trigger] (a + b)[i]).contains(c) by {
        if i < a.len() {
            assert((a + b)[i] == a[i]);
        } else {
            assert((a + b)[i] == b[i - a.len()]);
        }
    }
}

proof fn lemma_guarded_has_open(base: Seq<CondView>, u: User, action: Seq<char>)
    requires
        !u.in_kernel,
        !views_or_edits(action),
    ensures
        (base + order_guard(u, action)).contains(CondView::OrderStillOpen),
{
    assert((base + order_guard(u, action))[base.len() as int] == CondView::OrderStillOpen);
}

/// Outside the kernel, any action on trade orders other than viewing or
/// editing reaches only orders that are still open: the filter is either
/// `Denied` or a query each of whose fragments requires an open order.
pub proof fn lemma_orders_beyond_view_are_open(u: User, action: Seq<char>, st: Standing)
    requires
        !u.is_root,
        !u.in_kernel,
        !views_or_edits(action),
    ensures
        order_filter(u, action, st) matches FilterView::Query(fs) ==> all_frags_have(fs, CondView::OrderStillOpen),
        order_filter(u, action, st) is Query || order_filter(u, action, st) is Denied,
{
    let c = CondView::OrderStillOpen;
    let ps = st.permissions@;
    let record_ids = ints_of(ps, "trade_order.id"@, ScopeSel::Any);
    let owned_ids = ints_of(ps, "realm.id"@, ScopeSel::Owned);
    let owned_kinds = texts_of(ps, "realm.kind"@, ScopeSel::Owned);
    lemma_guarded_has_open(seq![CondView::IdIn(record_ids)], u, action);
    lemma_guarded_has_open(seq![CondView::OwnerEq(u.id), CondView::RealmIdIn(owned_ids)], u, action);
    lemma_guarded_has_open(seq![CondView::OwnerEq(u.id), CondView::RealmKindIn(owned_kinds)], u, action);
    lemma_guarded_has_open(seq![CondView::RealmIdIn(st.root_user_realm_ids@)], u, action);
    lemma_guarded_has_open(seq![CondView::RealmIdIn(st.root_user_realm_ids@), CondView::OwnerEq(u.id)], u, action);
    lemma_guarded_has_open(seq![CondView::RealmIdIn(st.root_org_realm_ids@)], u, action);
    lemma_guarded_has_open(seq![CondView::RealmIdIn(st.root_org_realm_ids@), CondView::OwnerEq(u.id)], u, action);
    let realm_ids = ints_of(ps, "realm.id"@, ScopeSel::NotOwned);
    assert(seq![CondView::RealmIdIn(realm_ids), CondView::OrderStillOpen][1] == c);
    let o1 = order_owner_part(u, action, st.root_user_scopes@, st.root_user_realm_ids@);
    let o2 = order_owner_part(u, action, st.root_org_scopes@, st.root_org_realm_ids@);
    assert(all_frags_have(o1, c));
    assert(all_frags_have(o2, c));
    lemma_all_frags_have_concat(o1, o2, c);
    let r = order_role_frags(u, action, st);
    assert(all_frags_have(r, c));
    assert(steward_frags(u, st) =~= seq![]);
    lemma_all_frags_have_concat(steward_frags(u, st), o1 + o2, c);
    lemma_all_frags_have_concat(steward_frags(u, st) + (o1 + o2), r, c);
    assert(steward_frags(u, st) + order_owner_frags(u, action, st) + r =~= steward_frags(u, st) + (o1 + o2) + r);
}

} // verus!

//! Permit filter of creatives.
//!
//! Outside the kernel, editing or deleting never reaches a creative
//! controlled by the kernel; other actions reach kernel-controlled
//! creatives only once they are out of development.
use vstd::prelude::*;
use crate::text::{str_eq, views_of};
use super::{
    Cond, CondView, FilterView, Fragment, PermitFilter, ScopeSel, User, collect_ints,
    collect_text_set, collect_texts, finish, frags_view, ints_of, push_frag, query_or_denied,
    text_set_of, texts_of,
};
use super::filters::{Standing, has_scope, push_steward_frags, scopes_have, steward_frags};
use super::orders::{all_frags_have, lemma_all_frags_have_concat};

verus! {

/// The action changes or removes a creative.
pub open spec fn edits_or_deletes(action: Seq<char>) -> bool {
    action == "edit"@ || action == "delete"@
}

/// The visibility condition on kernel-controlled creatives.
pub open spec fn creative_guard(u: User, action: Seq<char>) -> CondView {
    if !u.in_kernel && edits_or_deletes(action) {
        CondView::NotKernelControlled
    } else {
        CondView::NotKernelDeveloping
    }
}

/// The condition added outside the kernel when editing or deleting.
pub open spec fn creative_restriction(u: User, action: Seq<char>) -> Seq<CondView> {
    if !u.in_kernel && edits_or_deletes(action) {
        seq![CondView::NotKernelControlled]
    } else {
        seq![]
    }
}

/// What being root user of a set of realms grants on their creatives.
pub open spec fn creative_owner_part(u: User, action: Seq<char>, scopes: Seq<String>, ids: Seq<i64>) -> Seq<Seq<CondView>> {
    if scopes.len() == 0 || ids.len() == 0 {
        seq![]
    } else if has_scope(scopes, "*"@) {
        seq![seq![CondView::RealmIdIn(ids), creative_guard(u, action)]]
    } else if has_scope(scopes, "owned"@) {
        seq![seq![CondView::RealmIdIn(ids), CondView::OwnerEq(u.id)] + creative_restriction(u, action)]
    } else {
        seq![]
    }
}

/// What the visitor's roles grant on creatives.
pub open spec fn creative_role_frags(u: User, action: Seq<char>, st: Standing) -> Seq<Seq<CondView>> {
    let ps = st.permissions@;
    let record_ids = ints_of(ps, "creative.id"@, ScopeSel::Any);
    let owned_ids = ints_of(ps, "realm.id"@, ScopeSel::Owned);
    let owned_kinds = texts_of(ps, "realm.kind"@, ScopeSel::Owned);
    let campaign_ids = ints_of(ps, "campaign.id"@, ScopeSel::NotOwned);
    let realm_ids = ints_of(ps, "realm.id"@, ScopeSel::NotOwned);
    let kinds = text_set_of(ps, "realm.kind"@, ScopeSel::Any);
    let g = creative_guard(u, action);
    let r = creative_restriction(u, action);
    (if record_ids.len() > 0 { seq![seq![CondView::IdIn(record_ids), g]] } else { seq![] })
    + (if owned_ids.len() > 0 { seq![seq![CondView::OwnerEq(u.id), CondView::RealmIdIn(owned_ids)] + r] } else { seq![] })
    + (if owned_kinds.len() > 0 { seq![seq![CondView::OwnerEq(u.id), CondView::RealmKindIn(owned_kinds)] + r] } else { seq![] })
    + (if campaign_ids.len() > 0 { seq![seq![CondView::CampaignIdIn(campaign_ids), g]] } else { seq![] })
    + (if realm_ids.len() > 0 { seq![seq![CondView::RealmIdIn(realm_ids), g]] } else { seq![] })
    + (if u.in_kernel && kinds.len() > 0 { seq![seq![CondView::RealmKindIn(kinds)]] } else { seq![] })
}

/// The permit filter of creatives.
pub open spec fn creative_filter(u: User, action: Seq<char>, st: Standing) -> FilterView {
    if u.is_root {
        FilterView::Allowed
    } else if st.allowed_org_scopes@.len() == 0 && st.allowed_user_scopes@.len() == 0 {
        FilterView::Denied
    } else {
        query_or_denied(
            steward_frags(u, st)
                + creative_owner_part(u, action, st.root_user_scopes@, st.root_user_realm_ids@)
                + creative_owner_part(u, action, st.root_org_scopes@, st.root_org_realm_ids@)
                + creative_role_frags(u, action, st),
        )
    }
}

/// Whether the action changes or removes a creative.
pub fn is_edit_or_delete(action: &str) -> (r: bool)
    ensures
        r == edits_or_deletes(action@),
{
    str_eq(action, "edit") || str_eq(action, "delete")
}

fn guard_cond(u: &User, action: &str) -> (c: Cond)
    ensures
        c@ == creative_guard(*u, action@),
{
    if !u.in_kernel && is_edit_or_delete(action) {
        Cond::NotKernelControlled
    } else {
        Cond::NotKernelDeveloping
    }
}

/// A fragment of two conditions followed by the restriction.
fn restricted(u: &User, action: &str, a: Cond, b: Cond) -> (f: Fragment)
    ensures
        f@ == seq![a@, b@] + creative_restriction(*u, action@),
{
    let mut conds: Vec<Cond> = Vec::new();
    conds.push(a);
    conds.push(b);
    if !u.in_kernel && is_edit_or_delete(action) {
        conds.push(Cond::NotKernelControlled);
    }
    let f = Fragment { conds };
    assert(f@ =~= seq![a@, b@] + creative_restriction(*u, action@));
    f
}

fn pair(a: Cond, b: Cond) -> (f: Fragment)
    ensures
        f@ == seq![a@, b@],
{
    super::frag2(a, b)
}

fn push_creative_owner_part(frags: &mut Vec<Fragment>, u: &User, action: &str, scopes: &Vec<String>, ids: &Vec<i64>)
    ensures
        frags_view(final(frags)@) == frags_view(old(frags)@) + creative_owner_part(*u, action@, scopes@, ids@),
{
    let ghost before = frags_view(frags@);
    if scopes.len() == 0 || ids.len() == 0 {
        assert(frags_view(frags@) =~= before + seq![]);
    } else if scopes_have(scopes, "*") {
        push_frag(frags, pair(Cond::RealmIdIn(ids.clone()), guard_cond(u, action)));
        assert(frags_view(frags@) =~= before + creative_owner_part(*u, action@, scopes@, ids@));
    } else if scopes_have(scopes, "owned") {
        push_frag(frags, restricted(u, action, Cond::RealmIdIn(ids.clone()), Cond::OwnerEq(u.id)));
        assert(frags_view(frags@) =~= before + creative_owner_part(*u, action@, scopes@, ids@));
    } else {
        assert(frags_view(frags@) =~= before + seq![]);
    }
}

/// Pushes `f` when `b` holds.
fn push_when(frags: &mut Vec<Fragment>, b: bool, f: Fragment)
    ensures
        frags_view(final(frags)@) == frags_view(old(frags)@) + (if b { seq![f@] } else { Seq::<Seq<CondView>>::empty() }),
{
    let ghost before = frags_view(frags@);
    if b {
        push_frag(frags, f);
    }
    assert(frags_view(frags@) =~= before + (if b { seq![f@] } else { Seq::<Seq<CondView>>::empty() }));
}

#[verifier::rlimit(20)]
fn push_creative_role_frags(frags: &mut Vec<Fragment>, u: &User, action: &str, st: &Standing)
    ensures
        frags_view(final(frags)@) == frags_view(old(frags)@) + creative_role_frags(*u, action@, *st),
{
    let ghost s0 = frags_view(frags@);
    let ps = &st.permissions;
    let record_ids = collect_ints(ps, "creative.id", ScopeSel::Any);
    let owned_ids = collect_ints(ps, "realm.id", ScopeSel::Owned);
    let owned_kinds = collect_texts(ps, "realm.kind", ScopeSel::Owned);
    let campaign_ids = collect_ints(ps, "campaign.id", ScopeSel::NotOwned);
    let realm_ids = collect_ints(ps, "realm.id", ScopeSel::NotOwned);
    let kinds = collect_text_set(ps, "realm.kind", ScopeSel::Any);
    proof {
        assert(views_of(owned_kinds@).len() == owned_kinds@.len());
        assert(views_of(kinds@).len() == kinds@.len());
    }
    let ghost g = creative_guard(*u, action@);
    let ghost r = creative_restriction(*u, action@);
    let ghost g1 = if record_ids@.len() > 0 { seq![seq![CondView::IdIn(record_ids@), g]] } else { Seq::<Seq<CondView>>::empty() };
    let ghost g2 = if owned_ids@.len() > 0 { seq![seq![CondView::OwnerEq(u.id), CondView::RealmIdIn(owned_ids@)] + r] } else { Seq::<Seq<CondView>>::empty() };
    let ghost g3 = if owned_kinds@.len() > 0 { seq![seq![CondView::OwnerEq(u.id), CondView::RealmKindIn(views_of(owned_kinds@))] + r] } else { Seq::<Seq<CondView>>::empty() };
    let ghost g4 = if campaign_ids@.len() > 0 { seq![seq![CondView::CampaignIdIn(campaign_ids@), g]] } else { Seq::<Seq<CondView>>::empty() };
    let ghost g5 = if realm_ids@.len() > 0 { seq![seq![CondView::RealmIdIn(realm_ids@), g]] } else { Seq::<Seq<CondView>>::empty() };
    let ghost g6 = if u.in_kernel && kinds@.len() > 0 { seq![seq![CondView::RealmKindIn(views_of(kinds@))]] } else { Seq::<Seq<CondView>>::empty() };
    let b1 = record_ids.len() > 0;
    push_when(frags, b1, pair(Cond::IdIn(record_ids), guard_cond(u, action)));
    let b2 = owned_ids.len() > 0;
    push_when(frags, b2, restricted(u, action, Cond::OwnerEq(u.id), Cond::RealmIdIn(owned_ids)));
    let b3 = owned_kinds.len() > 0;
    push_when(frags, b3, restricted(u, action, Cond::OwnerEq(u.id), Cond::RealmKindIn(owned_kinds)));
    let b4 = campaign_ids.len() > 0;
    push_when(frags, b4, pair(Cond::CampaignIdIn(campaign_ids), guard_cond(u, action)));
    let b5 = realm_ids.len() > 0;
    push_when(frags, b5, pair(Cond::RealmIdIn(realm_ids), guard_cond(u, action)));
    let b6 = u.in_kernel && kinds.len() > 0;
    push_when(frags, b6, super::frag1(Cond::RealmKindIn(kinds)));
    assert(frags_view(frags@) =~= s0 + g1 + g2 + g3 + g4 + g5 + g6);
    assert(g1 + g2 + g3 + g4 + g5 + g6 =~= creative_role_frags(*u, action@, *st));
}

/// The permit filter of creatives.
pub fn creative_permit_filter(u: &User, action: &str, st: &Standing) -> (r: PermitFilter)
    ensures
        r@ == creative_filter(*u, action@, *st),
{
    if u.is_root {
        return PermitFilter::Allowed;
    }
    if st.allowed_org_scopes.len() == 0 && st.allowed_user_scopes.len() == 0 {
        return PermitFilter::Denied;
    }
    let mut frags: Vec<Fragment> = Vec::new();
    assert(frags_view(frags@) =~= seq![]);
    push_steward_frags(&mut frags, u, st);
    push_creative_owner_part(&mut frags, u, action, &st.root_user_scopes, &st.root_user_realm_ids);
    push_creative_owner_part(&mut frags, u, action, &st.root_org_scopes, &st.root_org_realm_ids);
    push_creative_role_frags(&mut frags, u, action, st);
    finish(frags)
}

/// Outside the kernel, editing or deleting creatives never reaches one
/// controlled by the kernel: each fragment of the filter excludes them.
pub proof fn lemma_kernel_creatives_protected(u: User, action: Seq<char>, st: Standing)
    requires
        !u.is_root,
        !u.in_kernel,
        edits_or_deletes(action),
    ensures
        creative_filter(u, action, st) matches FilterView::Query(fs) ==> all_frags_have(fs, CondView::NotKernelControlled),
        creative_filter(u, action, st) is Query || creative_filter(u, action, st) is Denied,
{
    let c = CondView::NotKernelControlled;
    let o1 = creative_owner_part(u, action, st.root_user_scopes@, st.root_user_realm_ids@);
    let o2 = creative_owner_part(u, action, st.root_org_scopes@, st.root_org_realm_ids@);
    assert((seq![CondView::RealmIdIn(st.root_user_realm_ids@), CondView::OwnerEq(u.id)] + creative_restriction(u, action))[2] == c);
    assert((seq![CondView::RealmIdIn(st.root_org_realm_ids@), CondView::OwnerEq(u.id)] + creative_restriction(u, action))[2] == c);
    assert(seq![CondView::RealmIdIn(st.root_user_realm_ids@), c][1] == c);
    assert(seq![CondView::RealmIdIn(st.root_org_realm_ids@), c][1] == c);
    assert(all_frags_have(o1, c));
    assert(all_frags_have(o2, c));
    let ps = st.permissions@;
    let record_ids = ints_of(ps, "creative.id"@, ScopeSel::Any);
    let owned_ids = ints_of(ps, "realm.id"@, ScopeSel::Owned);
    let owned_kinds = texts_of(ps, "realm.kind"@, ScopeSel::Owned);
    let campaign_ids = ints_of(ps, "campaign.id"@, ScopeSel::NotOwned);
    let realm_ids = ints_of(ps, "realm.id"@, ScopeSel::NotOwned);
    assert(seq![CondView::IdIn(record_ids), c][1] == c);
    assert((seq![CondView::OwnerEq(u.id), CondView::RealmIdIn(owned_ids)] + creative_restriction(u, action))[2] == c);
    assert((seq![CondView::OwnerEq(u.id), CondView::RealmKindIn(owned_kinds)] + creative_restriction(u, action))[2] == c);
    assert(seq![CondView::CampaignIdIn(campaign_ids), c][1] == c);
    assert(seq![CondView::RealmIdIn(realm_ids), c][1] == c);
    let r = creative_role_frags(u, action, st);
    assert(all_frags_have(r, c));
    assert(steward_frags(u, st) =~= seq![]);
    lemma_all_frags_have_concat(steward_frags(u, st), o1, c);
    lemma_all_frags_have_concat(steward_frags(u, st) + o1, o2, c);
    lemma_all_frags_have_concat(steward_frags(u, st) + o1 + o2, r, c);
}

} // verus!

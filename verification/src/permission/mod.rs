//! Row-level access control.
//!
//! Every filter here is computed from facts that the caller has read from
//! the database (the visitor, the permissions granted to the visitor's
//! roles, the realms the visitor stewards or owns) and yields either
//! `Allowed`, `Denied`, or a list of query fragments of which a row must
//! satisfy at least one (each fragment being a conjunction of conditions).

use vstd::prelude::*;
use crate::text::{str_eq, strings_contain, views_of};

pub mod filters;
pub mod orders;
pub mod creatives;
pub mod realms;
pub mod tables;
pub mod decisions;
pub mod laws;

verus! {

/// The visitor, as far as access control reads it.
#[derive(Clone, Copy, Debug)]
pub struct User {
    pub id: i64,
    pub realm_id: i64,
    pub is_root: bool,
    pub in_kernel: bool,
}

/// A realm (tenant): its id and kind (`kernel`, `org` or `user`).
#[derive(Clone, Debug)]
pub struct Realm {
    pub id: i64,
    pub kind: String,
}

/// One permission granted to a role.
#[derive(Clone, Debug)]
pub struct Permission {
    pub id: i64,
    pub role_id: i64,
    pub realm_id: i64,
    pub entity: String,
    pub action: String,
    pub scope: String,
    pub filter_name: String,
    pub filter_int_value: Option<i64>,
    pub filter_text_value: Option<String>,
}

/// An atomic condition on a row of the filtered table.
#[derive(Clone, Debug)]
pub enum Cond {
    /// `id IN ids`
    IdIn(Vec<i64>),
    /// `id = v`
    IdEq(i64),
    /// `id IS NOT NULL` (every row)
    IdNotNull,
    /// `realm_id IN ids`
    RealmIdIn(Vec<i64>),
    /// `realm_id = v`
    RealmIdEq(i64),
    /// `owner_id = v`
    OwnerEq(i64),
    /// the row's realm has one of the kinds
    RealmKindIn(Vec<String>),
    /// `campaign_id IN ids`
    CampaignIdIn(Vec<i64>),
    /// `flow_status IN ('created', 'invalided', 'pending_pay')`
    OrderStillOpen,
    /// `controlled_by <> 'realm.kernel'`
    NotKernelControlled,
    /// `controlled_by <> 'realm.kernel' OR (controlled_by = 'realm.kernel' AND flow_status <> 'developing')`
    NotKernelDeveloping,
    /// `is_public = true`
    IsPublic,
    /// realms table: `kind IN kinds`
    KindIn(Vec<String>),
    /// realms table: `kind = 'kernel'`
    KindIsKernel,
    /// realms table: `id IN ids OR kind IN kinds`
    IdInOrKindIn(Vec<i64>, Vec<String>),
    /// `realms.id IN ids`
    RealmsTableIdIn(Vec<i64>),
    /// users table: the user has a verified email in one of the domains
    VerifiedEmailDomainIn(Vec<String>),
    /// users table: a kernel user that is not root and is a steward
    KernelSteward,
    /// users table: the user shares a realm with the given user
    SharesRealmWith(i64),
    /// users table: the user is a member of one of the realms
    MemberOfRealms(Vec<i64>),
}

/// The mathematical value of a condition.
pub enum CondView {
    IdIn(Seq<i64>),
    IdEq(i64),
    IdNotNull,
    RealmIdIn(Seq<i64>),
    RealmIdEq(i64),
    OwnerEq(i64),
    RealmKindIn(Seq<Seq<char>>),
    CampaignIdIn(Seq<i64>),
    OrderStillOpen,
    NotKernelControlled,
    NotKernelDeveloping,
    IsPublic,
    KindIn(Seq<Seq<char>>),
    KindIsKernel,
    IdInOrKindIn(Seq<i64>, Seq<Seq<char>>),
    RealmsTableIdIn(Seq<i64>),
    VerifiedEmailDomainIn(Seq<Seq<char>>),
    KernelSteward,
    SharesRealmWith(i64),
    MemberOfRealms(Seq<i64>),
}

impl View for Cond {
    type V = CondView;

    open spec fn view(&self) -> CondView {
        match self {
            Cond::IdIn(v) => CondView::IdIn(v@),
            Cond::IdEq(v) => CondView::IdEq(*v),
            Cond::IdNotNull => CondView::IdNotNull,
            Cond::RealmIdIn(v) => CondView::RealmIdIn(v@),
            Cond::RealmIdEq(v) => CondView::RealmIdEq(*v),
            Cond::OwnerEq(v) => CondView::OwnerEq(*v),
            Cond::RealmKindIn(v) => CondView::RealmKindIn(views_of(v@)),
            Cond::CampaignIdIn(v) => CondView::CampaignIdIn(v@),
            Cond::OrderStillOpen => CondView::OrderStillOpen,
            Cond::NotKernelControlled => CondView::NotKernelControlled,
            Cond::NotKernelDeveloping => CondView::NotKernelDeveloping,
            Cond::IsPublic => CondView::IsPublic,
            Cond::KindIn(v) => CondView::KindIn(views_of(v@)),
            Cond::KindIsKernel => CondView::KindIsKernel,
            Cond::IdInOrKindIn(a, b) => CondView::IdInOrKindIn(a@, views_of(b@)),
            Cond::RealmsTableIdIn(v) => CondView::RealmsTableIdIn(v@),
            Cond::VerifiedEmailDomainIn(v) => CondView::VerifiedEmailDomainIn(views_of(v@)),
            Cond::KernelSteward => CondView::KernelSteward,
            Cond::SharesRealmWith(v) => CondView::SharesRealmWith(*v),
            Cond::MemberOfRealms(v) => CondView::MemberOfRealms(v@),
        }
    }
}

/// A conjunction of conditions.
#[derive(Clone, Debug)]
pub struct Fragment {
    pub conds: Vec<Cond>,
}

impl View for Fragment {
    type V = Seq<CondView>;

    open spec fn view(&self) -> Seq<CondView> {
        self.conds@.map_values(|c: Cond| c@)
    }
}

/// The outcome of a row-level permission check.
#[derive(Clone, Debug)]
pub enum PermitFilter {
    /// every row is visible
    Allowed,
    /// no row is visible
    Denied,
    /// a row is visible when it satisfies one of the fragments
    Query(Vec<Fragment>),
}

/// The mathematical value of a permit filter.
pub enum FilterView {
    Allowed,
    Denied,
    Query(Seq<Seq<CondView>>),
}

/// The views of a list of fragments.
pub open spec fn frags_view(v: Seq<Fragment>) -> Seq<Seq<CondView>> {
    v.map_values(|f: Fragment| f@)
}

impl View for PermitFilter {
    type V = FilterView;

    open spec fn view(&self) -> FilterView {
        match self {
            PermitFilter::Allowed => FilterView::Allowed,
            PermitFilter::Denied => FilterView::Denied,
            PermitFilter::Query(v) => FilterView::Query(frags_view(v@)),
        }
    }
}

/// `Query(frags)` when some fragment was produced, `Denied` otherwise.
pub open spec fn query_or_denied(frags: Seq<Seq<CondView>>) -> FilterView {
    if frags.len() > 0 {
        FilterView::Query(frags)
    } else {
        FilterView::Denied
    }
}

/// A fragment of one condition.
pub fn frag1(a: Cond) -> (f: Fragment)
    ensures
        f@ == seq![a@],
{
    let mut conds: Vec<Cond> = Vec::new();
    conds.push(a);
    let f = Fragment { conds };
    assert(f@ =~= seq![a@]);
    f
}

/// A fragment of two conditions.
pub fn frag2(a: Cond, b: Cond) -> (f: Fragment)
    ensures
        f@ == seq![a@, b@],
{
    let mut conds: Vec<Cond> = Vec::new();
    conds.push(a);
    conds.push(b);
    let f = Fragment { conds };
    assert(f@ =~= seq![a@, b@]);
    f
}

/// A fragment of three conditions.
pub fn frag3(a: Cond, b: Cond, c: Cond) -> (f: Fragment)
    ensures
        f@ == seq![a@, b@, c@],
{
    let mut conds: Vec<Cond> = Vec::new();
    conds.push(a);
    conds.push(b);
    conds.push(c);
    let f = Fragment { conds };
    assert(f@ =~= seq![a@, b@, c@]);
    f
}

/// A fragment of four conditions.
pub fn frag4(a: Cond, b: Cond, c: Cond, d: Cond) -> (f: Fragment)
    ensures
        f@ == seq![a@, b@, c@, d@],
{
    let mut conds: Vec<Cond> = Vec::new();
    conds.push(a);
    conds.push(b);
    conds.push(c);
    conds.push(d);
    let f = Fragment { conds };
    assert(f@ =~= seq![a@, b@, c@, d@]);
    f
}

/// Appends a fragment.
pub fn push_frag(frags: &mut Vec<Fragment>, f: Fragment)
    ensures
        frags_view(final(frags)@) == frags_view(old(frags)@).push(f@),
{
    let ghost before = frags@;
    frags.push(f);
    assert(frags_view(frags@) =~= frags_view(before).push(f@));
}

/// `Query(frags)` when some fragment was produced, `Denied` otherwise.
pub fn finish(frags: Vec<Fragment>) -> (r: PermitFilter)
    ensures
        r@ == query_or_denied(frags_view(frags@)),
{
    if frags.len() > 0 {
        PermitFilter::Query(frags)
    } else {
        PermitFilter::Denied
    }
}

// ---------------------------------------------------------------------
// Reading the permissions of a role
// ---------------------------------------------------------------------

/// Which scopes a selection of permissions accepts.
#[derive(Clone, Copy, Debug, PartialEq, Eq)]
pub enum ScopeSel {
    /// any scope
    Any,
    /// scope `owned`
    Owned,
    /// any scope but `owned`
    NotOwned,
}

pub open spec fn scope_ok(sel: ScopeSel, scope: Seq<char>) -> bool {
    match sel {
        ScopeSel::Any => true,
        ScopeSel::Owned => scope == "owned"@,
        ScopeSel::NotOwned => scope != "owned"@,
    }
}

/// The permission filters on `name` with a selected scope.
pub open spec fn picks(p: Permission, name: Seq<char>, sel: ScopeSel) -> bool {
    p.filter_name@ == name && scope_ok(sel, p.scope@)
}

/// The integer values of the selected permissions, in order.
pub open spec fn ints_of(ps: Seq<Permission>, name: Seq<char>, sel: ScopeSel) -> Seq<i64>
    decreases ps.len(),
{
    if ps.len() == 0 {
        seq![]
    } else {
        let rest = ints_of(ps.drop_last(), name, sel);
        let p = ps.last();
        if picks(p, name, sel) && p.filter_int_value is Some {
            rest.push(p.filter_int_value->0)
        } else {
            rest
        }
    }
}

/// The text values of the selected permissions, in order.
pub open spec fn texts_of(ps: Seq<Permission>, name: Seq<char>, sel: ScopeSel) -> Seq<Seq<char>>
    decreases ps.len(),
{
    if ps.len() == 0 {
        seq![]
    } else {
        let rest = texts_of(ps.drop_last(), name, sel);
        let p = ps.last();
        if picks(p, name, sel) && p.filter_text_value is Some {
            rest.push(p.filter_text_value->0@)
        } else {
            rest
        }
    }
}

/// The distinct text values of the selected permissions, each kept at its
/// first occurrence.
pub open spec fn text_set_of(ps: Seq<Permission>, name: Seq<char>, sel: ScopeSel) -> Seq<Seq<char>>
    decreases ps.len(),
{
    if ps.len() == 0 {
        seq![]
    } else {
        let rest = text_set_of(ps.drop_last(), name, sel);
        let p = ps.last();
        if picks(p, name, sel) && p.filter_text_value is Some && !rest.contains(
            p.filter_text_value->0@,
        ) {
            rest.push(p.filter_text_value->0@)
        } else {
            rest
        }
    }
}

/// Whether the permission's scope is selected.
pub fn scope_selected(p: &Permission, sel: ScopeSel) -> (r: bool)
    ensures
        r == scope_ok(sel, p.scope@),
{
    match sel {
        ScopeSel::Any => true,
        ScopeSel::Owned => str_eq(p.scope.as_str(), "owned"),
        ScopeSel::NotOwned => !str_eq(p.scope.as_str(), "owned"),
    }
}

/// The integer values of the permissions on `name` with a selected scope.
pub fn collect_ints(perms: &Vec<Permission>, name: &str, sel: ScopeSel) -> (r: Vec<i64>)
    ensures
        r@ == ints_of(perms@, name@, sel),
{
    let mut out: Vec<i64> = Vec::new();
    let mut i: usize = 0;
    while i < perms.len()
        invariant
            i <= perms@.len(),
            out@ == ints_of(perms@.take(i as int), name@, sel),
        decreases perms@.len() - i,
    {
        let p = &perms[i];
        assert(perms@.take(i + 1).drop_last() =~= perms@.take(i as int));
        if str_eq(p.filter_name.as_str(), name) && scope_selected(p, sel) {
            match p.filter_int_value {
                Some(v) => {
                    out.push(v);
                },
                None => {},
            }
        }
        i = i + 1;
    }
    assert(perms@.take(perms@.len() as int) =~= perms@);
    out
}

/// The text values of the permissions on `name` with a selected scope.
pub fn collect_texts(perms: &Vec<Permission>, name: &str, sel: ScopeSel) -> (r: Vec<String>)
    ensures
        views_of(r@) == texts_of(perms@, name@, sel),
{
    let mut out: Vec<String> = Vec::new();
    let mut i: usize = 0;
    while i < perms.len()
        invariant
            i <= perms@.len(),
            views_of(out@) == texts_of(perms@.take(i as int), name@, sel),
        decreases perms@.len() - i,
    {
        let p = &perms[i];
        assert(perms@.take(i + 1).drop_last() =~= perms@.take(i as int));
        if str_eq(p.filter_name.as_str(), name) && scope_selected(p, sel) {
            match &p.filter_text_value {
                Some(t) => {
                    let ghost before = out@;
                    out.push(t.clone());
                    assert(views_of(out@) =~= views_of(before).push(t@));
                },
                None => {},
            }
        }
        i = i + 1;
    }
    assert(perms@.take(perms@.len() as int) =~= perms@);
    out
}

/// The distinct text values of the permissions on `name` with a selected
/// scope.
pub fn collect_text_set(perms: &Vec<Permission>, name: &str, sel: ScopeSel) -> (r: Vec<String>)
    ensures
        views_of(r@) == text_set_of(perms@, name@, sel),
{
    let mut out: Vec<String> = Vec::new();
    let mut i: usize = 0;
    while i < perms.len()
        invariant
            i <= perms@.len(),
            views_of(out@) == text_set_of(perms@.take(i as int), name@, sel),
        decreases perms@.len() - i,
    {
        let p = &perms[i];
        assert(perms@.take(i + 1).drop_last() =~= perms@.take(i as int));
        if str_eq(p.filter_name.as_str(), name) && scope_selected(p, sel) {
            match &p.filter_text_value {
                Some(t) => {
                    let seen = strings_contain(&out, t.as_str());
                    assert(seen == views_of(out@).contains(t@)) by {
                        if seen {
                            let k = choose|k: int| 0 <= k < out@.len() && (#[trigger] out@[k])@ == t@;
                            assert(views_of(out@)[k] == t@);
                        }
                        if views_of(out@).contains(t@) {
                            let k = choose|k: int| 0 <= k < views_of(out@).len() && views_of(out@)[k] == t@;
                            assert(out@[k]@ == t@);
                        }
                    }
                    if !seen {
                        let ghost before = out@;
                        out.push(t.clone());
                        assert(views_of(out@) =~= views_of(before).push(t@));
                    }
                },
                None => {},
            }
        }
        i = i + 1;
    }
    assert(perms@.take(perms@.len() as int) =~= perms@);
    out
}

} // verus!

use colang::permission::creatives::creative_permit_filter;
use colang::permission::decisions::{
    all_permitted_in_campaign, all_permitted_in_kernel, all_permitted_in_realm, any_permitted_for_kernel_entity,
    any_permitted_in_realm, owner_permitted, record_permitted, RealmFacts,
};
use colang::permission::filters::{permit_filter, record_name, Standing};
use colang::permission::orders::order_permit_filter;
use colang::permission::realms::{entity_realms_permit_filter, realm_permit_filter};
use colang::permission::tables::{
    kernel_entity_permit_filter, refund_permit_filter, steward_permit_filter, steward_permitted,
    stock_permit_filter, user_permit_filter, user_permitted, UserRelation,
};
use colang::permission::{Permission, PermitFilter, Realm, User};

fn strings(v: &[&str]) -> Vec<String> {
    v.iter().map(|s| s.to_string()).collect()
}

fn standing() -> Standing {
    Standing {
        kernel_realm_id: 1,
        steward_org_scopes: vec![],
        steward_user_scopes: vec![],
        steward_org_realm_ids: vec![],
        steward_user_realm_ids: vec![],
        root_kernel_scopes: vec![],
        root_org_scopes: vec![],
        root_user_scopes: vec![],
        is_kernel_root: false,
        root_org_realm_ids: vec![],
        root_user_realm_ids: vec![],
        allowed_kernel_scopes: vec![],
        allowed_org_scopes: vec![],
        allowed_user_scopes: vec![],
        member_realm_ids: vec![],
        steward_realm_ids: vec![],
        root_realm_ids: vec![],
        verified_email_domains: vec![],
        permissions: vec![],
    }
}

fn user(id: i64, is_root: bool, in_kernel: bool) -> User {
    User { id, realm_id: 10, is_root, in_kernel }
}

fn shown(f: &PermitFilter) -> String {
    format!("{:?}", f)
}

#[test]
fn root_sees_every_row() {
    let u = user(1, true, false);
    let st = standing();
    assert!(matches!(permit_filter(&u, "creative", &st), PermitFilter::Allowed));
    assert!(matches!(order_permit_filter(&u, "delete", &st), PermitFilter::Allowed));
    assert!(matches!(creative_permit_filter(&u, "delete", &st), PermitFilter::Allowed));
    assert!(matches!(realm_permit_filter(&u, "view", &st), PermitFilter::Allowed));
    assert!(matches!(refund_permit_filter(&u, &st), PermitFilter::Allowed));
    assert!(matches!(user_permit_filter(&u, "edit", &st), PermitFilter::Allowed));
    assert!(matches!(kernel_entity_permit_filter(&u, "mold", &st), PermitFilter::Allowed));
    assert!(matches!(stock_permit_filter(&u, "mold", "view", &st), PermitFilter::Allowed));
    assert!(matches!(steward_permit_filter(&u, "view", &st), PermitFilter::Denied));
    assert!(matches!(steward_permit_filter(&user(1, true, true), "view", &st), PermitFilter::Allowed));
}

#[test]
fn nothing_granted_means_nothing_visible() {
    let u = user(5, false, false);
    let st = standing();
    assert!(matches!(permit_filter(&u, "creative", &st), PermitFilter::Denied));
    assert!(matches!(stock_permit_filter(&u, "mold", "view", &st), PermitFilter::Denied));
}

#[test]
fn realm_roots_see_their_realms() {
    let u = user(5, false, false);
    let mut st = standing();
    st.root_user_realm_ids = vec![7, 8];
    st.root_user_scopes = strings(&["*"]);
    assert_eq!(shown(&permit_filter(&u, "creative", &st)), "Query([Fragment { conds: [RealmIdIn([7, 8])] }])");
    st.root_user_scopes = strings(&["owned"]);
    assert_eq!(
        shown(&permit_filter(&u, "creative", &st)),
        "Query([Fragment { conds: [RealmIdIn([7, 8]), OwnerEq(5)] }])"
    );
}

#[test]
fn role_permissions_name_records() {
    assert_eq!(record_name("creative"), "creative.id");
    let u = user(5, false, false);
    let mut st = standing();
    st.permissions = vec![Permission {
        id: 1,
        role_id: 2,
        realm_id: 10,
        entity: "creative".to_string(),
        action: "view".to_string(),
        scope: "*".to_string(),
        filter_name: "creative.id".to_string(),
        filter_int_value: Some(33),
        filter_text_value: None,
    }];
    assert_eq!(shown(&permit_filter(&u, "creative", &st)), "Query([Fragment { conds: [IdIn([33])] }])");
}

#[test]
fn public_stock_is_visible_to_any_scope_holder() {
    let u = user(5, false, false);
    let mut st = standing();
    st.allowed_user_scopes = strings(&["owned"]);
    assert_eq!(shown(&stock_permit_filter(&u, "font", "view", &st)), "Query([Fragment { conds: [IsPublic] }])");
    assert!(matches!(stock_permit_filter(&u, "font", "edit", &st), PermitFilter::Denied));
}

#[test]
fn users_edit_themselves() {
    let u = user(5, false, false);
    let st = standing();
    let shown_filter = shown(&user_permit_filter(&u, "edit", &st));
    assert!(shown_filter.contains("Fragment { conds: [IdEq(5)] }"), "{}", shown_filter);
    let target = user(5, false, false);
    let rel = UserRelation { target_is_steward: false, share_verified_domain: false, share_realm: false, record_permitted: false };
    assert!(user_permitted(&target, &u, "edit", &rel));
    assert!(user_permitted(&target, &u, "view", &rel));
    assert!(!user_permitted(&user(6, false, false), &u, "view", &rel));
    assert!(!user_permitted(&user(6, true, false), &u, "view", &UserRelation { share_realm: true, ..rel }));
    assert!(user_permitted(&user(6, false, false), &u, "view", &UserRelation { share_realm: true, ..rel }));
    assert!(user_permitted(&user(6, false, false), &u, "delete", &UserRelation { record_permitted: true, ..rel }));
    assert!(!user_permitted(&user(6, false, false), &u, "delete", &rel));
}

#[test]
fn root_visitor_acts_on_other_users_without_a_row_check() {
    let root = user(1, true, false);
    let rel = UserRelation { target_is_steward: false, share_verified_domain: false, share_realm: false, record_permitted: false };
    assert!(user_permitted(&user(6, false, false), &root, "edit", &rel));
    assert!(user_permitted(&user(6, false, false), &root, "delete", &rel));
    assert!(!user_permitted(&user(6, true, false), &root, "edit", &rel));
    assert!(user_permitted(&user(6, true, false), &user(1, true, true), "edit", &rel));
}

#[test]
fn realm_level_decisions() {
    let u = user(5, false, false);
    let own = Realm { id: 10, kind: "user".to_string() };
    let other = Realm { id: 11, kind: "org".to_string() };
    let f = RealmFacts { has_allowed_scope: true, is_steward: false, is_realm_root: false, role_grants: false, record_grants: false };
    assert!(all_permitted_in_realm(&u, &own, &f));
    assert!(!all_permitted_in_realm(&u, &other, &f));
    assert!(all_permitted_in_realm(&u, &other, &RealmFacts { is_realm_root: true, ..f }));
    assert!(!all_permitted_in_realm(&u, &own, &RealmFacts { has_allowed_scope: false, ..f }));
    assert!(all_permitted_in_kernel(&user(1, true, true), false, false));
    assert!(!all_permitted_in_campaign(&u, 12, false));
    assert!(record_permitted(&user(1, true, false), false));
    assert!(owner_permitted(&u, 5));
    assert!(!owner_permitted(&u, 6));
    assert!(!steward_permitted(&u, "view", true));
    assert!(steward_permitted(&user(2, false, true), "view", false));
    assert!(!steward_permitted(&user(2, false, true), "edit", false));
    assert!(steward_permitted(&user(2, false, true), "edit", true));
    assert!(steward_permitted(&user(2, true, true), "delete", false));
}

fn realm_permission(scope: &str, name: &str, int_value: Option<i64>, text_value: Option<&str>) -> Permission {
    Permission {
        id: 1,
        role_id: 2,
        realm_id: 10,
        entity: "creative".to_string(),
        action: "view".to_string(),
        scope: scope.to_string(),
        filter_name: name.to_string(),
        filter_int_value: int_value,
        filter_text_value: text_value.map(|t| t.to_string()),
    }
}

#[test]
fn entity_realms_of_root_and_of_nobody() {
    let st = standing();
    assert!(matches!(entity_realms_permit_filter(&user(1, true, false), &st), PermitFilter::Allowed));
    assert!(matches!(entity_realms_permit_filter(&user(5, false, false), &st), PermitFilter::Denied));
}

#[test]
fn entity_realms_list_own_stewarded_rooted_and_granted() {
    let mut st = standing();
    st.allowed_user_scopes = strings(&["*"]);
    st.steward_realm_ids = vec![3];
    st.root_realm_ids = vec![4];
    st.permissions = vec![
        realm_permission("*", "realm.id", Some(9), None),
        realm_permission("owned", "realm.id", Some(12), None),
    ];
    assert_eq!(
        shown(&entity_realms_permit_filter(&user(5, false, true), &st)),
        "Query([Fragment { conds: [IdEq(10)] }, Fragment { conds: [IdIn([3])] }, \
         Fragment { conds: [IdIn([4])] }, Fragment { conds: [IdIn([9])] }])"
    );
    assert_eq!(
        shown(&entity_realms_permit_filter(&user(5, false, false), &st)),
        "Query([Fragment { conds: [IdEq(10)] }, Fragment { conds: [IdIn([4])] }, \
         Fragment { conds: [IdIn([9])] }])"
    );
    st.permissions.push(realm_permission("*", "realm.kind", None, Some("org")));
    assert_eq!(
        shown(&entity_realms_permit_filter(&user(5, false, false), &st)),
        "Query([Fragment { conds: [IdEq(10)] }, Fragment { conds: [IdIn([4])] }, \
         Fragment { conds: [IdInOrKindIn([9], [\"org\"])] }])"
    );
}

fn facts(has_allowed_scope: bool) -> RealmFacts {
    RealmFacts {
        has_allowed_scope,
        is_steward: false,
        is_realm_root: false,
        role_grants: false,
        record_grants: false,
    }
}

#[test]
fn some_records_of_a_realm() {
    let other = Realm { id: 77, kind: "org".to_string() };
    let own = Realm { id: 10, kind: "org".to_string() };
    let u = user(5, false, false);
    assert!(!any_permitted_in_realm(&user(1, true, false), &own, &facts(false)));
    assert!(any_permitted_in_realm(&user(1, true, false), &other, &facts(true)));
    assert!(any_permitted_in_realm(&u, &own, &facts(true)));
    assert!(!all_permitted_in_realm(&u, &own, &facts(true)));
    assert!(!any_permitted_in_realm(&u, &other, &facts(true)));
    let mut f = facts(true);
    f.record_grants = true;
    assert!(any_permitted_in_realm(&u, &other, &f));
    assert!(!all_permitted_in_realm(&u, &other, &f));
    let mut g = facts(true);
    g.is_steward = true;
    assert!(!any_permitted_in_realm(&u, &other, &g));
    assert!(any_permitted_in_realm(&user(5, false, true), &other, &g));
}

#[test]
fn some_records_of_a_kernel_entity() {
    assert!(any_permitted_for_kernel_entity(&user(1, true, false), false, false));
    assert!(!any_permitted_for_kernel_entity(&user(5, false, false), true, true));
    assert!(any_permitted_for_kernel_entity(&user(5, false, true), false, true));
    assert!(any_permitted_for_kernel_entity(&user(5, false, true), true, false));
    assert!(!any_permitted_for_kernel_entity(&user(5, false, true), false, false));
}

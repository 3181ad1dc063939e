use radix_engine::auth::{
    AccessRule, AccessRuleNode, ActingLocation, AuthZoneData, Authorization,
    AuthorizationCheckResult, ModuleRoleKey, NonFungibleGlobalId, ObjectModuleId, ProofData,
    ProofRule, ResourceAddress, ResourceOrNonFungible, RoleAssignmentData, RoleKey, RoleList,
    AuthorityListAuthorizationResult,
};

fn resource(tag: u8) -> ResourceAddress {
    ResourceAddress(vec![tag; 27])
}

fn badge() -> NonFungibleGlobalId {
    NonFungibleGlobalId { resource_address: resource(0xEE), local_id: vec![1] }
}

fn zone_with_proof(tag: u8, amount: u128) -> AuthZoneData {
    AuthZoneData {
        proofs: vec![ProofData {
            resource_address: resource(tag),
            amount,
            non_fungible_local_ids: vec![],
        }],
        virtual_resources: vec![],
        virtual_non_fungibles: vec![],
        local_virtual_non_fungibles: vec![],
        global_virtual_non_fungibles: vec![],
        is_barrier: false,
    }
}

fn empty_zone(is_barrier: bool) -> AuthZoneData {
    AuthZoneData {
        proofs: vec![],
        virtual_resources: vec![],
        virtual_non_fungibles: vec![],
        local_virtual_non_fungibles: vec![],
        global_virtual_non_fungibles: vec![],
        is_barrier,
    }
}

#[test]
fn allow_all_authorizes_and_deny_all_refuses() {
    let stack = vec![empty_zone(false)];
    let allowed = Authorization::check_authorization_against_access_rule(
        &stack,
        ActingLocation::AtBarrier,
        &badge(),
        &AccessRule::AllowAll,
    );
    assert!(matches!(allowed, AuthorizationCheckResult::Authorized));

    let denied = Authorization::check_authorization_against_access_rule(
        &stack,
        ActingLocation::AtBarrier,
        &badge(),
        &AccessRule::DenyAll,
    );
    match denied {
        AuthorizationCheckResult::Failed(rules) => assert_eq!(rules.len(), 1),
        AuthorizationCheckResult::Authorized => panic!("deny-all authorized"),
    }
}

#[test]
fn require_resource_needs_a_matching_proof() {
    let rule = AccessRule::Protected(AccessRuleNode::ProofRule(ProofRule::Require(
        ResourceOrNonFungible::Resource(resource(5)),
    )));

    let matching = vec![zone_with_proof(5, 10)];
    let granted = Authorization::check_authorization_against_access_rule(
        &matching,
        ActingLocation::AtBarrier,
        &badge(),
        &rule,
    );
    assert!(matches!(granted, AuthorizationCheckResult::Authorized));

    let other = vec![zone_with_proof(6, 10)];
    let refused = Authorization::check_authorization_against_access_rule(
        &other,
        ActingLocation::AtBarrier,
        &badge(),
        &rule,
    );
    assert!(matches!(refused, AuthorizationCheckResult::Failed(_)));
}

#[test]
fn amount_of_compares_each_proof_alone() {
    let rule = AccessRule::Protected(AccessRuleNode::ProofRule(ProofRule::AmountOf(
        100,
        resource(5),
    )));
    let enough = vec![zone_with_proof(5, 100)];
    let granted = Authorization::check_authorization_against_access_rule(
        &enough,
        ActingLocation::AtBarrier,
        &badge(),
        &rule,
    );
    assert!(matches!(granted, AuthorizationCheckResult::Authorized));

    let short = vec![zone_with_proof(5, 99)];
    let refused = Authorization::check_authorization_against_access_rule(
        &short,
        ActingLocation::AtBarrier,
        &badge(),
        &rule,
    );
    assert!(matches!(refused, AuthorizationCheckResult::Failed(_)));
}

#[test]
fn barrier_stops_the_walk() {
    let rule = AccessRule::Protected(AccessRuleNode::ProofRule(ProofRule::Require(
        ResourceOrNonFungible::Resource(resource(5)),
    )));
    // The proof sits beyond a barrier zone; acting at a barrier allows no
    // further crossing.
    let stack = vec![empty_zone(true), zone_with_proof(5, 1)];
    let refused = Authorization::check_authorization_against_access_rule(
        &stack,
        ActingLocation::AtBarrier,
        &badge(),
        &rule,
    );
    assert!(matches!(refused, AuthorizationCheckResult::Failed(_)));

    // Acting at a local barrier may cross one barrier.
    let stack2 = vec![empty_zone(true), zone_with_proof(5, 1)];
    let granted = Authorization::check_authorization_against_access_rule(
        &stack2,
        ActingLocation::AtLocalBarrier,
        &badge(),
        &rule,
    );
    assert!(matches!(granted, AuthorizationCheckResult::Authorized));
}

#[test]
fn count_of_needs_enough_distinct_matches() {
    let rule = AccessRule::Protected(AccessRuleNode::ProofRule(ProofRule::CountOf(
        2,
        vec![
            ResourceOrNonFungible::Resource(resource(1)),
            ResourceOrNonFungible::Resource(resource(2)),
            ResourceOrNonFungible::Resource(resource(3)),
        ],
    )));
    let two = AuthZoneData {
        proofs: vec![
            ProofData { resource_address: resource(1), amount: 1, non_fungible_local_ids: vec![] },
            ProofData { resource_address: resource(3), amount: 1, non_fungible_local_ids: vec![] },
        ],
        ..empty_zone(false)
    };
    let granted = Authorization::check_authorization_against_access_rule(
        &vec![two],
        ActingLocation::AtBarrier,
        &badge(),
        &rule,
    );
    assert!(matches!(granted, AuthorizationCheckResult::Authorized));

    let one = vec![zone_with_proof(1, 1)];
    let refused = Authorization::check_authorization_against_access_rule(
        &one,
        ActingLocation::AtBarrier,
        &badge(),
        &rule,
    );
    assert!(matches!(refused, AuthorizationCheckResult::Failed(_)));
}

#[test]
fn caller_package_badge_satisfies_its_own_requirement() {
    let rule = AccessRule::Protected(AccessRuleNode::ProofRule(ProofRule::Require(
        ResourceOrNonFungible::NonFungible(badge()),
    )));
    let stack = vec![empty_zone(false)];
    let granted = Authorization::check_authorization_against_access_rule(
        &stack,
        ActingLocation::InCallFrame,
        &badge(),
        &rule,
    );
    assert!(matches!(granted, AuthorizationCheckResult::Authorized));
}

#[test]
fn role_list_falls_back_to_the_owner_rule() {
    let ra = RoleAssignmentData {
        owner_rule: AccessRule::AllowAll,
        rules: vec![(
            ModuleRoleKey::new(ObjectModuleId::Main, "burner"),
            AccessRule::DenyAll,
        )],
    };
    let stack = vec![empty_zone(false)];

    // An assigned role resolves to its rule.
    let denied = Authorization::check_authorization_against_role_list(
        &stack,
        ActingLocation::AtBarrier,
        &badge(),
        &ra,
        &vec![1u8; 27],
        ObjectModuleId::Main,
        &RoleList { list: vec![RoleKey { key: "burner".to_string() }] },
    );
    assert!(matches!(denied, AuthorityListAuthorizationResult::Failed(_)));

    // An unassigned role falls back to the owner rule.
    let granted = Authorization::check_authorization_against_role_list(
        &stack,
        ActingLocation::AtBarrier,
        &badge(),
        &ra,
        &vec![1u8; 27],
        ObjectModuleId::Main,
        &RoleList { list: vec![RoleKey { key: "minter".to_string() }] },
    );
    assert!(matches!(granted, AuthorityListAuthorizationResult::Authorized));
}

//! Access-rule evaluation over the auth-zone stack of the caller chain.
//! Proofs, virtual badges and barriers are plain data here: the kernel reads
//! the zones out of their substates and hands them in, so evaluation is a
//! function of the stack and the rule alone.

use vstd::prelude::*;

verus! {

use crate::util::bytes_eq;

/// The role that may always act on its own node.
pub const SELF_ROLE: &'static str = "_self_";

/// A resource manager's address.
#[derive(Debug, Clone)]
pub struct ResourceAddress(pub Vec<u8>);

impl View for ResourceAddress {
    type V = Seq<u8>;

    open spec fn view(&self) -> Seq<u8> {
        self.0@
    }
}

/// A non-fungible: its resource manager and its local id.
#[derive(Debug, Clone)]
pub struct NonFungibleGlobalId {
    pub resource_address: ResourceAddress,
    pub local_id: Vec<u8>,
}

pub open spec fn nf_is(a: &NonFungibleGlobalId, res: Seq<u8>, local: Seq<u8>) -> bool {
    a.resource_address@ == res && a.local_id@ == local
}

pub fn non_fungible_global_id_eq(a: &NonFungibleGlobalId, b: &NonFungibleGlobalId) -> (r: bool)
    ensures
        r == nf_is(a, b.resource_address@, b.local_id@),
{
    bytes_eq(a.resource_address.0.as_slice(), b.resource_address.0.as_slice()) && bytes_eq(
        a.local_id.as_slice(),
        b.local_id.as_slice(),
    )
}

/// What a proof rule may demand to see.
#[derive(Debug, Clone)]
pub enum ResourceOrNonFungible {
    Resource(ResourceAddress),
    NonFungible(NonFungibleGlobalId),
}

pub enum ResourceOrNonFungibleV {
    Resource(Seq<u8>),
    NonFungible(Seq<u8>, Seq<u8>),
}

impl View for ResourceOrNonFungible {
    type V = ResourceOrNonFungibleV;

    open spec fn view(&self) -> ResourceOrNonFungibleV {
        match self {
            ResourceOrNonFungible::Resource(ra) => ResourceOrNonFungibleV::Resource(ra@),
            ResourceOrNonFungible::NonFungible(nf) => ResourceOrNonFungibleV::NonFungible(
                nf.resource_address@,
                nf.local_id@,
            ),
        }
    }
}

/// What one proof attests, read out of the proof's substate: its resource,
/// its fungible amount, and its non-fungible local ids.
#[derive(Debug, Clone)]
pub struct ProofData {
    pub resource_address: ResourceAddress,
    pub amount: u128,
    pub non_fungible_local_ids: Vec<Vec<u8>>,
}

/// One auth zone of the caller chain, read out of its substate.
#[derive(Debug, Clone)]
pub struct AuthZoneData {
    pub proofs: Vec<ProofData>,
    pub virtual_resources: Vec<ResourceAddress>,
    pub virtual_non_fungibles: Vec<NonFungibleGlobalId>,
    pub local_virtual_non_fungibles: Vec<NonFungibleGlobalId>,
    pub global_virtual_non_fungibles: Vec<NonFungibleGlobalId>,
    pub is_barrier: bool,
}

/// How deep into the caller chain the actor stands.
#[derive(Debug, Clone, Copy, PartialEq, Eq, Structural)]
pub enum ActingLocation {
    AtBarrier,
    AtLocalBarrier,
    InCallFrame,
}

/// A single demand evaluated against each zone of the stack.
#[derive(Debug, Clone)]
pub enum ZoneCheck {
    Rule(ResourceOrNonFungible),
    Amount(ResourceAddress, u128),
}

pub enum ZoneCheckV {
    Rule(ResourceOrNonFungibleV),
    Amount(Seq<u8>, u128),
}

impl View for ZoneCheck {
    type V = ZoneCheckV;

    open spec fn view(&self) -> ZoneCheckV {
        match self {
            ZoneCheck::Rule(r) => ZoneCheckV::Rule(r@),
            ZoneCheck::Amount(ra, amount) => ZoneCheckV::Amount(ra@, *amount),
        }
    }
}

/// A proof satisfies a demand when it is of the demanded resource and, for a
/// non-fungible demand, holds the demanded local id.
pub open spec fn spec_proof_matches(rule: ResourceOrNonFungibleV, proof: &ProofData) -> bool {
    match rule {
        ResourceOrNonFungibleV::NonFungible(res, local) => proof.resource_address@ == res && (
        exists|i: int|
            0 <= i < proof.non_fungible_local_ids@.len() && proof.non_fungible_local_ids@[i]@
                == local),
        ResourceOrNonFungibleV::Resource(res) => proof.resource_address@ == res,
    }
}

pub open spec fn spec_contains_nf(s: Seq<NonFungibleGlobalId>, res: Seq<u8>, local: Seq<u8>) -> bool {
    exists|i: int| 0 <= i < s.len() && nf_is(&s[i], res, local)
}

pub open spec fn spec_contains_resource(s: Seq<ResourceAddress>, ra: Seq<u8>) -> bool {
    exists|i: int| 0 <= i < s.len() && s[i]@ == ra
}

/// Whether some proof of the zone satisfies the demand; for a non-fungible
/// demand the zone's virtual badges count too. `first_barrier` admits the
/// global-caller badges, `first_checked` the local-caller badges.
pub open spec fn spec_zone_check(
    zone: &AuthZoneData,
    check: ZoneCheckV,
    first_barrier: bool,
    first_checked: bool,
) -> bool {
    match check {
        ZoneCheckV::Rule(rule) => {
            ||| (match rule {
                ResourceOrNonFungibleV::NonFungible(res, local) => {
                    ||| spec_contains_nf(zone.virtual_non_fungibles@, res, local)
                    ||| (first_barrier && spec_contains_nf(
                        zone.global_virtual_non_fungibles@,
                        res,
                        local,
                    ))
                    ||| (first_checked && spec_contains_nf(
                        zone.local_virtual_non_fungibles@,
                        res,
                        local,
                    ))
                    ||| spec_contains_resource(zone.virtual_resources@, res)
                },
                ResourceOrNonFungibleV::Resource(_) => false,
            })
            ||| (exists|i: int|
                0 <= i < zone.proofs@.len() && spec_proof_matches(rule, &zone.proofs@[i]))
        },
        ZoneCheckV::Amount(res, amount) => exists|i: int|
            0 <= i < zone.proofs@.len() && zone.proofs@[i].resource_address@ == res
                && zone.proofs@[i].amount >= amount,
    }
}

/// The walk over the auth-zone stack, zone by zone from the caller outward,
/// crossing at most the allowed number of barriers.
pub open spec fn spec_walk(
    stack: Seq<AuthZoneData>,
    i: int,
    first_barrier: bool,
    waiting: int,
    remaining: int,
    skip: int,
    first_checked: bool,
    check: ZoneCheckV,
) -> bool
    decreases stack.len() - i,
{
    if i < 0 || i >= stack.len() {
        false
    } else {
        let zone = &stack[i];
        let checked_now = skip <= 0;
        if checked_now && spec_zone_check(zone, check, first_barrier, first_checked) {
            true
        } else {
            let skip2 = if skip > 0 {
                skip - 1
            } else {
                skip
            };
            let fc2 = if checked_now {
                false
            } else {
                first_checked
            };
            if zone.is_barrier {
                if remaining == 0 {
                    false
                } else {
                    if waiting > 0 {
                        spec_walk(stack, i + 1, waiting == 1, waiting - 1, remaining - 1, skip2,
                            fc2, check)
                    } else {
                        spec_walk(stack, i + 1, false, waiting, remaining - 1, skip2, fc2, check)
                    }
                }
            } else {
                spec_walk(stack, i + 1, false, waiting, remaining, skip2, fc2, check)
            }
        }
    }
}

/// Whether the demand is met by the caller's package badge or by the walk
/// from the given acting location.
pub open spec fn spec_stack_matches(
    stack: Seq<AuthZoneData>,
    acting_location: ActingLocation,
    badge_res: Seq<u8>,
    badge_local: Seq<u8>,
    check: ZoneCheckV,
) -> bool {
    let direct = match check {
        ZoneCheckV::Rule(ResourceOrNonFungibleV::NonFungible(res, local)) => res == badge_res
            && local == badge_local,
        _ => false,
    };
    let walk = match acting_location {
        ActingLocation::AtBarrier => spec_walk(stack, 0, true, 0, 0, 0, true, check),
        ActingLocation::AtLocalBarrier => spec_walk(stack, 0, false, 1, 1, 0, true, check),
        ActingLocation::InCallFrame => spec_walk(stack, 0, false, 1, 1, 1, true, check),
    };
    direct || walk
}

} // verus!

verus! {

impl ResourceAddress {
    /// A copy with the same bytes.
    pub fn duplicate(&self) -> (r: Self)
        ensures
            r@ == self@,
    {
        let bytes = self.0.clone();
        proof {
            assert(bytes@ =~= self.0@);
        }
        ResourceAddress(bytes)
    }
}

impl NonFungibleGlobalId {
    /// A copy with the same views.
    pub fn duplicate(&self) -> (r: Self)
        ensures
            r.resource_address@ == self.resource_address@,
            r.local_id@ == self.local_id@,
    {
        let local = self.local_id.clone();
        proof {
            assert(local@ =~= self.local_id@);
        }
        NonFungibleGlobalId { resource_address: self.resource_address.duplicate(), local_id: local }
    }
}

pub struct Authorization;

impl Authorization {
    #[verifier::loop_isolation(false)]
    fn proof_matches(resource_rule: &ResourceOrNonFungible, proof: &ProofData) -> (r: bool)
        ensures
            r == spec_proof_matches(resource_rule@, proof),
    {
        match resource_rule {
            ResourceOrNonFungible::NonFungible(nf) => {
                if !bytes_eq(proof.resource_address.0.as_slice(),
                    nf.resource_address.0.as_slice()) {
                    return false;
                }
                let ids = &proof.non_fungible_local_ids;
                let mut i: usize = 0;
                while i < ids.len()
                    invariant
                        i <= ids@.len(),
                        forall|j: int| 0 <= j < i ==> (#[trigger] ids@[j])@ != nf.local_id@,
                    decreases ids@.len() - i,
                {
                    if bytes_eq(ids[i].as_slice(), nf.local_id.as_slice()) {
                        proof {
                            assert(resource_rule@ == ResourceOrNonFungibleV::NonFungible(
                                nf.resource_address@, nf.local_id@));
                            assert(exists|j: int|
                                0 <= j < proof.non_fungible_local_ids@.len()
                                    && proof.non_fungible_local_ids@[j]@ == nf.local_id@) by {
                                assert(0 <= i < proof.non_fungible_local_ids@.len()
                                    && proof.non_fungible_local_ids@[i as int]@ == nf.local_id@);
                            }
                        }
                        return true;
                    }
                    i = i + 1;
                }
                false
            }
            ResourceOrNonFungible::Resource(ra) => {
                bytes_eq(proof.resource_address.0.as_slice(), ra.0.as_slice())
            }
        }
    }

    #[verifier::loop_isolation(false)]
    fn contains_nf(s: &Vec<NonFungibleGlobalId>, nf: &NonFungibleGlobalId) -> (r: bool)
        ensures
            r == spec_contains_nf(s@, nf.resource_address@, nf.local_id@),
    {
        let mut i: usize = 0;
        while i < s.len()
            invariant
                i <= s@.len(),
                forall|j: int|
                    0 <= j < i ==> !nf_is(&(#[trigger] s@[j]), nf.resource_address@, nf.local_id@),
            decreases s@.len() - i,
        {
            if non_fungible_global_id_eq(&s[i], nf) {
                return true;
            }
            i = i + 1;
        }
        false
    }

    #[verifier::loop_isolation(false)]
    fn contains_resource(s: &Vec<ResourceAddress>, ra: &ResourceAddress) -> (r: bool)
        ensures
            r == spec_contains_resource(s@, ra@),
    {
        let mut i: usize = 0;
        while i < s.len()
            invariant
                i <= s@.len(),
                forall|j: int| 0 <= j < i ==> (#[trigger] s@[j])@ != ra@,
            decreases s@.len() - i,
        {
            if bytes_eq(s[i].0.as_slice(), ra.0.as_slice()) {
                return true;
            }
            i = i + 1;
        }
        false
    }

    #[verifier::loop_isolation(false)]
    fn zone_check(zone: &AuthZoneData, check: &ZoneCheck, first_barrier: bool, first_checked: bool)
        -> (r: bool)
        ensures
            r == spec_zone_check(zone, check@, first_barrier, first_checked),
    {
        match check {
            ZoneCheck::Rule(rule) => {
                match rule {
                    ResourceOrNonFungible::NonFungible(nf) => {
                        if Self::contains_nf(&zone.virtual_non_fungibles, nf) {
                            return true;
                        }
                        if first_barrier && Self::contains_nf(
                            &zone.global_virtual_non_fungibles,
                            nf,
                        ) {
                            return true;
                        }
                        if first_checked && Self::contains_nf(
                            &zone.local_virtual_non_fungibles,
                            nf,
                        ) {
                            return true;
                        }
                        if Self::contains_resource(&zone.virtual_resources, &nf.resource_address) {
                            return true;
                        }
                    }
                    ResourceOrNonFungible::Resource(_) => {}
                }
                let mut i: usize = 0;
                while i < zone.proofs.len()
                    invariant
                        i <= zone.proofs@.len(),
                        forall|j: int|
                            0 <= j < i ==> !spec_proof_matches(rule@, &(#[trigger] zone.proofs@[j])),
                    decreases zone.proofs@.len() - i,
                {
                    if Self::proof_matches(rule, &zone.proofs[i]) {
                        proof {
                            assert(exists|j: int|
                                0 <= j < zone.proofs@.len() && spec_proof_matches(rule@,
                                    &zone.proofs@[j])) by {
                                assert(0 <= i < zone.proofs@.len() && spec_proof_matches(rule@,
                                    &zone.proofs@[i as int]));
                            }
                        }
                        return true;
                    }
                    i = i + 1;
                }
                false
            }
            ZoneCheck::Amount(ra, amount) => {
                let mut i: usize = 0;
                while i < zone.proofs.len()
                    invariant
                        i <= zone.proofs@.len(),
                        forall|j: int|
                            0 <= j < i ==> !((#[trigger] zone.proofs@[j]).resource_address@ == ra@
                                && zone.proofs@[j].amount >= *amount),
                    decreases zone.proofs@.len() - i,
                {
                    if bytes_eq(zone.proofs[i].resource_address.0.as_slice(), ra.0.as_slice())
                        && zone.proofs[i].amount >= *amount {
                        proof {
                            assert(exists|j: int|
                                0 <= j < zone.proofs@.len() && zone.proofs@[j].resource_address@
                                    == ra@ && zone.proofs@[j].amount >= *amount) by {
                                assert(0 <= i < zone.proofs@.len()
                                    && zone.proofs@[i as int].resource_address@ == ra@
                                    && zone.proofs@[i as int].amount >= *amount);
                            }
                        }
                        return true;
                    }
                    i = i + 1;
                }
                false
            }
        }
    }

    /// Walks the caller's auth-zone stack, caller first, crossing at most the
    /// number of barriers the acting location allows, and reports whether any
    /// zone, or the caller's own package badge, meets the demand.
    fn auth_zone_stack_matches(
        stack: &Vec<AuthZoneData>,
        acting_location: ActingLocation,
        caller_package_badge: &NonFungibleGlobalId,
        check: &ZoneCheck,
    ) -> (r: bool)
        ensures
            r == spec_stack_matches(stack@, acting_location, caller_package_badge.resource_address@,
                caller_package_badge.local_id@, check@),
    {
        let direct = match check {
            ZoneCheck::Rule(ResourceOrNonFungible::NonFungible(nf)) =>
                non_fungible_global_id_eq(nf, caller_package_badge),
            _ => false,
        };
        if direct {
            return true;
        }

        let mut first_barrier: bool = matches!(acting_location, ActingLocation::AtBarrier);
        let mut waiting: u32 = if matches!(acting_location, ActingLocation::AtBarrier) {
            0
        } else {
            1
        };
        let mut remaining: u32 = waiting;
        let mut skip: u32 = if matches!(acting_location, ActingLocation::InCallFrame) {
            1
        } else {
            0
        };
        let mut first_checked: bool = true;
        let mut i: usize = 0;
        while i < stack.len()
            invariant
                i <= stack@.len(),
                spec_stack_matches(stack@, acting_location, caller_package_badge.resource_address@,
                    caller_package_badge.local_id@, check@) == spec_walk(stack@, i as int,
                    first_barrier, waiting as int, remaining as int, skip as int, first_checked,
                    check@),
            decreases stack@.len() - i,
        {
            let zone = &stack[i];
            let checked_now = skip == 0;
            if checked_now {
                if Self::zone_check(zone, check, first_barrier, first_checked) {
                    return true;
                }
            }
            if skip > 0 {
                skip = skip - 1;
            }
            if checked_now {
                first_checked = false;
            }
            if zone.is_barrier {
                if remaining == 0 {
                    return false;
                }
                remaining = remaining - 1;
                if waiting > 0 {
                    first_barrier = waiting == 1;
                    waiting = waiting - 1;
                } else {
                    first_barrier = false;
                }
            } else {
                first_barrier = false;
            }
            i = i + 1;
        }
        false
    }

    fn auth_zone_stack_has_amount(
        stack: &Vec<AuthZoneData>,
        acting_location: ActingLocation,
        caller_package_badge: &NonFungibleGlobalId,
        resource: &ResourceAddress,
        amount: u128,
    ) -> (r: bool)
        ensures
            r == spec_stack_matches(stack@, acting_location, caller_package_badge.resource_address@,
                caller_package_badge.local_id@, ZoneCheckV::Amount(resource@, amount)),
    {
        let check = ZoneCheck::Amount(resource.duplicate(), amount);
        Self::auth_zone_stack_matches(stack, acting_location, caller_package_badge, &check)
    }

    fn auth_zone_stack_matches_rule(
        stack: &Vec<AuthZoneData>,
        acting_location: ActingLocation,
        caller_package_badge: &NonFungibleGlobalId,
        resource_rule: &ResourceOrNonFungible,
    ) -> (r: bool)
        ensures
            r == spec_stack_matches(stack@, acting_location, caller_package_badge.resource_address@,
                caller_package_badge.local_id@, ZoneCheckV::Rule(resource_rule@)),
    {
        let rule = match resource_rule {
            ResourceOrNonFungible::Resource(ra) => ResourceOrNonFungible::Resource(ra.duplicate()),
            ResourceOrNonFungible::NonFungible(nf) => ResourceOrNonFungible::NonFungible(
                nf.duplicate(),
            ),
        };
        let check = ZoneCheck::Rule(rule);
        Self::auth_zone_stack_matches(stack, acting_location, caller_package_badge, &check)
    }
}

} // verus!

verus! {

/// A leaf demand of an access rule.
#[derive(Debug, Clone)]
pub enum ProofRule {
    Require(ResourceOrNonFungible),
    AmountOf(u128, ResourceAddress),
    AllOf(Vec<ResourceOrNonFungible>),
    AnyOf(Vec<ResourceOrNonFungible>),
    CountOf(u8, Vec<ResourceOrNonFungible>),
}

/// Combinators over proof rules.
#[derive(Debug)]
pub enum AccessRuleNode {
    ProofRule(ProofRule),
    AnyOf(Vec<AccessRuleNode>),
    AllOf(Vec<AccessRuleNode>),
}

/// A rule guarding a role.
#[derive(Debug)]
pub enum AccessRule {
    AllowAll,
    DenyAll,
    Protected(AccessRuleNode),
}

#[derive(Debug)]
pub enum AuthorizationCheckResult {
    Authorized,
    Failed(Vec<AccessRule>),
}

#[derive(Debug)]
pub enum AuthorityListAuthorizationResult {
    Authorized,
    Failed(Vec<(RoleKey, Vec<AccessRule>)>),
}

#[derive(Debug, Clone)]
pub struct RoleKey {
    pub key: String,
}

#[derive(Debug, Clone)]
pub struct RoleList {
    pub list: Vec<RoleKey>,
}

/// A module of a node; roles are resolved per module.
#[derive(Debug, Clone, Copy, PartialEq, Eq, Structural)]
pub enum ObjectModuleId {
    Main,
    Metadata,
    Royalty,
    RoleAssignment,
}

#[derive(Debug, Clone)]
pub struct ModuleRoleKey {
    pub module: ObjectModuleId,
    pub key: RoleKey,
}

impl ModuleRoleKey {
    pub fn new(module: ObjectModuleId, key: &str) -> (r: Self)
        ensures
            r.module == module,
            r.key.key@ == key@,
    {
        Self { module, key: RoleKey { key: key.to_owned() } }
    }
}

/// The role assignment of a node, read out of its substates: the owner
/// role's rule, and the rules set for individual roles.
pub struct RoleAssignmentData {
    pub owner_rule: AccessRule,
    pub rules: Vec<(ModuleRoleKey, AccessRule)>,
}

/// A rule may demand a count of at least one.
pub open spec fn proof_rule_wf(rule: &ProofRule) -> bool {
    rule matches ProofRule::CountOf(c, _) ==> c >= 1
}

pub open spec fn auth_rule_node_wf(node: &AccessRuleNode) -> bool
    decreases node,
{
    match node {
        AccessRuleNode::ProofRule(r) => proof_rule_wf(r),
        AccessRuleNode::AnyOf(nodes) => forall|i: int|
            0 <= i < nodes@.len() ==> auth_rule_node_wf(&(#[trigger] nodes@[i])),
        AccessRuleNode::AllOf(nodes) => forall|i: int|
            0 <= i < nodes@.len() ==> auth_rule_node_wf(&(#[trigger] nodes@[i])),
    }
}

pub open spec fn access_rule_wf(rule: &AccessRule) -> bool {
    rule matches AccessRule::Protected(node) ==> auth_rule_node_wf(node)
}

/// How many of the first `k` demands the stack meets.
pub open spec fn spec_count_matching(
    stack: Seq<AuthZoneData>,
    acting_location: ActingLocation,
    badge_res: Seq<u8>,
    badge_local: Seq<u8>,
    s: Seq<ResourceOrNonFungible>,
    k: int,
) -> nat
    decreases k,
{
    if k <= 0 {
        0
    } else {
        spec_count_matching(stack, acting_location, badge_res, badge_local, s, k - 1) + (
        if spec_stack_matches(stack, acting_location, badge_res, badge_local, ZoneCheckV::Rule(
            s[k - 1]@,
        )) {
            1nat
        } else {
            0nat
        })
    }
}

/// Whether the stack meets a leaf rule.
pub open spec fn spec_verify_proof_rule(
    stack: Seq<AuthZoneData>,
    acting_location: ActingLocation,
    badge_res: Seq<u8>,
    badge_local: Seq<u8>,
    rule: &ProofRule,
) -> bool {
    match rule {
        ProofRule::Require(resource) => spec_stack_matches(stack, acting_location, badge_res,
            badge_local, ZoneCheckV::Rule(resource@)),
        ProofRule::AmountOf(amount, resource) => spec_stack_matches(stack, acting_location,
            badge_res, badge_local, ZoneCheckV::Amount(resource@, *amount)),
        ProofRule::AllOf(resources) => forall|i: int|
            0 <= i < resources@.len() ==> spec_stack_matches(stack, acting_location, badge_res,
                badge_local, ZoneCheckV::Rule((#[trigger] resources@[i])@)),
        ProofRule::AnyOf(resources) => exists|i: int|
            0 <= i < resources@.len() && spec_stack_matches(stack, acting_location, badge_res,
                badge_local, ZoneCheckV::Rule((#[trigger] resources@[i])@)),
        ProofRule::CountOf(count, resources) => *count as nat <= spec_count_matching(stack,
            acting_location, badge_res, badge_local, resources@, resources@.len() as int),
    }
}

/// Whether the stack meets a combinator tree.
pub open spec fn spec_verify_auth_rule(
    stack: Seq<AuthZoneData>,
    acting_location: ActingLocation,
    badge_res: Seq<u8>,
    badge_local: Seq<u8>,
    node: &AccessRuleNode,
) -> bool
    decreases node,
{
    match node {
        AccessRuleNode::ProofRule(rule) => spec_verify_proof_rule(stack, acting_location,
            badge_res, badge_local, rule),
        AccessRuleNode::AnyOf(nodes) => exists|i: int|
            0 <= i < nodes@.len() && spec_verify_auth_rule(stack, acting_location, badge_res,
                badge_local, &(#[trigger] nodes@[i])),
        AccessRuleNode::AllOf(nodes) => forall|i: int|
            0 <= i < nodes@.len() ==> spec_verify_auth_rule(stack, acting_location, badge_res,
                badge_local, &(#[trigger] nodes@[i])),
    }
}

/// Whether the stack meets an access rule: allow-all always, deny-all never,
/// a protected rule exactly when its tree is met.
pub open spec fn spec_check_access_rule(
    stack: Seq<AuthZoneData>,
    acting_location: ActingLocation,
    badge_res: Seq<u8>,
    badge_local: Seq<u8>,
    rule: &AccessRule,
) -> bool {
    match rule {
        AccessRule::AllowAll => true,
        AccessRule::DenyAll => false,
        AccessRule::Protected(node) => spec_verify_auth_rule(stack, acting_location, badge_res,
            badge_local, node),
    }
}

impl Authorization {
    /// Whether the stack meets a leaf rule; the result is exactly the
    /// mathematical evaluation of the rule over the stack.
    #[verifier::loop_isolation(false)]
    pub fn verify_proof_rule(
        stack: &Vec<AuthZoneData>,
        acting_location: ActingLocation,
        caller_package_badge: &NonFungibleGlobalId,
        proof_rule: &ProofRule,
    ) -> (r: bool)
        requires
            proof_rule_wf(proof_rule),
        ensures
            r == spec_verify_proof_rule(stack@, acting_location,
                caller_package_badge.resource_address@, caller_package_badge.local_id@, proof_rule),
    {
        match proof_rule {
            ProofRule::Require(resource) => {
                Self::auth_zone_stack_matches_rule(stack, acting_location, caller_package_badge,
                    resource)
            }
            ProofRule::AmountOf(amount, resource) => {
                Self::auth_zone_stack_has_amount(stack, acting_location, caller_package_badge,
                    resource, *amount)
            }
            ProofRule::AllOf(resources) => {
                let mut i: usize = 0;
                while i < resources.len()
                    invariant
                        i <= resources@.len(),
                        forall|j: int|
                            0 <= j < i ==> spec_stack_matches(stack@, acting_location,
                                caller_package_badge.resource_address@,
                                caller_package_badge.local_id@, ZoneCheckV::Rule(
                                (#[trigger] resources@[j])@)),
                    decreases resources@.len() - i,
                {
                    if !Self::auth_zone_stack_matches_rule(stack, acting_location,
                        caller_package_badge, &resources[i]) {
                        return false;
                    }
                    i = i + 1;
                }
                true
            }
            ProofRule::AnyOf(resources) => {
                let mut i: usize = 0;
                while i < resources.len()
                    invariant
                        i <= resources@.len(),
                        forall|j: int|
                            0 <= j < i ==> !spec_stack_matches(stack@, acting_location,
                                caller_package_badge.resource_address@,
                                caller_package_badge.local_id@, ZoneCheckV::Rule(
                                (#[trigger] resources@[j])@)),
                    decreases resources@.len() - i,
                {
                    if Self::auth_zone_stack_matches_rule(stack, acting_location,
                        caller_package_badge, &resources[i]) {
                        proof {
                            assert(exists|j: int|
                                0 <= j < resources@.len() && spec_stack_matches(stack@,
                                    acting_location, caller_package_badge.resource_address@,
                                    caller_package_badge.local_id@, ZoneCheckV::Rule(
                                    (#[trigger] resources@[j])@))) by {
                                assert(0 <= i < resources@.len() && spec_stack_matches(stack@,
                                    acting_location, caller_package_badge.resource_address@,
                                    caller_package_badge.local_id@, ZoneCheckV::Rule(
                                    resources@[i as int]@)));
                            }
                        }
                        return true;
                    }
                    i = i + 1;
                }
                false
            }
            ProofRule::CountOf(count, resources) => {
                let mut left: u8 = *count;
                let mut i: usize = 0;
                while i < resources.len()
                    invariant
                        i <= resources@.len(),
                        1 <= left,
                        left == *count - spec_count_matching(stack@, acting_location,
                            caller_package_badge.resource_address@,
                            caller_package_badge.local_id@, resources@, i as int),
                        spec_count_matching(stack@, acting_location,
                            caller_package_badge.resource_address@,
                            caller_package_badge.local_id@, resources@, i as int) < *count,
                    decreases resources@.len() - i,
                {
                    if Self::auth_zone_stack_matches_rule(stack, acting_location,
                        caller_package_badge, &resources[i]) {
                        left = left - 1;
                        if left == 0 {
                            proof {
                                lemma_count_matching_mono(stack@, acting_location,
                                    caller_package_badge.resource_address@,
                                    caller_package_badge.local_id@, resources@, i + 1,
                                    resources@.len() as int);
                            }
                            return true;
                        }
                    }
                    i = i + 1;
                }
                false
            }
        }
    }
}

/// Meeting a count over a prefix carries over to the whole list.
pub proof fn lemma_count_matching_mono(
    stack: Seq<AuthZoneData>,
    acting_location: ActingLocation,
    badge_res: Seq<u8>,
    badge_local: Seq<u8>,
    s: Seq<ResourceOrNonFungible>,
    k1: int,
    k2: int,
)
    requires
        k1 <= k2,
    ensures
        spec_count_matching(stack, acting_location, badge_res, badge_local, s, k1)
            <= spec_count_matching(stack, acting_location, badge_res, badge_local, s, k2),
    decreases k2 - k1,
{
    if k1 < k2 {
        lemma_count_matching_mono(stack, acting_location, badge_res, badge_local, s, k1, k2 - 1);
    }
}

} // verus!

verus! {

use vstd::string::StringSliceAdditionalSpecFns;

/// Byte-for-byte equality of two strings (UTF-8 encodings equal).
pub fn str_eq(a: &str, b: &str) -> (r: bool)
    ensures
        r == (a.spec_bytes() == b.spec_bytes()),
{
    bytes_eq(a.as_bytes(), b.as_bytes())
}


/// The same demand, by views.
pub open spec fn ronf_like(a: &ResourceOrNonFungible, b: &ResourceOrNonFungible) -> bool {
    a@ == b@
}

/// The same leaf rule, by views.
pub open spec fn proof_rule_like(a: &ProofRule, b: &ProofRule) -> bool {
    match (a, b) {
        (ProofRule::Require(x), ProofRule::Require(y)) => x@ == y@,
        (ProofRule::AmountOf(am1, r1), ProofRule::AmountOf(am2, r2)) => am1 == am2 && r1@ == r2@,
        (ProofRule::AllOf(xs), ProofRule::AllOf(ys)) => xs@.len() == ys@.len() && (forall|i: int|
            0 <= i < xs@.len() ==> (#[trigger] xs@[i])@ == ys@[i]@),
        (ProofRule::AnyOf(xs), ProofRule::AnyOf(ys)) => xs@.len() == ys@.len() && (forall|i: int|
            0 <= i < xs@.len() ==> (#[trigger] xs@[i])@ == ys@[i]@),
        (ProofRule::CountOf(c1, xs), ProofRule::CountOf(c2, ys)) => c1 == c2 && xs@.len()
            == ys@.len() && (forall|i: int|
            0 <= i < xs@.len() ==> (#[trigger] xs@[i])@ == ys@[i]@),
        _ => false,
    }
}

/// The same combinator tree, by views.
pub open spec fn rule_node_like(a: &AccessRuleNode, b: &AccessRuleNode) -> bool
    decreases a,
{
    match (a, b) {
        (AccessRuleNode::ProofRule(x), AccessRuleNode::ProofRule(y)) => proof_rule_like(x, y),
        (AccessRuleNode::AnyOf(xs), AccessRuleNode::AnyOf(ys)) => xs@.len() == ys@.len() && (
        forall|i: int| 0 <= i < xs@.len() ==> rule_node_like(&(#[trigger] xs@[i]), &ys@[i])),
        (AccessRuleNode::AllOf(xs), AccessRuleNode::AllOf(ys)) => xs@.len() == ys@.len() && (
        forall|i: int| 0 <= i < xs@.len() ==> rule_node_like(&(#[trigger] xs@[i]), &ys@[i])),
        _ => false,
    }
}

/// The same access rule, by views.
pub open spec fn access_rule_like(a: &AccessRule, b: &AccessRule) -> bool {
    match (a, b) {
        (AccessRule::AllowAll, AccessRule::AllowAll) => true,
        (AccessRule::DenyAll, AccessRule::DenyAll) => true,
        (AccessRule::Protected(x), AccessRule::Protected(y)) => rule_node_like(x, y),
        _ => false,
    }
}

/// Alike demand lists meet counts alike.
proof fn lemma_count_matching_like(
    stack: Seq<AuthZoneData>,
    acting_location: ActingLocation,
    badge_res: Seq<u8>,
    badge_local: Seq<u8>,
    xs: Seq<ResourceOrNonFungible>,
    ys: Seq<ResourceOrNonFungible>,
    k: int,
)
    requires
        xs.len() == ys.len(),
        forall|i: int| 0 <= i < xs.len() ==> (#[trigger] xs[i])@ == ys[i]@,
        k <= xs.len(),
    ensures
        spec_count_matching(stack, acting_location, badge_res, badge_local, xs, k)
            == spec_count_matching(stack, acting_location, badge_res, badge_local, ys, k),
    decreases k,
{
    if k > 0 {
        lemma_count_matching_like(stack, acting_location, badge_res, badge_local, xs, ys, k - 1);
    }
}

/// Alike leaf rules evaluate alike over any stack.
proof fn lemma_proof_rule_like_eval(
    stack: Seq<AuthZoneData>,
    acting_location: ActingLocation,
    badge_res: Seq<u8>,
    badge_local: Seq<u8>,
    a: &ProofRule,
    b: &ProofRule,
)
    requires
        proof_rule_like(a, b),
    ensures
        spec_verify_proof_rule(stack, acting_location, badge_res, badge_local, a)
            == spec_verify_proof_rule(stack, acting_location, badge_res, badge_local, b),
{
    match (a, b) {
        (ProofRule::AllOf(xs), ProofRule::AllOf(ys)) => {
            assert forall|i: int| 0 <= i < xs@.len() implies spec_stack_matches(stack,
                acting_location, badge_res, badge_local, ZoneCheckV::Rule((#[trigger] xs@[i])@))
                == spec_stack_matches(stack, acting_location, badge_res, badge_local,
                ZoneCheckV::Rule(ys@[i]@)) by {
                assert(xs@[i]@ == ys@[i]@);
            }
            assert forall|i: int| 0 <= i < ys@.len() implies spec_stack_matches(stack,
                acting_location, badge_res, badge_local, ZoneCheckV::Rule((#[trigger] ys@[i])@))
                == spec_stack_matches(stack, acting_location, badge_res, badge_local,
                ZoneCheckV::Rule(xs@[i]@)) by {
                assert(xs@[i]@ == ys@[i]@);
            }
        }
        (ProofRule::AnyOf(xs), ProofRule::AnyOf(ys)) => {
            assert forall|i: int| 0 <= i < xs@.len() implies spec_stack_matches(stack,
                acting_location, badge_res, badge_local, ZoneCheckV::Rule((#[trigger] xs@[i])@))
                == spec_stack_matches(stack, acting_location, badge_res, badge_local,
                ZoneCheckV::Rule(ys@[i]@)) by {
                assert(xs@[i]@ == ys@[i]@);
            }
            assert forall|i: int| 0 <= i < ys@.len() implies spec_stack_matches(stack,
                acting_location, badge_res, badge_local, ZoneCheckV::Rule((#[trigger] ys@[i])@))
                == spec_stack_matches(stack, acting_location, badge_res, badge_local,
                ZoneCheckV::Rule(xs@[i]@)) by {
                assert(xs@[i]@ == ys@[i]@);
            }
        }
        (ProofRule::CountOf(c1, xs), ProofRule::CountOf(c2, ys)) => {
            lemma_count_matching_like(stack, acting_location, badge_res, badge_local, xs@, ys@,
                xs@.len() as int);
        }
        _ => {}
    }
}

/// Alike trees evaluate alike over any stack.
proof fn lemma_rule_node_like_eval(
    stack: Seq<AuthZoneData>,
    acting_location: ActingLocation,
    badge_res: Seq<u8>,
    badge_local: Seq<u8>,
    a: &AccessRuleNode,
    b: &AccessRuleNode,
)
    requires
        rule_node_like(a, b),
    ensures
        spec_verify_auth_rule(stack, acting_location, badge_res, badge_local, a)
            == spec_verify_auth_rule(stack, acting_location, badge_res, badge_local, b),
    decreases a,
{
    match (a, b) {
        (AccessRuleNode::ProofRule(x), AccessRuleNode::ProofRule(y)) => {
            lemma_proof_rule_like_eval(stack, acting_location, badge_res, badge_local, x, y);
        }
        (AccessRuleNode::AnyOf(xs), AccessRuleNode::AnyOf(ys)) => {
            assert forall|i: int| 0 <= i < ys@.len() implies spec_verify_auth_rule(stack,
                acting_location, badge_res, badge_local, &(#[trigger] ys@[i]))
                == spec_verify_auth_rule(stack, acting_location, badge_res, badge_local,
                &xs@[i]) by {
                vstd::std_specs::vec::axiom_vec_index_decreases(*xs, i);
                lemma_rule_node_like_eval(stack, acting_location, badge_res, badge_local,
                    &xs@[i], &ys@[i]);
            }
            assert forall|i: int| 0 <= i < xs@.len() implies spec_verify_auth_rule(stack,
                acting_location, badge_res, badge_local, &(#[trigger] xs@[i]))
                == spec_verify_auth_rule(stack, acting_location, badge_res, badge_local,
                &ys@[i]) by {
                assert(spec_verify_auth_rule(stack, acting_location, badge_res, badge_local,
                    &ys@[i]) == spec_verify_auth_rule(stack, acting_location, badge_res,
                    badge_local, &xs@[i]));
            }
        }
        (AccessRuleNode::AllOf(xs), AccessRuleNode::AllOf(ys)) => {
            assert forall|i: int| 0 <= i < ys@.len() implies spec_verify_auth_rule(stack,
                acting_location, badge_res, badge_local, &(#[trigger] ys@[i]))
                == spec_verify_auth_rule(stack, acting_location, badge_res, badge_local,
                &xs@[i]) by {
                vstd::std_specs::vec::axiom_vec_index_decreases(*xs, i);
                lemma_rule_node_like_eval(stack, acting_location, badge_res, badge_local,
                    &xs@[i], &ys@[i]);
            }
            assert forall|i: int| 0 <= i < xs@.len() implies spec_verify_auth_rule(stack,
                acting_location, badge_res, badge_local, &(#[trigger] xs@[i]))
                == spec_verify_auth_rule(stack, acting_location, badge_res, badge_local,
                &ys@[i]) by {
                assert(spec_verify_auth_rule(stack, acting_location, badge_res, badge_local,
                    &ys@[i]) == spec_verify_auth_rule(stack, acting_location, badge_res,
                    badge_local, &xs@[i]));
            }
        }
        _ => {}
    }
}

/// Alike access rules evaluate alike over any stack.
pub proof fn lemma_access_rule_like_eval(
    stack: Seq<AuthZoneData>,
    acting_location: ActingLocation,
    badge_res: Seq<u8>,
    badge_local: Seq<u8>,
    a: &AccessRule,
    b: &AccessRule,
)
    requires
        access_rule_like(a, b),
    ensures
        spec_check_access_rule(stack, acting_location, badge_res, badge_local, a)
            == spec_check_access_rule(stack, acting_location, badge_res, badge_local, b),
{
    match (a, b) {
        (AccessRule::Protected(x), AccessRule::Protected(y)) => {
            lemma_rule_node_like_eval(stack, acting_location, badge_res, badge_local, x, y);
        }
        _ => {}
    }
}

impl ResourceOrNonFungible {
    /// A copy with the same view.
    pub fn duplicate(&self) -> (r: Self)
        ensures
            r@ == self@,
    {
        match self {
            ResourceOrNonFungible::Resource(ra) => ResourceOrNonFungible::Resource(
                ra.duplicate(),
            ),
            ResourceOrNonFungible::NonFungible(nf) => ResourceOrNonFungible::NonFungible(
                nf.duplicate(),
            ),
        }
    }
}

impl ProofRule {
    /// A structural copy, for diagnostic payloads.
    fn duplicate(&self) -> (r: Self)
        ensures
            proof_rule_like(&r, self),
    {
        match self {
            ProofRule::Require(x) => ProofRule::Require(x.duplicate()),
            ProofRule::AmountOf(amount, ra) => ProofRule::AmountOf(*amount, ra.duplicate()),
            ProofRule::AllOf(xs) => ProofRule::AllOf(duplicate_demands(xs)),
            ProofRule::AnyOf(xs) => ProofRule::AnyOf(duplicate_demands(xs)),
            ProofRule::CountOf(count, xs) => ProofRule::CountOf(*count, duplicate_demands(xs)),
        }
    }
}

/// A copy of a demand list with the same views.
fn duplicate_demands(xs: &Vec<ResourceOrNonFungible>) -> (r: Vec<ResourceOrNonFungible>)
    ensures
        r@.len() == xs@.len(),
        forall|i: int| 0 <= i < xs@.len() ==> (#[trigger] r@[i])@ == xs@[i]@,
{
    let mut out: Vec<ResourceOrNonFungible> = Vec::new();
    let mut i: usize = 0;
    while i < xs.len()
        invariant
            i <= xs@.len(),
            out@.len() == i,
            forall|j: int| 0 <= j < i ==> (#[trigger] out@[j])@ == xs@[j]@,
        decreases xs@.len() - i,
    {
        out.push(xs[i].duplicate());
        i = i + 1;
    }
    out
}

impl AccessRuleNode {
    /// A structural copy, for diagnostic payloads.
    #[verifier::loop_isolation(false)]
    fn duplicate(&self) -> (r: Self)
        ensures
            rule_node_like(&r, self),
        decreases self,
    {
        match self {
            AccessRuleNode::ProofRule(r) => AccessRuleNode::ProofRule(r.duplicate()),
            AccessRuleNode::AnyOf(nodes) => {
                let mut out: Vec<AccessRuleNode> = Vec::new();
                let mut i: usize = 0;
                while i < nodes.len()
                    invariant
                        i <= nodes@.len(),
                        out@.len() == i,
                        forall|j: int|
                            0 <= j < i ==> rule_node_like(&(#[trigger] out@[j]), &nodes@[j]),
                    decreases nodes@.len() - i,
                {
                    proof {
                        vstd::std_specs::vec::axiom_vec_index_decreases(*nodes, i as int);
                        assert(decreases_to!(self => nodes@[i as int]));
                    }
                    out.push(nodes[i].duplicate());
                    i = i + 1;
                }
                AccessRuleNode::AnyOf(out)
            }
            AccessRuleNode::AllOf(nodes) => {
                let mut out: Vec<AccessRuleNode> = Vec::new();
                let mut i: usize = 0;
                while i < nodes.len()
                    invariant
                        i <= nodes@.len(),
                        out@.len() == i,
                        forall|j: int|
                            0 <= j < i ==> rule_node_like(&(#[trigger] out@[j]), &nodes@[j]),
                    decreases nodes@.len() - i,
                {
                    proof {
                        vstd::std_specs::vec::axiom_vec_index_decreases(*nodes, i as int);
                        assert(decreases_to!(self => nodes@[i as int]));
                    }
                    out.push(nodes[i].duplicate());
                    i = i + 1;
                }
                AccessRuleNode::AllOf(out)
            }
        }
    }
}

impl AccessRule {
    /// A structural copy, for diagnostic payloads.
    pub fn duplicate(&self) -> (r: Self)
        ensures
            access_rule_like(&r, self),
    {
        match self {
            AccessRule::AllowAll => AccessRule::AllowAll,
            AccessRule::DenyAll => AccessRule::DenyAll,
            AccessRule::Protected(node) => AccessRule::Protected(node.duplicate()),
        }
    }
}

impl Authorization {
    /// Whether the stack meets a combinator tree; `Authorized` exactly when
    /// the tree evaluates true over the stack.
    #[verifier::loop_isolation(false)]
    pub fn verify_auth_rule(
        stack: &Vec<AuthZoneData>,
        acting_location: ActingLocation,
        caller_package_badge: &NonFungibleGlobalId,
        auth_rule: &AccessRuleNode,
    ) -> (r: AuthorizationCheckResult)
        requires
            auth_rule_node_wf(auth_rule),
        ensures
            r is Authorized <==> spec_verify_auth_rule(stack@, acting_location,
                caller_package_badge.resource_address@, caller_package_badge.local_id@, auth_rule),
            r matches AuthorizationCheckResult::Failed(s) ==> s@.len() == 0,
        decreases auth_rule,
    {
        match auth_rule {
            AccessRuleNode::ProofRule(rule) => {
                if Self::verify_proof_rule(stack, acting_location, caller_package_badge, rule) {
                    AuthorizationCheckResult::Authorized
                } else {
                    AuthorizationCheckResult::Failed(Vec::new())
                }
            }
            AccessRuleNode::AnyOf(rules) => {
                let mut i: usize = 0;
                while i < rules.len()
                    invariant
                        i <= rules@.len(),
                        forall|j: int|
                            0 <= j < i ==> !spec_verify_auth_rule(stack@, acting_location,
                                caller_package_badge.resource_address@,
                                caller_package_badge.local_id@, &(#[trigger] rules@[j])),
                    decreases rules@.len() - i,
                {
                    let rtn = Self::verify_auth_rule(stack, acting_location, caller_package_badge,
                        &rules[i]);
                    if matches!(rtn, AuthorizationCheckResult::Authorized) {
                        proof {
                            assert(spec_verify_auth_rule(stack@, acting_location,
                                caller_package_badge.resource_address@,
                                caller_package_badge.local_id@, &rules@[i as int]));
                        }
                        return rtn;
                    }
                    i = i + 1;
                }
                AuthorizationCheckResult::Failed(Vec::new())
            }
            AccessRuleNode::AllOf(rules) => {
                let mut i: usize = 0;
                while i < rules.len()
                    invariant
                        i <= rules@.len(),
                        forall|j: int|
                            0 <= j < i ==> spec_verify_auth_rule(stack@, acting_location,
                                caller_package_badge.resource_address@,
                                caller_package_badge.local_id@, &(#[trigger] rules@[j])),
                    decreases rules@.len() - i,
                {
                    let rtn = Self::verify_auth_rule(stack, acting_location, caller_package_badge,
                        &rules[i]);
                    if matches!(rtn, AuthorizationCheckResult::Failed(..)) {
                        return rtn;
                    }
                    i = i + 1;
                }
                AuthorizationCheckResult::Authorized
            }
        }
    }

    /// Whether the stack meets an access rule; a deny-all failure reports the
    /// rule itself.
    pub fn check_authorization_against_access_rule_internal(
        stack: &Vec<AuthZoneData>,
        acting_location: ActingLocation,
        caller_package_badge: &NonFungibleGlobalId,
        rule: &AccessRule,
    ) -> (r: AuthorizationCheckResult)
        requires
            access_rule_wf(rule),
        ensures
            r is Authorized <==> spec_check_access_rule(stack@, acting_location,
                caller_package_badge.resource_address@, caller_package_badge.local_id@, rule),
            r matches AuthorizationCheckResult::Failed(s) ==> s@.len() == 1 && access_rule_like(
                &s@[0],
                rule,
            ),
    {
        match rule {
            AccessRule::Protected(rule_node) => {
                let rtn = Self::verify_auth_rule(stack, acting_location, caller_package_badge,
                    rule_node);
                match rtn {
                    AuthorizationCheckResult::Authorized => AuthorizationCheckResult::Authorized,
                    AuthorizationCheckResult::Failed(stack_of_rules) => {
                        let mut stack_of_rules = stack_of_rules;
                        stack_of_rules.push(rule.duplicate());
                        AuthorizationCheckResult::Failed(stack_of_rules)
                    }
                }
            }
            AccessRule::AllowAll => AuthorizationCheckResult::Authorized,
            AccessRule::DenyAll => {
                let mut failed: Vec<AccessRule> = Vec::new();
                failed.push(rule.duplicate());
                AuthorizationCheckResult::Failed(failed)
            }
        }
    }

    /// Public entry for checking one access rule.
    pub fn check_authorization_against_access_rule(
        stack: &Vec<AuthZoneData>,
        acting_location: ActingLocation,
        caller_package_badge: &NonFungibleGlobalId,
        rule: &AccessRule,
    ) -> (r: AuthorizationCheckResult)
        requires
            access_rule_wf(rule),
        ensures
            r is Authorized <==> spec_check_access_rule(stack@, acting_location,
                caller_package_badge.resource_address@, caller_package_badge.local_id@, rule),
            r matches AuthorizationCheckResult::Failed(s) ==> s@.len() == 1 && access_rule_like(
                &s@[0],
                rule,
            ),
    {
        Self::check_authorization_against_access_rule_internal(stack, acting_location,
            caller_package_badge, rule)
    }
}

/// The resource of the virtual badge that names a global caller.
pub open spec fn spec_global_caller_resource() -> Seq<u8> {
    seq![134u8]
}

/// The well-known resource under which global-caller badges are issued.
pub fn global_caller_resource() -> (r: ResourceAddress)
    ensures
        r@ == spec_global_caller_resource(),
{
    let mut v: Vec<u8> = Vec::new();
    v.push(134u8);
    proof {
        assert(v@ =~= seq![134u8]);
    }
    ResourceAddress(v)
}

/// Index of the first role entry with the given module and key.
pub open spec fn spec_find_role(
    s: Seq<(ModuleRoleKey, AccessRule)>,
    module: ObjectModuleId,
    key_bytes: Seq<u8>,
) -> Option<int>
    decreases s.len(),
{
    if s.len() == 0 {
        None
    } else if s[0].0.module == module && vstd::utf8::encode_utf8(s[0].0.key.key@) == key_bytes {
        Some(0)
    } else {
        match spec_find_role(s.drop_first(), module, key_bytes) {
            Some(i) => Some(i + 1),
            None => None,
        }
    }
}

} // verus!

verus! {

/// Every rule of a role assignment is well formed.
pub open spec fn role_assignment_wf(ra: &RoleAssignmentData) -> bool {
    &&& access_rule_wf(&ra.owner_rule)
    &&& forall|i: int| 0 <= i < ra.rules@.len() ==> access_rule_wf(&(#[trigger] ra.rules@[i]).1)
}

/// Whether the stack authorizes one role key: the self role demands the
/// node's own global-caller badge; a role with an assigned rule demands that
/// rule; an unassigned role falls back to the owner rule.
pub open spec fn spec_role_key_authorized(
    stack: Seq<AuthZoneData>,
    acting_location: ActingLocation,
    badge_res: Seq<u8>,
    badge_local: Seq<u8>,
    ra: &RoleAssignmentData,
    role_assignment_of: Seq<u8>,
    module: ObjectModuleId,
    key_bytes: Seq<u8>,
) -> bool {
    if key_bytes == SELF_ROLE.spec_bytes() {
        spec_stack_matches(stack, acting_location, badge_res, badge_local, ZoneCheckV::Rule(
            ResourceOrNonFungibleV::NonFungible(spec_global_caller_resource(), role_assignment_of),
        ))
    } else {
        match spec_find_role(ra.rules@, module, key_bytes) {
            Some(i) => spec_check_access_rule(stack, acting_location, badge_res, badge_local,
                &ra.rules@[i].1),
            None => spec_check_access_rule(stack, acting_location, badge_res, badge_local,
                &ra.owner_rule),
        }
    }
}

/// The failure stack one role key's refusal reports: empty for the self
/// role, else the key's resolved rule alone.
pub open spec fn spec_role_failure_stack_matches(
    stack_of_rules: &Vec<AccessRule>,
    ra: &RoleAssignmentData,
    module: ObjectModuleId,
    key_bytes: Seq<u8>,
) -> bool {
    if key_bytes == SELF_ROLE.spec_bytes() {
        stack_of_rules@.len() == 0
    } else {
        stack_of_rules@.len() == 1 && access_rule_like(&stack_of_rules@[0], match spec_find_role(
            ra.rules@,
            module,
            key_bytes,
        ) {
            Some(i) => &ra.rules@[i].1,
            None => &ra.owner_rule,
        })
    }
}

impl Authorization {
    #[verifier::loop_isolation(false)]
    fn find_role<'a>(ra: &'a RoleAssignmentData, key: &ModuleRoleKey) -> (r: Option<
        &'a AccessRule,
    >)
        ensures
            match spec_find_role(ra.rules@, key.module, vstd::utf8::encode_utf8(key.key.key@)) {
                Some(i) => r matches Some(rule) && rule == &ra.rules@[i].1,
                None => r is None,
            },
    {
        let mut i: usize = 0;
        while i < ra.rules.len()
            invariant
                i <= ra.rules@.len(),
                forall|j: int|
                    0 <= j < i ==> !((#[trigger] ra.rules@[j]).0.module == key.module
                        && vstd::utf8::encode_utf8(ra.rules@[j].0.key.key@)
                        == vstd::utf8::encode_utf8(key.key.key@)),
            decreases ra.rules@.len() - i,
        {
            let entry_key = &ra.rules[i].0;
            if matches!((entry_key.module, key.module), (ObjectModuleId::Main, ObjectModuleId::Main)
                | (ObjectModuleId::Metadata, ObjectModuleId::Metadata)
                | (ObjectModuleId::Royalty, ObjectModuleId::Royalty)
                | (ObjectModuleId::RoleAssignment, ObjectModuleId::RoleAssignment)) && str_eq(
                entry_key.key.key.as_str(),
                key.key.key.as_str(),
            ) {
                proof {
                    lemma_spec_find_role_first(ra.rules@, key.module,
                        vstd::utf8::encode_utf8(key.key.key@), i as int);
                }
                return Some(&ra.rules[i].1);
            }
            i = i + 1;
        }
        proof {
            lemma_spec_find_role_none(ra.rules@, key.module,
                vstd::utf8::encode_utf8(key.key.key@));
        }
        None
    }

    /// Resolves one role key against the role assignment and checks the
    /// resolved rule over the stack.
    pub fn check_authorization_against_role_key_internal(
        stack: &Vec<AuthZoneData>,
        acting_location: ActingLocation,
        caller_package_badge: &NonFungibleGlobalId,
        ra: &RoleAssignmentData,
        role_assignment_of: &Vec<u8>,
        key: &ModuleRoleKey,
    ) -> (r: AuthorizationCheckResult)
        requires
            role_assignment_wf(ra),
        ensures
            r is Authorized <==> spec_role_key_authorized(stack@, acting_location,
                caller_package_badge.resource_address@, caller_package_badge.local_id@, ra,
                role_assignment_of@, key.module, vstd::utf8::encode_utf8(key.key.key@)),
            r matches AuthorizationCheckResult::Failed(s) ==> {
                let kb = vstd::utf8::encode_utf8(key.key.key@);
                if kb == SELF_ROLE.spec_bytes() {
                    s@.len() == 0
                } else {
                    s@.len() == 1 && access_rule_like(&s@[0], match spec_find_role(ra.rules@,
                        key.module, kb) {
                        Some(i) => &ra.rules@[i].1,
                        None => &ra.owner_rule,
                    })
                }
            },
    {
        if str_eq(key.key.key.as_str(), SELF_ROLE) {
            let local = role_assignment_of.clone();
            proof {
                assert(local@ =~= role_assignment_of@);
            }
            let rule = ResourceOrNonFungible::NonFungible(NonFungibleGlobalId {
                resource_address: global_caller_resource(),
                local_id: local,
            });
            if Self::auth_zone_stack_matches_rule(stack, acting_location, caller_package_badge,
                &rule) {
                AuthorizationCheckResult::Authorized
            } else {
                AuthorizationCheckResult::Failed(Vec::new())
            }
        } else {
            match Self::find_role(ra, key) {
                Some(rule) => {
                    proof {
                        lemma_spec_find_role_valid(ra.rules@, key.module,
                            vstd::utf8::encode_utf8(key.key.key@));
                    }
                    Self::check_authorization_against_access_rule_internal(stack, acting_location,
                        caller_package_badge, rule)
                },
                None => Self::check_authorization_against_access_rule_internal(stack,
                    acting_location, caller_package_badge, &ra.owner_rule),
            }
        }
    }

    /// Authorizes against a list of roles: any one authorized role suffices.
    #[verifier::loop_isolation(false)]
    pub fn check_authorization_against_role_list(
        stack: &Vec<AuthZoneData>,
        acting_location: ActingLocation,
        caller_package_badge: &NonFungibleGlobalId,
        ra: &RoleAssignmentData,
        role_assignment_of: &Vec<u8>,
        module: ObjectModuleId,
        role_list: &RoleList,
    ) -> (r: AuthorityListAuthorizationResult)
        requires
            role_assignment_wf(ra),
        ensures
            r is Authorized <==> exists|i: int|
                0 <= i < role_list.list@.len() && spec_role_key_authorized(stack@, acting_location,
                    caller_package_badge.resource_address@, caller_package_badge.local_id@, ra,
                    role_assignment_of@, module, vstd::utf8::encode_utf8(
                    (#[trigger] role_list.list@[i]).key@)),
            r matches AuthorityListAuthorizationResult::Failed(v) ==> v@.len()
                == role_list.list@.len() && (forall|j: int|
                0 <= j < v@.len() ==> (#[trigger] v@[j]).0.key@ == role_list.list@[j].key@
                    && spec_role_failure_stack_matches(&v@[j].1, ra, module,
                    vstd::utf8::encode_utf8(role_list.list@[j].key@))),
    {
        let mut failed: Vec<(RoleKey, Vec<AccessRule>)> = Vec::new();
        let mut i: usize = 0;
        while i < role_list.list.len()
            invariant
                i <= role_list.list@.len(),
                failed@.len() == i,
                forall|j: int|
                    0 <= j < i ==> (#[trigger] failed@[j]).0.key@ == role_list.list@[j].key@
                        && spec_role_failure_stack_matches(&failed@[j].1, ra, module,
                        vstd::utf8::encode_utf8(role_list.list@[j].key@)),
                forall|j: int|
                    0 <= j < i ==> !spec_role_key_authorized(stack@, acting_location,
                        caller_package_badge.resource_address@, caller_package_badge.local_id@,
                        ra, role_assignment_of@, module, vstd::utf8::encode_utf8(
                        (#[trigger] role_list.list@[j]).key@)),
            decreases role_list.list@.len() - i,
        {
            let key = &role_list.list[i];
            let module_role_key = ModuleRoleKey::new(module, key.key.as_str());
            let result = Self::check_authorization_against_role_key_internal(stack,
                acting_location, caller_package_badge, ra, role_assignment_of, &module_role_key);
            match result {
                AuthorizationCheckResult::Authorized => {
                    return AuthorityListAuthorizationResult::Authorized;
                }
                AuthorizationCheckResult::Failed(stack_of_rules) => {
                    failed.push((RoleKey { key: key.key.clone() }, stack_of_rules));
                }
            }
            i = i + 1;
        }
        AuthorityListAuthorizationResult::Failed(failed)
    }
}

pub proof fn lemma_spec_find_role_valid(
    s: Seq<(ModuleRoleKey, AccessRule)>,
    module: ObjectModuleId,
    key_bytes: Seq<u8>,
)
    ensures
        spec_find_role(s, module, key_bytes) matches Some(i) ==> 0 <= i < s.len(),
    decreases s.len(),
{
    if s.len() > 0 && !(s[0].0.module == module && vstd::utf8::encode_utf8(s[0].0.key.key@)
        == key_bytes) {
        lemma_spec_find_role_valid(s.drop_first(), module, key_bytes);
    }
}

pub proof fn lemma_spec_find_role_first(
    s: Seq<(ModuleRoleKey, AccessRule)>,
    module: ObjectModuleId,
    key_bytes: Seq<u8>,
    i: int,
)
    requires
        0 <= i < s.len(),
        s[i].0.module == module && vstd::utf8::encode_utf8(s[i].0.key.key@) == key_bytes,
        forall|j: int|
            0 <= j < i ==> !((#[trigger] s[j]).0.module == module && vstd::utf8::encode_utf8(
                s[j].0.key.key@,
            ) == key_bytes),
    ensures
        spec_find_role(s, module, key_bytes) == Some(i),
    decreases i,
{
    if i > 0 {
        lemma_spec_find_role_first(s.drop_first(), module, key_bytes, i - 1);
    }
}

pub proof fn lemma_spec_find_role_none(
    s: Seq<(ModuleRoleKey, AccessRule)>,
    module: ObjectModuleId,
    key_bytes: Seq<u8>,
)
    requires
        forall|j: int|
            0 <= j < s.len() ==> !((#[trigger] s[j]).0.module == module && vstd::utf8::encode_utf8(
                s[j].0.key.key@,
            ) == key_bytes),
    ensures
        spec_find_role(s, module, key_bytes) is None,
    decreases s.len(),
{
    if s.len() > 0 {
        lemma_spec_find_role_none(s.drop_first(), module, key_bytes);
    }
}

/// Authorization is deterministic: over equal auth-zone stacks and equal
/// rules, evaluation gives equal results.
pub proof fn lemma_auth_determinism(
    stack1: Seq<AuthZoneData>,
    stack2: Seq<AuthZoneData>,
    acting_location: ActingLocation,
    badge_res: Seq<u8>,
    badge_local: Seq<u8>,
    rule1: &AccessRule,
    rule2: &AccessRule,
)
    requires
        stack1 == stack2,
        rule1 == rule2,
    ensures
        spec_check_access_rule(stack1, acting_location, badge_res, badge_local, rule1)
            == spec_check_access_rule(stack2, acting_location, badge_res, badge_local, rule2),
{
}

} // verus!

//! Network deployment workflow: validate a plan of routers and switches,
//! prepare the infrastructure, deploy routers (in plan order, or by
//! priority), deploy switches once their routers are up, verify
//! connectivity and activate the network.
//!
//! Each step acts on the workflow context and reports failure as an error;
//! compensations undo what a step did.

use vstd::prelude::*;
use crate::ids::{NetworkId, RouterId, SwitchId, CorrelationId, CausationId, uuid_text};
use crate::infra_events::{EventMetadata, InfrastructureEvent};
use crate::text::{dec, push_str, push_dec, owned};
use crate::clock::now_millis;

verus! {

/// A router in a deployment plan; priority 1 is the highest.
#[derive(Debug)]
pub struct RouterDeploymentSpec {
    pub router_id: RouterId,
    pub name: String,
    pub priority: u8,
}

/// A switch in a deployment plan, with the routers it needs.
#[derive(Debug)]
pub struct SwitchDeploymentSpec {
    pub switch_id: SwitchId,
    pub name: String,
    pub depends_on_routers: Vec<RouterId>,
    pub priority: u8,
}

/// How routers are rolled out.
#[derive(Debug, Clone, Copy, PartialEq, Eq, Structural)]
pub enum DeploymentStrategy {
    /// In plan order
    Sequential,
    /// By priority, plan order among equal priorities
    ParallelByPriority,
    /// In plan order, in batches of the given size
    RollingDeployment { batch_size: usize },
}

/// Deployment status of a device.
#[derive(Debug)]
pub enum DeploymentStatus {
    Pending,
    InProgress,
    Completed,
    Failed(String),
}

/// Deployment status of a router; the time in milliseconds since the Unix
/// epoch.
#[derive(Debug)]
pub struct RouterDeploymentStatus {
    pub router_id: RouterId,
    pub name: String,
    pub status: DeploymentStatus,
    pub deployed_at: Option<i64>,
}

/// Deployment status of a switch.
#[derive(Debug)]
pub struct SwitchDeploymentStatus {
    pub switch_id: SwitchId,
    pub name: String,
    pub status: DeploymentStatus,
    pub deployed_at: Option<i64>,
}

/// Error of a deployment step.
#[derive(Debug)]
pub enum NetworkDeploymentError {
    Validation(String),
    RouterDeployment(String),
    SwitchDeployment(String),
    ConnectivityVerification(String),
    NetworkActivation(String),
}

/// State of a network deployment. Router and switch statuses are kept in
/// the order first deployed, one per identifier.
#[derive(Debug)]
pub struct NetworkDeploymentContext {
    pub network_id: NetworkId,
    pub network_name: String,
    pub deployment_strategy: DeploymentStrategy,
    pub deployed_routers: Vec<RouterDeploymentStatus>,
    pub deployed_switches: Vec<SwitchDeploymentStatus>,
    pub connectivity_verified: bool,
    pub network_active: bool,
    pub events: Vec<InfrastructureEvent>,
    pub deployment_errors: Vec<String>,
}

/// A network deployment: the plan and the strategy.
#[derive(Debug)]
pub struct NetworkDeploymentWorkflow {
    pub network_id: NetworkId,
    pub network_name: String,
    pub routers: Vec<RouterDeploymentSpec>,
    pub switches: Vec<SwitchDeploymentSpec>,
    pub deployment_strategy: DeploymentStrategy,
}

impl NetworkDeploymentWorkflow {
    /// A deployment of the given plan.
    pub fn new(
        network_id: NetworkId,
        network_name: String,
        routers: Vec<RouterDeploymentSpec>,
        switches: Vec<SwitchDeploymentSpec>,
        deployment_strategy: DeploymentStrategy,
    ) -> (w: Self)
        ensures
            w == (NetworkDeploymentWorkflow { network_id, network_name, routers, switches, deployment_strategy }),
    {
        NetworkDeploymentWorkflow { network_id, network_name, routers, switches, deployment_strategy }
    }

    /// The workflow identifier: `network_deployment_<network id>`.
    pub fn workflow_id(&self) -> (s: String)
        ensures
            s@ == "network_deployment_"@ + uuid_text(self.network_id.value),
    {
        let mut s = owned("network_deployment_");
        push_str(&mut s, self.network_id.to_string().as_str());
        s
    }

    /// The workflow's display name.
    pub fn workflow_name(&self) -> (s: String)
        ensures
            s@ == "Network Infrastructure Deployment"@,
    {
        owned("Network Infrastructure Deployment")
    }

    /// The initial context: nothing deployed, verified or active.
    pub fn create_context(&self) -> (c: NetworkDeploymentContext)
        ensures
            c.network_id == self.network_id,
            c.network_name@ == self.network_name@,
            c.deployment_strategy == self.deployment_strategy,
            c.deployed_routers@.len() == 0,
            c.deployed_switches@.len() == 0,
            !c.connectivity_verified,
            !c.network_active,
            c.events@.len() == 0,
            c.deployment_errors@.len() == 0,
    {
        NetworkDeploymentContext {
            network_id: self.network_id,
            network_name: self.network_name.clone(),
            deployment_strategy: self.deployment_strategy,
            deployed_routers: Vec::new(),
            deployed_switches: Vec::new(),
            connectivity_verified: false,
            network_active: false,
            events: Vec::new(),
            deployment_errors: Vec::new(),
        }
    }
}

// ---------------------------------------------------------------------
// Step 1: validate the plan.

/// Validates the plan.
#[derive(Debug)]
pub struct ValidateDeploymentPlanStep {
    routers: Vec<RouterDeploymentSpec>,
    switches: Vec<SwitchDeploymentSpec>,
}

/// Router `k` repeats an earlier router's identifier.
pub open spec fn router_repeats(rs: Seq<RouterDeploymentSpec>, k: int) -> bool {
    exists|j: int| 0 <= j < k && (#[trigger] rs[j]).router_id == rs[k].router_id
}

/// Switch `k` repeats an earlier switch's identifier.
pub open spec fn switch_repeats(ss: Seq<SwitchDeploymentSpec>, k: int) -> bool {
    exists|j: int| 0 <= j < k && (#[trigger] ss[j]).switch_id == ss[k].switch_id
}

/// The plan holds a router with this identifier.
pub open spec fn plan_has_router(rs: Seq<RouterDeploymentSpec>, id: RouterId) -> bool {
    exists|j: int| 0 <= j < rs.len() && (#[trigger] rs[j]).router_id == id
}

/// One message per repeated router identifier, in plan order.
pub open spec fn duplicate_router_errors(rs: Seq<RouterDeploymentSpec>, n: int) -> Seq<Seq<char>>
    decreases n,
{
    if n <= 0 {
        Seq::empty()
    } else {
        duplicate_router_errors(rs, n - 1) + if router_repeats(rs, n - 1) {
            seq!["Duplicate router ID: "@ + uuid_text(rs[n - 1].router_id.value)]
        } else {
            Seq::empty()
        }
    }
}

/// One message per repeated switch identifier, in plan order.
pub open spec fn duplicate_switch_errors(ss: Seq<SwitchDeploymentSpec>, n: int) -> Seq<Seq<char>>
    decreases n,
{
    if n <= 0 {
        Seq::empty()
    } else {
        duplicate_switch_errors(ss, n - 1) + if switch_repeats(ss, n - 1) {
            seq!["Duplicate switch ID: "@ + uuid_text(ss[n - 1].switch_id.value)]
        } else {
            Seq::empty()
        }
    }
}

/// One message per dependency of a switch on a router outside the plan.
pub open spec fn missing_dependency_errors(rs: Seq<RouterDeploymentSpec>, sw: SwitchDeploymentSpec, n: int) -> Seq<Seq<char>>
    decreases n,
{
    if n <= 0 {
        Seq::empty()
    } else {
        let dep = sw.depends_on_routers@[n - 1];
        missing_dependency_errors(rs, sw, n - 1) + if !plan_has_router(rs, dep) {
            seq!["Switch "@ + uuid_text(sw.switch_id.value) + " depends on router "@ + uuid_text(dep.value)
                + " which is not in the deployment plan"@]
        } else {
            Seq::empty()
        }
    }
}

/// Missing-dependency messages of the first `n` switches, switch by switch.
pub open spec fn dependency_errors(rs: Seq<RouterDeploymentSpec>, ss: Seq<SwitchDeploymentSpec>, n: int) -> Seq<Seq<char>>
    decreases n,
{
    if n <= 0 {
        Seq::empty()
    } else {
        dependency_errors(rs, ss, n - 1)
            + missing_dependency_errors(rs, ss[n - 1], ss[n - 1].depends_on_routers@.len() as int)
    }
}

/// Everything wrong with a plan, in the order it is reported: no routers,
/// repeated router and switch identifiers, dependencies outside the plan.
pub open spec fn plan_errors(rs: Seq<RouterDeploymentSpec>, ss: Seq<SwitchDeploymentSpec>) -> Seq<Seq<char>> {
    (if rs.len() == 0 { seq!["No routers specified in deployment plan"@] } else { Seq::empty() })
        + duplicate_router_errors(rs, rs.len() as int)
        + duplicate_switch_errors(ss, ss.len() as int)
        + dependency_errors(rs, ss, ss.len() as int)
}

/// Texts joined with a separator.
pub open spec fn join(s: Seq<Seq<char>>, sep: Seq<char>) -> Seq<char>
    decreases s.len(),
{
    if s.len() == 0 {
        Seq::empty()
    } else if s.len() == 1 {
        s[0]
    } else {
        join(s.drop_last(), sep) + sep + s.last()
    }
}

/// The views of a list of strings.
pub open spec fn texts(s: Seq<String>) -> Seq<Seq<char>> {
    s.map_values(|x: String| x@)
}

/// Pushes `m` onto `errors`.
pub(crate) fn report(errors: &mut Vec<String>, m: String)
    ensures
        texts(final(errors)@) == texts(old(errors)@).push(m@),
{
    let ghost before = errors@;
    errors.push(m);
    assert(texts(errors@) =~= texts(before).push(m@));
}

/// Whether a router with this identifier is in the plan.
fn has_router(rs: &Vec<RouterDeploymentSpec>, id: RouterId) -> (r: bool)
    ensures
        r == plan_has_router(rs@, id),
{
    let mut j: usize = 0;
    while j < rs.len()
        invariant
            j <= rs@.len(),
            forall|i: int| 0 <= i < j ==> (#[trigger] rs@[i]).router_id != id,
        decreases rs@.len() - j,
    {
        if rs[j].router_id == id {
            return true;
        }
        j = j + 1;
    }
    false
}

/// Texts joined with `, `.
pub(crate) fn join_comma(s: &Vec<String>) -> (r: String)
    ensures
        r@ == join(texts(s@), ", "@),
{
    let mut r = String::new();
    let mut k: usize = 0;
    while k < s.len()
        invariant
            k <= s@.len(),
            r@ == join(texts(s@.take(k as int)), ", "@),
        decreases s@.len() - k,
    {
        let ghost before = texts(s@.take(k as int));
        assert(texts(s@.take(k + 1)).drop_last() =~= before);
        assert(texts(s@.take(k + 1)).last() == s@[k as int]@);
        if k > 0 {
            push_str(&mut r, ", ");
        } else {
            assert(before =~= Seq::<Seq<char>>::empty());
        }
        push_str(&mut r, s[k].as_str());
        k = k + 1;
    }
    assert(s@.take(s@.len() as int) =~= s@);
    r
}

impl ValidateDeploymentPlanStep {
    /// A validation of the given plan.
    pub fn new(routers: Vec<RouterDeploymentSpec>, switches: Vec<SwitchDeploymentSpec>) -> (s: Self)
        ensures
            s.routers() == routers,
            s.switches() == switches,
    {
        ValidateDeploymentPlanStep { routers, switches }
    }

    /// The routers of the plan.
    pub closed spec fn routers(&self) -> Vec<RouterDeploymentSpec> {
        self.routers
    }

    /// The switches of the plan.
    pub closed spec fn switches(&self) -> Vec<SwitchDeploymentSpec> {
        self.switches
    }

    /// The step's name.
    pub fn step_name(&self) -> (s: String)
        ensures
            s@ == "Validate Deployment Plan"@,
    {
        owned("Validate Deployment Plan")
    }

    /// Checks the plan. When something is wrong, the messages are stored in
    /// the context and the error lists them; otherwise nothing changes.
    pub fn execute(&self, context: &mut NetworkDeploymentContext) -> (r: Result<(), NetworkDeploymentError>)
        ensures
            ({
                let errs = plan_errors(self.routers()@, self.switches()@);
                if errs.len() == 0 {
                    r.is_ok() && *final(context) == *old(context)
                } else {
                    &&& texts(final(context).deployment_errors@) == errs
                    &&& *final(context) == (NetworkDeploymentContext {
                        deployment_errors: final(context).deployment_errors,
                        ..*old(context)
                    })
                    &&& match r {
                        Err(NetworkDeploymentError::Validation(m)) =>
                            m@ == "Deployment plan validation failed: "@ + join(errs, ", "@),
                        _ => false,
                    }
                }
            }),
    {
        let rs = &self.routers;
        let ss = &self.switches;
        let mut errors: Vec<String> = Vec::new();
        if rs.len() == 0 {
            report(&mut errors, owned("No routers specified in deployment plan"));
        }
        assert(texts(errors@) =~= (if rs@.len() == 0 { seq!["No routers specified in deployment plan"@] } else { Seq::<Seq<char>>::empty() }));
        let ghost e0 = texts(errors@);
        let mut k: usize = 0;
        while k < rs.len()
            invariant
                k <= rs@.len(),
                texts(errors@) == e0 + duplicate_router_errors(rs@, k as int),
            decreases rs@.len() - k,
        {
            let mut j: usize = 0;
            let mut seen = false;
            while j < k
                invariant
                    j <= k < rs@.len(),
                    seen == (exists|i: int| 0 <= i < j && (#[trigger] rs@[i]).router_id == rs@[k as int].router_id),
                decreases k - j,
            {
                if rs[j].router_id == rs[k].router_id {
                    seen = true;
                }
                j = j + 1;
            }
            if seen {
                let mut m = owned("Duplicate router ID: ");
                push_str(&mut m, rs[k].router_id.to_string().as_str());
                report(&mut errors, m);
            }
            assert(texts(errors@) =~= e0 + duplicate_router_errors(rs@, k + 1));
            k = k + 1;
        }
        let ghost e1 = texts(errors@);
        let mut k: usize = 0;
        while k < ss.len()
            invariant
                k <= ss@.len(),
                texts(errors@) == e1 + duplicate_switch_errors(ss@, k as int),
            decreases ss@.len() - k,
        {
            let mut j: usize = 0;
            let mut seen = false;
            while j < k
                invariant
                    j <= k < ss@.len(),
                    seen == (exists|i: int| 0 <= i < j && (#[trigger] ss@[i]).switch_id == ss@[k as int].switch_id),
                decreases k - j,
            {
                if ss[j].switch_id == ss[k].switch_id {
                    seen = true;
                }
                j = j + 1;
            }
            if seen {
                let mut m = owned("Duplicate switch ID: ");
                push_str(&mut m, ss[k].switch_id.to_string().as_str());
                report(&mut errors, m);
            }
            assert(texts(errors@) =~= e1 + duplicate_switch_errors(ss@, k + 1));
            k = k + 1;
        }
        let ghost e2 = texts(errors@);
        let mut k: usize = 0;
        while k < ss.len()
            invariant
                k <= ss@.len(),
                texts(errors@) == e2 + dependency_errors(rs@, ss@, k as int),
            decreases ss@.len() - k,
        {
            let sw = &ss[k];
            let ghost before = texts(errors@);
            let mut d: usize = 0;
            while d < sw.depends_on_routers.len()
                invariant
                    *sw == ss@[k as int],
                    d <= sw.depends_on_routers@.len(),
                    texts(errors@) == before + missing_dependency_errors(rs@, *sw, d as int),
                decreases sw.depends_on_routers@.len() - d,
            {
                let dep = sw.depends_on_routers[d];
                if !has_router(rs, dep) {
                    let mut m = owned("Switch ");
                    push_str(&mut m, sw.switch_id.to_string().as_str());
                    push_str(&mut m, " depends on router ");
                    push_str(&mut m, dep.to_string().as_str());
                    push_str(&mut m, " which is not in the deployment plan");
                    report(&mut errors, m);
                }
                assert(texts(errors@) =~= before + missing_dependency_errors(rs@, *sw, d + 1));
                d = d + 1;
            }
            assert(texts(errors@) =~= e2 + dependency_errors(rs@, ss@, k + 1));
            k = k + 1;
        }
        assert(texts(errors@) =~= plan_errors(rs@, ss@));
        if errors.len() > 0 {
            let mut m = owned("Deployment plan validation failed: ");
            let joined = join_comma(&errors);
            push_str(&mut m, joined.as_str());
            context.deployment_errors = errors;
            return Err(NetworkDeploymentError::Validation(m));
        }
        Ok(())
    }

    /// Nothing to undo.
    pub fn compensate(&self, context: &mut NetworkDeploymentContext) -> (r: Result<(), NetworkDeploymentError>)
        ensures
            r.is_ok(),
            *final(context) == *old(context),
    {
        Ok(())
    }
}


// ---------------------------------------------------------------------
// Steps 2 to 6.

/// Metadata of an event of the network or of one of its devices, at the
/// given version, for the given aggregate identifier.
pub open spec fn deployment_meta_ok(m: EventMetadata, aggregate: u128, version: u64) -> bool {
    m.aggregate_id@ == uuid_text(aggregate) && m.version == version
}

/// Metadata with fresh correlation and causation identifiers.
fn fresh_metadata(aggregate_text: String, version: u64) -> (m: EventMetadata)
    ensures
        m.aggregate_id == aggregate_text,
        m.version == version,
{
    EventMetadata::new(aggregate_text, CorrelationId::new(), CausationId::new(), version)
}

/// The context with only its events changed.
pub open spec fn only_events_changed(a: NetworkDeploymentContext, b: NetworkDeploymentContext) -> bool {
    b == (NetworkDeploymentContext { events: b.events, ..a })
}

/// Prepares the infrastructure of the network.
#[derive(Debug)]
pub struct PrepareInfrastructureStep {
    network_id: NetworkId,
}

impl PrepareInfrastructureStep {
    /// A preparation of the given network.
    pub fn new(network_id: NetworkId) -> (s: Self)
        ensures
            s.network_id() == network_id,
    {
        PrepareInfrastructureStep { network_id }
    }

    /// The network prepared.
    pub closed spec fn network_id(&self) -> NetworkId {
        self.network_id
    }

    /// Records that deployment started, with the counts of routers and
    /// switches deployed so far as the plan.
    pub fn execute(&self, context: &mut NetworkDeploymentContext) -> (r: Result<(), NetworkDeploymentError>)
        ensures
            r.is_ok(),
            only_events_changed(*old(context), *final(context)),
            final(context).events@.len() == old(context).events@.len() + 1,
            final(context).events@.drop_last() == old(context).events@,
            match final(context).events@.last() {
                InfrastructureEvent::NetworkDeploymentStarted { metadata, network_id, deployment_plan } =>
                    deployment_meta_ok(metadata, self.network_id().value, 1) && network_id == self.network_id()
                    && deployment_plan@ == dec(old(context).deployed_routers@.len()) + " routers, "@
                        + dec(old(context).deployed_switches@.len()) + " switches"@,
                _ => false,
            },
    {
        let mut plan = String::new();
        push_dec(&mut plan, context.deployed_routers.len() as u64);
        push_str(&mut plan, " routers, ");
        push_dec(&mut plan, context.deployed_switches.len() as u64);
        push_str(&mut plan, " switches");
        let event = InfrastructureEvent::NetworkDeploymentStarted {
            metadata: fresh_metadata(self.network_id.to_string(), 1),
            network_id: self.network_id,
            deployment_plan: plan,
        };
        context.events.push(event);
        assert(context.events@.drop_last() =~= old(context).events@);
        Ok(())
    }

    /// Records that deployment was cancelled.
    pub fn compensate(&self, context: &mut NetworkDeploymentContext) -> (r: Result<(), NetworkDeploymentError>)
        ensures
            r.is_ok(),
            only_events_changed(*old(context), *final(context)),
            final(context).events@.len() == old(context).events@.len() + 1,
            final(context).events@.drop_last() == old(context).events@,
            match final(context).events@.last() {
                InfrastructureEvent::NetworkDeploymentCancelled { metadata, network_id, reason } =>
                    deployment_meta_ok(metadata, self.network_id().value, 1) && network_id == self.network_id()
                    && reason@ == "Infrastructure preparation compensated"@,
                _ => false,
            },
    {
        let event = InfrastructureEvent::NetworkDeploymentCancelled {
            metadata: fresh_metadata(self.network_id.to_string(), 1),
            network_id: self.network_id,
            reason: owned("Infrastructure preparation compensated"),
        };
        context.events.push(event);
        assert(context.events@.drop_last() =~= old(context).events@);
        Ok(())
    }
}

/// No two router statuses share an identifier.
pub open spec fn router_ids_unique(s: Seq<RouterDeploymentStatus>) -> bool {
    forall|i: int, j: int| 0 <= i < j < s.len() ==> (#[trigger] s[i]).router_id != (#[trigger] s[j]).router_id
}

/// No two switch statuses share an identifier.
pub open spec fn switch_ids_unique(s: Seq<SwitchDeploymentStatus>) -> bool {
    forall|i: int, j: int| 0 <= i < j < s.len() ==> (#[trigger] s[i]).switch_id != (#[trigger] s[j]).switch_id
}

/// The router has a completed, timestamped status.
pub open spec fn router_completed(s: Seq<RouterDeploymentStatus>, id: RouterId) -> bool {
    exists|k: int| 0 <= k < s.len() && (#[trigger] s[k]).router_id == id && s[k].status is Completed
        && s[k].deployed_at is Some
}

/// The switch has a completed, timestamped status.
pub open spec fn switch_completed(s: Seq<SwitchDeploymentStatus>, id: SwitchId) -> bool {
    exists|k: int| 0 <= k < s.len() && (#[trigger] s[k]).switch_id == id && s[k].status is Completed
        && s[k].deployed_at is Some
}

/// The order routers are deployed in: by priority, plan order among equal
/// priorities, for the priorities below `p`.
pub open spec fn by_priority_below(rs: Seq<RouterDeploymentSpec>, p: int) -> Seq<RouterDeploymentSpec>
    decreases p,
{
    if p <= 0 {
        Seq::empty()
    } else {
        by_priority_below(rs, p - 1) + rs.filter(|r: RouterDeploymentSpec| r.priority == (p - 1) as u8)
    }
}

/// The order a strategy deploys routers in.
pub open spec fn deploy_order(rs: Seq<RouterDeploymentSpec>, strategy: DeploymentStrategy) -> Seq<RouterDeploymentSpec> {
    match strategy {
        DeploymentStrategy::ParallelByPriority => by_priority_below(rs, 256),
        _ => rs,
    }
}

/// A completed-deployment event of the router, through the workflow.
pub open spec fn router_deployed_event(e: InfrastructureEvent, id: RouterId) -> bool {
    match e {
        InfrastructureEvent::RouterDeploymentCompleted { metadata, router_id, deployment_method } =>
            deployment_meta_ok(metadata, id.value, 1) && router_id == id && deployment_method@ == "Workflow"@,
        _ => false,
    }
}

/// The router statuses after deploying: deployed routers completed, the
/// others' statuses in place, identifiers unique.
pub open spec fn routers_deployed(old_s: Seq<RouterDeploymentStatus>, new_s: Seq<RouterDeploymentStatus>, order: Seq<RouterDeploymentSpec>) -> bool {
    &&& router_ids_unique(new_s)
    &&& new_s.len() >= old_s.len()
    &&& forall|k: int| 0 <= k < order.len() ==> router_completed(new_s, (#[trigger] order[k]).router_id)
    &&& forall|k: int| 0 <= k < old_s.len() && !(exists|j: int| 0 <= j < order.len() && (#[trigger] order[j]).router_id == old_s[k].router_id)
        ==> new_s[k] == old_s[k]
    &&& forall|k: int| old_s.len() <= k < new_s.len() ==> exists|j: int| 0 <= j < order.len()
        && (#[trigger] order[j]).router_id == (#[trigger] new_s[k]).router_id
}

/// The position of the router's status, if any.
fn find_router_status(s: &Vec<RouterDeploymentStatus>, id: RouterId) -> (r: Option<usize>)
    ensures
        match r {
            Some(k) => k < s@.len() && s@[k as int].router_id == id,
            None => forall|j: int| 0 <= j < s@.len() ==> (#[trigger] s@[j]).router_id != id,
        },
{
    let mut k: usize = 0;
    while k < s.len()
        invariant
            k <= s@.len(),
            forall|j: int| 0 <= j < k ==> (#[trigger] s@[j]).router_id != id,
        decreases s@.len() - k,
    {
        if s[k].router_id == id {
            return Some(k);
        }
        k = k + 1;
    }
    None
}

/// Deploys one router: its status becomes completed, and an event records
/// it.
fn deploy_single_router(context: &mut NetworkDeploymentContext, router: &RouterDeploymentSpec)
    requires
        router_ids_unique(old(context).deployed_routers@),
    ensures
        *final(context) == (NetworkDeploymentContext {
            deployed_routers: final(context).deployed_routers,
            events: final(context).events,
            ..*old(context)
        }),
        router_ids_unique(final(context).deployed_routers@),
        final(context).deployed_routers@.len() >= old(context).deployed_routers@.len(),
        router_completed(final(context).deployed_routers@, router.router_id),
        exists|k: int| 0 <= k < final(context).deployed_routers@.len()
            && (#[trigger] final(context).deployed_routers@[k]).router_id == router.router_id
            && final(context).deployed_routers@[k].name@ == router.name@,
        forall|k: int| 0 <= k < old(context).deployed_routers@.len() && old(context).deployed_routers@[k].router_id != router.router_id
            ==> (#[trigger] final(context).deployed_routers@[k]) == old(context).deployed_routers@[k],
        forall|k: int| 0 <= k < final(context).deployed_routers@.len() ==> (#[trigger] final(context).deployed_routers@[k]).router_id == router.router_id
            || (k < old(context).deployed_routers@.len() && final(context).deployed_routers@[k] == old(context).deployed_routers@[k]),
        final(context).events@ == old(context).events@.push(final(context).events@.last()),
        router_deployed_event(final(context).events@.last(), router.router_id),
{
    let status = RouterDeploymentStatus {
        router_id: router.router_id,
        name: router.name.clone(),
        status: DeploymentStatus::Completed,
        deployed_at: Some(now_millis()),
    };
    let n = context.deployed_routers.len();
    match find_router_status(&context.deployed_routers, router.router_id) {
        Some(k) => {
            context.deployed_routers.set(k, status);
            assert(context.deployed_routers@[k as int].router_id == router.router_id);
        }
        None => {
            context.deployed_routers.push(status);
            assert(context.deployed_routers@[n as int].router_id == router.router_id);
        }
    }
    let event = InfrastructureEvent::RouterDeploymentCompleted {
        metadata: fresh_metadata(router.router_id.to_string(), 1),
        router_id: router.router_id,
        deployment_method: owned("Workflow"),
    };
    context.events.push(event);
}

/// Deploys the routers.
#[derive(Debug)]
pub struct DeployRoutersStep {
    routers: Vec<RouterDeploymentSpec>,
    strategy: DeploymentStrategy,
}

impl DeployRoutersStep {
    /// A deployment of the given routers with the given strategy.
    pub fn new(routers: Vec<RouterDeploymentSpec>, strategy: DeploymentStrategy) -> (s: Self)
        ensures
            s.routers() == routers,
            s.strategy() == strategy,
    {
        DeployRoutersStep { routers, strategy }
    }

    /// The routers deployed.
    pub closed spec fn routers(&self) -> Vec<RouterDeploymentSpec> {
        self.routers
    }

    /// The strategy.
    pub closed spec fn strategy(&self) -> DeploymentStrategy {
        self.strategy
    }

    /// Deploys the routers in the strategy's order: each one's status
    /// becomes completed and an event records it.
    pub fn execute(&self, context: &mut NetworkDeploymentContext) -> (r: Result<(), NetworkDeploymentError>)
        requires
            router_ids_unique(old(context).deployed_routers@),
            self.strategy() matches DeploymentStrategy::RollingDeployment { batch_size } ==> batch_size > 0,
        ensures
            r.is_ok(),
            *final(context) == (NetworkDeploymentContext {
                deployed_routers: final(context).deployed_routers,
                events: final(context).events,
                ..*old(context)
            }),
            routers_deployed(old(context).deployed_routers@, final(context).deployed_routers@,
                deploy_order(self.routers()@, self.strategy())),
            final(context).events@.len() == old(context).events@.len() + deploy_order(self.routers()@, self.strategy()).len(),
            final(context).events@.take(old(context).events@.len() as int) == old(context).events@,
            forall|k: int| 0 <= k < deploy_order(self.routers()@, self.strategy()).len() ==> router_deployed_event(
                #[trigger] final(context).events@[old(context).events@.len() + k],
                deploy_order(self.routers()@, self.strategy())[k].router_id),
    {
        let ghost order = deploy_order(self.routers@, self.strategy);
        let ghost s0 = context.deployed_routers@;
        let ghost e0 = context.events@;
        let ghost mut done: Seq<RouterDeploymentSpec> = Seq::empty();
        match self.strategy {
            DeploymentStrategy::ParallelByPriority => {
                let mut p: u16 = 0;
                while p < 256
                    invariant
                        p <= 256,
                        done == by_priority_below(self.routers@, p as int),
                        *context == (NetworkDeploymentContext {
                            deployed_routers: context.deployed_routers,
                            events: context.events,
                            ..*old(context)
                        }),
                        s0 == old(context).deployed_routers@,
                        e0 == old(context).events@,
                        routers_deployed(s0, context.deployed_routers@, done),
                        context.events@.len() == e0.len() + done.len(),
                        context.events@.take(e0.len() as int) == e0,
                        forall|k: int| 0 <= k < done.len() ==> router_deployed_event(
                            #[trigger] context.events@[e0.len() + k], done[k].router_id),
                    decreases 256 - p,
                {
                    let ghost start = done;
                    let ghost pred = |r: RouterDeploymentSpec| r.priority == p as u8;
                    let mut j: usize = 0;
                    assert(self.routers@.take(0).filter(pred) =~= Seq::<RouterDeploymentSpec>::empty());
                    assert(start + self.routers@.take(0).filter(pred) =~= start);
                    while j < self.routers.len()
                        invariant
                            j <= self.routers@.len(),
                            p < 256,
                            pred == (|r: RouterDeploymentSpec| r.priority == p as u8),
                            done == start + self.routers@.take(j as int).filter(pred),
                            *context == (NetworkDeploymentContext {
                                deployed_routers: context.deployed_routers,
                                events: context.events,
                                ..*old(context)
                            }),
                            s0 == old(context).deployed_routers@,
                            e0 == old(context).events@,
                            routers_deployed(s0, context.deployed_routers@, done),
                            context.events@.len() == e0.len() + done.len(),
                            context.events@.take(e0.len() as int) == e0,
                            forall|k: int| 0 <= k < done.len() ==> router_deployed_event(
                                #[trigger] context.events@[e0.len() + k], done[k].router_id),
                        decreases self.routers@.len() - j,
                    {
                        let router = &self.routers[j];
                        proof {
                            assert(self.routers@.take(j + 1) =~= self.routers@.take(j as int).push(*router));
                            self.routers@.take(j as int).lemma_filter_push(*router, pred);
                        }
                        if router.priority as u16 == p {
                            let ghost prev = done;
                            self.deploy_and_record(context, router, Ghost(prev), Ghost(s0), Ghost(e0));
                            proof { done = done.push(*router); }
                        }
                        assert(done == start + self.routers@.take(j + 1).filter(pred));
                        j = j + 1;
                    }
                    assert(self.routers@.take(self.routers@.len() as int) =~= self.routers@);
                    p = p + 1;
                }
            }
            _ => {
                let mut j: usize = 0;
                while j < self.routers.len()
                    invariant
                        j <= self.routers@.len(),
                        order == self.routers@,
                        done == self.routers@.take(j as int),
                        *context == (NetworkDeploymentContext {
                            deployed_routers: context.deployed_routers,
                            events: context.events,
                            ..*old(context)
                        }),
                        s0 == old(context).deployed_routers@,
                        e0 == old(context).events@,
                        routers_deployed(s0, context.deployed_routers@, done),
                        context.events@.len() == e0.len() + done.len(),
                        context.events@.take(e0.len() as int) == e0,
                        forall|k: int| 0 <= k < done.len() ==> router_deployed_event(
                            #[trigger] context.events@[e0.len() + k], done[k].router_id),
                    decreases self.routers@.len() - j,
                {
                    let router = &self.routers[j];
                    let ghost prev = done;
                    self.deploy_and_record(context, router, Ghost(prev), Ghost(s0), Ghost(e0));
                    proof { done = done.push(*router); }
                    assert(done =~= self.routers@.take(j + 1));
                    j = j + 1;
                }
                assert(done =~= self.routers@);
            }
        }
        Ok(())
    }

    /// Deploys one more router after `done`, keeping the invariant of the
    /// deployment loop.
    fn deploy_and_record(
        &self,
        context: &mut NetworkDeploymentContext,
        router: &RouterDeploymentSpec,
        Ghost(done): Ghost<Seq<RouterDeploymentSpec>>,
        Ghost(s0): Ghost<Seq<RouterDeploymentStatus>>,
        Ghost(e0): Ghost<Seq<InfrastructureEvent>>,
    )
        requires
            routers_deployed(s0, old(context).deployed_routers@, done),
            old(context).events@.len() == e0.len() + done.len(),
            old(context).events@.take(e0.len() as int) == e0,
            forall|k: int| 0 <= k < done.len() ==> router_deployed_event(
                #[trigger] old(context).events@[e0.len() + k], done[k].router_id),
        ensures
            *final(context) == (NetworkDeploymentContext {
                deployed_routers: final(context).deployed_routers,
                events: final(context).events,
                ..*old(context)
            }),
            routers_deployed(s0, final(context).deployed_routers@, done.push(*router)),
            final(context).events@.len() == e0.len() + done.len() + 1,
            final(context).events@.take(e0.len() as int) == e0,
            forall|k: int| 0 <= k < done.len() + 1 ==> router_deployed_event(
                #[trigger] final(context).events@[e0.len() + k], done.push(*router)[k].router_id),
    {
        let ghost mid = context.deployed_routers@;
        let ghost ev = context.events@;
        deploy_single_router(context, router);
        let ghost d2 = done.push(*router);
        let ghost fin = context.deployed_routers@;
        assert forall|k: int| 0 <= k < d2.len() implies router_completed(fin, (#[trigger] d2[k]).router_id) by {
            if k < done.len() {
                assert(d2[k] == done[k]);
                assert(router_completed(mid, done[k].router_id));
                let w = choose|w: int| 0 <= w < mid.len() && (#[trigger] mid[w]).router_id == done[k].router_id
                    && mid[w].status is Completed && mid[w].deployed_at is Some;
                if mid[w].router_id != router.router_id {
                    assert(fin[w] == mid[w]);
                }
            }
        }
        assert forall|k: int| 0 <= k < s0.len() && !(exists|j: int| 0 <= j < d2.len() && (#[trigger] d2[j]).router_id == s0[k].router_id)
            implies fin[k] == s0[k] by {
            assert(d2[done.len() as int] == *router);
            assert(forall|j: int| 0 <= j < done.len() ==> d2[j] == done[j]);
            assert(!(exists|j: int| 0 <= j < done.len() && (#[trigger] done[j]).router_id == s0[k].router_id)) by {
                if exists|j: int| 0 <= j < done.len() && (#[trigger] done[j]).router_id == s0[k].router_id {
                    let j = choose|j: int| 0 <= j < done.len() && (#[trigger] done[j]).router_id == s0[k].router_id;
                    assert(d2[j].router_id == s0[k].router_id);
                }
            }
            assert(mid[k] == s0[k]);
        }
        assert forall|k: int| s0.len() <= k < fin.len() implies exists|j: int| 0 <= j < d2.len()
            && (#[trigger] d2[j]).router_id == (#[trigger] fin[k]).router_id by {
            if fin[k].router_id == router.router_id {
                assert(d2[done.len() as int].router_id == fin[k].router_id);
            } else {
                assert(k < mid.len() && fin[k] == mid[k]);
                let j = choose|j: int| 0 <= j < done.len() && (#[trigger] done[j]).router_id == mid[k].router_id;
                assert(d2[j] == done[j]);
            }
        }
        assert(context.events@.take(e0.len() as int) =~= ev.take(e0.len() as int));
        assert forall|k: int| 0 <= k < done.len() + 1 implies router_deployed_event(
            #[trigger] context.events@[e0.len() + k], d2[k].router_id) by {
            if k < done.len() {
                assert(context.events@[e0.len() + k] == ev[e0.len() + k]);
            }
        }
    }

    /// Rolls back every completed router: its status becomes failed, and an
    /// event records the rollback.
    pub fn compensate(&self, context: &mut NetworkDeploymentContext) -> (r: Result<(), NetworkDeploymentError>)
        ensures
            r.is_ok(),
            *final(context) == (NetworkDeploymentContext {
                deployed_routers: final(context).deployed_routers,
                events: final(context).events,
                ..*old(context)
            }),
            final(context).deployed_routers@.len() == old(context).deployed_routers@.len(),
            forall|k: int| 0 <= k < old(context).deployed_routers@.len() ==> rolled_back(
                old(context).deployed_routers@[k], #[trigger] final(context).deployed_routers@[k]),
            final(context).events@.take(old(context).events@.len() as int) == old(context).events@,
            final(context).events@.len() == old(context).events@.len() + completed_ids(old(context).deployed_routers@).len(),
            forall|k: int| 0 <= k < completed_ids(old(context).deployed_routers@).len() ==> rollback_event(
                #[trigger] final(context).events@[old(context).events@.len() + k], completed_ids(old(context).deployed_routers@)[k]),
    {
        let ghost s0 = context.deployed_routers@;
        let ghost e0 = context.events@;
        let n = context.deployed_routers.len();
        let mut k: usize = 0;
        while k < n
            invariant
                n == s0.len(),
                s0 == old(context).deployed_routers@,
                e0 == old(context).events@,
                *context == (NetworkDeploymentContext {
                    deployed_routers: context.deployed_routers,
                    events: context.events,
                    ..*old(context)
                }),
                k <= n,
                context.deployed_routers@.len() == n,
                forall|j: int| 0 <= j < k ==> rolled_back(s0[j], #[trigger] context.deployed_routers@[j]),
                forall|j: int| k <= j < n ==> #[trigger] context.deployed_routers@[j] == s0[j],
                context.events@.take(e0.len() as int) == e0,
                context.events@.len() == e0.len() + completed_ids(s0.take(k as int)).len(),
                forall|j: int| 0 <= j < completed_ids(s0.take(k as int)).len() ==> rollback_event(
                    #[trigger] context.events@[e0.len() + j], completed_ids(s0.take(k as int))[j]),
            decreases n - k,
        {
            let ghost ev = context.events@;
            proof {
                assert(s0.take(k + 1) =~= s0.take(k as int).push(s0[k as int]));
                lemma_completed_ids_push(s0.take(k as int), s0[k as int]);
            }
            let completed = match &context.deployed_routers[k].status {
                DeploymentStatus::Completed => true,
                _ => false,
            };
            if completed {
                let router_id = context.deployed_routers[k].router_id;
                let name = context.deployed_routers[k].name.clone();
                let deployed_at = context.deployed_routers[k].deployed_at;
                context.deployed_routers.set(k, RouterDeploymentStatus {
                    router_id,
                    name,
                    status: DeploymentStatus::Failed(owned("Rolled back")),
                    deployed_at,
                });
                let event = InfrastructureEvent::RouterDeploymentRolledBack {
                    metadata: fresh_metadata(router_id.to_string(), 1),
                    router_id,
                    reason: owned("Deployment workflow compensation"),
                };
                context.events.push(event);
                assert(context.events@.take(e0.len() as int) =~= ev.take(e0.len() as int));
                assert forall|j: int| 0 <= j < completed_ids(s0.take(k + 1)).len() implies rollback_event(
                    #[trigger] context.events@[e0.len() + j], completed_ids(s0.take(k + 1))[j]) by {
                    if j < completed_ids(s0.take(k as int)).len() {
                        assert(context.events@[e0.len() + j] == ev[e0.len() + j]);
                    }
                }
            }
            k = k + 1;
        }
        assert(s0.take(n as int) =~= s0);
        Ok(())
    }
}

/// A status after rollback: a completed one is failed with reason
/// `Rolled back`, otherwise unchanged.
pub open spec fn rolled_back(before: RouterDeploymentStatus, after: RouterDeploymentStatus) -> bool {
    if before.status is Completed {
        &&& after.router_id == before.router_id
        &&& after.name@ == before.name@
        &&& after.deployed_at == before.deployed_at
        &&& match after.status {
            DeploymentStatus::Failed(m) => m@ == "Rolled back"@,
            _ => false,
        }
    } else {
        after == before
    }
}

/// The identifiers of completed routers, in order.
pub open spec fn completed_ids(s: Seq<RouterDeploymentStatus>) -> Seq<RouterId>
    decreases s.len(),
{
    if s.len() == 0 {
        Seq::empty()
    } else if s.last().status is Completed {
        completed_ids(s.drop_last()).push(s.last().router_id)
    } else {
        completed_ids(s.drop_last())
    }
}

proof fn lemma_completed_ids_push(s: Seq<RouterDeploymentStatus>, x: RouterDeploymentStatus)
    ensures
        completed_ids(s.push(x)) == if x.status is Completed { completed_ids(s).push(x.router_id) } else { completed_ids(s) },
{
    assert(s.push(x).drop_last() =~= s);
}

/// A rollback event of the router, for compensation.
pub open spec fn rollback_event(e: InfrastructureEvent, id: RouterId) -> bool {
    match e {
        InfrastructureEvent::RouterDeploymentRolledBack { metadata, router_id, reason } =>
            deployment_meta_ok(metadata, id.value, 1) && router_id == id && reason@ == "Deployment workflow compensation"@,
        _ => false,
    }
}


/// A dependency blocks a switch when the router has a status that is not
/// completed; a router without a status does not block.
pub open spec fn blocks(routers: Seq<RouterDeploymentStatus>, dep: RouterId) -> bool {
    exists|k: int| 0 <= k < routers.len() && (#[trigger] routers[k]).router_id == dep && !(routers[k].status is Completed)
}

/// One of the switch's first `n` dependencies blocks it.
pub open spec fn blocked_within(routers: Seq<RouterDeploymentStatus>, sw: SwitchDeploymentSpec, n: int) -> bool {
    exists|d: int| 0 <= d < n && d < sw.depends_on_routers@.len() && blocks(routers, #[trigger] sw.depends_on_routers@[d])
}

/// One of the switch's dependencies blocks it.
pub open spec fn switch_blocked(routers: Seq<RouterDeploymentStatus>, sw: SwitchDeploymentSpec) -> bool {
    blocked_within(routers, sw, sw.depends_on_routers@.len() as int)
}

/// One of the first `n` switches is blocked.
pub open spec fn some_blocked(routers: Seq<RouterDeploymentStatus>, ss: Seq<SwitchDeploymentSpec>, n: int) -> bool {
    exists|k: int| 0 <= k < n && switch_blocked(routers, #[trigger] ss[k])
}

/// The message for a blocked switch.
pub open spec fn blocked_message(dep: RouterId, sw: SwitchId) -> Seq<char> {
    "Router dependency "@ + uuid_text(dep.value) + " not completed for switch "@ + uuid_text(sw.value)
}

/// The switch statuses after deploying the first `n` switches: those
/// completed, the others' statuses in place, identifiers unique.
pub open spec fn switches_deployed(old_s: Seq<SwitchDeploymentStatus>, new_s: Seq<SwitchDeploymentStatus>, ss: Seq<SwitchDeploymentSpec>, n: int) -> bool {
    &&& switch_ids_unique(new_s)
    &&& new_s.len() >= old_s.len()
    &&& forall|k: int| 0 <= k < n ==> switch_completed(new_s, (#[trigger] ss[k]).switch_id)
    &&& forall|k: int| 0 <= k < old_s.len() && !(exists|j: int| 0 <= j < n && (#[trigger] ss[j]).switch_id == old_s[k].switch_id)
        ==> new_s[k] == old_s[k]
    &&& forall|k: int| old_s.len() <= k < new_s.len() ==> exists|j: int| 0 <= j < n
        && (#[trigger] ss[j]).switch_id == (#[trigger] new_s[k]).switch_id
}

/// The position of the switch's status, if any.
fn find_switch_status(s: &Vec<SwitchDeploymentStatus>, id: SwitchId) -> (r: Option<usize>)
    ensures
        match r {
            Some(k) => k < s@.len() && s@[k as int].switch_id == id,
            None => forall|j: int| 0 <= j < s@.len() ==> (#[trigger] s@[j]).switch_id != id,
        },
{
    let mut k: usize = 0;
    while k < s.len()
        invariant
            k <= s@.len(),
            forall|j: int| 0 <= j < k ==> (#[trigger] s@[j]).switch_id != id,
        decreases s@.len() - k,
    {
        if s[k].switch_id == id {
            return Some(k);
        }
        k = k + 1;
    }
    None
}

/// Whether the router's status blocks a dependent switch.
fn dependency_blocks(routers: &Vec<RouterDeploymentStatus>, dep: RouterId) -> (r: bool)
    requires
        router_ids_unique(routers@),
    ensures
        r == blocks(routers@, dep),
{
    match find_router_status(routers, dep) {
        Some(k) => {
            let done = match &routers[k].status {
                DeploymentStatus::Completed => true,
                _ => false,
            };
            if !done {
                assert(blocks(routers@, dep));
            } else {
                assert forall|j: int| 0 <= j < routers@.len() && (#[trigger] routers@[j]).router_id == dep
                    implies routers@[j].status is Completed by {
                    if j != k {
                        if j < k {
                            assert(routers@[j].router_id != routers@[k as int].router_id);
                        } else {
                            assert(routers@[k as int].router_id != routers@[j].router_id);
                        }
                    }
                }
            }
            !done
        }
        None => false,
    }
}

/// Deploys the switches.
#[derive(Debug)]
pub struct DeploySwitchesStep {
    switches: Vec<SwitchDeploymentSpec>,
    strategy: DeploymentStrategy,
}

impl DeploySwitchesStep {
    /// A deployment of the given switches.
    pub fn new(switches: Vec<SwitchDeploymentSpec>, strategy: DeploymentStrategy) -> (s: Self)
        ensures
            s.switches() == switches,
            s.strategy() == strategy,
    {
        DeploySwitchesStep { switches, strategy }
    }

    /// The switches deployed.
    pub closed spec fn switches(&self) -> Vec<SwitchDeploymentSpec> {
        self.switches
    }

    /// The strategy.
    pub closed spec fn strategy(&self) -> DeploymentStrategy {
        self.strategy
    }

    /// Deploys the switches in plan order, each once no router it depends
    /// on has an unfinished status; stops at the first blocked switch.
    pub fn execute(&self, context: &mut NetworkDeploymentContext) -> (r: Result<(), NetworkDeploymentError>)
        requires
            router_ids_unique(old(context).deployed_routers@),
            switch_ids_unique(old(context).deployed_switches@),
        ensures
            *final(context) == (NetworkDeploymentContext {
                deployed_switches: final(context).deployed_switches,
                ..*old(context)
            }),
            ({
                let rs = old(context).deployed_routers@;
                let ss = self.switches()@;
                match r {
                    Ok(()) => !some_blocked(rs, ss, ss.len() as int)
                        && switches_deployed(old(context).deployed_switches@, final(context).deployed_switches@, ss, ss.len() as int),
                    Err(NetworkDeploymentError::SwitchDeployment(m)) => exists|k: int, d: int|
                        0 <= k < ss.len() && !some_blocked(rs, ss, k) && 0 <= d < ss[k].depends_on_routers@.len()
                        && !blocked_within(rs, ss[k], d) && blocks(rs, #[trigger] ss[k].depends_on_routers@[d])
                        && m@ == blocked_message(ss[k].depends_on_routers@[d], ss[k].switch_id)
                        && switches_deployed(old(context).deployed_switches@, final(context).deployed_switches@, ss, k),
                    _ => false,
                }
            }),
    {
        let ghost rs = context.deployed_routers@;
        let ghost s0 = context.deployed_switches@;
        let ghost ss = self.switches@;
        let mut k: usize = 0;
        while k < self.switches.len()
            invariant
                k <= ss.len(),
                ss == self.switches@,
                rs == old(context).deployed_routers@,
                s0 == old(context).deployed_switches@,
                router_ids_unique(rs),
                *context == (NetworkDeploymentContext {
                    deployed_switches: context.deployed_switches,
                    ..*old(context)
                }),
                !some_blocked(rs, ss, k as int),
                switches_deployed(s0, context.deployed_switches@, ss, k as int),
            decreases ss.len() - k,
        {
            let sw = &self.switches[k];
            let mut d: usize = 0;
            while d < sw.depends_on_routers.len()
                invariant
                    *sw == ss[k as int],
                    k < ss.len(),
                    ss == self.switches@,
                    rs == old(context).deployed_routers@,
                    s0 == old(context).deployed_switches@,
                    rs == context.deployed_routers@,
                    router_ids_unique(rs),
                    *context == (NetworkDeploymentContext {
                        deployed_switches: context.deployed_switches,
                        ..*old(context)
                    }),
                    !some_blocked(rs, ss, k as int),
                    switches_deployed(s0, context.deployed_switches@, ss, k as int),
                    d <= sw.depends_on_routers@.len(),
                    !blocked_within(rs, *sw, d as int),
                decreases sw.depends_on_routers@.len() - d,
            {
                let dep = sw.depends_on_routers[d];
                if dependency_blocks(&context.deployed_routers, dep) {
                    let mut m = owned("Router dependency ");
                    push_str(&mut m, dep.to_string().as_str());
                    push_str(&mut m, " not completed for switch ");
                    push_str(&mut m, sw.switch_id.to_string().as_str());
                    assert(blocks(rs, ss[k as int].depends_on_routers@[d as int]));
                    assert(m@ == blocked_message(ss[k as int].depends_on_routers@[d as int], ss[k as int].switch_id));
                    assert(!blocked_within(rs, ss[k as int], d as int));
                    assert(switches_deployed(old(context).deployed_switches@, context.deployed_switches@, ss, k as int));
                    let ghost kk = k as int;
                    let ghost dd = d as int;
                    let ghost ss2 = self.switches()@;
                    let ghost rs2 = old(context).deployed_routers@;
                    assert(ss2 == ss && rs2 == rs);
                    assert(blocks(rs2, ss2[kk].depends_on_routers@[dd]));
                    assert(exists|k: int, d: int|
                            0 <= k < ss2.len() && !some_blocked(rs2, ss2, k) && 0 <= d < ss2[k].depends_on_routers@.len()
                            && !blocked_within(rs2, ss2[k], d) && blocks(rs2, #[trigger] ss2[k].depends_on_routers@[d])
                            && m@ == blocked_message(ss2[k].depends_on_routers@[d], ss2[k].switch_id)
                            && switches_deployed(old(context).deployed_switches@, context.deployed_switches@, ss2, k));
                    return Err(NetworkDeploymentError::SwitchDeployment(m));
                }
                assert(!blocked_within(rs, *sw, d + 1)) by {
                    if blocked_within(rs, *sw, d + 1) {
                        let e = choose|e: int| 0 <= e < d + 1 && e < sw.depends_on_routers@.len()
                            && blocks(rs, #[trigger] sw.depends_on_routers@[e]);
                        assert(e != d);
                    }
                }
                d = d + 1;
            }
            let ghost mid = context.deployed_switches@;
            let status = SwitchDeploymentStatus {
                switch_id: sw.switch_id,
                name: sw.name.clone(),
                status: DeploymentStatus::Completed,
                deployed_at: Some(now_millis()),
            };
            let n = context.deployed_switches.len();
            match find_switch_status(&context.deployed_switches, sw.switch_id) {
                Some(i) => {
                    context.deployed_switches.set(i, status);
                    assert(context.deployed_switches@[i as int].switch_id == sw.switch_id);
                }
                None => {
                    context.deployed_switches.push(status);
                    assert(context.deployed_switches@[n as int].switch_id == sw.switch_id);
                }
            }
            let ghost fin = context.deployed_switches@;
            assert(switch_ids_unique(fin)) by {
                assert forall|i: int, j: int| 0 <= i < j < fin.len() implies (#[trigger] fin[i]).switch_id != (#[trigger] fin[j]).switch_id by {
                    if i < mid.len() && j < mid.len() {
                        if fin[i] == mid[i] && fin[j] == mid[j] {
                        } else if fin[i] != mid[i] {
                            assert(fin[i].switch_id == sw.switch_id);
                            assert(mid[i].switch_id == sw.switch_id);
                        } else {
                            assert(fin[j].switch_id == sw.switch_id);
                            assert(mid[j].switch_id == sw.switch_id);
                        }
                    }
                }
            }
            assert forall|j: int| 0 <= j < k + 1 implies switch_completed(fin, (#[trigger] ss[j]).switch_id) by {
                if j < k {
                    assert(switch_completed(mid, ss[j].switch_id));
                    let w = choose|w: int| 0 <= w < mid.len() && (#[trigger] mid[w]).switch_id == ss[j].switch_id
                        && mid[w].status is Completed && mid[w].deployed_at is Some;
                    if mid[w].switch_id != sw.switch_id {
                        assert(fin[w] == mid[w]);
                    }
                }
            }
            assert forall|i: int| 0 <= i < s0.len() && !(exists|j: int| 0 <= j < k + 1 && (#[trigger] ss[j]).switch_id == s0[i].switch_id)
                implies fin[i] == s0[i] by {
                assert(mid[i] == s0[i]);
                assert(ss[k as int].switch_id != s0[i].switch_id);
            }
            assert forall|i: int| s0.len() <= i < fin.len() implies exists|j: int| 0 <= j < k + 1
                && (#[trigger] ss[j]).switch_id == (#[trigger] fin[i]).switch_id by {
                if fin[i].switch_id == sw.switch_id {
                    assert(ss[k as int].switch_id == fin[i].switch_id);
                } else {
                    assert(i < mid.len() && fin[i] == mid[i]);
                    let j = choose|j: int| 0 <= j < k && (#[trigger] ss[j]).switch_id == mid[i].switch_id;
                    assert(ss[j].switch_id == fin[i].switch_id);
                }
            }
            assert(!some_blocked(rs, ss, k + 1)) by {
                if some_blocked(rs, ss, k + 1) {
                    let e = choose|e: int| 0 <= e < k + 1 && switch_blocked(rs, #[trigger] ss[e]);
                    assert(e != k);
                }
            }
            k = k + 1;
        }
        Ok(())
    }

    /// Forgets every switch deployment.
    pub fn compensate(&self, context: &mut NetworkDeploymentContext) -> (r: Result<(), NetworkDeploymentError>)
        ensures
            r.is_ok(),
            *final(context) == (NetworkDeploymentContext {
                deployed_switches: final(context).deployed_switches,
                ..*old(context)
            }),
            final(context).deployed_switches@.len() == 0,
    {
        context.deployed_switches.clear();
        Ok(())
    }
}

/// Verifies the network's connectivity.
#[derive(Debug)]
pub struct VerifyConnectivityStep {
    network_id: NetworkId,
}

impl VerifyConnectivityStep {
    /// A verification of the given network.
    pub fn new(network_id: NetworkId) -> (s: Self)
        ensures
            s.network_id() == network_id,
    {
        VerifyConnectivityStep { network_id }
    }

    /// The network verified.
    pub closed spec fn network_id(&self) -> NetworkId {
        self.network_id
    }

    /// Marks connectivity verified.
    pub fn execute(&self, context: &mut NetworkDeploymentContext) -> (r: Result<(), NetworkDeploymentError>)
        ensures
            r.is_ok(),
            *final(context) == (NetworkDeploymentContext { connectivity_verified: true, ..*old(context) }),
    {
        context.connectivity_verified = true;
        Ok(())
    }

    /// Marks connectivity unverified.
    pub fn compensate(&self, context: &mut NetworkDeploymentContext) -> (r: Result<(), NetworkDeploymentError>)
        ensures
            r.is_ok(),
            *final(context) == (NetworkDeploymentContext { connectivity_verified: false, ..*old(context) }),
    {
        context.connectivity_verified = false;
        Ok(())
    }
}

/// Activates the network.
#[derive(Debug)]
pub struct ActivateNetworkStep {
    network_id: NetworkId,
}

impl ActivateNetworkStep {
    /// An activation of the given network.
    pub fn new(network_id: NetworkId) -> (s: Self)
        ensures
            s.network_id() == network_id,
    {
        ActivateNetworkStep { network_id }
    }

    /// The network activated.
    pub closed spec fn network_id(&self) -> NetworkId {
        self.network_id
    }

    /// Marks the network active and records completion with the counts of
    /// deployed routers and switches.
    pub fn execute(&self, context: &mut NetworkDeploymentContext) -> (r: Result<(), NetworkDeploymentError>)
        ensures
            r.is_ok(),
            *final(context) == (NetworkDeploymentContext { network_active: true, events: final(context).events, ..*old(context) }),
            final(context).events@.len() == old(context).events@.len() + 1,
            final(context).events@.drop_last() == old(context).events@,
            match final(context).events@.last() {
                InfrastructureEvent::NetworkDeploymentCompleted { metadata, network_id, routers_deployed, switches_deployed } =>
                    deployment_meta_ok(metadata, self.network_id().value, 1) && network_id == self.network_id()
                    && routers_deployed == old(context).deployed_routers@.len() as u32
                    && switches_deployed == old(context).deployed_switches@.len() as u32,
                _ => false,
            },
    {
        context.network_active = true;
        let routers_deployed = context.deployed_routers.len() as u32;
        let switches_deployed = context.deployed_switches.len() as u32;
        let event = InfrastructureEvent::NetworkDeploymentCompleted {
            metadata: fresh_metadata(self.network_id.to_string(), 1),
            network_id: self.network_id,
            routers_deployed,
            switches_deployed,
        };
        context.events.push(event);
        assert(context.events@.drop_last() =~= old(context).events@);
        Ok(())
    }

    /// Marks the network inactive.
    pub fn compensate(&self, context: &mut NetworkDeploymentContext) -> (r: Result<(), NetworkDeploymentError>)
        ensures
            r.is_ok(),
            *final(context) == (NetworkDeploymentContext { network_active: false, ..*old(context) }),
    {
        context.network_active = false;
        Ok(())
    }
}

} // verus!

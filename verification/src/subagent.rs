//! The topology building sub-agent: it takes requests naming a task,
//! turns each task into a command of its building session, and answers
//! with the outcome and its own status.

use vstd::prelude::*;
use crate::agents::{
    SubAgentStatus, SubAgentMetadata, SubAgentTask, InitialTopologyParams, InteractionState, TopologySummary,
    TopologyCommand, subagent_metadata, initial_topology_params, task_command, task_command_ok, capability_texts,
    known_location_type, location_ok, task_kind_lowered,
};
use crate::params::lower_text;
use crate::errors::{NetworkError, error_text};
use crate::ids::{CorrelationId, CausationId, fresh_uuid_v4, uuid_to_string, uuid_text};
use crate::topology_builder::{NetworkTopologyBuilderAgent, AgentResponse, BuilderView, SessionPayload, command_outcome, texts};
use crate::text::{owned, push_str};

verus! {

/// A request to the sub-agent. Context entries are names with their JSON
/// text.
#[derive(Debug)]
pub struct SubAgentRequest {
    pub request_id: String,
    pub task: SubAgentTask,
    pub context: Vec<(String, String)>,
}

/// What a successful task answers beyond its message.
#[derive(Debug)]
pub struct ResponseData {
    pub topology_summary: TopologySummary,
    pub events_generated: usize,
    pub interaction_state: InteractionState,
}

/// The sub-agent's answer to a request.
#[derive(Debug)]
pub struct SubAgentResponse {
    pub request_id: String,
    pub success: bool,
    pub message: String,
    /// Present when the task succeeded
    pub data: Option<ResponseData>,
    pub suggested_actions: Vec<String>,
    pub metadata: SubAgentMetadata,
    pub errors: Vec<String>,
}

/// What the sub-agent reports of its session.
#[derive(Debug)]
pub struct SessionInfo {
    pub session_id: String,
    pub interaction_state: InteractionState,
    pub events_generated: usize,
    pub agent_status: SubAgentStatus,
}

fn copy_status(s: &SubAgentStatus) -> (r: SubAgentStatus)
    ensures
        r == *s,
{
    match s {
        SubAgentStatus::Ready => SubAgentStatus::Ready,
        SubAgentStatus::Processing => SubAgentStatus::Processing,
        SubAgentStatus::WaitingForInput => SubAgentStatus::WaitingForInput,
        SubAgentStatus::Error { message } => SubAgentStatus::Error { message: message.clone() },
        SubAgentStatus::Completed => SubAgentStatus::Completed,
    }
}

fn copy_strings(v: &Vec<String>) -> (r: Vec<String>)
    ensures
        r@ == v@,
{
    let mut r: Vec<String> = Vec::new();
    let mut k: usize = 0;
    while k < v.len()
        invariant
            k <= v@.len(),
            r@ == v@.take(k as int),
        decreases v@.len() - k,
    {
        r.push(v[k].clone());
        assert(r@ =~= v@.take(k + 1));
        k = k + 1;
    }
    assert(v@.take(v@.len() as int) =~= v@);
    r
}

/// `b` is a copy of `a`.
pub open spec fn copied_metadata(a: SubAgentMetadata, b: SubAgentMetadata) -> bool {
    a.name == b.name && a.description == b.description && a.version == b.version
        && a.capabilities@ == b.capabilities@ && a.status == b.status
}

fn copy_metadata(m: &SubAgentMetadata) -> (r: SubAgentMetadata)
    ensures
        copied_metadata(*m, r),
{
    SubAgentMetadata {
        name: m.name.clone(),
        description: m.description.clone(),
        version: m.version.clone(),
        capabilities: copy_strings(&m.capabilities),
        status: copy_status(&m.status),
    }
}

/// The metadata of the sub-agent with the given status.
pub open spec fn announced(m: SubAgentMetadata, status: SubAgentStatus) -> bool {
    &&& m.name@ == "Network Topology Builder"@
    &&& m.description@ == "Interactive sub-agent for building network topologies using event-driven context graphs"@
    &&& m.version@ == "1.0.0"@
    &&& texts(m.capabilities@) == capability_texts()
    &&& m.status == status
}

/// A line of the opening message naming one initial parameter, where it
/// is given.
pub open spec fn param_line(label: Seq<char>, v: Option<String>) -> Seq<char> {
    match v {
        Some(t) => "\n• "@ + label + ": "@ + t@,
        None => Seq::empty(),
    }
}

/// The message that opens a topology build, with the initial parameters
/// where there are any.
pub open spec fn start_message(p: Option<InitialTopologyParams>) -> Seq<char> {
    "🌐 Starting interactive network topology building!"@ + match p {
        Some(ps) => "\n\nInitial Parameters:"@ + param_line("Base Network"@, ps.base_network)
            + param_line("Target Environment"@, ps.target_environment) + param_line("Scale"@, ps.scale)
            + param_line("Use Case"@, ps.use_case),
        None => Seq::empty(),
    }
}

fn push_param_line(s: &mut String, label: &str, v: &Option<String>)
    ensures
        final(s)@ == old(s)@ + param_line(label@, *v),
{
    match v {
        Some(t) => {
            let ghost start = s@;
            push_str(s, "\n• ");
            push_str(s, label);
            push_str(s, ": ");
            push_str(s, t.as_str());
            assert(s@ =~= start + param_line(label@, *v));
        }
        None => { assert(s@ =~= old(s)@ + param_line(label@, *v)); }
    }
}

fn start_message_text(p: &Option<InitialTopologyParams>) -> (s: String)
    ensures
        s@ == start_message(*p),
{
    let mut s = owned("🌐 Starting interactive network topology building!");
    match p {
        Some(ps) => {
            push_str(&mut s, "\n\nInitial Parameters:");
            push_param_line(&mut s, "Base Network", &ps.base_network);
            push_param_line(&mut s, "Target Environment", &ps.target_environment);
            push_param_line(&mut s, "Scale", &ps.scale);
            push_param_line(&mut s, "Use Case", &ps.use_case);
            assert(s@ =~= start_message(*p));
        }
        None => {}
    }
    s
}

/// The message of an answered task: a topology build opens with its own
/// message; any other task gives the session's.
pub open spec fn answer_message(t: SubAgentTask, session_message: Seq<char>) -> Seq<char> {
    match t {
        SubAgentTask::BuildTopology { initial_params } => start_message(initial_params),
        _ => session_message,
    }
}

/// The sub-agent.
#[derive(Debug)]
pub struct NetworkTopologySubAgent {
    agent: NetworkTopologyBuilderAgent,
    metadata: SubAgentMetadata,
}

impl NetworkTopologySubAgent {
    /// The state of the sub-agent's session.
    pub closed spec fn session(&self) -> BuilderView {
        self.agent@
    }

    /// The sub-agent's status.
    pub closed spec fn status(&self) -> SubAgentStatus {
        self.metadata.status
    }

    /// The sub-agent's session is well formed and its metadata announced.
    pub closed spec fn wf(&self) -> bool {
        self.agent.wf() && announced(self.metadata, self.metadata.status)
    }

    /// A sub-agent with a new session, ready.
    pub fn new() -> (s: Self)
        ensures
            s.wf(),
            s.session().events.len() == 0,
            s.session().state == InteractionState::WaitingForInput,
            s.status() == SubAgentStatus::Ready,
    {
        let metadata = subagent_metadata();
        assert(texts(metadata.capabilities@) =~= metadata.capabilities@.map_values(|c: String| c@));
        NetworkTopologySubAgent { agent: NetworkTopologyBuilderAgent::new(), metadata }
    }

    /// Carries out a request's task in the session. A task that names an
    /// unknown kind of location, connection or format fails, the sub-agent
    /// reporting the error; otherwise the session's answer is passed on
    /// (a topology build answering with its opening message) and the
    /// sub-agent is ready again.
    pub fn process_request(&mut self, request: SubAgentRequest) -> (r: SubAgentResponse)
        requires
            old(self).wf(),
        ensures
            final(self).wf(),
            r.request_id == request.request_id,
            copied_metadata(final(self).metadata_value(), r.metadata),
            task_kind_lowered(request.task),
            exists|c: Result<TopologyCommand, NetworkError>| #[trigger] task_command_ok(c, request.task) && match c {
                Err(e) => {
                    &&& final(self).session() == old(self).session()
                    &&& final(self).status() == (SubAgentStatus::Error { message: final(self).status()->message })
                    &&& final(self).status()->message@ == error_text(e)
                    &&& !r.success
                    &&& r.message@ == "Task failed: "@ + error_text(e)
                    &&& r.data is None
                    &&& texts(r.suggested_actions@) == seq!["Try a different approach"@, "Check input parameters"@]
                    &&& texts(r.errors@) == seq![error_text(e)]
                },
                Ok(cmd) => exists|corr: CorrelationId, cause: CausationId, a: AgentResponse| {
                    &&& #[trigger] command_outcome(old(self).session(), final(self).session(), cmd, corr, cause, Ok(a))
                    &&& final(self).status() == SubAgentStatus::Ready
                    &&& r.success
                    &&& r.message@ == answer_message(request.task, a.message@)
                    &&& r.data is Some
                    &&& r.data.unwrap().topology_summary == a.topology_summary
                    &&& r.data.unwrap().events_generated == a.events@.len()
                    &&& r.data.unwrap().interaction_state == a.new_state
                    &&& r.suggested_actions == a.suggested_actions
                    &&& r.errors@.len() == 0
                },
            },
            request.task matches SubAgentTask::AddLocation { location_id, location_type, parameters } ==> {
                let lt = lower_text(location_type@);
                let m = "Unknown location type: "@ + location_type@
                    + ". Supported types: datacenter, office, cloud, edge, segment"@;
                &&& r.success == known_location_type(lt)
                &&& !known_location_type(lt) ==> {
                    &&& final(self).session() == old(self).session()
                    &&& r.message@ == "Task failed: "@ + ("Validation error: "@ + m)
                    &&& texts(r.errors@) == seq!["Validation error: "@ + m]
                }
                &&& known_location_type(lt) ==> {
                    &&& final(self).session().events.len() == old(self).session().events.len() + 1
                    &&& final(self).session().events.drop_last() == old(self).session().events
                    &&& final(self).session().events.last().payload matches SessionPayload::LocationAdded { location: l, .. }
                        && location_ok(l, location_id@, lt, parameters@)
                }
            },
    {
        self.metadata.status = SubAgentStatus::Processing;
        let command = task_command(&request.task);
        let result = match command {
            Ok(cmd) => self.agent.process_command(cmd),
            Err(e) => Err(e),
        };
        match result {
            Ok(a) => {
                self.metadata.status = SubAgentStatus::Ready;
                let events_generated = a.events.len();
                let message = match &request.task {
                    SubAgentTask::BuildTopology { initial_params } => start_message_text(initial_params),
                    _ => a.message,
                };
                SubAgentResponse {
                    request_id: request.request_id,
                    success: true,
                    message,
                    data: Some(ResponseData {
                        topology_summary: a.topology_summary,
                        events_generated,
                        interaction_state: a.new_state,
                    }),
                    suggested_actions: a.suggested_actions,
                    metadata: copy_metadata(&self.metadata),
                    errors: Vec::new(),
                }
            }
            Err(e) => {
                self.metadata.status = SubAgentStatus::Error { message: e.to_string() };
                let mut message = owned("Task failed: ");
                push_str(&mut message, e.to_string().as_str());
                let mut actions: Vec<String> = Vec::new();
                actions.push(owned("Try a different approach"));
                actions.push(owned("Check input parameters"));
                assert(texts(actions@) =~= seq!["Try a different approach"@, "Check input parameters"@]);
                let mut errors: Vec<String> = Vec::new();
                errors.push(e.to_string());
                assert(texts(errors@) =~= seq![error_text(e)]);
                SubAgentResponse {
                    request_id: request.request_id,
                    success: false,
                    message,
                    data: None,
                    suggested_actions: actions,
                    metadata: copy_metadata(&self.metadata),
                    errors,
                }
            }
        }
    }

    /// The sub-agent's metadata.
    pub closed spec fn metadata_value(&self) -> SubAgentMetadata {
        self.metadata
    }

    /// The sub-agent's metadata.
    pub fn metadata(&self) -> (m: &SubAgentMetadata)
        ensures
            *m == self.metadata_value(),
            m.status == self.status(),
    {
        &self.metadata
    }

    /// The session's identifier, state and number of events, and the
    /// sub-agent's status.
    pub fn session_info(&self) -> (i: SessionInfo)
        requires
            self.wf(),
        ensures
            i.session_id@ == uuid_text(self.session().session),
            i.interaction_state == self.session().state,
            i.events_generated == self.session().events.len(),
            i.agent_status == self.status(),
    {
        SessionInfo {
            session_id: owned(self.agent.session_id()),
            interaction_state: self.agent.interaction_state().clone(),
            events_generated: self.agent.get_events().len(),
            agent_status: copy_status(&self.metadata.status),
        }
    }
}

impl Default for NetworkTopologySubAgent {
    /// A sub-agent with a new session, ready.
    fn default() -> (s: Self)
        ensures
            s.wf(),
            s.session().events.len() == 0,
            s.status() == SubAgentStatus::Ready,
    {
        Self::new()
    }
}

/// A request for a task, under the text of a fresh random UUID and with no
/// context.
pub fn create_subagent_request(task: SubAgentTask) -> (r: SubAgentRequest)
    ensures
        exists|v: u128| r.request_id@ == #[trigger] uuid_text(v),
        r.task == task,
        r.context@.len() == 0,
{
    SubAgentRequest { request_id: uuid_to_string(fresh_uuid_v4()), task, context: Vec::new() }
}

/// A request to build a topology, with initial parameters when any is
/// given.
pub fn create_build_topology_request(
    base_network: Option<String>,
    target_environment: Option<String>,
    scale: Option<String>,
    use_case: Option<String>,
) -> (r: SubAgentRequest)
    ensures
        exists|v: u128| r.request_id@ == #[trigger] uuid_text(v),
        r.context@.len() == 0,
        match r.task {
            SubAgentTask::BuildTopology { initial_params } =>
                (initial_params is Some <==> (base_network is Some || target_environment is Some || scale is Some || use_case is Some))
                && (initial_params is Some ==> initial_params.unwrap()
                    == (InitialTopologyParams { base_network, target_environment, scale, use_case })),
            _ => false,
        },
{
    let initial_params = initial_topology_params(base_network, target_environment, scale, use_case);
    create_subagent_request(SubAgentTask::BuildTopology { initial_params })
}

} // verus!

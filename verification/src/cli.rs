//! The command line of the topology builder: the help text, how a
//! response is shown, and what a typed line prints. Reading lines and
//! printing are the application's part.

use vstd::prelude::*;
use crate::params::same_text;
use crate::agents::{CliAction, TopologySummary, process_input, cli_ok};
use crate::errors::NetworkError;
use crate::text::{dec, owned, push_str, push_dec};
use crate::topology_builder::{NetworkTopologyBuilderAgent, AgentResponse, BuilderView, command_outcome, texts};
use crate::ids::{CorrelationId, CausationId};

verus! {

/// The help text, as printed.
pub const HELP_TEXT: &'static str = "📖 Available Commands:\n======================\n\n🏢 Adding Locations:\n  add-datacenter <id> <name> <region> [az]\n  add-office <id> <name> <address> <size>\n  add-cloud <id> <provider> <region>\n  add-segment <id> <name> <subnet> [vlan]\n\n🔗 Adding Connections:\n  connect-fiber <from> <to> <bandwidth> [redundant]\n  connect-vpn <from> <to> <protocol> [encrypted]\n  connect-internet <from> <to> <bandwidth> <provider>\n\n📋 Management:\n  list, ls                    - Show current topology\n  validate, check             - Validate topology\n  generate <format>           - Generate config (nixos, terraform, etc.)\n  remove-location <id>        - Remove a location\n  remove-connection <from> <to> - Remove a connection\n  reset, clear                - Start over\n  complete, done              - Finish and save topology\n  help, h                     - Show this help\n  quit, exit                  - Exit the program\n\n📝 Examples:\n  add-datacenter dc1 \"Primary DC\" us-west-1\n  add-office office1 \"HQ\" \"123 Main St\" large\n  connect-fiber dc1 office1 10Gbps redundant\n  generate nixos\n\n";

/// The lines of a list of texts, each as `prefix` and the text.
pub open spec fn bullet_lines(items: Seq<Seq<char>>, prefix: Seq<char>) -> Seq<char>
    decreases items.len(),
{
    if items.len() == 0 {
        Seq::empty()
    } else {
        bullet_lines(items.drop_last(), prefix) + prefix + items.last() + "\n"@
    }
}

/// The lines describing the locations of a summary.
pub open spec fn location_lines(ls: Seq<(String, String)>) -> Seq<char>
    decreases ls.len(),
{
    if ls.len() == 0 {
        Seq::empty()
    } else {
        location_lines(ls.drop_last()) + "    - "@ + ls.last().0@ + ": "@ + ls.last().1@ + "\n"@
    }
}

/// The summary part of a shown response.
pub open spec fn summary_text(s: TopologySummary) -> Seq<char> {
    if s.location_count > 0 || s.connection_count > 0 {
        "\n📊 Topology Summary:\n  Locations: "@ + dec(s.location_count as nat) + "\n  Connections: "@
            + dec(s.connection_count as nat) + "\n"@
            + (if s.locations@.len() > 0 { "  📍 Locations:\n"@ + location_lines(s.locations@) } else { Seq::empty() })
            + (if s.connections@.len() > 0 {
                "  🔗 Connections:\n"@ + bullet_lines(s.connections@.map_values(|c: crate::agents::ConnectionSummary|
                    connection_line(c)), "    - "@)
            } else {
                Seq::empty()
            })
    } else {
        Seq::empty()
    }
}

/// A response as the command line shows it: the message, the summary when
/// anything is counted, the suggested actions and the number of events.
pub open spec fn response_display(r: AgentResponse) -> Seq<char> {
    r.message@ + "\n"@ + summary_text(r.topology_summary)
        + (if r.suggested_actions@.len() > 0 {
            "\n💡 Suggested actions:\n"@ + bullet_lines(texts(r.suggested_actions@), "  • "@)
        } else {
            Seq::empty()
        })
        + (if r.events@.len() > 0 { "\n📝 Generated "@ + dec(r.events@.len() as nat) + " event(s)\n"@ } else { Seq::empty() })
        + "\n"@
}

/// The line of a connection in a summary.
pub open spec fn connection_line(c: crate::agents::ConnectionSummary) -> Seq<char> {
    c.from@ + " → "@ + c.to@ + " ("@ + c.connection_type@ + "): "@ + c.details@
}

fn location_lines_string(ls: &Vec<(String, String)>) -> (s: String)
    ensures
        s@ == location_lines(ls@),
{
    let mut s = String::new();
    let mut k: usize = 0;
    while k < ls.len()
        invariant
            k <= ls@.len(),
            s@ == location_lines(ls@.take(k as int)),
        decreases ls@.len() - k,
    {
        assert(ls@.take(k + 1).drop_last() =~= ls@.take(k as int));
        push_str(&mut s, "    - ");
        push_str(&mut s, ls[k].0.as_str());
        push_str(&mut s, ": ");
        push_str(&mut s, ls[k].1.as_str());
        push_str(&mut s, "\n");
        assert(s@ =~= location_lines(ls@.take(k + 1)));
        k = k + 1;
    }
    assert(ls@.take(ls@.len() as int) =~= ls@);
    s
}

fn connection_lines_string(cs: &Vec<crate::agents::ConnectionSummary>) -> (s: String)
    ensures
        s@ == bullet_lines(cs@.map_values(|c: crate::agents::ConnectionSummary| connection_line(c)), "    - "@),
{
    let ghost items = cs@.map_values(|c: crate::agents::ConnectionSummary| connection_line(c));
    let mut s = String::new();
    let mut k: usize = 0;
    while k < cs.len()
        invariant
            k <= cs@.len(),
            items == cs@.map_values(|c: crate::agents::ConnectionSummary| connection_line(c)),
            s@ == bullet_lines(items.take(k as int), "    - "@),
        decreases cs@.len() - k,
    {
        assert(items.take(k + 1).drop_last() =~= items.take(k as int));
        let c = &cs[k];
        push_str(&mut s, "    - ");
        push_str(&mut s, c.from.as_str());
        push_str(&mut s, " → ");
        push_str(&mut s, c.to.as_str());
        push_str(&mut s, " (");
        push_str(&mut s, c.connection_type.as_str());
        push_str(&mut s, "): ");
        push_str(&mut s, c.details.as_str());
        push_str(&mut s, "\n");
        assert(s@ =~= bullet_lines(items.take(k + 1), "    - "@));
        k = k + 1;
    }
    assert(items.take(items.len() as int) =~= items);
    s
}

fn action_lines_string(v: &Vec<String>) -> (s: String)
    ensures
        s@ == bullet_lines(texts(v@), "  • "@),
{
    let ghost items = texts(v@);
    let mut s = String::new();
    let mut k: usize = 0;
    while k < v.len()
        invariant
            k <= v@.len(),
            items == texts(v@),
            s@ == bullet_lines(items.take(k as int), "  • "@),
        decreases v@.len() - k,
    {
        assert(items.take(k + 1).drop_last() =~= items.take(k as int));
        push_str(&mut s, "  • ");
        push_str(&mut s, v[k].as_str());
        push_str(&mut s, "\n");
        assert(s@ =~= bullet_lines(items.take(k + 1), "  • "@));
        k = k + 1;
    }
    assert(items.take(items.len() as int) =~= items);
    s
}

fn summary_string(sum: &TopologySummary) -> (s: String)
    ensures
        s@ == summary_text(*sum),
{
    let mut s = String::new();
    if sum.location_count > 0 || sum.connection_count > 0 {
        push_str(&mut s, "\n📊 Topology Summary:\n  Locations: ");
        push_dec(&mut s, sum.location_count as u64);
        push_str(&mut s, "\n  Connections: ");
        push_dec(&mut s, sum.connection_count as u64);
        push_str(&mut s, "\n");
        if sum.locations.len() > 0 {
            push_str(&mut s, "  📍 Locations:\n");
            push_str(&mut s, location_lines_string(&sum.locations).as_str());
        }
        if sum.connections.len() > 0 {
            push_str(&mut s, "  🔗 Connections:\n");
            push_str(&mut s, connection_lines_string(&sum.connections).as_str());
        }
    }
    assert(s@ =~= summary_text(*sum));
    s
}

/// A response as the command line shows it.
pub fn display_response(r: &AgentResponse) -> (s: String)
    ensures
        s@ == response_display(*r),
{
    let mut s = r.message.clone();
    push_str(&mut s, "\n");
    push_str(&mut s, summary_string(&r.topology_summary).as_str());
    if r.suggested_actions.len() > 0 {
        push_str(&mut s, "\n💡 Suggested actions:\n");
        push_str(&mut s, action_lines_string(&r.suggested_actions).as_str());
    }
    if r.events.len() > 0 {
        push_str(&mut s, "\n📝 Generated ");
        push_dec(&mut s, r.events.len() as u64);
        push_str(&mut s, " event(s)\n");
    }
    push_str(&mut s, "\n");
    assert(s@ =~= response_display(*r));
    s
}

/// What the command line prints for a typed line, as `process_input`
/// reads it.
pub open spec fn line_outcome(
    old: BuilderView,
    new: BuilderView,
    action: CliAction,
    input: Seq<char>,
    r: Result<String, NetworkError>,
) -> bool {
    match action {
        CliAction::Help => new == old && r is Ok && r.unwrap()@ == HELP_TEXT@,
        CliAction::Command(cmd) => exists|corr: CorrelationId, cause: CausationId, a: AgentResponse| {
            &&& #[trigger] command_outcome(old, new, cmd, corr, cause, Ok(a))
            &&& r is Ok && r.unwrap()@ == response_display(a)
        },
        CliAction::Message(m) => new == old && r is Ok && r.unwrap()@ == m@ + "\n"@,
        CliAction::Unknown(_) => new == old && r is Ok
            && r.unwrap()@ == "❓ Unknown command: '"@ + input + "'\nType 'help' for available commands.\n\n"@,
    }
}

/// The command line of a building session.
#[derive(Debug)]
pub struct NetworkTopologyCLI {
    agent: NetworkTopologyBuilderAgent,
}

impl NetworkTopologyCLI {
    /// The session behind the command line.
    pub closed spec fn session(&self) -> BuilderView {
        self.agent@
    }

    /// The session is well formed.
    pub closed spec fn wf(&self) -> bool {
        self.agent.wf()
    }

    /// A command line on a new session.
    pub fn new() -> (c: Self)
        ensures
            c.wf(),
            c.session().events.len() == 0,
    {
        NetworkTopologyCLI { agent: NetworkTopologyBuilderAgent::new() }
    }

    /// Runs a typed line (already trimmed) and gives what it prints; fails
    /// as reading the line fails.
    pub fn process_line(&mut self, input: &str) -> (r: Result<String, NetworkError>)
        requires
            old(self).wf(),
        ensures
            final(self).wf(),
            exists|a: Result<CliAction, NetworkError>| #[trigger] cli_ok(a, input@) && match a {
                Err(e) => final(self).session() == old(self).session() && r == Err::<String, NetworkError>(e),
                Ok(action) => line_outcome(old(self).session(), final(self).session(), action, input@, r),
            },
    {
        let action = process_input(input);
        match action {
            Err(e) => Err(e),
            Ok(CliAction::Help) => Ok(owned(HELP_TEXT)),
            Ok(CliAction::Command(cmd)) => {
                match self.agent.process_command(cmd) {
                    Ok(a) => Ok(display_response(&a)),
                    Err(e) => Err(e),
                }
            }
            Ok(CliAction::Message(m)) => {
                let mut s = m;
                push_str(&mut s, "\n");
                Ok(s)
            }
            Ok(CliAction::Unknown(_)) => {
                let mut s = owned("❓ Unknown command: '");
                push_str(&mut s, input);
                push_str(&mut s, "'\nType 'help' for available commands.\n\n");
                Ok(s)
            }
        }
    }
}

/// Whether a typed line (already trimmed) ends the session: `quit` or
/// `exit`.
pub fn is_exit_command(input: &str) -> (r: bool)
    ensures
        r == (input@ == "quit"@ || input@ == "exit"@),
{
    same_text(input, "quit") || same_text(input, "exit")
}

impl Default for NetworkTopologyCLI {
    /// A command line on a new session.
    fn default() -> (c: Self)
        ensures
            c.wf(),
            c.session().events.len() == 0,
    {
        Self::new()
    }
}

} // verus!

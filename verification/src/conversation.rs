//! What the state machine does with whole datagrams: theorems about the
//! agent's actions from the arrival of a datagram until it asks for the next.

use vstd::prelude::*;
use crate::addressing::{
    begins_plainly, lemma_discovery_stands_alone, lemma_empty_payload_matches_nothing,
    lemma_info_mutation_comes_last, lemma_interfaces_query_for_another,
    lemma_interfaces_query_stands_alone, lemma_shell_command_comes_first, no_separator,
    theorem_interfaces_query_reaches_named_node,
};
use crate::agent::{ActionModel, AgentModel, EventModel, Waiting};
use crate::command::{
    discovery_word, info_keyword, info_part, interfaces_keyword, matched_commands, separator,
    shell_keyword, shell_part, shell_payload, CommandModel,
};
use crate::datagram::{text_of, utf8_lossy};
use crate::identity::SystemIdentityModel;
use crate::interfaces::{interface_lines, InterfaceListingModel};
use crate::shell::{shell_lines, ShellOutcomeModel};
use crate::text::split_on;

verus! {

/// The actions the agent takes when it is told `events`, one after another.
pub open spec fn actions_of(agent: AgentModel, events: Seq<EventModel>) -> Seq<ActionModel>
    decreases events.len(),
{
    if events.len() == 0 {
        seq![]
    } else {
        seq![agent.step(events[0]).1] + actions_of(agent.step(events[0]).0, events.skip(1))
    }
}

/// The state the agent is in after it has been told `events`.
pub open spec fn state_after(agent: AgentModel, events: Seq<EventModel>) -> AgentModel
    decreases events.len(),
{
    if events.len() == 0 {
        agent
    } else {
        state_after(agent.step(events[0]).0, events.skip(1))
    }
}

/// Each of `events` is what the agent is waiting for when it is told.
pub open spec fn each_expected(agent: AgentModel, events: Seq<EventModel>) -> bool
    decreases events.len(),
{
    events.len() == 0 || (agent.expects(events[0]) && each_expected(
        agent.step(events[0]).0,
        events.skip(1),
    ))
}

/// One for a broadcast, nothing for any other action.
pub open spec fn broadcast_count(action: ActionModel) -> nat {
    if action is Broadcast {
        1
    } else {
        0
    }
}

/// How many of `actions` are broadcasts.
pub open spec fn broadcasts_in(actions: Seq<ActionModel>) -> nat
    decreases actions.len(),
{
    if actions.len() == 0 {
        0
    } else {
        broadcast_count(actions[0]) + broadcasts_in(actions.skip(1))
    }
}

/// None of `events` is the arrival of a datagram.
pub open spec fn no_datagram(events: Seq<EventModel>) -> bool {
    forall|i: int| 0 <= i < events.len() ==> !(events[i] is Datagram)
}

/// The broadcasts the agent still owes for the datagram it is working on: one
/// for each pending command, and one more while it waits for the host.
pub open spec fn broadcasts_due(agent: AgentModel) -> nat {
    match agent.waiting {
        Waiting::Datagram => 0,
        Waiting::Sent => agent.pending.len(),
        _ => agent.pending.len() + 1,
    }
}

/// Every step leads from a well-formed state to a well-formed state.
pub proof fn lemma_step_keeps_wf(agent: AgentModel, event: EventModel)
    requires
        agent.wf(),
    ensures
        agent.step(event).0.wf(),
        agent.step(event).0.introduction == agent.introduction,
        agent.step(event).0.config.node_name == agent.config.node_name,
{
}

/// Taking up a command pays for itself: the broadcast it causes at once, if
/// any, and those due afterwards make one for each command that was pending.
proof fn lemma_take_up_due(agent: AgentModel)
    ensures
        broadcast_count(agent.take_up().1) + broadcasts_due(agent.take_up().0)
            == agent.pending.len(),
{
}

/// From any state on, if the agent is told only what it expects, no datagram
/// among it, until it asks for a datagram again, it broadcasts exactly what
/// was due.
proof fn lemma_broadcasts_due(agent: AgentModel, events: Seq<EventModel>)
    requires
        agent.wf(),
        no_datagram(events),
        each_expected(agent, events),
        state_after(agent, events).waiting == Waiting::Datagram,
    ensures
        broadcasts_in(actions_of(agent, events)) == broadcasts_due(agent),
    decreases events.len(),
{
    if events.len() > 0 {
        let event = events[0];
        let next = agent.step(event).0;
        let action = agent.step(event).1;
        let rest = events.skip(1);
        lemma_step_keeps_wf(agent, event);
        assert(no_datagram(rest)) by {
            assert forall|i: int| 0 <= i < rest.len() implies !(rest[i] is Datagram) by {
                assert(rest[i] == events[i + 1]);
            }
        }
        lemma_broadcasts_due(next, rest);
        let actions = actions_of(agent, events);
        assert(actions[0] == action);
        assert(actions.skip(1) =~= actions_of(next, rest));
        if event is Sent {
            lemma_take_up_due(agent);
        }
    }
}

/// Each command a datagram matches gets a broadcast of its own: from the
/// arrival of the datagram until the agent asks for the next one, it
/// broadcasts as often as the text matched, whatever the host answers in
/// between.
pub proof fn theorem_one_broadcast_for_each_match(
    agent: AgentModel,
    datagram: Seq<u8>,
    answers: Seq<EventModel>,
)
    requires
        agent.wf(),
        agent.idle(),
        no_datagram(answers),
        each_expected(agent, seq![EventModel::Datagram(datagram)] + answers),
        state_after(agent, seq![EventModel::Datagram(datagram)] + answers).idle(),
    ensures
        broadcasts_in(actions_of(agent, seq![EventModel::Datagram(datagram)] + answers))
            == matched_commands(text_of(datagram), agent.config.node_name).len(),
{
    let arrival = EventModel::Datagram(datagram);
    let events = seq![arrival] + answers;
    let next = agent.step(arrival).0;
    let action = agent.step(arrival).1;
    assert(events[0] == arrival);
    assert(events.skip(1) =~= answers);
    lemma_step_keeps_wf(agent, arrival);
    lemma_broadcasts_due(next, answers);
    let received = AgentModel {
        pending: matched_commands(text_of(datagram), agent.config.node_name),
        ..agent
    };
    lemma_take_up_due(received);
    let actions = actions_of(agent, events);
    assert(actions[0] == action);
    assert(actions.skip(1) =~= actions_of(next, answers));
}

/// The discovery word is answered at once, with the seven lines of the
/// introduction, whatever the node is called and whatever else it is
/// configured with.
pub proof fn theorem_discovery_is_answered(agent: AgentModel)
    requires
        agent.wf(),
        agent.idle(),
    ensures
        agent.receive(discovery_word()) == (
            agent.sending(),
            agent.broadcast(agent.introduction),
        ),
        agent.introduction.len() == 7,
{
    lemma_discovery_stands_alone(agent.config.node_name);
    let commands = matched_commands(discovery_word(), agent.config.node_name);
    assert(commands.skip(1) =~= agent.pending);
}

/// A text that matches none of the four rules causes no broadcast: the agent
/// stays as it is and asks for the next datagram.
pub proof fn theorem_unmatched_text_is_ignored(agent: AgentModel, text: Seq<char>)
    requires
        agent.idle(),
        matched_commands(text, agent.config.node_name).len() == 0,
    ensures
        agent.receive(text) == (agent, ActionModel::Receive),
{
    assert(matched_commands(text, agent.config.node_name) =~= agent.pending);
}

/// An interfaces query that names the node makes the agent ask the host for
/// its interfaces, and the listing it is told is broadcast line by line.
pub proof fn theorem_interfaces_query_is_enumerated(
    agent: AgentModel,
    listing: InterfaceListingModel,
)
    requires
        agent.idle(),
        agent.config.addressable(),
    ensures
        ({
            let asking = AgentModel { waiting: Waiting::Interfaces, ..agent };
            &&& agent.receive(interfaces_keyword() + agent.config.node_name) == (
                asking,
                ActionModel::Enumerate,
            )
            &&& asking.step(EventModel::Interfaces(listing)) == (
                agent.sending(),
                agent.broadcast(interface_lines(listing)),
            )
        }),
{
    let name = agent.config.node_name;
    let text = interfaces_keyword() + name;
    theorem_interfaces_query_reaches_named_node(name);
    lemma_interfaces_query_stands_alone(text, name);
    assert(matched_commands(text, name).skip(1) =~= agent.pending);
}

/// An interfaces query that names another node is no interfaces query for
/// this one: the host is not asked. Nothing at all comes of it, unless this
/// node is called `ips` and the text is a shell command or an info mutation
/// for it.
pub proof fn theorem_interfaces_query_for_another_is_ignored(
    agent: AgentModel,
    other: Seq<char>,
)
    requires
        agent.idle(),
        other != agent.config.node_name,
    ensures
        ({
            let name = agent.config.node_name;
            let text = interfaces_keyword() + other;
            &&& matched_commands(text, name) == shell_part(text, name) + info_part(text, name)
            &&& name != "ips"@ ==> agent.receive(text) == (agent, ActionModel::Receive)
        }),
{
    let name = agent.config.node_name;
    lemma_interfaces_query_for_another(name, other);
    if name != "ips"@ {
        assert(matched_commands(interfaces_keyword() + other, name) =~= agent.pending);
    }
}

/// A shell command addressed to the node makes the agent have the command
/// line run as it was sent, and leaves the configuration as it was. The
/// outcome it is then told is broadcast: the lines of what the command wrote
/// to standard output if it succeeded, and of what it wrote to standard error
/// if it did not. With that the datagram is done, unless the node is called
/// `cmd` and the text is an info mutation for it as well, which is then taken
/// up next.
pub proof fn theorem_shell_command_is_run(
    agent: AgentModel,
    command_line: Seq<char>,
    stdout: Seq<u8>,
    stderr: Seq<u8>,
    success: bool,
)
    requires
        agent.idle(),
        agent.config.addressable(),
        no_separator(agent.config.node_name),
        begins_plainly(command_line),
    ensures
        ({
            let name = agent.config.node_name;
            let text = shell_keyword() + name + separator() + command_line;
            let running = AgentModel {
                pending: info_part(text, name),
                waiting: Waiting::Shell,
                ..agent
            };
            let outcome = ShellOutcomeModel::Exited { success, stdout, stderr };
            &&& agent.receive(text) == (running, ActionModel::Execute { command_line })
            &&& running.step(EventModel::Shell(outcome)) == (
                running.sending(),
                agent.broadcast(shell_lines(outcome)),
            )
            &&& shell_lines(outcome) == split_on(
                utf8_lossy(
                    if success {
                        stdout
                    } else {
                        stderr
                    },
                ),
                '\n',
            )
            &&& name != "cmd"@ ==> info_part(text, name).len() == 0
            &&& info_part(text, name).len() == 0 ==> running.sending().step(EventModel::Sent) == (
                agent,
                ActionModel::Receive,
            )
        }),
{
    let name = agent.config.node_name;
    let text = shell_keyword() + name + separator() + command_line;
    lemma_shell_command_comes_first(name, command_line);
    assert(matched_commands(text, name).skip(1) =~= info_part(text, name));
    if info_part(text, name).len() == 0 {
        assert(info_part(text, name) =~= agent.pending);
    }
}

/// An info mutation addressed to the node makes the text the node's new info
/// and has the configuration stored with it, changed in nothing else. Once
/// that is done the agent broadcasts the new info, cut at line feeds.
///
/// This happens at once, unless the text is a shell command for the node as
/// well, which only a node called `info` can be sent. That command is then run
/// and answered first, and the mutation follows.
pub proof fn theorem_info_mutation_is_stored(
    agent: AgentModel,
    info: Seq<char>,
    outcome: ShellOutcomeModel,
)
    requires
        agent.idle(),
        agent.config.addressable(),
        no_separator(agent.config.node_name),
        begins_plainly(info),
    ensures
        ({
            let name = agent.config.node_name;
            let text = info_keyword() + name + separator() + info;
            let changed = agent.config.with_info(info);
            let storing = AgentModel { config: changed, waiting: Waiting::Saved, ..agent };
            let store = ActionModel::Persist { config: changed };
            &&& match shell_payload(text, name) {
                None => agent.receive(text) == (storing, store),
                Some(command_line) => {
                    let running = AgentModel {
                        pending: seq![CommandModel::SetInfo { info }],
                        waiting: Waiting::Shell,
                        ..agent
                    };
                    &&& agent.receive(text) == (running, ActionModel::Execute { command_line })
                    &&& running.step(EventModel::Shell(outcome)).0.step(EventModel::Sent) == (
                        storing,
                        store,
                    )
                },
            }
            &&& name != "info"@ ==> shell_payload(text, name) is None
            &&& storing.step(EventModel::Saved) == (
                storing.sending(),
                storing.broadcast(split_on(info, '\n')),
            )
            &&& storing.sending().step(EventModel::Sent) == (
                AgentModel { config: changed, ..agent },
                ActionModel::Receive,
            )
            &&& changed.info == info
            &&& changed.node_name == agent.config.node_name
            &&& changed.listen_port == agent.config.listen_port
            &&& changed.broadcast_port == agent.config.broadcast_port
        }),
{
    let name = agent.config.node_name;
    let text = info_keyword() + name + separator() + info;
    lemma_info_mutation_comes_last(name, info);
    let commands = matched_commands(text, name);
    let mutation = seq![CommandModel::SetInfo { info }];
    match shell_payload(text, name) {
        None => {
            assert(commands =~= mutation);
            assert(commands.skip(1) =~= agent.pending);
        },
        Some(command_line) => {
            assert(commands =~= seq![CommandModel::Shell { command_line }] + mutation);
            assert(commands.skip(1) =~= mutation);
            assert(mutation.skip(1) =~= agent.pending);
        },
    }
}

/// A shell command or an info mutation without a payload is ignored: nothing
/// is run, nothing is stored, nothing is sent.
pub proof fn theorem_empty_payload_is_ignored(agent: AgentModel)
    requires
        agent.idle(),
    ensures
        ({
            let name = agent.config.node_name;
            &&& agent.receive(shell_keyword() + name + separator()) == (
                agent,
                ActionModel::Receive,
            )
            &&& agent.receive(info_keyword() + name + separator()) == (
                agent,
                ActionModel::Receive,
            )
        }),
{
    let name = agent.config.node_name;
    lemma_empty_payload_matches_nothing(name);
    assert(matched_commands(shell_keyword() + name + separator(), name) =~= agent.pending);
    assert(matched_commands(info_keyword() + name + separator(), name) =~= agent.pending);
}

/// What the agent hands out for storing is its whole configuration as it
/// stands after the mutation, and an agent that is started from what was
/// stored has that configuration again: the same ports, the same name, and
/// the info that was set last.
pub proof fn theorem_stored_configuration_is_resumed(
    agent: AgentModel,
    info: Seq<char>,
    identity: SystemIdentityModel,
)
    requires
        agent.pending.len() > 0,
        agent.pending[0] == (CommandModel::SetInfo { info }),
    ensures
        ({
            let stored = agent.config.with_info(info);
            let resumed = AgentModel::initial(stored, identity);
            &&& agent.take_up().1 == ActionModel::Persist { config: stored }
            &&& agent.take_up().0.config == stored
            &&& resumed.config == stored
            &&& resumed.config.info == info
            &&& resumed.config.node_name == agent.config.node_name
            &&& resumed.config.listen_port == agent.config.listen_port
            &&& resumed.config.broadcast_port == agent.config.broadcast_port
        }),
{
}

} // verus!

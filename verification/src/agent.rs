//! The agent as a state machine. It is told what happened (an event) and says
//! what to do next (an action); whoever drives it does the receiving, the
//! running, the saving and the sending.
//!
//! A datagram is turned into the commands it matches. They are taken up one
//! at a time, in order, and each gets a broadcast of its own before the next
//! is looked at. Only when none is left does the agent ask for a datagram
//! again.

use vstd::prelude::*;
use crate::command::{classify, matched_commands, models_of, Command, CommandModel};
use crate::config::{Config, ConfigModel};
use crate::datagram::{datagram_text, text_of};
use crate::envelope::Envelope;
use crate::identity::{introduction, SystemIdentity, SystemIdentityModel};
use crate::interfaces::{interface_lines, InterfaceListing, InterfaceListingModel};
use crate::shell::{shell_lines, ShellOutcome, ShellOutcomeModel};
use crate::text::{split_lines, split_on, views_of};

verus! {

/// What the agent is waiting to be told.
#[derive(Debug, Clone, Copy, PartialEq, Eq, Structural)]
pub enum Waiting {
    /// The next datagram.
    Datagram,
    /// The host's interfaces.
    Interfaces,
    /// The outcome of a shell command.
    Shell,
    /// That the configuration has been stored.
    Saved,
    /// That the reply has been sent.
    Sent,
}

/// Something that happened outside the agent.
#[derive(Debug, PartialEq, Eq)]
pub enum Event {
    /// A datagram arrived; these are its bytes.
    Datagram(Vec<u8>),
    /// The host was asked for its interfaces.
    Interfaces(InterfaceListing),
    /// The shell command ended.
    Shell(ShellOutcome),
    /// The configuration was stored.
    Saved,
    /// The reply was sent.
    Sent,
}

pub enum EventModel {
    Datagram(Seq<u8>),
    Interfaces(InterfaceListingModel),
    Shell(ShellOutcomeModel),
    Saved,
    Sent,
}

impl View for Event {
    type V = EventModel;

    open spec fn view(&self) -> EventModel {
        match self {
            Event::Datagram(bytes) => EventModel::Datagram(bytes@),
            Event::Interfaces(listing) => EventModel::Interfaces(listing@),
            Event::Shell(outcome) => EventModel::Shell(outcome@),
            Event::Saved => EventModel::Saved,
            Event::Sent => EventModel::Sent,
        }
    }
}

/// What the agent wants done next.
#[derive(Debug, PartialEq, Eq)]
pub enum Action {
    /// Wait for the next datagram and hand it over.
    Receive,
    /// Ask the host for its interfaces and hand the listing over.
    Enumerate,
    /// Run this command line in the platform shell and hand the outcome over.
    Execute { command_line: String },
    /// Store this configuration, then say so.
    Persist { config: Config },
    /// Send this envelope to this address, then say so.
    Broadcast { envelope: Envelope, destination: String },
}

pub enum ActionModel {
    Receive,
    Enumerate,
    Execute { command_line: Seq<char> },
    Persist { config: ConfigModel },
    Broadcast { data: Seq<Seq<char>>, destination: Seq<char> },
}

impl View for Action {
    type V = ActionModel;

    open spec fn view(&self) -> ActionModel {
        match self {
            Action::Receive => ActionModel::Receive,
            Action::Enumerate => ActionModel::Enumerate,
            Action::Execute { command_line } => ActionModel::Execute {
                command_line: command_line@,
            },
            Action::Persist { config } => ActionModel::Persist { config: config@ },
            Action::Broadcast { envelope, destination } => ActionModel::Broadcast {
                data: envelope@,
                destination: destination@,
            },
        }
    }
}

/// The agent was told something it was not waiting for.
#[derive(Debug, Clone, Copy, PartialEq, Eq, Structural)]
pub struct Unexpected {
    /// What it was waiting for instead.
    pub awaited: Waiting,
}

/// The agent's state.
#[derive(Debug)]
pub struct Agent {
    config: Config,
    introduction: Vec<String>,
    pending: Vec<Command>,
    waiting: Waiting,
}

/// The agent's state as plain values.
pub struct AgentModel {
    /// The configuration as it stands now.
    pub config: ConfigModel,
    /// The lines the agent introduces itself with, fixed when it started.
    pub introduction: Seq<Seq<char>>,
    /// The commands of the current datagram that have not been taken up yet.
    pub pending: Seq<CommandModel>,
    /// What the agent is waiting for.
    pub waiting: Waiting,
}

impl AgentModel {
    /// The state an agent starts in: nothing pending, waiting for a datagram,
    /// its introduction made from the configuration and the host's identity as
    /// they are at that moment.
    pub open spec fn initial(config: ConfigModel, identity: SystemIdentityModel) -> AgentModel {
        AgentModel {
            config,
            introduction: introduction(config.node_name, config.info, identity),
            pending: Seq::empty(),
            waiting: Waiting::Datagram,
        }
    }

    /// Between datagrams: nothing pending, waiting for the next.
    pub open spec fn idle(self) -> bool {
        self.waiting == Waiting::Datagram && self.pending.len() == 0
    }

    /// What holds of every state an agent can reach: the introduction has its
    /// seven lines, and commands are pending only while a datagram is being
    /// worked on.
    pub open spec fn wf(self) -> bool {
        &&& self.introduction.len() == 7
        &&& self.waiting == Waiting::Datagram ==> self.pending.len() == 0
    }

    /// Whether `event` is what the agent is waiting for.
    pub open spec fn expects(self, event: EventModel) -> bool {
        match event {
            EventModel::Datagram(_) => self.waiting == Waiting::Datagram,
            EventModel::Interfaces(_) => self.waiting == Waiting::Interfaces,
            EventModel::Shell(_) => self.waiting == Waiting::Shell,
            EventModel::Saved => self.waiting == Waiting::Saved,
            EventModel::Sent => self.waiting == Waiting::Sent,
        }
    }

    /// The broadcast of `data`: to the broadcast address of the configuration.
    pub open spec fn broadcast(self, data: Seq<Seq<char>>) -> ActionModel {
        ActionModel::Broadcast { data, destination: self.config.broadcast_address() }
    }

    /// The state while a reply is on its way.
    pub open spec fn sending(self) -> AgentModel {
        AgentModel { waiting: Waiting::Sent, ..self }
    }

    /// Takes up the first pending command, or asks for the next datagram if
    /// none is pending.
    ///
    /// Discovery is answered at once with the introduction. An interfaces
    /// query and a shell command first need the host. An info mutation changes
    /// the configuration here and now, and has it stored before anything is
    /// sent.
    pub open spec fn take_up(self) -> (AgentModel, ActionModel) {
        if self.pending.len() == 0 {
            (AgentModel { waiting: Waiting::Datagram, ..self }, ActionModel::Receive)
        } else {
            let rest = self.pending.skip(1);
            match self.pending[0] {
                CommandModel::Discovery => (
                    AgentModel { pending: rest, waiting: Waiting::Sent, ..self },
                    self.broadcast(self.introduction),
                ),
                CommandModel::Interfaces => (
                    AgentModel { pending: rest, waiting: Waiting::Interfaces, ..self },
                    ActionModel::Enumerate,
                ),
                CommandModel::Shell { command_line } => (
                    AgentModel { pending: rest, waiting: Waiting::Shell, ..self },
                    ActionModel::Execute { command_line },
                ),
                CommandModel::SetInfo { info } => (
                    AgentModel {
                        config: self.config.with_info(info),
                        pending: rest,
                        waiting: Waiting::Saved,
                        ..self
                    },
                    ActionModel::Persist { config: self.config.with_info(info) },
                ),
            }
        }
    }

    /// What the agent does with the text of a datagram: the commands the text
    /// matches for this node become pending, and the first is taken up.
    pub open spec fn receive(self, text: Seq<char>) -> (AgentModel, ActionModel) {
        (AgentModel { pending: matched_commands(text, self.config.node_name), ..self }).take_up()
    }

    /// The state and the action that follow an event the agent expects.
    ///
    /// A datagram is decoded and received. The listing of the interfaces and
    /// the outcome of a shell command are reported line by line. Once the
    /// configuration is stored, the new info is reported, cut at line feeds.
    /// Once a reply is sent, the next pending command is taken up.
    pub open spec fn step(self, event: EventModel) -> (AgentModel, ActionModel)
        recommends
            self.expects(event),
    {
        match event {
            EventModel::Datagram(bytes) => self.receive(text_of(bytes)),
            EventModel::Interfaces(listing) => (
                self.sending(),
                self.broadcast(interface_lines(listing)),
            ),
            EventModel::Shell(outcome) => (self.sending(), self.broadcast(shell_lines(outcome))),
            EventModel::Saved => (self.sending(), self.broadcast(split_on(self.config.info, '\n'))),
            EventModel::Sent => self.take_up(),
        }
    }
}

impl View for Agent {
    type V = AgentModel;

    closed spec fn view(&self) -> AgentModel {
        AgentModel {
            config: self.config@,
            introduction: views_of(self.introduction@),
            pending: models_of(self.pending@),
            waiting: self.waiting,
        }
    }
}

impl Agent {
    /// An agent for `config` on a host with the given identity.
    pub fn new(config: Config, identity: &SystemIdentity) -> (agent: Agent)
        ensures
            agent@ == AgentModel::initial(config@, identity@),
            agent@.wf(),
            agent@.idle(),
    {
        let introduction = identity.introduce(config.node_name.as_str(), config.info.as_str());
        let agent = Agent {
            config,
            introduction,
            pending: Vec::new(),
            waiting: Waiting::Datagram,
        };
        assert(models_of(agent.pending@) =~= Seq::empty());
        agent
    }

    /// An agent for `config` on this host, whose identity it asks for.
    pub fn start(config: Config) -> (agent: Agent)
        ensures
            exists|identity: SystemIdentityModel|
                agent@ == AgentModel::initial(config@, identity),
            agent@.wf(),
            agent@.idle(),
    {
        let identity = SystemIdentity::probe();
        Agent::new(config, &identity)
    }

    /// The configuration as it stands now.
    pub fn config(&self) -> (config: &Config)
        ensures
            config@ == self@.config,
    {
        &self.config
    }

    /// The lines the agent introduces itself with.
    pub fn introduction(&self) -> (lines: &Vec<String>)
        ensures
            views_of(lines@) == self@.introduction,
    {
        &self.introduction
    }

    /// The commands that have not been taken up yet.
    pub fn pending(&self) -> (commands: &Vec<Command>)
        ensures
            models_of(commands@) == self@.pending,
    {
        &self.pending
    }

    /// What the agent is waiting for.
    pub fn waiting(&self) -> (waiting: Waiting)
        ensures
            waiting == self@.waiting,
    {
        self.waiting
    }

    /// Tells the agent what happened and returns what to do next.
    ///
    /// An event the agent is waiting for moves it on as `AgentModel::step`
    /// says. Any other event is refused and changes nothing.
    pub fn step(&mut self, event: Event) -> (result: Result<Action, Unexpected>)
        ensures
            old(self)@.expects(event@) ==> (result matches Ok(action) && (final(self)@, action@)
                == old(self)@.step(event@)),
            !old(self)@.expects(event@) ==> result == Err::<Action, Unexpected>(
                Unexpected { awaited: old(self)@.waiting },
            ) && final(self)@ == old(self)@,
            old(self)@.wf() ==> final(self)@.wf(),
    {
        let awaited = self.waiting;
        match event {
            Event::Datagram(bytes) => {
                if awaited != Waiting::Datagram {
                    return Err(Unexpected { awaited });
                }
                let text = datagram_text(bytes.as_slice());
                self.pending = classify(text.as_str(), self.config.node_name.as_str());
                Ok(self.take_up())
            },
            Event::Interfaces(listing) => {
                if awaited != Waiting::Interfaces {
                    return Err(Unexpected { awaited });
                }
                Ok(self.reply(listing.lines()))
            },
            Event::Shell(outcome) => {
                if awaited != Waiting::Shell {
                    return Err(Unexpected { awaited });
                }
                Ok(self.reply(outcome.lines()))
            },
            Event::Saved => {
                if awaited != Waiting::Saved {
                    return Err(Unexpected { awaited });
                }
                let lines = split_lines(self.config.info.as_str());
                Ok(self.reply(lines))
            },
            Event::Sent => {
                if awaited != Waiting::Sent {
                    return Err(Unexpected { awaited });
                }
                Ok(self.take_up())
            },
        }
    }

    fn reply(&mut self, lines: Vec<String>) -> (action: Action)
        ensures
            final(self)@ == old(self)@.sending(),
            action@ == old(self)@.broadcast(views_of(lines@)),
    {
        self.waiting = Waiting::Sent;
        Action::Broadcast {
            envelope: Envelope::new(lines),
            destination: self.config.broadcast_address(),
        }
    }

    fn take_up(&mut self) -> (action: Action)
        ensures
            (final(self)@, action@) == old(self)@.take_up(),
    {
        if self.pending.len() == 0 {
            self.waiting = Waiting::Datagram;
            return Action::Receive;
        }
        let command = self.pending.remove(0);
        assert(models_of(self.pending@) =~= old(self)@.pending.skip(1));
        assert(command@ == old(self)@.pending[0]);
        match command {
            Command::Discovery => {
                self.waiting = Waiting::Sent;
                Action::Broadcast {
                    envelope: Envelope::new(self.introduction.clone()),
                    destination: self.config.broadcast_address(),
                }
            },
            Command::Interfaces => {
                self.waiting = Waiting::Interfaces;
                Action::Enumerate
            },
            Command::Shell { command_line } => {
                self.waiting = Waiting::Shell;
                Action::Execute { command_line }
            },
            Command::SetInfo { info } => {
                self.config.set_info(info);
                self.waiting = Waiting::Saved;
                Action::Persist { config: self.config.clone() }
            },
        }
    }
}

} // verus!

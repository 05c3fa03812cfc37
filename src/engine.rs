//! The dialog engine: the cursor over the graph and the turn that moves it.
use vstd::prelude::*;
use crate::graph::{
    exit_id, labels_of, node_index, option_index, start_id, DialogGraph, DialogNode,
};
use crate::template::{render, PromptDecisionTemplate};
use crate::text::{strings_to_yaml, trim_whitespace, trimmed, yaml_of_strings};

verus! {

/// Where a conversation stands.
#[derive(Clone, Debug)]
pub enum DialogState {
    /// The id of the current node.
    Running(String),
    /// An exit option was taken.
    Terminated,
}

/// What a completed turn did.
#[derive(Clone, Copy, Debug, PartialEq, Eq, Structural)]
pub enum TurnOutcome {
    /// The cursor moved to the chosen option's node.
    Advanced,
    /// The answer matched no option: the same node is presented again.
    NoMatch,
    /// The chosen option leads to the exit: the conversation is over.
    Exited,
}

/// Conditions that end a run.
#[derive(Clone, Debug)]
pub enum EngineError {
    /// The cursor names a node that the graph does not hold.
    NodeNotFound(String),
    /// The classifier's response held no candidate.
    NoAnswer,
    /// The option labels could not be serialized for the prompt; the contract
    /// of `decision_prompt` shows that a list of strings always serializes.
    Serialization,
}

/// The decision a turn makes, as a function of the graph, the cursor and the
/// classifier's trimmed answer.
pub enum Transition {
    Missing,
    Stay,
    Move(Seq<char>),
    Exit,
}

pub open spec fn transition(nodes: Seq<DialogNode>, cursor: Seq<char>, answer: Seq<char>) -> Transition {
    match node_index(nodes, cursor) {
        None => Transition::Missing,
        Some(n) => {
            let options = nodes[n].options@;
            match option_index(options, answer) {
                None => Transition::Stay,
                Some(k) => if options[k].next_id@ == exit_id() {
                    Transition::Exit
                } else {
                    Transition::Move(options[k].next_id@)
                },
            }
        },
    }
}

/// How the engine's result and its state after a turn follow from the
/// decision.
pub open spec fn turn_taken(
    before: DialogEngine,
    after: DialogEngine,
    answer: Seq<char>,
    r: Result<TurnOutcome, EngineError>,
) -> bool {
    &&& after.graph == before.graph
    &&& match transition(before.graph.nodes@, before.cursor(), answer) {
        Transition::Missing => after.state == before.state && (r matches Err(
            EngineError::NodeNotFound(id),
        ) && id@ == before.cursor()),
        Transition::Stay => after.state == before.state && r == Ok::<
            TurnOutcome,
            EngineError,
        >(TurnOutcome::NoMatch),
        Transition::Move(next) => after.is_running() && after.cursor() == next && r == Ok::<
            TurnOutcome,
            EngineError,
        >(TurnOutcome::Advanced),
        Transition::Exit => after.state is Terminated && r == Ok::<TurnOutcome, EngineError>(
            TurnOutcome::Exited,
        ),
    }
}

/// A conversation over one dialog graph.
pub struct DialogEngine {
    pub graph: DialogGraph,
    pub state: DialogState,
}

impl DialogEngine {
    pub open spec fn is_running(&self) -> bool {
        self.state is Running
    }

    /// The current node's id (empty once the conversation is over).
    pub open spec fn cursor(&self) -> Seq<char> {
        match self.state {
            DialogState::Running(id) => id@,
            DialogState::Terminated => Seq::empty(),
        }
    }

    /// A conversation at the node `"start"`.
    pub fn new(graph: DialogGraph) -> (r: Self)
        ensures
            r.graph == graph,
            r.is_running(),
            r.cursor() == start_id(),
    {
        DialogEngine { graph, state: DialogState::Running(String::from_str("start")) }
    }

    /// A conversation at the node `id`.
    pub fn at(graph: DialogGraph, id: String) -> (r: Self)
        ensures
            r.graph == graph,
            r.is_running(),
            r.cursor() == id@,
    {
        DialogEngine { graph, state: DialogState::Running(id) }
    }

    pub fn is_terminated(&self) -> (r: bool)
        ensures
            r == !self.is_running(),
    {
        match &self.state {
            DialogState::Running(_) => false,
            DialogState::Terminated => true,
        }
    }

    /// The current node's id, while running.
    pub fn current_id(&self) -> (r: Option<&String>)
        ensures
            match r {
                Some(id) => self.is_running() && id@ == self.cursor(),
                None => !self.is_running(),
            },
    {
        match &self.state {
            DialogState::Running(id) => Some(id),
            DialogState::Terminated => None,
        }
    }

    /// The node under the cursor; a cursor that names no node is an error.
    pub fn current_node(&self) -> (r: Result<&DialogNode, EngineError>)
        requires
            self.is_running(),
        ensures
            match node_index(self.graph.nodes@, self.cursor()) {
                Some(i) => r == Ok::<&DialogNode, EngineError>(&self.graph.nodes@[i]),
                None => r matches Err(EngineError::NodeNotFound(id)) && id@ == self.cursor(),
            },
    {
        match &self.state {
            DialogState::Running(id) => match self.graph.lookup(id) {
                Some(node) => Ok(node),
                None => Err(EngineError::NodeNotFound(id.clone())),
            },
            DialogState::Terminated => Err(EngineError::NodeNotFound(String::new())),
        }
    }

    /// Matches the classifier's trimmed answer against the current node's
    /// labels and moves the cursor, stays, or ends the conversation.
    pub fn step(&mut self, answer: &String) -> (r: Result<TurnOutcome, EngineError>)
        requires
            old(self).is_running(),
        ensures
            turn_taken(*old(self), *final(self), answer@, r),
    {
        let next = match self.current_node() {
            Err(e) => {
                return Err(e);
            },
            Ok(node) => match node.match_option(answer) {
                None => {
                    return Ok(TurnOutcome::NoMatch);
                },
                Some(k) => node.options[k].next_id.clone(),
            },
        };
        let exit = String::from_str("exit");
        if next == exit {
            self.state = DialogState::Terminated;
            Ok(TurnOutcome::Exited)
        } else {
            self.state = DialogState::Running(next);
            Ok(TurnOutcome::Advanced)
        }
    }
    /// One turn's decision prompt: the template filled with the current
    /// node's text, its labels as a YAML sequence, and the user's input
    /// without surrounding whitespace.
    pub fn decision_prompt(&self, template: &PromptDecisionTemplate, user_input: &str) -> (r: Result<
        String,
        EngineError,
    >)
        requires
            self.is_running(),
        ensures
            match node_index(self.graph.nodes@, self.cursor()) {
                None => r matches Err(EngineError::NodeNotFound(id)) && id@ == self.cursor(),
                Some(i) => r matches Ok(p) && p@ == render(
                    template@,
                    self.graph.nodes@[i].text@,
                    yaml_of_strings(labels_of(self.graph.nodes@[i].options@)),
                    trimmed(user_input@),
                ),
            },
    {
        let node = match self.current_node() {
            Ok(node) => node,
            Err(e) => {
                return Err(e);
            },
        };
        let labels = node.labels();
        let option_list = match strings_to_yaml(&labels) {
            Ok(y) => y,
            Err(_) => {
                return Err(EngineError::Serialization);
            },
        };
        let response = trim_whitespace(user_input);
        Ok(template.format(node.text.as_str(), option_list.as_str(), response.as_str()))
    }

    /// Takes the classifier's candidates: the first one, trimmed, decides the
    /// turn; none at all is an error that leaves the state as it was.
    pub fn apply_classification(&mut self, candidates: &Vec<String>) -> (r: Result<
        TurnOutcome,
        EngineError,
    >)
        requires
            old(self).is_running(),
        ensures
            candidates@.len() == 0 ==> (r matches Err(EngineError::NoAnswer)) && *final(self)
                == *old(self),
            candidates@.len() > 0 ==> turn_taken(
                *old(self),
                *final(self),
                trimmed(candidates@[0]@),
                r,
            ),
    {
        if candidates.len() == 0 {
            return Err(EngineError::NoAnswer);
        }
        let answer = trim_whitespace(candidates[0].as_str());
        self.step(&answer)
    }
}

} // verus!

//! The selection workflow as a state machine.
//!
//! A run alternates between this module and the program around it. The
//! module names the next [`Action`]; the program performs it and reports what
//! happened as an [`Event`]; [`step`] answers with the next state and action,
//! until the action is [`Action::Finish`].

use crate::cli::Command;
use crate::cursor::{
    is_first_match, lemma_preselected_in_range, lemma_preselected_is_first_match,
    lemma_preselected_without_match, preselected, preselected_index,
};
use crate::entry::{labels, labels_of, names, names_of, ContextEntry, ContextEntryView};
use crate::invocation::{
    set_namespace, set_namespace_invocation, use_context, use_context_invocation, Invocation,
    InvocationView,
};
use crate::namespaces::{namespace_names, present_names};
use crate::outcome::{
    classify_probe_failure, exit_status, failure_message, probe_failure, Failure, FailureView,
    Outcome, OutcomeView, UNAUTHORIZED_STATUS,
};
use vstd::prelude::*;
use vstd::string::*;

verus! {

/// A single-select prompt to present.
#[derive(Debug, PartialEq, Eq)]
pub struct Prompt {
    /// The text in front of the list.
    pub message: String,
    /// The entries to choose from, in order.
    pub options: Vec<String>,
    /// The position the cursor starts on.
    pub starting_cursor: usize,
    /// Whether the list is navigated with vim keys.
    pub vim_mode: bool,
}

/// What the program is to do next.
#[derive(Debug, PartialEq, Eq)]
pub enum Action {
    /// Load the local configuration; answered by [`Event::ConfigLoaded`].
    LoadConfig,
    /// Build a cluster client and probe the cluster with it; answered by
    /// [`Event::ClientReady`], or by [`Event::ProbeFailed`] when the probe
    /// fails.
    AcquireClient,
    /// List the namespace objects of the cluster; answered by
    /// [`Event::NamespacesListed`].
    ListNamespaces,
    /// Infer the namespace in effect from the local configuration; answered
    /// by [`Event::NamespaceInferred`].
    InferNamespace,
    /// Present the prompt; answered by [`Event::Chosen`].
    Prompt(Prompt),
    /// Launch the command and wait for it; answered by
    /// [`Event::CommandExited`].
    Run(Invocation),
    /// End the run.
    Finish(Outcome),
}

/// What the pending action came to. Any action may instead be answered by
/// [`Event::Failed`].
#[derive(Debug, PartialEq, Eq)]
pub enum Event {
    /// The configuration holds these contexts, and names this one as active.
    ConfigLoaded { contexts: Vec<ContextEntry>, current: Option<String> },
    /// The cluster answered the probe.
    ClientReady,
    /// The probe failed: with this HTTP status, if the cluster answered with
    /// an API error, and with this error text.
    ProbeFailed { status: Option<u16>, message: String },
    /// The cluster lists these namespace objects, by name where they have one.
    NamespacesListed { names: Vec<Option<String>> },
    /// The configuration puts this namespace in effect.
    NamespaceInferred { namespace: String },
    /// The user confirmed the entry at this position of the prompt.
    Chosen { index: usize },
    /// The command ran and exited, with this code if it had one.
    CommandExited { code: Option<i32> },
    /// The action failed with this error.
    Failed { message: String },
}

/// Where a run stands.
#[derive(Debug, PartialEq, Eq)]
pub enum State {
    /// Waiting for the configuration.
    LoadingConfig,
    /// Waiting for the cluster client.
    AcquiringClient,
    /// Waiting for the namespace listing.
    ListingNamespaces,
    /// Waiting for the namespace in effect; holds the candidates.
    InferringNamespace { names: Vec<String> },
    /// Waiting for the user's choice among `names`, of which `current` is in
    /// effect.
    Choosing { target: Command, names: Vec<String>, current: String },
    /// Waiting for `kubectl`.
    Applying,
    /// The run is over.
    Done,
}

/// Mathematical value of a [`Prompt`].
pub struct PromptView {
    pub message: Seq<char>,
    pub options: Seq<Seq<char>>,
    pub starting_cursor: int,
    pub vim_mode: bool,
}

/// Mathematical value of an [`Action`].
pub enum ActionView {
    LoadConfig,
    AcquireClient,
    ListNamespaces,
    InferNamespace,
    Prompt(PromptView),
    Run(InvocationView),
    Finish(OutcomeView),
}

/// Mathematical value of an [`Event`].
pub enum EventView {
    ConfigLoaded { contexts: Seq<ContextEntryView>, current: Option<Seq<char>> },
    ClientReady,
    ProbeFailed { status: Option<u16>, message: Seq<char> },
    NamespacesListed { names: Seq<Option<Seq<char>>> },
    NamespaceInferred { namespace: Seq<char> },
    Chosen { index: int },
    CommandExited { code: Option<i32> },
    Failed { message: Seq<char> },
}

/// Mathematical value of a [`State`].
pub enum StateView {
    LoadingConfig,
    AcquiringClient,
    ListingNamespaces,
    InferringNamespace { names: Seq<Seq<char>> },
    Choosing { target: Command, names: Seq<Seq<char>>, current: Seq<char> },
    Applying,
    Done,
}

impl View for Prompt {
    type V = PromptView;

    open spec fn view(&self) -> PromptView {
        PromptView {
            message: self.message@,
            options: self.options.deep_view(),
            starting_cursor: self.starting_cursor as int,
            vim_mode: self.vim_mode,
        }
    }
}

impl View for Action {
    type V = ActionView;

    open spec fn view(&self) -> ActionView {
        match self {
            Action::LoadConfig => ActionView::LoadConfig,
            Action::AcquireClient => ActionView::AcquireClient,
            Action::ListNamespaces => ActionView::ListNamespaces,
            Action::InferNamespace => ActionView::InferNamespace,
            Action::Prompt(prompt) => ActionView::Prompt(prompt@),
            Action::Run(invocation) => ActionView::Run(invocation@),
            Action::Finish(outcome) => ActionView::Finish(outcome@),
        }
    }
}

impl View for Event {
    type V = EventView;

    open spec fn view(&self) -> EventView {
        match self {
            Event::ConfigLoaded { contexts, current } => EventView::ConfigLoaded {
                contexts: contexts.deep_view(),
                current: current.deep_view(),
            },
            Event::ClientReady => EventView::ClientReady,
            Event::ProbeFailed { status, message } => EventView::ProbeFailed {
                status: *status,
                message: message@,
            },
            Event::NamespacesListed { names } => EventView::NamespacesListed {
                names: names.deep_view(),
            },
            Event::NamespaceInferred { namespace } => EventView::NamespaceInferred {
                namespace: namespace@,
            },
            Event::Chosen { index } => EventView::Chosen { index: *index as int },
            Event::CommandExited { code } => EventView::CommandExited { code: *code },
            Event::Failed { message } => EventView::Failed { message: message@ },
        }
    }
}

impl View for State {
    type V = StateView;

    open spec fn view(&self) -> StateView {
        match self {
            State::LoadingConfig => StateView::LoadingConfig,
            State::AcquiringClient => StateView::AcquiringClient,
            State::ListingNamespaces => StateView::ListingNamespaces,
            State::InferringNamespace { names } => StateView::InferringNamespace {
                names: names.deep_view(),
            },
            State::Choosing { target, names, current } => StateView::Choosing {
                target: *target,
                names: names.deep_view(),
                current: current@,
            },
            State::Applying => StateView::Applying,
            State::Done => StateView::Done,
        }
    }
}

/// The first state of a run and the action it begins with.
pub open spec fn initial(command: Command) -> (StateView, ActionView) {
    match command {
        Command::PickContext => (StateView::LoadingConfig, ActionView::LoadConfig),
        Command::PickNamespace => (StateView::AcquiringClient, ActionView::AcquireClient),
    }
}

/// The end of a run in `outcome`.
pub open spec fn finished(outcome: OutcomeView) -> (StateView, ActionView) {
    (StateView::Done, ActionView::Finish(outcome))
}

/// The name of the active context: empty when the configuration names none.
pub open spec fn active_context(current: Option<Seq<char>>) -> Seq<char> {
    match current {
        Some(name) => name,
        None => Seq::empty(),
    }
}

/// The prompt over the configured contexts: one label per context, the
/// cursor on the first context that bears the active name.
pub open spec fn context_offer(contexts: Seq<ContextEntryView>, current: Option<Seq<char>>) -> (
    StateView,
    ActionView,
) {
    let names = names_of(contexts);
    let current = active_context(current);
    (
        StateView::Choosing { target: Command::PickContext, names, current },
        ActionView::Prompt(
            PromptView {
                message: "Context: "@,
                options: labels_of(contexts),
                starting_cursor: preselected(names, current),
                vim_mode: true,
            },
        ),
    )
}

/// The prompt over the namespaces of the cluster: the names themselves, the
/// cursor on the first that equals the namespace in effect.
pub open spec fn namespace_offer(names: Seq<Seq<char>>, current: Seq<char>) -> (
    StateView,
    ActionView,
) {
    (
        StateView::Choosing { target: Command::PickNamespace, names, current },
        ActionView::Prompt(
            PromptView {
                message: "Namespace: "@,
                options: names,
                starting_cursor: preselected(names, current),
                vim_mode: true,
            },
        ),
    )
}

/// The command line that applies the choice of `name`.
pub open spec fn application(target: Command, name: Seq<char>) -> InvocationView {
    match target {
        Command::PickContext => use_context(name),
        Command::PickNamespace => set_namespace(name),
    }
}

/// What follows the choice of the entry at `index`: nothing when that entry
/// is the one in effect, `kubectl` otherwise. A position outside the list
/// answers no prompt.
pub open spec fn decision(
    target: Command,
    names: Seq<Seq<char>>,
    current: Seq<char>,
    index: int,
) -> (StateView, ActionView) {
    if 0 <= index < names.len() {
        if names[index] == current {
            finished(OutcomeView::Success)
        } else {
            (StateView::Applying, ActionView::Run(application(target, names[index])))
        }
    } else {
        finished(OutcomeView::Failure(FailureView::Protocol))
    }
}

/// How the run ends once `kubectl` has exited with `code`.
pub open spec fn conclusion(code: Option<i32>) -> OutcomeView {
    if code == Some(0i32) {
        OutcomeView::Success
    } else {
        OutcomeView::Failure(FailureView::Command(code))
    }
}

/// The state and action that follow `event` in `state`.
pub open spec fn transition(state: StateView, event: EventView) -> (StateView, ActionView) {
    match (state, event) {
        (StateView::LoadingConfig, EventView::ConfigLoaded { contexts, current }) => context_offer(
            contexts,
            current,
        ),
        (StateView::LoadingConfig, EventView::Failed { message }) => finished(
            OutcomeView::Failure(FailureView::Config(message)),
        ),
        (StateView::AcquiringClient, EventView::ClientReady) => (
            StateView::ListingNamespaces,
            ActionView::ListNamespaces,
        ),
        (StateView::AcquiringClient, EventView::ProbeFailed { status, message }) => finished(
            OutcomeView::Failure(probe_failure(status, message)),
        ),
        (StateView::AcquiringClient, EventView::Failed { message }) => finished(
            OutcomeView::Failure(FailureView::Cluster(message)),
        ),
        (StateView::ListingNamespaces, EventView::NamespacesListed { names }) => (
            StateView::InferringNamespace { names: present_names(names) },
            ActionView::InferNamespace,
        ),
        (StateView::ListingNamespaces, EventView::Failed { message }) => finished(
            OutcomeView::Failure(FailureView::Cluster(message)),
        ),
        (
            StateView::InferringNamespace { names },
            EventView::NamespaceInferred { namespace },
        ) => namespace_offer(names, namespace),
        (StateView::InferringNamespace { names }, EventView::Failed { message }) => finished(
            OutcomeView::Failure(FailureView::Config(message)),
        ),
        (StateView::Choosing { target, names, current }, EventView::Chosen { index }) => decision(
            target,
            names,
            current,
            index,
        ),
        (StateView::Choosing { target, names, current }, EventView::Failed { message }) => finished(
            OutcomeView::Failure(FailureView::Prompt(message)),
        ),
        (StateView::Applying, EventView::CommandExited { code }) => finished(conclusion(code)),
        (StateView::Applying, EventView::Failed { message }) => finished(
            OutcomeView::Failure(FailureView::Launch(message)),
        ),
        _ => finished(OutcomeView::Failure(FailureView::Protocol)),
    }
}

/// Begins a run of `command`.
pub fn start(command: Command) -> (first: (State, Action))
    ensures
        (first.0@, first.1@) == initial(command),
{
    match command {
        Command::PickContext => (State::LoadingConfig, Action::LoadConfig),
        Command::PickNamespace => (State::AcquiringClient, Action::AcquireClient),
    }
}

fn finish(outcome: Outcome) -> (last: (State, Action))
    ensures
        (last.0@, last.1@) == finished(outcome@),
{
    (State::Done, Action::Finish(outcome))
}

fn copy_names(names: &Vec<String>) -> (copy: Vec<String>)
    ensures
        copy.deep_view() == names.deep_view(),
{
    let mut copy: Vec<String> = Vec::new();
    let mut i: usize = 0;
    while i < names.len()
        invariant
            0 <= i <= names.len(),
            copy.len() == i,
            forall|j: int| 0 <= j < i ==> copy@[j]@ == names@[j]@,
        decreases names.len() - i,
    {
        copy.push(names[i].clone());
        i = i + 1;
    }
    assert(copy.deep_view() =~= names.deep_view());
    copy
}

/// Prepares the prompt over the configured contexts, of which `current` is
/// the active one.
pub fn offer_contexts(contexts: &Vec<ContextEntry>, current: Option<String>) -> (next: (
    State,
    Action,
))
    ensures
        (next.0@, next.1@) == context_offer(contexts.deep_view(), current.deep_view()),
{
    let current = match current {
        Some(name) => name,
        None => String::new(),
    };
    let listed = names(contexts);
    let options = labels(contexts);
    let starting_cursor = preselected_index(&listed, &current);
    let prompt = Prompt {
        message: String::from_str("Context: "),
        options,
        starting_cursor,
        vim_mode: true,
    };
    (
        State::Choosing { target: Command::PickContext, names: listed, current },
        Action::Prompt(prompt),
    )
}

/// Prepares the prompt over the namespaces `names`, of which `current` is in
/// effect.
pub fn offer_namespaces(names: Vec<String>, current: String) -> (next: (State, Action))
    ensures
        (next.0@, next.1@) == namespace_offer(names.deep_view(), current@),
{
    let options = copy_names(&names);
    let starting_cursor = preselected_index(&names, &current);
    let prompt = Prompt {
        message: String::from_str("Namespace: "),
        options,
        starting_cursor,
        vim_mode: true,
    };
    (State::Choosing { target: Command::PickNamespace, names, current }, Action::Prompt(prompt))
}

/// Decides what follows the choice of the entry at `index` of `names`.
pub fn decide(target: Command, names: &Vec<String>, current: &String, index: usize) -> (next: (
    State,
    Action,
))
    ensures
        (next.0@, next.1@) == decision(target, names.deep_view(), current@, index as int),
{
    if index < names.len() {
        assert(names.deep_view()[index as int] == names@[index as int]@);
        if names[index] == *current {
            finish(Outcome::Success)
        } else {
            let name = names[index].clone();
            let invocation = match target {
                Command::PickContext => use_context_invocation(name),
                Command::PickNamespace => set_namespace_invocation(name),
            };
            (State::Applying, Action::Run(invocation))
        }
    } else {
        finish(Outcome::Failure(Failure::Protocol))
    }
}

/// Turns the exit of `kubectl` into the outcome of the run.
pub fn conclude(code: Option<i32>) -> (outcome: Outcome)
    ensures
        outcome@ == conclusion(code),
{
    match code {
        Some(0) => Outcome::Success,
        _ => Outcome::Failure(Failure::Command(code)),
    }
}

/// Advances a run: takes the state it stands in and the event that answers
/// the pending action, and gives the next state and the next action.
pub fn step(state: State, event: Event) -> (next: (State, Action))
    ensures
        (next.0@, next.1@) == transition(state@, event@),
{
    match state {
        State::LoadingConfig => match event {
            Event::ConfigLoaded { contexts, current } => offer_contexts(&contexts, current),
            Event::Failed { message } => finish(Outcome::Failure(Failure::Config(message))),
            _ => finish(Outcome::Failure(Failure::Protocol)),
        },
        State::AcquiringClient => match event {
            Event::ClientReady => (State::ListingNamespaces, Action::ListNamespaces),
            Event::ProbeFailed { status, message } => finish(
                Outcome::Failure(classify_probe_failure(status, message)),
            ),
            Event::Failed { message } => finish(Outcome::Failure(Failure::Cluster(message))),
            _ => finish(Outcome::Failure(Failure::Protocol)),
        },
        State::ListingNamespaces => match event {
            Event::NamespacesListed { names } => (
                State::InferringNamespace { names: namespace_names(&names) },
                Action::InferNamespace,
            ),
            Event::Failed { message } => finish(Outcome::Failure(Failure::Cluster(message))),
            _ => finish(Outcome::Failure(Failure::Protocol)),
        },
        State::InferringNamespace { names } => match event {
            Event::NamespaceInferred { namespace } => offer_namespaces(names, namespace),
            Event::Failed { message } => finish(Outcome::Failure(Failure::Config(message))),
            _ => finish(Outcome::Failure(Failure::Protocol)),
        },
        State::Choosing { target, names, current } => match event {
            Event::Chosen { index } => decide(target, &names, &current, index),
            Event::Failed { message } => finish(Outcome::Failure(Failure::Prompt(message))),
            _ => finish(Outcome::Failure(Failure::Protocol)),
        },
        State::Applying => match event {
            Event::CommandExited { code } => finish(conclude(code)),
            Event::Failed { message } => finish(Outcome::Failure(Failure::Launch(message))),
            _ => finish(Outcome::Failure(Failure::Protocol)),
        },
        State::Done => finish(Outcome::Failure(Failure::Protocol)),
    }
}

/// The prompt over contexts lists one label per context and starts on the
/// first context that bears the active name, or at the top when no context
/// does. The cursor lies inside the list whenever the list has an entry.
pub proof fn lemma_context_prompt_starts_on_active(
    contexts: Seq<ContextEntryView>,
    current: Option<Seq<char>>,
)
    ensures
        transition(
            StateView::LoadingConfig,
            EventView::ConfigLoaded { contexts, current },
        ).1 matches ActionView::Prompt(prompt) && {
            let active = active_context(current);
            &&& prompt.options.len() == contexts.len()
            &&& forall|i: int|
                0 <= i < contexts.len() ==> prompt.options[i] == #[trigger] contexts[i].label()
            &&& forall|i: int|
                0 <= i < contexts.len() && #[trigger] contexts[i].name == active && (forall|j: int|
                    0 <= j < i ==> contexts[j].name != active) ==> prompt.starting_cursor == i
            &&& (forall|i: int| 0 <= i < contexts.len() ==> contexts[i].name != active)
                ==> prompt.starting_cursor == 0
            &&& contexts.len() > 0 ==> 0 <= prompt.starting_cursor < prompt.options.len()
        },
{
    let names = names_of(contexts);
    let active = active_context(current);
    lemma_preselected_in_range(names, active);
    assert forall|i: int|
        0 <= i < contexts.len() && #[trigger] contexts[i].name == active && (forall|j: int|
            0 <= j < i ==> contexts[j].name != active) implies preselected(names, active) == i by {
        assert(is_first_match(names, active, i));
        lemma_preselected_is_first_match(names, active, i);
    }
    if forall|i: int| 0 <= i < contexts.len() ==> contexts[i].name != active {
        lemma_preselected_without_match(names, active);
    }
}

/// The prompt over namespaces lists the names as they are and starts on the
/// first that equals the namespace in effect, or at the top when none does.
/// The cursor lies inside the list whenever the list has an entry.
pub proof fn lemma_namespace_prompt_starts_on_current(names: Seq<Seq<char>>, current: Seq<char>)
    ensures
        transition(
            StateView::InferringNamespace { names },
            EventView::NamespaceInferred { namespace: current },
        ).1 matches ActionView::Prompt(prompt) && {
            &&& prompt.options == names
            &&& forall|i: int|
                0 <= i < names.len() && #[trigger] names[i] == current && (forall|j: int|
                    0 <= j < i ==> names[j] != current) ==> prompt.starting_cursor == i
            &&& (forall|i: int| 0 <= i < names.len() ==> names[i] != current)
                ==> prompt.starting_cursor == 0
            &&& names.len() > 0 ==> 0 <= prompt.starting_cursor < prompt.options.len()
        },
{
    lemma_preselected_in_range(names, current);
    assert forall|i: int|
        0 <= i < names.len() && #[trigger] names[i] == current && (forall|j: int|
            0 <= j < i ==> names[j] != current) implies preselected(names, current) == i by {
        assert(is_first_match(names, current, i));
        lemma_preselected_is_first_match(names, current, i);
    }
    if forall|i: int| 0 <= i < names.len() ==> names[i] != current {
        lemma_preselected_without_match(names, current);
    }
}

/// Confirming the entry that is already in effect ends the run at once, with
/// success and exit status zero; `kubectl` is not launched.
pub proof fn lemma_choosing_current_changes_nothing(
    target: Command,
    names: Seq<Seq<char>>,
    current: Seq<char>,
    index: int,
)
    requires
        0 <= index < names.len(),
        names[index] == current,
    ensures
        transition(StateView::Choosing { target, names, current }, EventView::Chosen { index })
            == finished(OutcomeView::Success),
        exit_status(OutcomeView::Success) == 0,
{
}

/// Confirming another entry launches `kubectl` with the arguments that apply
/// that entry: `config use-context <name>` for a context, and
/// `config set-context --current --namespace <name>` for a namespace.
pub proof fn lemma_choosing_other_runs_kubectl(
    target: Command,
    names: Seq<Seq<char>>,
    current: Seq<char>,
    index: int,
)
    requires
        0 <= index < names.len(),
        names[index] != current,
    ensures
        transition(StateView::Choosing { target, names, current }, EventView::Chosen { index }) == (
            StateView::Applying,
            ActionView::Run(application(target, names[index])),
        ),
        application(target, names[index]).program == "kubectl"@,
        target == Command::PickContext ==> application(target, names[index]).args == seq![
            "config"@,
            "use-context"@,
            names[index],
        ],
        target == Command::PickNamespace ==> application(target, names[index]).args == seq![
            "config"@,
            "set-context"@,
            "--current"@,
            "--namespace"@,
            names[index],
        ],
{
}

/// Once `kubectl` has exited the run is over, and it succeeds exactly when
/// `kubectl` exited with status zero. The exit status of the run is the exit
/// code of `kubectl` where it had one, and not zero where it had none.
pub proof fn lemma_exit_status_follows_kubectl(code: Option<i32>)
    ensures
        transition(StateView::Applying, EventView::CommandExited { code }) == finished(
            conclusion(code),
        ),
        conclusion(code) is Success <==> code == Some(0i32),
        exit_status(conclusion(code)) == 0 <==> code == Some(0i32),
        code matches Some(status) ==> exit_status(conclusion(code)) == status,
        code is None ==> exit_status(conclusion(code)) != 0,
{
}

/// A probe that the cluster refuses for want of authentication ends the run
/// in a failure of its own, whose message does not depend on the error that
/// the client reported; the exit status is not zero and `kubectl` is not
/// launched. Any other probe error is passed on word for word.
pub proof fn lemma_unauthorized_probe_is_told_apart(status: Option<u16>, message: Seq<char>)
    ensures
        status == Some(UNAUTHORIZED_STATUS) ==> transition(
            StateView::AcquiringClient,
            EventView::ProbeFailed { status, message },
        ) == finished(OutcomeView::Failure(FailureView::Unauthorized)),
        status != Some(UNAUTHORIZED_STATUS) ==> transition(
            StateView::AcquiringClient,
            EventView::ProbeFailed { status, message },
        ) == finished(OutcomeView::Failure(FailureView::Cluster(message))),
        failure_message(FailureView::Cluster(message)) == message,
        failure_message(FailureView::Unauthorized)
            == "Unauthorized - are you logged in on the cluster?"@,
        exit_status(OutcomeView::Failure(probe_failure(status, message))) != 0,
{
}

/// A prompt that fails, or that the user cancels, ends the run in a failure
/// that carries the error of the prompt; the exit status is not zero and
/// `kubectl` is not launched.
pub proof fn lemma_failed_prompt_ends_run(
    target: Command,
    names: Seq<Seq<char>>,
    current: Seq<char>,
    message: Seq<char>,
)
    ensures
        transition(StateView::Choosing { target, names, current }, EventView::Failed { message })
            == finished(OutcomeView::Failure(FailureView::Prompt(message))),
        failure_message(FailureView::Prompt(message)) == message,
        exit_status(OutcomeView::Failure(FailureView::Prompt(message))) != 0,
{
}

/// `kubectl` is launched in one situation only: the user confirmed an entry
/// of the prompt that differs from the one in effect. The command line is
/// then the one that applies that entry.
pub proof fn lemma_kubectl_runs_only_for_a_new_choice(state: StateView, event: EventView)
    requires
        transition(state, event).1 is Run,
    ensures
        state matches StateView::Choosing { target, names, current } && event matches EventView::Chosen {
            index,
        } && {
            &&& 0 <= index < names.len()
            &&& names[index] != current
            &&& transition(state, event) == (
                StateView::Applying,
                ActionView::Run(application(target, names[index])),
            )
        },
{
}

/// A run is over exactly when the action is to finish, and an event that
/// arrives after the end changes nothing.
pub proof fn lemma_finish_is_final(state: StateView, event: EventView)
    ensures
        transition(state, event).0 is Done <==> transition(state, event).1 is Finish,
        state is Done ==> transition(state, event) == finished(
            OutcomeView::Failure(FailureView::Protocol),
        ),
{
}

/// The number of events a run in `state` can still take before it is over.
pub open spec fn remaining_steps(state: StateView) -> nat {
    match state {
        StateView::AcquiringClient => 5,
        StateView::ListingNamespaces => 4,
        StateView::LoadingConfig => 3,
        StateView::InferringNamespace { .. } => 3,
        StateView::Choosing { .. } => 2,
        StateView::Applying => 1,
        StateView::Done => 0,
    }
}

/// A run only moves forward: every event brings it closer to its end, so
/// nothing is ever tried a second time, and a run that begins with a
/// context is over after three events, one that begins with a namespace
/// after five.
pub proof fn lemma_every_step_advances(state: StateView, event: EventView)
    requires
        !(state is Done),
    ensures
        remaining_steps(transition(state, event).0) < remaining_steps(state),
        remaining_steps(initial(Command::PickContext).0) == 3,
        remaining_steps(initial(Command::PickNamespace).0) == 5,
{
}

/// Every failure is final: whatever action failed, the run is over, in
/// failure, and the error of the action is the message of that failure.
pub proof fn lemma_every_failure_is_final(state: StateView, message: Seq<char>)
    ensures
        transition(state, EventView::Failed { message }).0 is Done,
        transition(state, EventView::Failed { message }).1 matches ActionView::Finish(outcome)
            && outcome matches OutcomeView::Failure(failure) && (!(state is Done)
            ==> failure_message(failure) == message),
{
}

} // verus!

//! Rendering an agent's system prompt, as a series of steps.
//!
//! Each [`PromptStep`] says what is to be done next; what came of it goes into the function that
//! gives the step after it. Paths, of type `P`, and the errors of the rendering service, of type
//! `E`, are carried along unread.

use vstd::prelude::*;

verus! {

/// The agent whose prompt is rendered where none is given and none is active.
pub const DEFAULT_AGENT: &'static str = "forge";

/// What to do next.
#[derive(Debug, PartialEq, Eq)]
pub enum PromptStep<P, E> {
    /// Resolve `directory` to its canonical path.
    Canonicalize { directory: P, agent: Option<String> },
    /// Set the service up with the working directory `cwd`.
    Init { cwd: P, agent: Option<String> },
    /// Ask the service which agent is active.
    AskActiveAgent,
    /// Ask the service for the system prompt of `agent_id`.
    Render { agent_id: String },
    /// Print `text`, as it is, and end.
    Print { text: String },
    /// End with an error that says `message`.
    Fail { message: String },
    /// End with the service's own error.
    Propagate { error: E },
}

/// Why a directory could not be resolved.
#[derive(Debug, PartialEq, Eq)]
pub struct CwdError {
    /// The directory, as it is shown to a person.
    pub directory: String,
    /// The system's error, as it is shown to a person.
    pub error: String,
}

/// A [`PromptStep`] with its strings as sequences of characters.
pub enum StepView<P, E> {
    Canonicalize { directory: P, agent: Option<Seq<char>> },
    Init { cwd: P, agent: Option<Seq<char>> },
    AskActiveAgent,
    Render { agent_id: Seq<char> },
    Print { text: Seq<char> },
    Fail { message: Seq<char> },
    Propagate { error: E },
}

/// The characters of a string that may be absent.
pub open spec fn optional_view(text: Option<String>) -> Option<Seq<char>> {
    match text {
        Some(t) => Some(t@),
        None => None,
    }
}

impl<P, E> PromptStep<P, E> {
    /// The step with its strings as sequences of characters.
    pub open spec fn view(self) -> StepView<P, E> {
        match self {
            PromptStep::Canonicalize { directory, agent } => StepView::Canonicalize {
                directory,
                agent: optional_view(agent),
            },
            PromptStep::Init { cwd, agent } => StepView::Init { cwd, agent: optional_view(agent) },
            PromptStep::AskActiveAgent => StepView::AskActiveAgent,
            PromptStep::Render { agent_id } => StepView::Render { agent_id: agent_id@ },
            PromptStep::Print { text } => StepView::Print { text: text@ },
            PromptStep::Fail { message } => StepView::Fail { message: message@ },
            PromptStep::Propagate { error } => StepView::Propagate { error },
        }
    }
}

/// The message for a directory that could not be resolved.
pub open spec fn invalid_cwd_text(directory: Seq<char>, error: Seq<char>) -> Seq<char> {
    "invalid --cwd "@ + directory + ": "@ + error
}

/// The message for an agent without a system prompt.
pub open spec fn no_template_text(agent_id: Seq<char>) -> Seq<char> {
    "agent '"@ + agent_id + "' has no system_prompt template"@
}

/// The two blocks of a system prompt, with an empty line between them.
pub open spec fn merged_text(block_1: Seq<char>, block_2: Seq<char>) -> Seq<char> {
    block_1 + "\n\n"@ + block_2
}

/// The first step: a given directory is resolved before it is used, the default one is used as it
/// is.
pub open spec fn start_view<P, E>(
    directory: Option<P>,
    agent: Option<Seq<char>>,
    default_cwd: P,
) -> StepView<P, E> {
    match directory {
        Some(path) => StepView::Canonicalize { directory: path, agent },
        None => StepView::Init { cwd: default_cwd, agent },
    }
}

/// What came of resolving a directory, with the parts of an error as sequences of characters.
pub open spec fn resolved_view<P>(resolved: Result<P, CwdError>) -> Result<
    P,
    (Seq<char>, Seq<char>),
> {
    match resolved {
        Ok(path) => Ok(path),
        Err(failure) => Err((failure.directory@, failure.error@)),
    }
}

/// The step after the directory was resolved, or was not.
pub open spec fn canonicalized_view<P, E>(
    agent: Option<Seq<char>>,
    resolved: Result<P, (Seq<char>, Seq<char>)>,
) -> StepView<P, E> {
    match resolved {
        Ok(path) => StepView::Init { cwd: path, agent },
        Err(failure) => StepView::Fail { message: invalid_cwd_text(failure.0, failure.1) },
    }
}

/// The step after the service was set up: the active agent matters only where none is given.
pub open spec fn initialized_view<P, E>(agent: Option<Seq<char>>) -> StepView<P, E> {
    match agent {
        Some(agent_id) => StepView::Render { agent_id },
        None => StepView::AskActiveAgent,
    }
}

/// The step after the service was asked for the active agent.
pub open spec fn answered_view<P, E>(active: Option<Seq<char>>) -> StepView<P, E> {
    match active {
        Some(agent_id) => StepView::Render { agent_id },
        None => StepView::Render { agent_id: DEFAULT_AGENT@ },
    }
}

/// What the service answered for a prompt, with the blocks as sequences of characters.
pub open spec fn rendered_view<E>(rendered: Result<Option<(String, String)>, E>) -> Result<
    Option<(Seq<char>, Seq<char>)>,
    E,
> {
    match rendered {
        Ok(Some(blocks)) => Ok(Some((blocks.0@, blocks.1@))),
        Ok(None) => Ok(None),
        Err(error) => Err(error),
    }
}

/// The step after the service was asked for the prompt of `agent_id`.
pub open spec fn finished_view<P, E>(
    agent_id: Seq<char>,
    rendered: Result<Option<(Seq<char>, Seq<char>)>, E>,
) -> StepView<P, E> {
    match rendered {
        Ok(Some(blocks)) => StepView::Print { text: merged_text(blocks.0, blocks.1) },
        Ok(None) => StepView::Fail { message: no_template_text(agent_id) },
        Err(error) => StepView::Propagate { error },
    }
}

/// Gives the first step.
pub fn start<P, E>(directory: Option<P>, agent: Option<String>, default_cwd: P) -> (step:
    PromptStep<P, E>)
    ensures
        step@ == start_view::<P, E>(directory, optional_view(agent), default_cwd),
        directory matches Some(path) ==> step == (PromptStep::<P, E>::Canonicalize {
            directory: path,
            agent,
        }),
        directory is None ==> step == (PromptStep::<P, E>::Init { cwd: default_cwd, agent }),
{
    match directory {
        Some(path) => PromptStep::Canonicalize { directory: path, agent },
        None => PromptStep::Init { cwd: default_cwd, agent },
    }
}

/// Gives the step after [`PromptStep::Canonicalize`].
pub fn after_canonicalize<P, E>(agent: Option<String>, resolved: Result<P, CwdError>) -> (step:
    PromptStep<P, E>)
    ensures
        step@ == canonicalized_view::<P, E>(optional_view(agent), resolved_view(resolved)),
        resolved matches Ok(path) ==> step == (PromptStep::<P, E>::Init { cwd: path, agent }),
        resolved matches Err(failure) ==> {
            &&& step is Fail
            &&& step->message@ == "invalid --cwd "@ + failure.directory@ + seq![':', ' ']
                + failure.error@
        },
{
    proof {
        reveal_strlit(": ");
        assert(": "@ =~= seq![':', ' ']);
    }
    match resolved {
        Ok(path) => PromptStep::Init { cwd: path, agent },
        Err(failure) => {
            let mut message: String = "invalid --cwd ".to_owned();
            message.append(failure.directory.as_str());
            message.append(": ");
            message.append(failure.error.as_str());
            PromptStep::Fail { message }
        },
    }
}

/// Gives the step after [`PromptStep::Init`].
pub fn after_init<P, E>(agent: Option<String>) -> (step: PromptStep<P, E>)
    ensures
        step@ == initialized_view::<P, E>(optional_view(agent)),
        agent matches Some(id) ==> step == (PromptStep::<P, E>::Render { agent_id: id }),
        agent is None ==> step is AskActiveAgent,
{
    match agent {
        Some(agent_id) => PromptStep::Render { agent_id },
        None => PromptStep::AskActiveAgent,
    }
}

/// Gives the step after [`PromptStep::AskActiveAgent`].
pub fn after_active_agent<P, E>(active: Option<String>) -> (step: PromptStep<P, E>)
    ensures
        step@ == answered_view::<P, E>(optional_view(active)),
        active matches Some(id) ==> step == (PromptStep::<P, E>::Render { agent_id: id }),
        active is None ==> step is Render && step->agent_id@ == seq!['f', 'o', 'r', 'g', 'e'],
{
    proof {
        reveal_strlit("forge");
        assert(DEFAULT_AGENT@ =~= seq!['f', 'o', 'r', 'g', 'e']);
    }
    match active {
        Some(agent_id) => PromptStep::Render { agent_id },
        None => PromptStep::Render { agent_id: DEFAULT_AGENT.to_owned() },
    }
}

/// Gives the step after [`PromptStep::Render`] of the prompt of `agent_id`.
pub fn after_render<P, E>(agent_id: String, rendered: Result<Option<(String, String)>, E>) -> (step:
    PromptStep<P, E>)
    ensures
        step@ == finished_view::<P, E>(agent_id@, rendered_view(rendered)),
        rendered matches Ok(Some(blocks)) ==> {
            &&& step is Print
            &&& step->text@ == blocks.0@ + seq!['\n', '\n'] + blocks.1@
        },
        rendered matches Ok(None) ==> {
            &&& step is Fail
            &&& step->message@ == "agent '"@ + agent_id@ + "' has no system_prompt template"@
        },
        rendered matches Err(error) ==> step == (PromptStep::<P, E>::Propagate { error }),
{
    proof {
        reveal_strlit("\n\n");
        assert("\n\n"@ =~= seq!['\n', '\n']);
    }
    match rendered {
        Ok(Some((block_1, block_2))) => {
            let mut text: String = block_1;
            text.append("\n\n");
            text.append(block_2.as_str());
            PromptStep::Print { text }
        },
        Ok(None) => {
            let mut message: String = "agent '".to_owned();
            message.append(agent_id.as_str());
            message.append("' has no system_prompt template");
            PromptStep::Fail { message }
        },
        Err(error) => PromptStep::Propagate { error },
    }
}

/// How the system and the service answer in one run.
#[verifier::reject_recursive_types(P)]
pub struct Replies<P, E> {
    /// What a directory resolves to.
    pub resolve: spec_fn(P) -> Result<P, (Seq<char>, Seq<char>)>,
    /// The agent that is active in a working directory.
    pub active: Option<Seq<char>>,
    /// The prompt of an agent.
    pub render: spec_fn(Seq<char>) -> Result<Option<(Seq<char>, Seq<char>)>, E>,
}

/// The step that follows `step` where the answers are `replies`. An ended run stays ended.
pub open spec fn next_view<P, E>(step: StepView<P, E>, replies: Replies<P, E>) -> StepView<P, E> {
    match step {
        StepView::Canonicalize { directory, agent } => canonicalized_view(
            agent,
            (replies.resolve)(directory),
        ),
        StepView::Init { cwd, agent } => initialized_view(agent),
        StepView::AskActiveAgent => answered_view(replies.active),
        StepView::Render { agent_id } => finished_view(agent_id, (replies.render)(agent_id)),
        _ => step,
    }
}

/// The step that is reached from `step` after `count` answers.
pub open spec fn steps_view<P, E>(
    step: StepView<P, E>,
    replies: Replies<P, E>,
    count: nat,
) -> StepView<P, E>
    decreases count,
{
    if count == 0 {
        step
    } else {
        steps_view(next_view(step, replies), replies, (count - 1) as nat)
    }
}

/// The agent whose prompt is rendered: the given one, else the active one, else the default.
pub open spec fn chosen_agent(agent: Option<Seq<char>>, active: Option<Seq<char>>) -> Seq<char> {
    match agent {
        Some(id) => id,
        None => match active {
            Some(id) => id,
            None => DEFAULT_AGENT@,
        },
    }
}

/// A run ends within four answers, and how it ends: with an error where a given directory does not
/// resolve, and otherwise as the service answers for the chosen agent. The two blocks of a prompt
/// are printed with an empty line between them.
pub proof fn law_run_ends<P, E>(
    directory: Option<P>,
    agent: Option<Seq<char>>,
    default_cwd: P,
    replies: Replies<P, E>,
)
    ensures
        steps_view(start_view(directory, agent, default_cwd), replies, 4) == match directory {
            Some(path) if (replies.resolve)(path) is Err => StepView::Fail {
                message: invalid_cwd_text(
                    (replies.resolve)(path)->Err_0.0,
                    (replies.resolve)(path)->Err_0.1,
                ),
            },
            _ => {
                let agent_id = chosen_agent(agent, replies.active);
                finished_view::<P, E>(agent_id, (replies.render)(agent_id))
            },
        },
{
    reveal_with_fuel(steps_view, 5);
}

/// A printed prompt is all of the first block, two line feeds, and all of the second block.
pub proof fn law_blocks_are_printed_in_full(block_1: Seq<char>, block_2: Seq<char>)
    ensures
        merged_text(block_1, block_2) == block_1 + seq!['\n', '\n'] + block_2,
        merged_text(block_1, block_2).len() == block_1.len() + 2 + block_2.len(),
        forall|i: int|
            0 <= i < block_1.len() ==> #[trigger] merged_text(block_1, block_2)[i] == block_1[i],
        merged_text(block_1, block_2)[block_1.len() as int] == '\n',
        merged_text(block_1, block_2)[block_1.len() as int + 1] == '\n',
        merged_text(block_1, block_2).skip(block_1.len() as int + 2) == block_2,
{
    reveal_strlit("\n\n");
    assert("\n\n"@ =~= seq!['\n', '\n']);
    assert(merged_text(block_1, block_2).skip(block_1.len() as int + 2) =~= block_2);
}

/// The message on a directory that does not resolve names the directory and the error, both in
/// full.
pub proof fn law_cwd_message_is_full(directory: Seq<char>, error: Seq<char>)
    ensures
        invalid_cwd_text(directory, error) == "invalid --cwd "@ + directory + seq![':', ' ']
            + error,
        invalid_cwd_text(directory, error).len() == 14 + directory.len() + 2 + error.len(),
        invalid_cwd_text(directory, error).subrange(14, 14 + directory.len() as int) == directory,
        invalid_cwd_text(directory, error).skip(16 + directory.len() as int) == error,
{
    reveal_strlit("invalid --cwd ");
    reveal_strlit(": ");
    assert(": "@ =~= seq![':', ' ']);
    assert(invalid_cwd_text(directory, error).subrange(14, 14 + directory.len() as int) =~= directory);
    assert(invalid_cwd_text(directory, error).skip(16 + directory.len() as int) =~= error);
}

/// The message on an agent without a system prompt names the agent in full.
pub proof fn law_template_message_is_full(agent_id: Seq<char>)
    ensures
        no_template_text(agent_id) == "agent '"@ + agent_id + "' has no system_prompt template"@,
        no_template_text(agent_id).subrange(7, 7 + agent_id.len() as int) == agent_id,
        no_template_text(agent_id)[6] == '\'',
        no_template_text(agent_id)[7 + agent_id.len() as int] == '\'',
{
    reveal_strlit("agent '");
    reveal_strlit("' has no system_prompt template");
    assert(no_template_text(agent_id).subrange(7, 7 + agent_id.len() as int) =~= agent_id);
}

/// The default agent's identifier is `forge`.
pub proof fn law_default_agent()
    ensures
        DEFAULT_AGENT@ == seq!['f', 'o', 'r', 'g', 'e'],
{
    reveal_strlit("forge");
    assert(DEFAULT_AGENT@ =~= seq!['f', 'o', 'r', 'g', 'e']);
}

/// A run for a given agent ends as the service answers for that agent, whichever agent is active,
/// provided that a given directory resolves.
pub proof fn law_given_agent_is_rendered<P, E>(
    directory: Option<P>,
    id: Seq<char>,
    default_cwd: P,
    replies: Replies<P, E>,
)
    requires
        directory matches Some(path) ==> (replies.resolve)(path) is Ok,
    ensures
        initialized_view::<P, E>(Some(id)) == (StepView::<P, E>::Render { agent_id: id }),
        steps_view(start_view(directory, Some(id), default_cwd), replies, 4) == match (
        replies.render)(id) {
            Ok(Some(blocks)) => StepView::<P, E>::Print {
                text: blocks.0 + seq!['\n', '\n'] + blocks.1,
            },
            Ok(None) => StepView::<P, E>::Fail {
                message: "agent '"@ + id + "' has no system_prompt template"@,
            },
            Err(error) => StepView::<P, E>::Propagate { error },
        },
{
    reveal_with_fuel(steps_view, 5);
    if let Ok(Some(blocks)) = (replies.render)(id) {
        law_blocks_are_printed_in_full(blocks.0, blocks.1);
    }
}

/// A run without a given agent ends as a run for the active one does, and, where none is active, as
/// a run for the agent `forge` does.
pub proof fn law_other_agent_stands_in<P, E>(
    directory: Option<P>,
    default_cwd: P,
    replies: Replies<P, E>,
)
    ensures
        initialized_view::<P, E>(None) is AskActiveAgent,
        replies.active matches Some(id) ==> steps_view(
            start_view(directory, None, default_cwd),
            replies,
            4,
        ) == steps_view(start_view(directory, Some(id), default_cwd), replies, 4),
        replies.active is None ==> steps_view(
            start_view(directory, None, default_cwd),
            replies,
            4,
        ) == steps_view(
            start_view(directory, Some(seq!['f', 'o', 'r', 'g', 'e']), default_cwd),
            replies,
            4,
        ),
{
    reveal_with_fuel(steps_view, 5);
    law_default_agent();
}

/// Two runs for one given agent that differ in the active agent alone end alike.
pub proof fn law_active_agent_is_no_matter<P, E>(
    directory: Option<P>,
    id: Seq<char>,
    default_cwd: P,
    replies: Replies<P, E>,
    active: Option<Seq<char>>,
)
    ensures
        steps_view(start_view(directory, Some(id), default_cwd), replies, 4) == steps_view(
            start_view(directory, Some(id), default_cwd),
            Replies { resolve: replies.resolve, active, render: replies.render },
            4,
        ),
{
    reveal_with_fuel(steps_view, 5);
}

/// A run in a directory that does not resolve ends with a message that names the directory and the
/// error, whatever the service would have answered.
pub proof fn law_unresolved_directory_ends_run<P, E>(
    path: P,
    agent: Option<Seq<char>>,
    default_cwd: P,
    replies: Replies<P, E>,
)
    requires
        (replies.resolve)(path) is Err,
    ensures
        steps_view(start_view(Some(path), agent, default_cwd), replies, 4) == (StepView::<
            P,
            E,
        >::Fail {
            message: "invalid --cwd "@ + (replies.resolve)(path)->Err_0.0 + seq![':', ' '] + (
            replies.resolve)(path)->Err_0.1,
        }),
{
    reveal_with_fuel(steps_view, 5);
    law_cwd_message_is_full((replies.resolve)(path)->Err_0.0, (replies.resolve)(path)->Err_0.1);
}

/// A step's characters are those of its strings: two steps that look alike carry the same text.
pub proof fn law_step_view_is_faithful<P, E>(step: PromptStep<P, E>)
    ensures
        step matches PromptStep::Render { agent_id } ==> step@ == (StepView::<P, E>::Render {
            agent_id: agent_id@,
        }),
        step matches PromptStep::Print { text } ==> step@ == (StepView::<P, E>::Print {
            text: text@,
        }),
        step matches PromptStep::Fail { message } ==> step@ == (StepView::<P, E>::Fail {
            message: message@,
        }),
        step matches PromptStep::Propagate { error } ==> step@ == (StepView::<P, E>::Propagate {
            error,
        }),
        step is AskActiveAgent <==> step@ is AskActiveAgent,
        step matches PromptStep::Canonicalize { directory, agent } ==> {
            &&& step@ is Canonicalize
            &&& step@->directory == directory
            &&& agent matches Some(id) ==> step@->Canonicalize_agent == Some(id@)
            &&& agent is None ==> step@->Canonicalize_agent is None
        },
        step matches PromptStep::Init { cwd, agent } ==> {
            &&& step@ is Init
            &&& step@->cwd == cwd
            &&& agent matches Some(id) ==> step@->Init_agent == Some(id@)
            &&& agent is None ==> step@->Init_agent is None
        },
{
}

/// The service is set up in the given directory's canonical path, or, where none is given, in the
/// default one; it is not set up at all in a directory that does not resolve.
pub proof fn law_service_directory<P, E>(
    directory: Option<P>,
    agent: Option<Seq<char>>,
    default_cwd: P,
    replies: Replies<P, E>,
)
    ensures
        match directory {
            None => start_view::<P, E>(directory, agent, default_cwd) == (StepView::<P, E>::Init {
                cwd: default_cwd,
                agent,
            }),
            Some(path) => next_view(start_view(directory, agent, default_cwd), replies) == match (
            replies.resolve)(path) {
                Ok(cwd) => StepView::<P, E>::Init { cwd, agent },
                Err(failure) => StepView::<P, E>::Fail {
                    message: invalid_cwd_text(failure.0, failure.1),
                },
            },
        },
{
}

} // verus!

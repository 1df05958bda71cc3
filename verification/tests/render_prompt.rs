use forge_trace::render_prompt::{
    after_active_agent, after_canonicalize, after_init, after_render, start, CwdError, PromptStep,
    DEFAULT_AGENT,
};

type Step = PromptStep<&'static str, u8>;

fn agent(id: &str) -> Option<String> {
    Some(id.to_string())
}

#[test]
fn given_directory_is_resolved_first() {
    let step: Step = start(Some("work"), agent("sage"), "/home");
    assert_eq!(step, PromptStep::Canonicalize { directory: "work", agent: agent("sage") });
    let step: Step = after_canonicalize(agent("sage"), Ok("/home/work"));
    assert_eq!(step, PromptStep::Init { cwd: "/home/work", agent: agent("sage") });
}

#[test]
fn default_directory_is_used_as_it_is() {
    let step: Step = start(None, None, "/home");
    assert_eq!(step, PromptStep::Init { cwd: "/home", agent: None });
}

#[test]
fn directory_that_does_not_resolve_ends_the_run() {
    let failure = CwdError {
        directory: "nowhere".to_string(),
        error: "No such file or directory (os error 2)".to_string(),
    };
    let step: Step = after_canonicalize(None, Err(failure));
    assert_eq!(
        step,
        PromptStep::Fail {
            message: "invalid --cwd nowhere: No such file or directory (os error 2)".to_string()
        }
    );
}

#[test]
fn active_agent_is_asked_for_only_without_a_given_one() {
    let step: Step = after_init(agent("sage"));
    assert_eq!(step, PromptStep::Render { agent_id: "sage".to_string() });
    let step: Step = after_init(None);
    assert_eq!(step, PromptStep::AskActiveAgent);
}

#[test]
fn default_agent_stands_in_for_an_active_one() {
    assert_eq!(DEFAULT_AGENT, "forge");
    let step: Step = after_active_agent(None);
    assert_eq!(step, PromptStep::Render { agent_id: "forge".to_string() });
    let step: Step = after_active_agent(agent("muse"));
    assert_eq!(step, PromptStep::Render { agent_id: "muse".to_string() });
}

#[test]
fn blocks_are_printed_with_an_empty_line_between() {
    let blocks = ("first".to_string(), "second".to_string());
    let step: Step = after_render("sage".to_string(), Ok(Some(blocks)));
    assert_eq!(step, PromptStep::Print { text: "first\n\nsecond".to_string() });
}

#[test]
fn agent_without_template_ends_the_run() {
    let step: Step = after_render("sage".to_string(), Ok(None));
    assert_eq!(
        step,
        PromptStep::Fail { message: "agent 'sage' has no system_prompt template".to_string() }
    );
}

#[test]
fn error_of_the_service_is_passed_on() {
    let step: Step = after_render("sage".to_string(), Err(7));
    assert_eq!(step, PromptStep::Propagate { error: 7 });
}

#[test]
fn whole_run_without_arguments() {
    let step: Step = start(None, None, "/home");
    let asked = match step {
        PromptStep::Init { cwd, agent } => {
            assert_eq!(cwd, "/home");
            agent
        }
        other => panic!("{:?}", other),
    };
    let step: Step = after_init(asked);
    assert_eq!(step, PromptStep::AskActiveAgent);
    let step: Step = after_active_agent(None);
    let agent_id = match step {
        PromptStep::Render { agent_id } => agent_id,
        other => panic!("{:?}", other),
    };
    let step: Step = after_render(agent_id, Ok(Some(("a".to_string(), "b".to_string()))));
    assert_eq!(step, PromptStep::Print { text: "a\n\nb".to_string() });
}

use local_llm::prompt::PromptTemplate;

#[test]
fn role_token_prompt_is_exact() {
    let prompt = PromptTemplate::RoleTokens.render("be brief", "What is Rust?");
    assert_eq!(
        prompt,
        "<|begin_of_text|><|start_header_id|>system<|end_header_id|>\n{ be brief }<|eot_id|><|start_header_id|>user<|end_header_id|>\n{ What is Rust? }<|eot_id|><|start_header_id|>assistant<|end_header_id|>"
    );
}

#[test]
fn heading_prompt_is_exact() {
    let prompt = PromptTemplate::Headings.render("Be brief.", "What is Rust?");
    assert_eq!(
        prompt,
        "### System:\nBe brief.\n\n### Human:\nWhat is Rust?\n\n### Assistant:\n"
    );
}

#[test]
fn prompt_holds_instruction_then_query_then_assistant_header() {
    for template in [PromptTemplate::RoleTokens, PromptTemplate::Headings] {
        let system = "SYSTEM-TEXT";
        let query = "QUERY-TEXT";
        let prompt = template.render(system, query);
        let at_system = prompt.find(system).unwrap();
        let at_query = prompt.find(query).unwrap();
        let at_assistant = prompt.rfind("ssistant").unwrap();
        assert!(at_system + system.len() <= at_query);
        assert!(at_query + query.len() <= at_assistant);
    }
}

#[test]
fn prompt_of_empty_parts_is_the_bare_template() {
    assert_eq!(
        PromptTemplate::Headings.render("", ""),
        "### System:\n\n\n### Human:\n\n\n### Assistant:\n"
    );
}

#[test]
fn prompt_keeps_markers_in_the_query() {
    let prompt = PromptTemplate::Headings.render("s", "a ### b\n");
    assert_eq!(prompt, "### System:\ns\n\n### Human:\na ### b\n\n\n### Assistant:\n");
}

#[test]
fn default_system_instructions() {
    assert_eq!(PromptTemplate::RoleTokens.default_system(), "you are a helpful assistant");
    assert_eq!(
        PromptTemplate::Headings.default_system(),
        "You are an AI assistant who gives a quality response to whatever humans ask of you."
    );
}

#[test]
fn stop_markers_of_each_template() {
    let tokens = PromptTemplate::RoleTokens.stop_markers();
    assert_eq!(tokens.markers(), &vec!["===".to_string(), "<|".to_string()]);
    assert_eq!(tokens.window(), 3);
    let headings = PromptTemplate::Headings.stop_markers();
    assert_eq!(headings.markers(), &vec!["###".to_string()]);
    assert_eq!(headings.window(), 3);
}

#[test]
fn a_new_turn_in_the_template_syntax_is_halted() {
    for template in [PromptTemplate::RoleTokens, PromptTemplate::Headings] {
        let policy = template.stop_markers();
        let echoed = template.render("s", "q");
        assert!(!policy.should_continue(&echoed, ""));
    }
}

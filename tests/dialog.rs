use dialog_engine::engine::{DialogEngine, EngineError, TurnOutcome};
use dialog_engine::graph::{DialogGraph, DialogNode, DialogOption};
use dialog_engine::template::{Placeholder, PromptDecisionTemplate, TemplateError};
use dialog_engine::text::{matches_at, occurs};

fn opt(label: &str, next_id: &str) -> DialogOption {
    DialogOption { label: label.to_string(), next_id: next_id.to_string() }
}

fn node(id: &str, text: &str, options: Vec<DialogOption>) -> DialogNode {
    DialogNode { id: id.to_string(), text: text.to_string(), options }
}

fn shop() -> DialogGraph {
    DialogGraph {
        nodes: vec![
            node("start", "Hi", vec![opt("Buy", "catalog"), opt("Leave", "exit")]),
            node("catalog", "What would you like?", vec![opt("Back", "start"), opt("Done", "exit")]),
        ],
    }
}

fn cursor(e: &DialogEngine) -> Option<String> {
    e.current_id().cloned()
}

fn template() -> PromptDecisionTemplate {
    PromptDecisionTemplate::new(
        "Q: {decision_prompt}\nOptions:\n{option_list}User: {user_response}\nA:".to_string(),
    )
    .ok()
    .unwrap()
}

#[test]
fn buy_moves_to_catalog() {
    let mut e = DialogEngine::new(shop());
    assert_eq!(cursor(&e), Some("start".to_string()));
    let r = e.step(&"Buy".to_string());
    assert!(matches!(r, Ok(TurnOutcome::Advanced)));
    assert_eq!(cursor(&e), Some("catalog".to_string()));
}

#[test]
fn leave_terminates() {
    let mut e = DialogEngine::new(shop());
    let r = e.step(&"Leave".to_string());
    assert!(matches!(r, Ok(TurnOutcome::Exited)));
    assert!(e.is_terminated());
    assert_eq!(cursor(&e), None);
}

#[test]
fn maybe_stays_at_start() {
    let mut e = DialogEngine::new(shop());
    let r = e.step(&"Maybe".to_string());
    assert!(matches!(r, Ok(TurnOutcome::NoMatch)));
    assert_eq!(cursor(&e), Some("start".to_string()));
}

#[test]
fn unmatched_answers_never_move() {
    for answer in ["", "   ", "Back", "buy", "Buy ", "Done"] {
        let mut e = DialogEngine::new(shop());
        let r = e.step(&answer.to_string());
        assert!(matches!(r, Ok(TurnOutcome::NoMatch)), "answer {:?}", answer);
        assert_eq!(cursor(&e), Some("start".to_string()));
    }
}

#[test]
fn every_label_leads_to_its_next_id() {
    let g = shop();
    for n in &g.nodes {
        for o in &n.options {
            let mut e = DialogEngine::at(shop(), n.id.clone());
            let r = e.step(&o.label);
            if o.next_id == "exit" {
                assert!(matches!(r, Ok(TurnOutcome::Exited)));
                assert!(e.is_terminated());
            } else {
                assert!(matches!(r, Ok(TurnOutcome::Advanced)));
                assert_eq!(cursor(&e), Some(o.next_id.clone()));
            }
        }
    }
}

#[test]
fn exit_from_a_later_node_terminates() {
    let mut e = DialogEngine::new(shop());
    assert!(matches!(e.step(&"Buy".to_string()), Ok(TurnOutcome::Advanced)));
    assert!(matches!(e.step(&"Done".to_string()), Ok(TurnOutcome::Exited)));
    assert!(e.is_terminated());
}

#[test]
fn repeated_turn_gives_same_decision() {
    let mut e = DialogEngine::new(shop());
    for _ in 0..3 {
        assert!(matches!(e.step(&"Maybe".to_string()), Ok(TurnOutcome::NoMatch)));
        assert_eq!(cursor(&e), Some("start".to_string()));
    }
    for _ in 0..3 {
        let mut f = DialogEngine::new(shop());
        assert!(matches!(f.step(&"Buy".to_string()), Ok(TurnOutcome::Advanced)));
        assert_eq!(cursor(&f), Some("catalog".to_string()));
    }
}

#[test]
fn missing_node_is_a_lookup_error() {
    let g = DialogGraph { nodes: vec![node("start", "Hi", vec![opt("Go", "nowhere")])] };
    let mut e = DialogEngine::new(g);
    assert!(matches!(e.step(&"Go".to_string()), Ok(TurnOutcome::Advanced)));
    assert_eq!(cursor(&e), Some("nowhere".to_string()));
    match e.current_node() {
        Err(EngineError::NodeNotFound(id)) => assert_eq!(id, "nowhere"),
        _ => panic!("expected a lookup error"),
    }
    match e.decision_prompt(&template(), "hello") {
        Err(EngineError::NodeNotFound(id)) => assert_eq!(id, "nowhere"),
        _ => panic!("expected a lookup error"),
    }
    match e.step(&"Go".to_string()) {
        Err(EngineError::NodeNotFound(id)) => assert_eq!(id, "nowhere"),
        _ => panic!("expected a lookup error"),
    }
    assert_eq!(cursor(&e), Some("nowhere".to_string()));
}

#[test]
fn empty_candidates_is_no_answer() {
    let mut e = DialogEngine::new(shop());
    let r = e.apply_classification(&vec![]);
    assert!(matches!(r, Err(EngineError::NoAnswer)));
    assert_eq!(cursor(&e), Some("start".to_string()));
}

#[test]
fn first_candidate_is_trimmed_and_decides() {
    let mut e = DialogEngine::new(shop());
    let r = e.apply_classification(&vec!["\n\n  Buy \n".to_string(), "Leave".to_string()]);
    assert!(matches!(r, Ok(TurnOutcome::Advanced)));
    assert_eq!(cursor(&e), Some("catalog".to_string()));
}

#[test]
fn blank_candidate_is_no_match() {
    let mut e = DialogEngine::new(shop());
    let r = e.apply_classification(&vec!["  \n".to_string()]);
    assert!(matches!(r, Ok(TurnOutcome::NoMatch)));
    assert_eq!(cursor(&e), Some("start".to_string()));
}

#[test]
fn duplicate_labels_first_wins() {
    let g = DialogGraph {
        nodes: vec![
            node("start", "Hi", vec![opt("Go", "a"), opt("Go", "b")]),
            node("a", "A", vec![]),
            node("b", "B", vec![]),
        ],
    };
    let mut e = DialogEngine::new(g);
    assert!(matches!(e.step(&"Go".to_string()), Ok(TurnOutcome::Advanced)));
    assert_eq!(cursor(&e), Some("a".to_string()));
}

#[test]
fn duplicate_ids_first_wins() {
    let g = DialogGraph {
        nodes: vec![
            node("start", "first", vec![opt("Go", "exit")]),
            node("start", "second", vec![opt("Go", "other")]),
        ],
    };
    let e = DialogEngine::new(g.clone());
    assert_eq!(e.current_node().ok().unwrap().text, "first");
    assert_eq!(g.find_index(&"start".to_string()), Some(0));
    assert_eq!(g.find_index(&"other".to_string()), None);
}

#[test]
fn zero_option_node_is_a_dead_end() {
    let g = DialogGraph { nodes: vec![node("start", "Nothing here", vec![])] };
    let mut e = DialogEngine::new(g);
    assert!(matches!(e.step(&"exit".to_string()), Ok(TurnOutcome::NoMatch)));
    assert_eq!(cursor(&e), Some("start".to_string()));
}

#[test]
fn dangling_edge_never_taken_is_fine() {
    let g = DialogGraph {
        nodes: vec![node("start", "Hi", vec![opt("Broken", "missing"), opt("Leave", "exit")])],
    };
    let mut e = DialogEngine::new(g);
    assert!(matches!(e.step(&"Leave".to_string()), Ok(TurnOutcome::Exited)));
}

#[test]
fn template_requires_every_placeholder() {
    assert!(matches!(
        PromptDecisionTemplate::new("{option_list} {user_response}".to_string()),
        Err(TemplateError::MissingPlaceholder(Placeholder::DecisionPrompt))
    ));
    assert!(matches!(
        PromptDecisionTemplate::new("{decision_prompt} {user_response}".to_string()),
        Err(TemplateError::MissingPlaceholder(Placeholder::OptionList))
    ));
    assert!(matches!(
        PromptDecisionTemplate::new("{decision_prompt} {option_list}".to_string()),
        Err(TemplateError::MissingPlaceholder(Placeholder::UserResponse))
    ));
    assert!(matches!(
        PromptDecisionTemplate::new(String::new()),
        Err(TemplateError::MissingPlaceholder(Placeholder::DecisionPrompt))
    ));
    let t = PromptDecisionTemplate::new("{user_response}{option_list}{decision_prompt}".to_string());
    assert_eq!(t.ok().unwrap().as_str(), "{user_response}{option_list}{decision_prompt}");
}

#[test]
fn format_fills_each_placeholder() {
    let t = template();
    let p = t.format("Hi", "- Buy\n- Leave\n", "I want to buy");
    assert_eq!(p, "Q: Hi\nOptions:\n- Buy\n- Leave\nUser: I want to buy\nA:");
}

#[test]
fn format_replaces_every_occurrence() {
    let t = PromptDecisionTemplate::new(
        "{decision_prompt}|{decision_prompt}|{option_list}|{user_response}".to_string(),
    )
    .ok()
    .unwrap();
    assert_eq!(t.format("a", "b", "c"), "a|a|b|c");
}

#[test]
fn format_is_pure() {
    let t = template();
    let a = t.format("Hi", "- x\n", "yo");
    let b = t.format("Hi", "- x\n", "yo");
    assert_eq!(a.as_bytes(), b.as_bytes());
    let u = template();
    assert_eq!(u.format("Hi", "- x\n", "yo"), a);
}

#[test]
fn decision_prompt_uses_node_labels_and_trimmed_input() {
    let e = DialogEngine::new(shop());
    let p = e.decision_prompt(&template(), "  I want to buy something \n").ok().unwrap();
    assert_eq!(p, "Q: Hi\nOptions:\n- Buy\n- Leave\nUser: I want to buy something\nA:");
}

#[test]
fn presentation_lists_text_then_bullets() {
    let g = shop();
    let lines = g.nodes[0].presentation("Sortium");
    assert_eq!(lines, vec!["Sortium: Hi".to_string(), "- Buy".to_string(), "- Leave".to_string()]);
    let lone = node("x", "Bye", vec![]);
    assert_eq!(lone.presentation("A"), vec!["A: Bye".to_string()]);
}

#[test]
fn labels_in_order() {
    let g = shop();
    assert_eq!(g.nodes[1].labels(), vec!["Back".to_string(), "Done".to_string()]);
    assert_eq!(g.nodes[0].match_option(&"Leave".to_string()), Some(1));
    assert_eq!(g.nodes[0].match_option(&"leave".to_string()), None);
    assert_eq!(g.lookup(&"catalog".to_string()).unwrap().text, "What would you like?");
    assert!(g.lookup(&"exit".to_string()).is_none());
}

#[test]
fn format_does_not_rescan_inserted_values() {
    let t = PromptDecisionTemplate::new("{decision_prompt}|{option_list}|{user_response}".to_string())
        .ok()
        .unwrap();
    let p = t.format("Say {user_response}", "{decision_prompt}", "ok");
    assert_eq!(p, "Say {user_response}|{decision_prompt}|ok");
}

#[test]
fn format_keeps_unicode_and_lone_braces() {
    let t = PromptDecisionTemplate::new("é{ {decision_prompt}}{option_list}{user_response".to_string());
    assert!(matches!(t, Err(TemplateError::MissingPlaceholder(Placeholder::UserResponse))));
    let t = PromptDecisionTemplate::new("é{ {decision_prompt}}{option_list}{user_response}ü".to_string())
        .ok()
        .unwrap();
    assert_eq!(t.format("日本", "x", ""), "é{ 日本}xü");
}

#[test]
fn search_helpers() {
    assert!(occurs("abc{x}", "{x}"));
    assert!(occurs("abc", ""));
    assert!(!occurs("ab", "abc"));
    assert!(!occurs("a{x", "{x}"));
    assert!(matches_at("héllo", 5, 1, "él"));
    assert!(!matches_at("héllo", 5, 0, "él"));
    assert!(matches_at("héllo", 5, 5, ""));
    assert!(!matches_at("héllo", 5, 4, "oo"));
}

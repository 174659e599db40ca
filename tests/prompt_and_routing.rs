use image_bot::prompt::split_prompt;
use image_bot::route::{classify, model_set_message, unrecognized_message, Command, ConversationState, Reply};

fn split(text: &str) -> (String, String) {
    split_prompt(text)
}

#[test]
fn cat_without_blur() {
    let (p, n) = split("a cat, -blurry");
    assert_eq!(p, "a cat");
    assert_eq!(n, "blurry");
}

#[test]
fn empty_text_gives_empty_prompts() {
    let (p, n) = split("");
    assert_eq!(p, "");
    assert_eq!(n, "");
}

#[test]
fn several_parts_each_side() {
    let (p, n) = split("a, b, -c, -d");
    assert_eq!(p, "a, b");
    assert_eq!(n, "c, d");
}

#[test]
fn fragments_are_trimmed_and_empty_ones_dropped_at_the_ends() {
    let (p, n) = split("  sunset over sea ,, -low quality,  ");
    assert_eq!(p, "sunset over sea, , ");
    assert_eq!(n, "low quality");
}

#[test]
fn dash_after_spaces_still_negative() {
    let (p, n) = split("dog,   - noise");
    assert_eq!(p, "dog");
    assert_eq!(n, "noise");
}

#[test]
fn whitespace_text_has_no_split() {
    let (p, n) = split("one two three");
    assert_eq!(p, "one two three");
    assert_eq!(n, "");
}

#[test]
fn every_fragment_lands_on_one_side() {
    let (p, n) = split("x,-y,z,-w");
    let mut parts: Vec<String> = p.split(", ").map(|s| s.to_string()).collect();
    parts.extend(n.split(", ").map(|s| format!("-{}", s)));
    parts.sort();
    let mut expected = vec!["x".to_string(), "-y".to_string(), "z".to_string(), "-w".to_string()];
    expected.sort();
    assert_eq!(parts, expected);
}

#[test]
fn help_and_start_in_any_case() {
    assert!(matches!(classify("/help"), Command::Help));
    assert!(matches!(classify("/START"), Command::Help));
    assert!(matches!(classify("/Help"), Command::Help));
}

#[test]
fn top_is_the_market_summary() {
    assert!(matches!(classify("/top"), Command::MarketSnapshot));
}

#[test]
fn model_commands_map_underscores_to_hyphens() {
    match classify("/redshift_diffusion") {
        Command::SelectModel(m) => assert_eq!(m, "redshift-diffusion"),
        _ => panic!("not a selection"),
    }
    match classify("/DREAM_SHAPER_8797") {
        Command::SelectModel(m) => assert_eq!(m, "dream-shaper-8797"),
        _ => panic!("not a selection"),
    }
    match classify("/model counterfeit_v20") {
        Command::SelectModel(m) => assert_eq!(m, "counterfeit-v20"),
        _ => panic!("not a selection"),
    }
}

#[test]
fn unknown_commands_are_rejected() {
    assert!(matches!(classify("/unknown"), Command::Unrecognized));
    assert!(matches!(classify("/"), Command::Unrecognized));
    assert!(matches!(classify("/model "), Command::Unrecognized));
    assert!(matches!(classify("/inkpunk2"), Command::Unrecognized));
}

#[test]
fn plain_text_is_a_prompt() {
    assert!(matches!(classify("a cat"), Command::Generate));
    assert!(matches!(classify(""), Command::Generate));
    assert!(matches!(classify(" /help"), Command::Generate));
}

#[test]
fn default_model_before_any_selection() {
    let mut st = ConversationState::new();
    match st.handle("a cat, -blurry") {
        Reply::Generate(req) => {
            assert_eq!(req.model_id, "midjourney-v4");
            assert_eq!(req.positive_prompt, "a cat");
            assert_eq!(req.negative_prompt, "blurry");
        }
        _ => panic!("not a generation"),
    }
}

#[test]
fn selection_holds_until_the_next_one() {
    let mut st = ConversationState::new();
    assert!(matches!(st.handle("/analog_diffusion"), Reply::ModelSet(_)));
    for text in ["first", "/help", "/nope", "second, -third"] {
        if let Reply::Generate(req) = st.handle(text) {
            assert_eq!(req.model_id, "analog-diffusion");
        }
    }
    assert!(matches!(st.handle("/deliberate"), Reply::ModelSet(_)));
    match st.handle("again") {
        Reply::Generate(req) => assert_eq!(req.model_id, "deliberate"),
        _ => panic!("not a generation"),
    }
}

#[test]
fn selecting_twice_is_harmless() {
    let mut st = ConversationState::new();
    for _ in 0..2 {
        match st.handle("/inkpunk") {
            Reply::ModelSet(m) => assert_eq!(m, "inkpunk"),
            _ => panic!("not a selection"),
        }
        assert_eq!(st.selected_model.as_deref(), Some("inkpunk"));
    }
}

#[test]
fn rejected_selection_keeps_the_state() {
    let mut st = ConversationState::new();
    st.handle("/inkpunk");
    assert!(matches!(st.handle("/bogus_model"), Reply::Unrecognized));
    assert_eq!(st.selected_model.as_deref(), Some("inkpunk"));
}

#[test]
fn restored_state() {
    let st = ConversationState::restore(Some("dreamlike".to_string()));
    assert_eq!(st.current_model(), "dreamlike");
    let st = ConversationState::restore(Some(String::new()));
    assert_eq!(st.selected_model, None);
    assert_eq!(st.current_model(), "midjourney-v4");
    let st = ConversationState::restore(None);
    assert_eq!(st.current_model(), "midjourney-v4");
}

#[test]
fn reply_texts() {
    assert_eq!(model_set_message("inkpunk"), "The model has been set to inkpunk");
    assert_eq!(unrecognized_message(), "Sorry, I do not recognize the model name.");
}

use shurbai::config::{load_model, LoadPlan, ModelConfig, ModelDefinition};
use shurbai::errors::ServeError;
use shurbai::grammar::load_grammar;
use shurbai::models::{has_model, load_models, ModelManager, ModelState};
use shurbai::plan::{
    check_embedding_prompt, plan_generation, plan_with_seed, pretty_generate, requested_tokens, GenerationPlan,
};
use shurbai::prompt::ChatTemplate;
use shurbai::session::{SessionAction, SessionEvent, SessionPhase};
use shurbai::text::{
    chars_of, concat_all, contains, copy_text, copy_texts, ends_with, join, matches_at, same_text, starts_with,
};

fn template(marker: &str) -> ChatTemplate {
    ChatTemplate {
        user_template: marker.to_string(),
        system_template: String::new(),
        assistant_template: String::new(),
        tool_response_template: None,
        tool_template: String::new(),
        tool_prompt_template: None,
        assistant_prompt_template: String::new(),
        stops: vec![],
    }
}

fn definition(name: &str, marker: &str) -> ModelDefinition {
    ModelDefinition {
        path: format!("/models/{}.gguf", name),
        name: name.to_string(),
        config: ModelConfig::default(),
        chat_template: template(marker),
    }
}

#[test]
fn default_config_matches_the_documented_defaults() {
    let c = ModelConfig::default();
    assert!(!c.is_embedding_model);
    assert_eq!(c.mirostat, Some(0));
    assert_eq!(c.use_gpu, Some(true));
    assert_eq!(c.num_ctx, Some(2048));
    assert_eq!(c.num_gqa, None);
    assert_eq!(c.main_gpu, None);
    assert_eq!(c.use_mem_lock, Some(true));
    assert_eq!(c.num_thread, None);
    assert_eq!(c.repeat_last_n, Some(64));
    assert_eq!(c.seed, Some(0));
    assert_eq!(c.num_predict, Some(128));
    assert_eq!(c.top_k, Some(40));
}

#[test]
fn context_window_defaults_to_4096() {
    let mut c = ModelConfig::default();
    assert_eq!(c.context_window(), 2048);
    assert_eq!(c.reported_window(), 2048);
    c.num_ctx = None;
    assert_eq!(c.context_window(), 4096);
    assert_eq!(c.reported_window(), 2048);
    c.num_ctx = Some(8192);
    assert_eq!(c.context_window(), 8192);
    assert_eq!(c.reported_window(), 8192);
    c.num_ctx = Some(0);
    assert_eq!(c.context_window(), 0);
}

#[test]
fn negative_context_window_counts_as_unset() {
    let mut c = ModelConfig::default();
    c.num_ctx = Some(-1);
    assert_eq!(c.context_window(), 4096);
    assert_eq!(c.reported_window(), 2048);
    c.num_ctx = Some(i32::MIN);
    assert_eq!(c.context_window(), 4096);
    c.num_ctx = Some(i32::MAX);
    assert_eq!(c.context_window(), 2_147_483_647);
    assert_eq!(plan_with_seed(&c, 10, 32, 1).map(|p| p.n_len), Ok(42));
}

#[test]
fn load_model_follows_the_config() {
    let mut c = ModelConfig::default();
    assert_eq!(load_model(&c), LoadPlan { use_mlock: true, main_gpu: None, offload_to_gpu: true });
    c.use_mem_lock = None;
    c.use_gpu = None;
    c.main_gpu = Some(1);
    assert_eq!(load_model(&c), LoadPlan { use_mlock: true, main_gpu: Some(1), offload_to_gpu: true });
    c.use_mem_lock = Some(false);
    c.use_gpu = Some(false);
    assert_eq!(load_model(&c), LoadPlan { use_mlock: false, main_gpu: Some(1), offload_to_gpu: false });
}

#[test]
fn requested_tokens_never_go_negative() {
    assert_eq!(requested_tokens(Some(5), 32), 5);
    assert_eq!(requested_tokens(None, 32), 32);
    assert_eq!(requested_tokens(Some(-1), 32), 0);
    assert_eq!(requested_tokens(None, -3), 0);
    assert_eq!(requested_tokens(Some(i32::MAX), 32), 2_147_483_647);
    assert_eq!(requested_tokens(Some(0), 32), 0);
}

#[test]
fn plan_holds_window_limit_and_seed() {
    let c = ModelConfig::default();
    assert_eq!(
        plan_with_seed(&c, 10, 32, 7),
        Ok(GenerationPlan { context_size: 2048, n_len: 42, n_batch: 42, seed: 7 })
    );
    assert_eq!(
        plan_with_seed(&c, 2040, 512, 9),
        Ok(GenerationPlan { context_size: 2048, n_len: 2048, n_batch: 2048, seed: 9 })
    );
    assert_eq!(plan_with_seed(&c, 2049, 1, 0), Err(ServeError::PromptTooLarge));
}

#[test]
fn plan_generation_differs_from_the_seeded_plan_in_the_seed_alone() {
    let c = ModelConfig::default();
    let plan = plan_generation(&c, 10, 32).unwrap();
    assert_eq!(plan_with_seed(&c, 10, 32, plan.seed), Ok(plan));
    assert_eq!(plan_generation(&c, 5000, 32), Err(ServeError::PromptTooLarge));
}

#[test]
fn session_starts_with_nothing_delivered() {
    let c = ModelConfig::default();
    let (plan, mut session) = pretty_generate(&c, 3, 2, vec![], true).unwrap();
    assert_eq!(plan.n_len, 5);
    assert_eq!(plan.context_size, 2048);
    assert_eq!(session.phase(), SessionPhase::Priming);
    assert_eq!(session.n_tokens(), 3);
    assert!(matches!(session.advance(SessionEvent::Decoded), SessionAction::Sample { constrain_to_json: true }));
    assert!(matches!(pretty_generate(&c, 2049, 2, vec![], false), Err(ServeError::PromptTooLarge)));
}

#[test]
fn embedding_prompt_must_fit_the_context() {
    assert_eq!(check_embedding_prompt(512, 512), Ok(()));
    assert_eq!(check_embedding_prompt(512, 0), Ok(()));
    assert_eq!(check_embedding_prompt(512, 513), Err(ServeError::PromptTooLarge));
}

#[test]
fn grammar_is_loaded_for_json_sessions_only() {
    assert_eq!(load_grammar(false), None);
    let g = load_grammar(true).unwrap();
    assert!(g.starts_with("root   ::= object\r\nvalue  ::= object | array | string | number | (\"true\" | \"false\" | \"null\")"));
    assert!(g.ends_with("number ::= (\"-\"? ([0-9] | [1-9] [0-9]*)) (\".\" [0-9]+)? ([eE] [-+]? [0-9]+)?"));
    assert_eq!(g.len(), 472);
}

#[test]
fn manager_finds_what_was_registered() {
    let mut m = ModelManager::new();
    assert_eq!(m.len(), 0);
    assert!(!has_model(&m, &"a".to_string()));
    m.register("a".to_string(), ModelState { config: ModelConfig::default(), chat_template: template("1") });
    m.register("b".to_string(), ModelState { config: ModelConfig::default(), chat_template: template("2") });
    assert_eq!(m.len(), 2);
    assert!(has_model(&m, &"a".to_string()));
    assert!(has_model(&m, &"b".to_string()));
    assert!(!has_model(&m, &"c".to_string()));
    assert!(!has_model(&m, &"".to_string()));
    assert_eq!(m.find("b"), Some(1));
    assert_eq!(m.find("c"), None);
    assert_eq!(m.get("a").unwrap().chat_template.user_template, "1");
    assert_eq!(m.get("b").unwrap().chat_template.user_template, "2");
    assert!(m.get("c").is_none());
    assert_eq!(m.name_at(0), "a");
    assert_eq!(m.state_at(1).chat_template.user_template, "2");
}

#[test]
fn registering_a_name_again_replaces_its_model() {
    let mut m = ModelManager::new();
    m.register("a".to_string(), ModelState { config: ModelConfig::default(), chat_template: template("1") });
    m.register("b".to_string(), ModelState { config: ModelConfig::default(), chat_template: template("2") });
    m.register("a".to_string(), ModelState { config: ModelConfig::default(), chat_template: template("3") });
    assert_eq!(m.len(), 2);
    assert_eq!(m.find("a"), Some(0));
    assert_eq!(m.get("a").unwrap().chat_template.user_template, "3");
    assert_eq!(m.get("b").unwrap().chat_template.user_template, "2");
}

#[test]
fn load_models_registers_in_order() {
    let m = load_models(vec![definition("x", "1"), definition("y", "2"), definition("x", "3")]);
    assert_eq!(m.len(), 2);
    assert_eq!(m.name_at(0), "x");
    assert_eq!(m.name_at(1), "y");
    assert_eq!(m.get("x").unwrap().chat_template.user_template, "3");
    assert_eq!(m.get("y").unwrap().config.num_ctx, Some(2048));
}

#[test]
fn text_tests_agree_with_std() {
    let samples = ["", "<", ">", "</", "</tool>", "a<b", "héllo</wörld>", "<<>>", "tool", "x</"];
    let patterns = ["", "<", ">", "</", "tool", "é", "ö", "<<", "l>"];
    for s in samples {
        for p in patterns {
            assert_eq!(contains(s, p), s.contains(p), "contains({:?}, {:?})", s, p);
            assert_eq!(starts_with(s, p), s.starts_with(p), "starts_with({:?}, {:?})", s, p);
            assert_eq!(ends_with(s, p), s.ends_with(p), "ends_with({:?}, {:?})", s, p);
            assert_eq!(same_text(s, p), s == p, "same_text({:?}, {:?})", s, p);
        }
    }
}

#[test]
fn chars_and_matches() {
    assert_eq!(chars_of("aé<"), vec!['a', 'é', '<']);
    assert!(chars_of("").is_empty());
    let text = chars_of("abcabc");
    let pattern = chars_of("bc");
    assert!(!matches_at(&text, &pattern, 0));
    assert!(matches_at(&text, &pattern, 1));
    assert!(matches_at(&text, &pattern, 4));
    assert!(matches_at(&text, &Vec::new(), 6));
}

#[test]
fn joining_and_copying() {
    let parts = vec!["a".to_string(), "".to_string(), "c".to_string()];
    assert_eq!(concat_all(&parts), "ac");
    assert_eq!(concat_all(&Vec::new()), "");
    assert_eq!(join(&parts, ", "), "a, , c");
    assert_eq!(join(&vec!["x".to_string()], ","), "x");
    assert_eq!(join(&Vec::new(), ","), "");
    assert_eq!(copy_texts(&parts), parts);
    assert_eq!(copy_text(&Some("s".to_string())), Some("s".to_string()));
    assert_eq!(copy_text(&None), None);
}

use pi_sessions::pi::models::{list_models_command, parse_model_list};
use pi_sessions::pi::{Liveness, PiConfig, PiError, PiManager, PiSession};

fn strings(items: &[&str]) -> Vec<String> {
    items.iter().map(|s| s.to_string()).collect()
}

fn custom_config() -> PiConfig {
    PiConfig {
        model: "small".to_string(),
        thinking: "low".to_string(),
        system_prompt: "be brief".to_string(),
        provider: "local".to_string(),
    }
}

#[test]
fn test_default_config() {
    let config = PiConfig::default();
    println!("Default model: {}", config.model);
    println!("Default thinking: {}", config.thinking);
    assert_eq!(config.model, "gpt-5.2-codex");
    assert_eq!(config.thinking, "xhigh");
}

#[test]
fn default_config_is_fully_populated() {
    let config = PiConfig::default();
    assert_eq!(config.provider, "github-copilot");
    assert_eq!(config.system_prompt, PiConfig::default_system_prompt());
    assert!(config.system_prompt.starts_with("You are a coding agent based on GPT-5-Codex.\n\n## Editing constraints\n"));
    assert!(config.system_prompt.ends_with("- Tone: collaborative, concise, factual; present tense, active voice.\n"));
    assert_eq!(config.system_prompt.lines().count(), 37);
}

#[test]
fn merged_overwrites_only_supplied_fields() {
    let base = custom_config();
    let m = base.merged(Some("big"), None, None, Some("remote"));
    assert_eq!(m.model, "big");
    assert_eq!(m.thinking, "low");
    assert_eq!(m.system_prompt, "be brief");
    assert_eq!(m.provider, "remote");
    let same = base.merged(None, None, None, None);
    assert_eq!(same.model, "small");
    assert_eq!(same.provider, "local");
    let all = base.merged(Some("a"), Some("b"), Some("c"), Some("d"));
    assert_eq!(
        (all.model.as_str(), all.thinking.as_str(), all.system_prompt.as_str(), all.provider.as_str()),
        ("a", "b", "c", "d")
    );
}

#[test]
fn new_session_is_empty() {
    let s = PiSession::new("s1", None);
    assert_eq!(s.id, "s1");
    assert_eq!(s.config.model, "gpt-5.2-codex");
    assert!(s.process.is_none());
    assert!(s.output.is_empty());
    assert!(!s.is_running());
    let t = PiSession::new("s2", Some(custom_config()));
    assert_eq!(t.config.model, "small");
}

#[test]
fn session_command_maps_flags() {
    let s = PiSession::new("s1", Some(custom_config()));
    let inv = s.command("echo hello", "/tmp", Some("tok"));
    assert_eq!(inv.program, "pi");
    assert_eq!(
        inv.args,
        strings(&["--provider", "local", "--model", "small", "--thinking", "low", "-p", "echo hello"])
    );
    assert_eq!(inv.credential.as_deref(), Some("tok"));
    assert_eq!(inv.workdir.as_deref(), Some("/tmp"));
    assert!(inv.piped);
    let bare = s.command("x", "/", None);
    assert!(bare.credential.is_none());
}

#[test]
fn session_lifecycle() {
    let mut s = PiSession::new("s1", None);
    assert!(matches!(s.wait_target(), Err(PiError::NotFound)));
    assert!(matches!(s.wait(7), Err(PiError::NotFound)));
    assert_eq!(s.kill(), None);
    assert!(s.spawn(Ok(7)).is_ok());
    assert!(s.is_running());
    assert_eq!(s.kill(), Some(7));
    assert_eq!(s.wait_target().ok(), Some(7));
    assert!(s.poll(7, Liveness::Alive));
    assert!(s.poll(7, Liveness::Unknown));
    assert!(s.poll(8, Liveness::Exited));
    assert!(!s.poll(7, Liveness::Exited));
    assert!(!s.is_running());
    assert_eq!(s.kill(), None);
    assert!(s.wait(7).is_ok());
    let p = s.process.unwrap();
    assert_eq!((p.key, p.exited), (7, true));
}

#[test]
fn session_spawn_failure_keeps_state() {
    let mut s = PiSession::new("s1", None);
    match s.spawn(Err("No such file or directory".to_string())) {
        Err(PiError::SpawnFailed(cause)) => assert_eq!(cause, "No such file or directory"),
        _ => panic!("a failed start must be reported"),
    }
    assert!(s.process.is_none());
    assert!(!s.is_running());
}

#[test]
fn session_respawn_replaces_handle() {
    let mut s = PiSession::new("s1", None);
    assert!(s.spawn(Ok(1)).is_ok());
    assert!(s.push_output(1, "one".to_string()));
    assert!(s.spawn(Ok(2)).is_ok());
    assert!(s.wait(1).is_ok());
    assert!(s.is_running());
    assert!(!s.push_output(1, "late".to_string()));
    assert!(s.push_output(2, "two".to_string()));
    assert_eq!(s.get_output(), strings(&["one", "two"]));
}

#[test]
fn error_messages() {
    assert_eq!(PiError::NotFound.message(), "Session not found");
    assert_eq!(PiError::SpawnFailed("denied".to_string()).message(), "denied");
}

#[test]
fn unregistered_identifier_is_inert() {
    let mut m = PiManager::new();
    assert!(m.output("ghost").is_empty());
    assert!(!m.is_running("ghost"));
    assert!(matches!(m.wait_target("ghost"), Err(PiError::NotFound)));
    assert!(matches!(m.wait("ghost", 1), Err(PiError::NotFound)));
    assert!(matches!(m.command("ghost", "p", "/tmp", None), Err(PiError::NotFound)));
    assert!(matches!(m.run("ghost", Ok(1)), Err(PiError::NotFound)));
    assert!(matches!(m.run("ghost", Err("boom".to_string())), Err(PiError::NotFound)));
    assert_eq!(m.kill("ghost"), None);
    assert!(!m.poll("ghost", 1, Liveness::Alive));
    assert!(!m.push_output("ghost", 1, "x".to_string()));
    assert!(m.session_config("ghost").is_none());
    assert!(m.output("ghost").is_empty());
}

#[test]
fn created_session_copies_default_by_value() {
    let mut m = PiManager::new();
    m.update_config(custom_config());
    m.create_session("s1", None);
    assert_eq!(m.session_config("s1").unwrap().model, "small");
    m.update_config(PiConfig::default());
    assert_eq!(m.get_config().model, "gpt-5.2-codex");
    let kept = m.session_config("s1").unwrap();
    assert_eq!(kept.model, "small");
    assert_eq!(kept.thinking, "low");
    assert_eq!(kept.system_prompt, "be brief");
    assert_eq!(kept.provider, "local");
}

#[test]
fn created_session_takes_explicit_config() {
    let mut m = PiManager::new();
    m.create_session("s1", Some(custom_config()));
    assert_eq!(m.session_config("s1").unwrap().provider, "local");
    assert_eq!(m.get_config().provider, "github-copilot");
}

#[test]
fn spawn_then_wait() {
    let mut m = PiManager::new();
    m.create_session("s1", None);
    let inv = m.command("s1", "echo hello", "/tmp", None).ok().unwrap();
    assert_eq!(inv.args[7], "echo hello");
    assert_eq!(inv.args[1], "github-copilot");
    assert_eq!(inv.workdir.as_deref(), Some("/tmp"));
    assert!(m.run("s1", Ok(41)).is_ok());
    assert!(m.is_running("s1"));
    assert_eq!(m.wait_target("s1").ok(), Some(41));
    assert!(m.wait("s1", 41).is_ok());
    assert!(!m.is_running("s1"));
}

#[test]
fn wait_without_process_is_not_found() {
    let mut m = PiManager::new();
    m.create_session("s1", None);
    assert!(matches!(m.wait_target("s1"), Err(PiError::NotFound)));
    assert!(matches!(m.wait("s1", 0), Err(PiError::NotFound)));
}

#[test]
fn run_failure_is_spawn_failed() {
    let mut m = PiManager::new();
    m.create_session("s1", None);
    match m.run("s1", Err("missing executable".to_string())) {
        Err(PiError::SpawnFailed(cause)) => assert_eq!(cause, "missing executable"),
        _ => panic!("a failed start must be reported"),
    }
    assert!(!m.is_running("s1"));
    assert!(matches!(m.wait_target("s1"), Err(PiError::NotFound)));
}

#[test]
fn output_keeps_order() {
    let mut m = PiManager::new();
    m.create_session("s1", None);
    assert!(m.run("s1", Ok(5)).is_ok());
    assert!(m.push_output("s1", 5, "a".to_string()));
    assert!(m.push_output("s1", 5, "b".to_string()));
    assert_eq!(m.output("s1"), strings(&["a", "b"]));
    assert_ne!(m.output("s1"), strings(&["b", "a"]));
    assert!(!m.push_output("s1", 6, "c".to_string()));
    assert_eq!(m.output("s1"), strings(&["a", "b"]));
}

#[test]
fn kill_without_process_is_silent() {
    let mut m = PiManager::new();
    m.create_session("s1", None);
    assert_eq!(m.kill("s1"), None);
    assert!(!m.is_running("s1"));
    assert!(m.run("s1", Ok(9)).is_ok());
    assert_eq!(m.kill("s1"), Some(9));
    assert!(!m.poll("s1", 9, Liveness::Exited));
    assert_eq!(m.kill("s1"), None);
    assert!(!m.is_running("s1"));
}

#[test]
fn poll_probes_only_the_current_process() {
    let mut m = PiManager::new();
    m.create_session("s1", None);
    assert!(m.run("s1", Ok(1)).is_ok());
    assert!(m.poll("s1", 1, Liveness::Alive));
    assert!(m.poll("s1", 1, Liveness::Unknown));
    assert!(m.poll("s1", 2, Liveness::Exited));
    assert!(!m.poll("s1", 1, Liveness::Exited));
}

#[test]
fn reregistration_replaces_session() {
    let mut m = PiManager::new();
    m.create_session("s1", None);
    assert!(m.run("s1", Ok(3)).is_ok());
    assert!(m.push_output("s1", 3, "old".to_string()));
    m.create_session("other", None);
    assert!(m.run("other", Ok(4)).is_ok());
    assert!(m.push_output("other", 4, "kept".to_string()));
    m.create_session("s1", Some(custom_config()));
    assert_eq!(m.session_config("s1").unwrap().model, "small");
    assert!(m.output("s1").is_empty());
    assert!(!m.is_running("s1"));
    assert!(!m.push_output("s1", 3, "stale".to_string()));
    assert!(m.output("s1").is_empty());
    assert_eq!(m.output("other"), strings(&["kept"]));
    assert!(m.is_running("other"));
}

#[test]
fn list_models_drops_blank_lines() {
    assert_eq!(parse_model_list("gpt-4\n\nsonar-3\n"), strings(&["gpt-4", "sonar-3"]));
    let m = PiManager::new();
    let listed = m.list_models(Ok(b"gpt-4\n\nsonar-3\n".to_vec())).ok().unwrap();
    assert_eq!(listed, strings(&["gpt-4", "sonar-3"]));
}

#[test]
fn list_models_edge_cases() {
    assert!(parse_model_list("").is_empty());
    assert!(parse_model_list("\n\n\r\n").is_empty());
    assert_eq!(parse_model_list("a"), strings(&["a"]));
    assert_eq!(parse_model_list("a\r\nb\r\n"), strings(&["a", "b"]));
    assert_eq!(parse_model_list("a\r"), strings(&["a\r"]));
    assert_eq!(parse_model_list("\ra\n"), strings(&["\ra"]));
    assert_eq!(parse_model_list("x\nx\n y \n"), strings(&["x", "x", " y "]));
    assert_eq!(parse_model_list("\u{e9}t\u{e9}\n\u{4e2d}"), strings(&["\u{e9}t\u{e9}", "\u{4e2d}"]));
    let text = "one\r\n\ntwo\rthree\n\r\nfour";
    let expected: Vec<String> = text.lines().filter(|l| !l.is_empty()).map(|l| l.to_string()).collect();
    assert_eq!(parse_model_list(text), expected);
}

#[test]
fn list_models_decodes_lossily() {
    let m = PiManager::new();
    let listed = m.list_models(Ok(vec![b'a', 0xff, b'\n', b'b'])).ok().unwrap();
    assert_eq!(listed, strings(&["a\u{fffd}", "b"]));
}

#[test]
fn list_models_failure_is_reported() {
    let m = PiManager::new();
    match m.list_models(Err("not found".to_string())) {
        Err(PiError::SpawnFailed(cause)) => assert_eq!(cause, "not found"),
        _ => panic!("a failed listing must be reported"),
    }
}

#[test]
fn list_models_command_is_fixed() {
    let inv = list_models_command();
    assert_eq!(inv.program, "pi");
    assert_eq!(inv.args, strings(&["--list-models"]));
    assert!(inv.credential.is_none());
    assert!(inv.workdir.is_none());
}

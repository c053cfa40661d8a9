//! Configuration records, form conversions, path resolution, and the
//! connection slot.

use md_qa_client::{
    assemble_reply, connection_status, default_config_path, do_disconnect, is_connected, Config,
    ConfigForm, ConnectionSlot, StreamEvent,
};

#[test]
fn default_config_is_empty() {
    let cfg = Config::default();
    assert!(cfg.api.base_url.is_none());
    assert!(cfg.api.api_key.is_none());
    assert!(cfg.server.port.is_none());
    assert!(cfg.server.directories.is_empty());
    assert!(cfg.server.reload_interval.is_none());
    assert!(cfg.server.index_name.is_none());
}

#[test]
fn default_form_holds_the_built_in_defaults() {
    let form = ConfigForm::default();
    assert_eq!(form.api_base_url, "");
    assert_eq!(form.server_port, 8765);
    assert_eq!(form.reload_interval, 300);
    assert_eq!(form.index_name, "default");
    assert!(form.directories.is_empty());
}

#[test]
fn form_from_empty_config_uses_defaults() {
    let form = ConfigForm::from_config(Config::default());
    assert_eq!(form, ConfigForm::default());
}

#[test]
fn form_from_full_config_keeps_every_value() {
    let mut cfg = Config::default();
    cfg.api.base_url = Some("https://api.example.com/v1".to_string());
    cfg.api.api_key = Some("test-key".to_string());
    cfg.api.embedding_model = Some("text-embedding-3-small".to_string());
    cfg.api.llm_model = Some("qwen-flash".to_string());
    cfg.server.port = Some(9000);
    cfg.server.directories = vec!["/docs".to_string(), "/notes".to_string()];
    cfg.server.reload_interval = Some(600);
    cfg.server.index_name = Some("my-index".to_string());

    let form = ConfigForm::from_config(cfg);
    assert_eq!(form.api_base_url, "https://api.example.com/v1");
    assert_eq!(form.api_key, "test-key");
    assert_eq!(form.embedding_model, "text-embedding-3-small");
    assert_eq!(form.llm_model, "qwen-flash");
    assert_eq!(form.server_port, 9000);
    assert_eq!(form.directories, vec!["/docs", "/notes"]);
    assert_eq!(form.reload_interval, 600);
    assert_eq!(form.index_name, "my-index");
}

#[test]
fn form_config_round_trip_preserves_values() {
    let original = ConfigForm {
        api_base_url: "https://round.trip/v1".to_string(),
        api_key: "rt-key".to_string(),
        embedding_model: "rt-embed".to_string(),
        llm_model: "rt-llm".to_string(),
        server_port: 4321,
        directories: vec!["/a".to_string(), "/b".to_string(), "/c".to_string()],
        reload_interval: 999,
        index_name: "rt-index".to_string(),
    };
    let reloaded = ConfigForm::from_config(original.clone().into_config());
    assert_eq!(reloaded, original);
}

#[test]
fn default_config_path_hangs_off_the_home_directory() {
    let path = default_config_path(Some("/home/user".to_string()));
    assert_eq!(path.as_deref(), Some("/home/user/.md-qa/config.yaml"));
    assert_eq!(default_config_path(None), None);
}

#[test]
fn config_path_priority_is_cli_env_default() {
    let cli = Some("/cli.yaml".to_string());
    let env = Some("/env.yaml".to_string());
    let def = Some("/def.yaml".to_string());
    assert_eq!(
        md_qa_client::config::config_path_to_load(cli.clone(), env.clone(), def.clone(), true),
        cli
    );
    assert_eq!(
        md_qa_client::config::config_path_to_load(None, env.clone(), def.clone(), true),
        env
    );
    assert_eq!(md_qa_client::config::config_path_to_load(None, None, def.clone(), true), def);
    assert_eq!(md_qa_client::config::config_path_to_load(None, None, def, false), None);
    assert_eq!(md_qa_client::config::config_path_to_load(None, None, None, true), None);
}

#[test]
fn load_error_message_names_path_and_cause() {
    let msg = md_qa_client::config::load_error_message("/tmp/c.yaml", "no such file");
    assert_eq!(msg, "Error: failed to load config from /tmp/c.yaml: no such file");
}

// ─── The connection slot ─────────────────────────────────────────────────

#[test]
fn disconnect_when_not_connected_is_safe() {
    let mut slot = ConnectionSlot::new();
    do_disconnect(&mut slot);
}

#[test]
fn fresh_slot_reports_disconnected() {
    let slot = ConnectionSlot::new();
    assert!(!is_connected(&slot));
    let status = connection_status(&slot);
    assert_eq!(status.state, "disconnected");
    assert_eq!(status.message, None);
}

#[test]
fn disconnect_leaves_the_slot_empty() {
    let mut slot = ConnectionSlot::new();
    do_disconnect(&mut slot);
    assert!(!is_connected(&slot));
    assert_eq!(connection_status(&slot).state, "disconnected");
}

// ─── Reply assembly ──────────────────────────────────────────────────────

#[test]
fn reply_assembly_reports_a_server_error() {
    let events = vec![StreamEvent::Error("Index not ready".to_string())];
    let reply = assemble_reply(&events);
    assert_eq!(reply.answer, "");
    assert!(reply.sources.is_empty());
    assert_eq!(reply.error.as_deref(), Some("Index not ready"));
}

#[test]
fn reply_assembly_of_no_events_is_empty() {
    let reply = assemble_reply(&Vec::new());
    assert_eq!(reply.answer, "");
    assert!(reply.sources.is_empty());
    assert!(reply.error.is_none());
}

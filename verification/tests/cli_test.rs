use qrcode_agent_cli::commands::{
    complete_context_set, handle_context_show, handle_help, handle_paths, ContextSetArgs, HelpArgs,
    StructuredArgs,
};
use qrcode_agent_cli::commands::handle_context_set;
use qrcode_agent_cli::context::{resolve_runtime_paths, ActiveContext, RuntimeEnvironment, RuntimePaths};
use qrcode_agent_cli::formats::RenderMode;
use qrcode_agent_cli::help::structured_help;
use qrcode_agent_cli::run::{handle_run, resolve_run, RunArgs, RunOutput};

fn runtime_env(base: &str) -> RuntimeEnvironment {
    RuntimeEnvironment {
        config_override: Some(format!("{base}/config")),
        data_override: Some(format!("{base}/data")),
        state_override: Some(format!("{base}/state")),
        cache_override: Some(format!("{base}/cache")),
        config_home: None,
        data_home: None,
        state_home: None,
        data_local_home: None,
        cache_home: None,
    }
}

fn test_paths() -> RuntimePaths {
    resolve_runtime_paths(&runtime_env("/tmp/qrcode-agent-cli-test")).expect("paths")
}

fn run_args(content: Option<&str>, render: Option<&str>, output: Option<&str>, format: &str) -> RunArgs {
    RunArgs {
        content: content.map(|c| c.to_string()),
        render: render.map(|r| r.to_string()),
        output: output.map(|o| o.to_string()),
        size: None,
        format: format.to_string(),
    }
}

#[test]
fn top_level_invocation_shows_help() {
    let doc = structured_help(&[], &test_paths()).expect("root help");
    assert!(doc.summary.contains("Generate QR codes as terminal text or PNG images"));
}

#[test]
fn help_run_can_be_rendered_as_json() {
    let args = HelpArgs { command_path: vec!["run".to_string()], format: "json".to_string() };
    let doc = handle_help(&args, Ok(test_paths())).expect("help for run");
    let output = serde_json::to_vec(&doc.command_path).expect("json");
    let payload: serde_json::Value = serde_json::from_slice(&output).expect("valid json");
    assert_eq!(
        payload,
        serde_json::Value::Array(vec![
            serde_json::Value::String("qrcode-agent-cli".to_string()),
            serde_json::Value::String("run".to_string()),
        ])
    );
}

#[test]
fn run_text_emits_qr_blocks() {
    let args = run_args(Some("hello from test"), Some("text"), None, "yaml");
    let resolved = resolve_run(&args, Ok(ActiveContext::default()), Ok("/tmp".to_string())).expect("resolved");
    match handle_run(resolved).expect("rendered") {
        RunOutput::Text(stdout) => assert!(stdout.lines().count() > 2, "expected multiline qr output"),
        RunOutput::Image { .. } => panic!("expected text output"),
    }
}

#[test]
fn run_image_writes_png_and_returns_metadata() {
    let image_path = "/tmp/qrcode_agent_cli_test_qr.png";
    let args = run_args(Some("hello image"), Some("image"), Some(image_path), "json");
    let resolved = resolve_run(&args, Ok(ActiveContext::default()), Ok("/tmp".to_string())).expect("resolved");
    match handle_run(resolved).expect("rendered") {
        RunOutput::Image { image, output, response } => {
            let png = image::GrayImage::from_raw(image.width, image.height, image.luma).expect("raster");
            png.save(&output).expect("png written");
            assert!(std::path::Path::new(image_path).exists(), "expected png file to be created");
            assert_eq!(response.render, RenderMode::Image);
            assert_eq!(response.image_path, image_path.to_string());
        },
        RunOutput::Text(_) => panic!("expected image output"),
    }
}

#[test]
fn missing_content_returns_structured_error() {
    let args = run_args(None, Some("image"), None, "json");
    let err = resolve_run(&args, Ok(ActiveContext::default()), Ok("/tmp".to_string())).unwrap_err();
    assert_eq!(err.code, "missing_content");
}

#[test]
fn context_can_be_persisted_and_shown() {
    let set_args = ContextSetArgs {
        render: Some("image".to_string()),
        output: None,
        size: Some(512),
        format: "json".to_string(),
    };
    let update = handle_context_set(&set_args, Ok(ActiveContext::default())).expect("update");
    let saved = update.active_context.clone();
    complete_context_set(update, Ok(()), Ok(test_paths())).expect("set response");
    let show = StructuredArgs { format: "json".to_string() };
    let payload = handle_context_show(&show, Ok(test_paths()), Ok(saved), true).expect("show response");
    assert_eq!(payload.active_context.default_render, Some(RenderMode::Image));
    assert_eq!(payload.active_context.default_image_size, Some(512));
}

#[test]
fn paths_supports_toml_output() {
    let args = StructuredArgs { format: "toml".to_string() };
    let response = handle_paths(&args, Ok(test_paths()), false).expect("paths response");
    let dirs = &response.runtime_directories;
    let mut directories = toml::Table::new();
    for (key, value) in [
        ("config_dir", &dirs.config_dir),
        ("data_dir", &dirs.data_dir),
        ("state_dir", &dirs.state_dir),
        ("cache_dir", &dirs.cache_dir),
        ("context_file", &dirs.context_file),
    ] {
        directories.insert(key.to_string(), toml::Value::String(value.clone()));
    }
    let mut document = toml::Table::new();
    document.insert("runtime_directories".to_string(), toml::Value::Table(directories));
    let output = toml::to_string_pretty(&document).expect("toml");
    let parsed: toml::Value = toml::from_str(&output).expect("valid toml");
    assert!(parsed.get("runtime_directories").is_some());
    assert_eq!(dirs.config_dir, "/tmp/qrcode-agent-cli-test/config");
}

use qrcode_agent_cli::commands::{
    complete_context_set, handle_context_clear, handle_context_set, handle_help, handle_paths,
    ContextSetArgs, HelpArgs, StructuredArgs,
};
use qrcode_agent_cli::context::{
    default_output_in, resolve_runtime_paths, runtime_env_overrides, ActiveContext, RuntimeEnvironment,
    RuntimePaths, DEFAULT_IMAGE_SIZE,
};
use qrcode_agent_cli::error::{parse_output_format, parse_render_mode, AppError};
use qrcode_agent_cli::formats::{OutputFormat, RenderMode};
use qrcode_agent_cli::help::{enum_values, format_list, option, structured_help};
use qrcode_agent_cli::run::{
    handle_run, image_size_supported, image_write_error, output_directory_error, resolve_run, RunArgs,
    RunOutput,
};
use qrcode_agent_cli::text::{decimal_text, eq_ascii_lowercase, join_texts, text_is, with_trailing_newline};

fn overrides_only(base: &str) -> RuntimeEnvironment {
    RuntimeEnvironment {
        config_override: Some(format!("{base}/config")),
        data_override: Some(format!("{base}/data")),
        state_override: Some(format!("{base}/state")),
        cache_override: Some(format!("{base}/cache")),
        config_home: None,
        data_home: None,
        state_home: None,
        data_local_home: None,
        cache_home: None,
    }
}

fn paths() -> RuntimePaths {
    resolve_runtime_paths(&overrides_only("/srv/qr")).unwrap()
}

fn args(content: Option<&str>, render: Option<&str>, output: Option<&str>, size: Option<u32>, format: &str) -> RunArgs {
    RunArgs {
        content: content.map(String::from),
        render: render.map(String::from),
        output: output.map(String::from),
        size,
        format: format.to_string(),
    }
}

fn persisted(render: Option<RenderMode>, output: Option<&str>, size: Option<u32>) -> ActiveContext {
    ActiveContext { default_render: render, default_output: output.map(String::from), default_image_size: size }
}

#[test]
fn render_mode_words_are_case_insensitive() {
    assert_eq!(RenderMode::parse("text").unwrap(), RenderMode::Text);
    assert_eq!(RenderMode::parse("TeXt").unwrap(), RenderMode::Text);
    assert_eq!(RenderMode::parse("IMAGE").unwrap(), RenderMode::Image);
    assert_eq!(RenderMode::parse("png").unwrap(), RenderMode::Image);
    assert_eq!(RenderMode::parse("Png").unwrap(), RenderMode::Image);
}

#[test]
fn unknown_render_mode_is_explained() {
    assert_eq!(RenderMode::parse("svg").unwrap_err(), "Unsupported render mode `svg`. Use `text` or `image`.");
    assert_eq!(RenderMode::parse("").unwrap_err(), "Unsupported render mode ``. Use `text` or `image`.");
    assert!(RenderMode::parse("téxt").is_err());
}

#[test]
fn output_formats_parse_and_fall_back() {
    assert_eq!(OutputFormat::parse("JSON").unwrap(), OutputFormat::Json);
    assert_eq!(OutputFormat::parse("yaml").unwrap(), OutputFormat::Yaml);
    assert_eq!(OutputFormat::parse("Toml").unwrap(), OutputFormat::Toml);
    assert_eq!(OutputFormat::parse("xml").unwrap_err(), "Unsupported format `xml`. Use `yaml`, `json`, or `toml`.");
    assert_eq!(OutputFormat::fallback("xml"), OutputFormat::Yaml);
    assert_eq!(OutputFormat::fallback("json"), OutputFormat::Json);
}

#[test]
fn output_format_names_read_back() {
    for format in [OutputFormat::Yaml, OutputFormat::Json, OutputFormat::Toml] {
        assert_eq!(OutputFormat::parse(format.as_str()).unwrap(), format);
    }
    assert_eq!(OutputFormat::Toml.as_str(), "toml");
}

#[test]
fn invalid_format_error_is_reported_in_yaml() {
    let err = parse_output_format("xml").unwrap_err();
    assert_eq!(err.code, "invalid_output_format");
    assert_eq!(err.format, OutputFormat::Yaml);
    assert_eq!(err.exit_code, 1);
    assert!(err.details.is_empty());
    let err = parse_render_mode("gif", OutputFormat::Json).unwrap_err();
    assert_eq!(err.code, "invalid_render_mode");
    assert_eq!(err.format, OutputFormat::Json);
    assert_eq!(err.message, "Unsupported render mode `gif`. Use `text` or `image`.");
}

#[test]
fn trailing_newline_is_added_once() {
    assert_eq!(with_trailing_newline("abc".to_string()), "abc\n");
    assert_eq!(with_trailing_newline("abc\n".to_string()), "abc\n");
    assert_eq!(with_trailing_newline(String::new()), "\n");
    let once = with_trailing_newline("x".to_string());
    assert_eq!(with_trailing_newline(once.clone()), once);
}

#[test]
fn text_helpers() {
    assert_eq!(decimal_text(256), "256");
    assert_eq!(decimal_text(0), "0");
    assert_eq!(decimal_text(4294967295), "4294967295");
    assert!(eq_ascii_lowercase("YAML", "yaml"));
    assert!(!eq_ascii_lowercase("yam", "yaml"));
    assert!(text_is(&"run".to_string(), "run"));
    assert!(!text_is(&"runs".to_string(), "run"));
    assert_eq!(join_texts(&vec!["context".to_string(), "set".to_string()], " "), "context set");
    assert_eq!(join_texts(&vec![], " "), "");
}

#[test]
fn runtime_paths_prefer_non_empty_overrides() {
    let p = paths();
    assert_eq!(p.config_dir, "/srv/qr/config");
    assert_eq!(p.data_dir, "/srv/qr/data");
    assert_eq!(p.state_dir, "/srv/qr/state");
    assert_eq!(p.cache_dir, "/srv/qr/cache");
    assert_eq!(p.context_file, "/srv/qr/config/active-context.toml");
    assert_eq!(p.context_file_path(), std::path::PathBuf::from("/srv/qr/config/active-context.toml"));
    assert_eq!(p.config_dir_path(), std::path::PathBuf::from("/srv/qr/config"));
}

#[test]
fn runtime_paths_fall_back_to_platform_directories() {
    let env = RuntimeEnvironment {
        config_override: Some(String::new()),
        data_override: None,
        state_override: None,
        cache_override: None,
        config_home: Some("/home/u/.config".to_string()),
        data_home: Some("/home/u/.local/share".to_string()),
        state_home: None,
        data_local_home: Some("/home/u/.local/share".to_string()),
        cache_home: Some("/home/u/.cache".to_string()),
    };
    let p = resolve_runtime_paths(&env).unwrap();
    assert_eq!(p.config_dir, "/home/u/.config/qrcode-agent-cli");
    assert_eq!(p.data_dir, "/home/u/.local/share/qrcode-agent-cli");
    assert_eq!(p.state_dir, "/home/u/.local/share/qrcode-agent-cli/state");
    assert_eq!(p.cache_dir, "/home/u/.cache/qrcode-agent-cli");
}

#[test]
fn runtime_paths_report_the_first_missing_directory() {
    let mut env = overrides_only("/srv");
    env.data_override = None;
    env.cache_override = None;
    assert_eq!(resolve_runtime_paths(&env).unwrap_err(), "Unable to resolve a user-scoped data directory");
    let mut env = overrides_only("/srv");
    env.state_override = Some(String::new());
    assert_eq!(resolve_runtime_paths(&env).unwrap_err(), "Unable to resolve a user-scoped state directory");
}

#[test]
fn env_override_names() {
    let o = runtime_env_overrides();
    assert_eq!(o.config_dir, "QRCODE_AGENT_CLI_CONFIG_DIR");
    assert_eq!(o.data_dir, "QRCODE_AGENT_CLI_DATA_DIR");
    assert_eq!(o.state_dir, "QRCODE_AGENT_CLI_STATE_DIR");
    assert_eq!(o.cache_dir, "QRCODE_AGENT_CLI_CACHE_DIR");
}

#[test]
fn default_output_is_in_working_directory() {
    assert_eq!(default_output_in(&"/work".to_string()), "/work/qrcode.png");
}

#[test]
fn run_flags_override_persisted_defaults() {
    let saved = persisted(Some(RenderMode::Image), Some("/saved.png"), Some(384));
    let run = resolve_run(&args(Some("hi"), None, None, None, "yaml"), Ok(saved.clone()), Ok("/w".to_string())).unwrap();
    assert_eq!(run.render, RenderMode::Image);
    assert_eq!(run.output.as_deref(), Some("/saved.png"));
    assert_eq!(run.image_size, 384);
    let run = resolve_run(
        &args(Some("hi"), Some("image"), Some("/flag.png"), Some(100), "yaml"),
        Ok(saved.clone()),
        Ok("/w".to_string()),
    )
    .unwrap();
    assert_eq!(run.output.as_deref(), Some("/flag.png"));
    assert_eq!(run.image_size, 100);
    assert_eq!(run.effective_context.invocation_overrides.image_size, Some(100));
    assert_eq!(run.effective_context.persisted_defaults.default_image_size, Some(384));
    assert_eq!(run.effective_context.resolved.default_output.as_deref(), Some("/flag.png"));
    let run = resolve_run(&args(Some("hi"), Some("TEXT"), None, None, "yaml"), Ok(saved), Ok("/w".to_string())).unwrap();
    assert_eq!(run.render, RenderMode::Text);
    assert_eq!(run.output, None);
    assert_eq!(run.effective_context.invocation_overrides.render, Some(RenderMode::Text));
}

#[test]
fn cleared_context_uses_builtin_defaults() {
    let run = resolve_run(&args(Some("hi"), None, None, None, "json"), Ok(ActiveContext::default()), Err("gone".to_string())).unwrap();
    assert_eq!(run.render, RenderMode::Text);
    assert_eq!(run.image_size, DEFAULT_IMAGE_SIZE);
    assert_eq!(run.format, OutputFormat::Json);
    let run = resolve_run(&args(Some("hi"), Some("png"), None, None, "json"), Ok(ActiveContext::default()), Ok("/w".to_string())).unwrap();
    assert_eq!(run.output.as_deref(), Some("/w/qrcode.png"));
}

#[test]
fn run_errors_come_in_order() {
    let ok_dir = || Ok("/w".to_string());
    let e = resolve_run(&args(None, Some("gif"), None, Some(0), "bad"), Err("x".to_string()), ok_dir()).unwrap_err();
    assert_eq!(e.code, "invalid_output_format");
    let e = resolve_run(&args(None, Some("gif"), None, Some(0), "json"), Err("unreadable".to_string()), ok_dir()).unwrap_err();
    assert_eq!((e.code.as_str(), e.message.as_str(), e.format), ("context_load_failed", "unreadable", OutputFormat::Json));
    let e = resolve_run(&args(None, Some("gif"), None, Some(0), "json"), Ok(ActiveContext::default()), ok_dir()).unwrap_err();
    assert_eq!(e.code, "missing_content");
    assert_eq!(e.message, "Provide inline content to encode, for example: `qrcode-agent-cli run \"hello\"`.");
    let e = resolve_run(&args(Some("c"), Some("gif"), None, Some(0), "json"), Ok(ActiveContext::default()), ok_dir()).unwrap_err();
    assert_eq!(e.code, "invalid_render_mode");
    let e = resolve_run(&args(Some("c"), Some("text"), Some("/o.png"), Some(0), "json"), Ok(ActiveContext::default()), ok_dir()).unwrap_err();
    assert_eq!(e.code, "invalid_size");
    assert_eq!(e.message, "Image size must be greater than zero.");
    let e = resolve_run(&args(Some("c"), Some("image"), Some("/o.png"), None, "json"), Ok(ActiveContext::default()), Err("no cwd".to_string())).unwrap_err();
    assert_eq!((e.code.as_str(), e.message.as_str()), ("default_output_unavailable", "no cwd"));
}

#[test]
fn too_long_content_fails_to_encode() {
    let content = "x".repeat(8000);
    let run = resolve_run(&args(Some(&content), None, None, None, "toml"), Ok(ActiveContext::default()), Ok("/w".to_string())).unwrap();
    let e = handle_run(run).unwrap_err();
    assert_eq!(e.code, "qrcode_generation_failed");
    assert_eq!(e.message, "Failed to generate a QR code: data too long");
    assert_eq!(e.format, OutputFormat::Toml);
}

#[test]
fn text_rendering_is_dense_unicode_with_final_newline() {
    let run = resolve_run(&args(Some("hello"), None, None, None, "yaml"), Ok(ActiveContext::default()), Ok("/w".to_string())).unwrap();
    match handle_run(run).unwrap() {
        RunOutput::Text(text) => {
            assert!(text.ends_with('\n'));
            assert!(text.contains('\u{2588}') || text.contains('\u{2580}') || text.contains('\u{2584}'));
            // 21 modules plus a quiet zone of 4 on each side, two rows per line
            assert_eq!(text.lines().next().unwrap().chars().count(), 29);
            assert_eq!(text.lines().count(), 15);
        },
        RunOutput::Image { .. } => panic!("expected text"),
    }
}

#[test]
fn image_rendering_is_square_and_at_least_the_requested_size() {
    let run = resolve_run(&args(Some("hello"), Some("image"), Some("/tmp/x.png"), Some(200), "json"), Ok(ActiveContext::default()), Ok("/w".to_string())).unwrap();
    match handle_run(run).unwrap() {
        RunOutput::Image { image, output, response } => {
            assert_eq!(image.width, image.height);
            assert!(image.width >= 200);
            assert_eq!(image.luma.len(), (image.width * image.height) as usize);
            assert_eq!(output, "/tmp/x.png");
            assert_eq!(response.command, "run");
            assert_eq!(response.status, "ok");
            assert_eq!(response.output_format, "json");
            assert_eq!(response.image_size, 200);
            assert_eq!(response.content, "hello");
        },
        RunOutput::Text(_) => panic!("expected image"),
    }
}

#[test]
fn image_size_limits() {
    assert!(image_size_supported(256));
    assert!(image_size_supported(1));
    assert!(!image_size_supported(u32::MAX));
    assert!(!image_size_supported(u32::MAX - 100));
}

#[test]
fn run_io_errors() {
    let e = output_directory_error("/ro", "denied", OutputFormat::Json);
    assert_eq!(e.code, "output_directory_creation_failed");
    assert_eq!(e.message, "Failed to create output directory `/ro`: denied");
    let e = image_write_error("/ro/x.png", "denied", OutputFormat::Yaml);
    assert_eq!(e.code, "image_write_failed");
    assert_eq!(e.message, "Failed to write `/ro/x.png`: denied");
}

#[test]
fn context_set_requires_a_change() {
    let set = ContextSetArgs { render: None, output: None, size: None, format: "yaml".to_string() };
    let e = handle_context_set(&set, Ok(ActiveContext::default())).unwrap_err();
    assert_eq!(e.code, "missing_context_changes");
    assert_eq!(e.message, "Provide at least one of `--render`, `--output`, or `--size`.");
}

#[test]
fn context_set_keeps_other_fields_and_rejects_zero() {
    let before = persisted(Some(RenderMode::Image), Some("/a.png"), Some(300));
    let set = ContextSetArgs { render: None, output: Some("/b.png".to_string()), size: None, format: "yaml".to_string() };
    let update = handle_context_set(&set, Ok(before.clone())).unwrap();
    assert_eq!(update.active_context.default_render, Some(RenderMode::Image));
    assert_eq!(update.active_context.default_output.as_deref(), Some("/b.png"));
    assert_eq!(update.active_context.default_image_size, Some(300));
    let set = ContextSetArgs { render: None, output: None, size: Some(0), format: "yaml".to_string() };
    assert_eq!(handle_context_set(&set, Ok(before.clone())).unwrap_err().code, "invalid_size");
    let set = ContextSetArgs { render: Some("bmp".to_string()), output: None, size: Some(0), format: "yaml".to_string() };
    assert_eq!(handle_context_set(&set, Ok(before)).unwrap_err().code, "invalid_render_mode");
}

#[test]
fn context_set_then_run_inherits_defaults() {
    let set = ContextSetArgs { render: Some("image".to_string()), output: Some("/saved.png".to_string()), size: Some(512), format: "json".to_string() };
    let update = handle_context_set(&set, Ok(ActiveContext::default())).unwrap();
    let run = resolve_run(&args(Some("hi"), None, None, None, "yaml"), Ok(update.active_context), Ok("/w".to_string())).unwrap();
    assert_eq!(run.render, RenderMode::Image);
    assert_eq!(run.image_size, 512);
    assert_eq!(run.output.as_deref(), Some("/saved.png"));
}

#[test]
fn context_set_completion_reports_failures() {
    let set = ContextSetArgs { render: Some("text".to_string()), output: None, size: None, format: "toml".to_string() };
    let update = handle_context_set(&set, Ok(ActiveContext::default())).unwrap();
    let e = complete_context_set(update, Err("disk full".to_string()), Ok(paths())).unwrap_err();
    assert_eq!((e.code.as_str(), e.message.as_str(), e.format), ("context_save_failed", "disk full", OutputFormat::Toml));
    let update = handle_context_set(&set, Ok(ActiveContext::default())).unwrap();
    let response = complete_context_set(update, Ok(()), Ok(paths())).unwrap();
    assert_eq!(response.command, "context set");
    assert!(response.source.exists);
    assert_eq!(response.source.path, "/srv/qr/config/active-context.toml");
}

#[test]
fn context_clear_reports() {
    let response = handle_context_clear(OutputFormat::Json, Ok(true), Ok(paths())).unwrap();
    assert_eq!(response.command, "context clear");
    assert!(response.cleared);
    let e = handle_context_clear(OutputFormat::Json, Err("busy".to_string()), Ok(paths())).unwrap_err();
    assert_eq!(e.code, "context_clear_failed");
    let e = handle_context_clear(OutputFormat::Json, Ok(false), Err("no home".to_string())).unwrap_err();
    assert_eq!((e.code.as_str(), e.message.as_str()), ("runtime_paths_unavailable", "no home"));
}

#[test]
fn paths_report() {
    let response = handle_paths(&StructuredArgs { format: "yaml".to_string() }, Ok(paths()), true).unwrap();
    assert_eq!(response.command, "paths");
    assert!(response.user_scoped_defaults);
    assert!(response.active_context_file_exists);
    assert_eq!(response.env_overrides.cache_dir, "QRCODE_AGENT_CLI_CACHE_DIR");
    let e = handle_paths(&StructuredArgs { format: "csv".to_string() }, Ok(paths()), true).unwrap_err();
    assert_eq!(e.code, "invalid_output_format");
}

#[test]
fn help_for_every_known_path() {
    let p = paths();
    let known: [&[&str]; 8] = [
        &[], &["run"], &["paths"], &["context"], &["context", "show"], &["context", "set"], &["context", "clear"], &["help"],
    ];
    for path in known {
        let words: Vec<String> = path.iter().map(|w| w.to_string()).collect();
        let doc = structured_help(&words, &p).expect("known path");
        let mut expected = vec!["qrcode-agent-cli".to_string()];
        expected.extend(words.iter().cloned());
        assert_eq!(doc.command_path, expected);
        assert_eq!(doc.active_context.persisted_location, p.context_file);
        assert_eq!(doc.runtime_directories.state_dir, p.state_dir);
    }
    assert!(structured_help(&["context".to_string(), "drop".to_string()], &p).is_none());
    assert!(structured_help(&["Run".to_string()], &p).is_none());
}

#[test]
fn help_run_documents_size_default() {
    let doc = structured_help(&["run".to_string()], &paths()).unwrap();
    let size = doc.options.iter().find(|o| o.name == "size").unwrap();
    assert_eq!(size.default.as_deref(), Some("256"));
    assert_eq!(doc.output_formats, vec!["text", "yaml", "json", "toml"]);
    let render = doc.options.iter().find(|o| o.name == "render").unwrap();
    assert_eq!(render.enum_values, vec!["text", "image"]);
}

#[test]
fn unknown_help_path_is_an_error() {
    let args = HelpArgs { command_path: vec!["context".to_string(), "drop".to_string()], format: "json".to_string() };
    let e = handle_help(&args, Ok(paths())).unwrap_err();
    assert_eq!(e.code, "unknown_command_path");
    assert_eq!(e.message, "Unknown command path `context drop`.");
    assert_eq!(e.format, OutputFormat::Json);
}

#[test]
fn help_building_blocks() {
    assert_eq!(format_list(), vec!["yaml", "json", "toml"]);
    assert_eq!(enum_values(&["a", "b"]), vec!["a", "b"]);
    let o = option("n", "int", true, Some("1"), "d", Vec::new());
    assert_eq!((o.name.as_str(), o.value_type.as_str(), o.required), ("n", "int", true));
    assert_eq!(o.default.as_deref(), Some("1"));
}

#[test]
fn error_reports() {
    let e = AppError::new("boom", "it broke".to_string(), OutputFormat::Json, 3);
    assert_eq!(e.exit_code, 3);
    assert_eq!(e.render(Ok("{}".to_string())), "{}\n");
    assert_eq!(e.render(Err("bad".to_string())), "code: boom\nmessage: it broke\n");
    let r = e.response();
    assert_eq!((r.code.as_str(), r.message.as_str()), ("boom", "it broke"));
    let out = OutputFormat::Json.serialized(Ok("x".to_string())).unwrap();
    assert_eq!(out, "x\n");
    let err = OutputFormat::Toml.serialized(Err("unsupported type".to_string())).unwrap_err();
    assert_eq!(err.code, "serialization_failed");
    assert_eq!(err.message, "Failed to serialize output as toml: unsupported type");
}

#[test]
fn text_run_ignores_output_flag() {
    let run = resolve_run(&args(Some("c"), Some("text"), Some("/o.png"), None, "json"), Ok(ActiveContext::default()), Err("no cwd".to_string())).unwrap();
    assert_eq!(run.render, RenderMode::Text);
    assert_eq!(run.output, None);
    assert_eq!(run.effective_context.invocation_overrides.output.as_deref(), Some("/o.png"));
    assert_eq!(run.effective_context.resolved.default_output, None);
    match handle_run(run).unwrap() {
        RunOutput::Text(text) => assert!(text.lines().count() > 2),
        RunOutput::Image { .. } => panic!("expected text"),
    }
}

#[test]
fn context_set_twice_equals_once() {
    let set = ContextSetArgs { render: Some("png".to_string()), output: Some("/x.png".to_string()), size: Some(64), format: "json".to_string() };
    let first = handle_context_set(&set, Ok(persisted(None, Some("/old.png"), Some(9)))).unwrap();
    let again = handle_context_set(&set, Ok(first.active_context.clone())).unwrap();
    assert_eq!(again.format, first.format);
    assert_eq!(again.active_context.default_render, first.active_context.default_render);
    assert_eq!(again.active_context.default_output, first.active_context.default_output);
    assert_eq!(again.active_context.default_image_size, first.active_context.default_image_size);
}

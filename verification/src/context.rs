//! Persisted defaults (the Active Context) and the user-scoped runtime
//! directories that hold them.

use std::path::PathBuf;

use vstd::prelude::*;

use crate::formats::RenderMode;

verus! {

/// The program's name, used as the directory name under each base directory.
pub const APP_NAME: &'static str = "qrcode-agent-cli";

/// Side length in pixels of a PNG when neither a flag nor a default names one.
pub const DEFAULT_IMAGE_SIZE: u32 = 256;

/// Environment variable that overrides the config directory.
pub const CONFIG_DIR_ENV: &'static str = "QRCODE_AGENT_CLI_CONFIG_DIR";

/// Environment variable that overrides the data directory.
pub const DATA_DIR_ENV: &'static str = "QRCODE_AGENT_CLI_DATA_DIR";

/// Environment variable that overrides the state directory.
pub const STATE_DIR_ENV: &'static str = "QRCODE_AGENT_CLI_STATE_DIR";

/// Environment variable that overrides the cache directory.
pub const CACHE_DIR_ENV: &'static str = "QRCODE_AGENT_CLI_CACHE_DIR";

/// File name of the Active Context inside the config directory.
pub const CONTEXT_FILE_NAME: &'static str = "active-context.toml";

/// File name of the default PNG inside the working directory.
pub const DEFAULT_OUTPUT_FILE_NAME: &'static str = "qrcode.png";

/// `std::path::PathBuf`, declared so that paths can be returned; Verus sees
/// nothing inside one.
#[verifier::external_type_specification]
#[verifier::external_body]
pub struct ExPathBuf(PathBuf);

/// Names the path that `PathBuf::from` builds from a text.
pub uninterp spec fn path_buf_of(text: Seq<char>) -> PathBuf;

/// Names the text of `Path::new(base).join(segment)` as `display` shows it.
pub uninterp spec fn joined_path(base: Seq<char>, segment: Seq<char>) -> Seq<char>;

/// Calls `PathBuf::from` on a string; the result is named by `path_buf_of`,
/// so the same text always gives the same path.
#[verifier::external_body]
fn path_buf_from(text: &String) -> (p: PathBuf)
    ensures
        p == path_buf_of(text@),
{
    PathBuf::from(text)
}

/// Calls `Path::join` and shows the result with `display`; the text is named
/// by `joined_path`. Nothing is stated of how the separator is placed.
#[verifier::external_body]
pub(crate) fn join_path(base: &str, segment: &str) -> (r: String)
    ensures
        r@ == joined_path(base@, segment@),
{
    std::path::Path::new(base).join(segment).display().to_string()
}

/// The text of an optional string.
pub open spec fn opt_text(o: Option<String>) -> Option<Seq<char>> {
    match o {
        Some(s) => Some(s@),
        None => None,
    }
}

/// A copy of an optional string.
pub fn copy_text(o: &Option<String>) -> (r: Option<String>)
    ensures
        opt_text(r) == opt_text(*o),
{
    match o {
        Some(s) => Some(s.clone()),
        None => None,
    }
}

/// The persisted default settings.
#[derive(Debug)]
pub struct ActiveContext {
    pub default_render: Option<RenderMode>,
    pub default_output: Option<String>,
    pub default_image_size: Option<u32>,
}

/// The persisted default settings as values.
pub struct ActiveContextView {
    pub default_render: Option<RenderMode>,
    pub default_output: Option<Seq<char>>,
    pub default_image_size: Option<u32>,
}

impl View for ActiveContext {
    type V = ActiveContextView;

    open spec fn view(&self) -> ActiveContextView {
        ActiveContextView {
            default_render: self.default_render,
            default_output: opt_text(self.default_output),
            default_image_size: self.default_image_size,
        }
    }
}

impl Clone for ActiveContext {
    fn clone(&self) -> (r: Self)
        ensures
            r@ == self@,
    {
        ActiveContext {
            default_render: self.default_render,
            default_output: copy_text(&self.default_output),
            default_image_size: self.default_image_size,
        }
    }
}

impl Default for ActiveContext {
    fn default() -> (r: Self)
        ensures
            r@ == (ActiveContextView { default_render: None, default_output: None, default_image_size: None }),
    {
        ActiveContext { default_render: None, default_output: None, default_image_size: None }
    }
}

/// The user-scoped runtime directories and the Active Context file, as text.
#[derive(Debug)]
pub struct RuntimePaths {
    pub config_dir: String,
    pub data_dir: String,
    pub state_dir: String,
    pub cache_dir: String,
    pub context_file: String,
}

/// The runtime directories as values.
pub struct RuntimePathsView {
    pub config_dir: Seq<char>,
    pub data_dir: Seq<char>,
    pub state_dir: Seq<char>,
    pub cache_dir: Seq<char>,
    pub context_file: Seq<char>,
}

impl View for RuntimePaths {
    type V = RuntimePathsView;

    open spec fn view(&self) -> RuntimePathsView {
        RuntimePathsView {
            config_dir: self.config_dir@,
            data_dir: self.data_dir@,
            state_dir: self.state_dir@,
            cache_dir: self.cache_dir@,
            context_file: self.context_file@,
        }
    }
}

impl Clone for RuntimePaths {
    fn clone(&self) -> (r: Self)
        ensures
            r@ == self@,
    {
        RuntimePaths {
            config_dir: self.config_dir.clone(),
            data_dir: self.data_dir.clone(),
            state_dir: self.state_dir.clone(),
            cache_dir: self.cache_dir.clone(),
            context_file: self.context_file.clone(),
        }
    }
}

impl RuntimePaths {
    /// The config directory as a path.
    pub fn config_dir_path(&self) -> (p: PathBuf)
        ensures
            p == path_buf_of(self.config_dir@),
    {
        path_buf_from(&self.config_dir)
    }

    /// The Active Context file as a path.
    pub fn context_file_path(&self) -> (p: PathBuf)
        ensures
            p == path_buf_of(self.context_file@),
    {
        path_buf_from(&self.context_file)
    }
}

/// The names of the environment variables that redirect the directories.
#[derive(Debug, Clone, Copy)]
pub struct RuntimeEnvOverrides {
    pub config_dir: &'static str,
    pub data_dir: &'static str,
    pub state_dir: &'static str,
    pub cache_dir: &'static str,
}

/// Lists the environment variables that redirect each runtime directory.
pub fn runtime_env_overrides() -> (r: RuntimeEnvOverrides)
    ensures
        r.config_dir@ == CONFIG_DIR_ENV@,
        r.data_dir@ == DATA_DIR_ENV@,
        r.state_dir@ == STATE_DIR_ENV@,
        r.cache_dir@ == CACHE_DIR_ENV@,
{
    RuntimeEnvOverrides {
        config_dir: CONFIG_DIR_ENV,
        data_dir: DATA_DIR_ENV,
        state_dir: STATE_DIR_ENV,
        cache_dir: CACHE_DIR_ENV,
    }
}

/// What the environment tells about where the directories are: the value of
/// each override variable, and the platform's base directories.
#[derive(Debug)]
pub struct RuntimeEnvironment {
    pub config_override: Option<String>,
    pub data_override: Option<String>,
    pub state_override: Option<String>,
    pub cache_override: Option<String>,
    pub config_home: Option<String>,
    pub data_home: Option<String>,
    pub state_home: Option<String>,
    pub data_local_home: Option<String>,
    pub cache_home: Option<String>,
}

/// An override variable counts only when it is set and not empty.
pub open spec fn override_dir(value: Option<Seq<char>>) -> Option<Seq<char>> {
    match value {
        Some(v) => if v.len() > 0 { Some(v) } else { None },
        None => None,
    }
}

/// The program's own directory under a base directory, where there is one.
pub open spec fn app_dir(base: Option<Seq<char>>) -> Option<Seq<char>> {
    match base {
        Some(b) => Some(joined_path(b, APP_NAME@)),
        None => None,
    }
}

/// The first of two choices that is present.
pub open spec fn first_present(a: Option<Seq<char>>, b: Option<Seq<char>>) -> Option<Seq<char>> {
    if a is Some { a } else { b }
}

/// The config directory: the override, else the program's directory under
/// the platform config directory.
pub open spec fn chosen_config_dir(env: RuntimeEnvironment) -> Option<Seq<char>> {
    first_present(override_dir(opt_text(env.config_override)), app_dir(opt_text(env.config_home)))
}

/// The data directory.
pub open spec fn chosen_data_dir(env: RuntimeEnvironment) -> Option<Seq<char>> {
    first_present(override_dir(opt_text(env.data_override)), app_dir(opt_text(env.data_home)))
}

/// The state directory: the override, else under the platform state
/// directory, else `state` under the program's local data directory.
pub open spec fn chosen_state_dir(env: RuntimeEnvironment) -> Option<Seq<char>> {
    first_present(
        override_dir(opt_text(env.state_override)),
        first_present(
            app_dir(opt_text(env.state_home)),
            match app_dir(opt_text(env.data_local_home)) {
                Some(d) => Some(joined_path(d, "state"@)),
                None => None,
            },
        ),
    )
}

/// The cache directory.
pub open spec fn chosen_cache_dir(env: RuntimeEnvironment) -> Option<Seq<char>> {
    first_present(override_dir(opt_text(env.cache_override)), app_dir(opt_text(env.cache_home)))
}

/// The directories the environment determines, or the message for the first
/// of config, data, state and cache that it leaves undetermined.
pub open spec fn resolved_runtime_paths(env: RuntimeEnvironment) -> Result<RuntimePathsView, Seq<char>> {
    if chosen_config_dir(env) is None {
        Err("Unable to resolve a user-scoped config directory"@)
    } else if chosen_data_dir(env) is None {
        Err("Unable to resolve a user-scoped data directory"@)
    } else if chosen_state_dir(env) is None {
        Err("Unable to resolve a user-scoped state directory"@)
    } else if chosen_cache_dir(env) is None {
        Err("Unable to resolve a user-scoped cache directory"@)
    } else {
        let config = chosen_config_dir(env).unwrap();
        Ok(RuntimePathsView {
            config_dir: config,
            data_dir: chosen_data_dir(env).unwrap(),
            state_dir: chosen_state_dir(env).unwrap(),
            cache_dir: chosen_cache_dir(env).unwrap(),
            context_file: joined_path(config, CONTEXT_FILE_NAME@),
        })
    }
}

fn pick_override(value: &Option<String>) -> (r: Option<String>)
    ensures
        opt_text(r) == override_dir(opt_text(*value)),
{
    match value {
        Some(v) => if v.as_str().unicode_len() > 0 { Some(v.clone()) } else { None },
        None => None,
    }
}

fn pick_app_dir(base: &Option<String>) -> (r: Option<String>)
    ensures
        opt_text(r) == app_dir(opt_text(*base)),
{
    match base {
        Some(b) => Some(join_path(b.as_str(), APP_NAME)),
        None => None,
    }
}

fn or_else_dir(first: Option<String>, second: Option<String>) -> (r: Option<String>)
    ensures
        opt_text(r) == first_present(opt_text(first), opt_text(second)),
{
    match first {
        Some(f) => Some(f),
        None => second,
    }
}

/// Determines the runtime directories from the environment.
pub fn resolve_runtime_paths(env: &RuntimeEnvironment) -> (r: Result<RuntimePaths, String>)
    ensures
        match r {
            Ok(paths) => resolved_runtime_paths(*env) == Ok::<RuntimePathsView, Seq<char>>(paths@),
            Err(message) => resolved_runtime_paths(*env) == Err::<RuntimePathsView, Seq<char>>(message@),
        },
{
    let config = or_else_dir(pick_override(&env.config_override), pick_app_dir(&env.config_home));
    let config_dir = match config {
        Some(c) => c,
        None => return Err(String::from_str("Unable to resolve a user-scoped config directory")),
    };
    let data = or_else_dir(pick_override(&env.data_override), pick_app_dir(&env.data_home));
    let data_dir = match data {
        Some(d) => d,
        None => return Err(String::from_str("Unable to resolve a user-scoped data directory")),
    };
    let local_state = match pick_app_dir(&env.data_local_home) {
        Some(d) => Some(join_path(d.as_str(), "state")),
        None => None,
    };
    let state = or_else_dir(
        pick_override(&env.state_override),
        or_else_dir(pick_app_dir(&env.state_home), local_state),
    );
    let state_dir = match state {
        Some(s) => s,
        None => return Err(String::from_str("Unable to resolve a user-scoped state directory")),
    };
    let cache = or_else_dir(pick_override(&env.cache_override), pick_app_dir(&env.cache_home));
    let cache_dir = match cache {
        Some(c) => c,
        None => return Err(String::from_str("Unable to resolve a user-scoped cache directory")),
    };
    let context_file = join_path(config_dir.as_str(), CONTEXT_FILE_NAME);
    Ok(RuntimePaths { config_dir, data_dir, state_dir, cache_dir, context_file })
}

/// The default PNG path inside a working directory.
pub fn default_output_in(current_dir: &String) -> (r: String)
    ensures
        r@ == joined_path(current_dir@, DEFAULT_OUTPUT_FILE_NAME@),
{
    join_path(current_dir.as_str(), DEFAULT_OUTPUT_FILE_NAME)
}

} // verus!

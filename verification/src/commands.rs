//! The structured commands `paths`, `context show|set|clear` and `help`:
//! their decisions, given what was read from and written to disk.

use vstd::prelude::*;

use crate::context::{
    runtime_env_overrides, ActiveContext, ActiveContextView, RuntimeEnvOverrides, RuntimePaths,
    CACHE_DIR_ENV, CONFIG_DIR_ENV, DATA_DIR_ENV, STATE_DIR_ENV,
};
use crate::error::{app_error, output_format_outcome, parse_output_format, parse_render_mode, AppError, AppErrorView};
use crate::formats::{render_mode_error, render_mode_named, OutputFormat};
use crate::help::{help_doc_for, structured_help, HelpDoc};
use crate::text::{join_texts, joined, texts};

verus! {

/// The flags of a command whose only option is its output format.
#[derive(Debug)]
pub struct StructuredArgs {
    pub format: String,
}

/// The flags of `context set`.
#[derive(Debug)]
pub struct ContextSetArgs {
    pub render: Option<String>,
    pub output: Option<String>,
    pub size: Option<u32>,
    pub format: String,
}

/// The arguments of `help`.
#[derive(Debug)]
pub struct HelpArgs {
    pub command_path: Vec<String>,
    pub format: String,
}

/// The report of `paths`.
#[derive(Debug)]
pub struct PathsResponse {
    pub command: &'static str,
    pub runtime_directories: RuntimePaths,
    pub user_scoped_defaults: bool,
    pub env_overrides: RuntimeEnvOverrides,
    pub active_context_file_exists: bool,
}

/// Where the Active Context lives and whether the file is there.
#[derive(Debug)]
pub struct ContextSource {
    pub path: String,
    pub exists: bool,
}

/// The report of `context show` and `context set`.
#[derive(Debug)]
pub struct ContextResponse {
    pub command: &'static str,
    pub active_context: ActiveContext,
    pub runtime_directories: RuntimePaths,
    pub source: ContextSource,
}

/// The report of `context clear`.
#[derive(Debug)]
pub struct ContextClearResponse {
    pub command: &'static str,
    pub cleared: bool,
    pub runtime_directories: RuntimePaths,
}

/// The error for runtime directories that could not be determined.
pub open spec fn paths_error(message: Seq<char>, format: OutputFormat) -> AppErrorView {
    app_error("runtime_paths_unavailable"@, message, format)
}

fn paths_unavailable(message: String, format: OutputFormat) -> (r: AppError)
    ensures
        r@ == paths_error(message@, format),
{
    AppError::new("runtime_paths_unavailable", message, format, 1)
}

/// Reports the runtime directories, the variables that redirect them, and
/// whether the Active Context file exists.
pub fn handle_paths(
    args: &StructuredArgs,
    paths: Result<RuntimePaths, String>,
    context_file_exists: bool,
) -> (r: Result<PathsResponse, AppError>)
    ensures
        match output_format_outcome(args.format@) {
            Err(e) => r matches Err(err) && err@ == e,
            Ok(format) => match paths {
                Err(message) => r matches Err(err) && err@ == paths_error(message@, format),
                Ok(p) => r matches Ok(response) && {
                    &&& response.command@ == "paths"@
                    &&& response.runtime_directories@ == p@
                    &&& response.user_scoped_defaults
                    &&& response.env_overrides.config_dir@ == CONFIG_DIR_ENV@
                    &&& response.env_overrides.data_dir@ == DATA_DIR_ENV@
                    &&& response.env_overrides.state_dir@ == STATE_DIR_ENV@
                    &&& response.env_overrides.cache_dir@ == CACHE_DIR_ENV@
                    &&& response.active_context_file_exists == context_file_exists
                },
            },
        },
{
    let format = parse_output_format(args.format.as_str())?;
    let paths = match paths {
        Ok(p) => p,
        Err(message) => return Err(paths_unavailable(message, format)),
    };
    Ok(
        PathsResponse {
            command: "paths",
            active_context_file_exists: context_file_exists,
            runtime_directories: paths,
            user_scoped_defaults: true,
            env_overrides: runtime_env_overrides(),
        },
    )
}

/// Reports the persisted Active Context and where it lives.
pub fn handle_context_show(
    args: &StructuredArgs,
    paths: Result<RuntimePaths, String>,
    persisted: Result<ActiveContext, String>,
    context_file_exists: bool,
) -> (r: Result<ContextResponse, AppError>)
    ensures
        match output_format_outcome(args.format@) {
            Err(e) => r matches Err(err) && err@ == e,
            Ok(format) => match paths {
                Err(message) => r matches Err(err) && err@ == paths_error(message@, format),
                Ok(p) => match persisted {
                    Err(message) => r matches Err(err) && err@ == app_error(
                        "context_load_failed"@,
                        message@,
                        format,
                    ),
                    Ok(c) => r matches Ok(response) && {
                        &&& response.command@ == "context show"@
                        &&& response.active_context@ == c@
                        &&& response.runtime_directories@ == p@
                        &&& response.source.path@ == p.context_file@
                        &&& response.source.exists == context_file_exists
                    },
                },
            },
        },
{
    let format = parse_output_format(args.format.as_str())?;
    let paths = match paths {
        Ok(p) => p,
        Err(message) => return Err(paths_unavailable(message, format)),
    };
    let active_context = match persisted {
        Ok(c) => c,
        Err(message) => return Err(AppError::new("context_load_failed", message, format, 1)),
    };
    let path = paths.context_file.clone();
    Ok(
        ContextResponse {
            command: "context show",
            active_context,
            source: ContextSource { exists: context_file_exists, path },
            runtime_directories: paths,
        },
    )
}

/// The message for a `context set` without any change.
pub open spec fn missing_changes_message() -> Seq<char> {
    "Provide at least one of `--render`, `--output`, or `--size`."@
}

/// The Active Context after `context set`: each given flag replaces its
/// field, the others are kept.
pub open spec fn updated_context(args: ContextSetArgs, persisted: ActiveContextView) -> ActiveContextView {
    ActiveContextView {
        default_render: match args.render {
            Some(word) => render_mode_named(word@),
            None => persisted.default_render,
        },
        default_output: match args.output {
            Some(path) => Some(path@),
            None => persisted.default_output,
        },
        default_image_size: match args.size {
            Some(size) => Some(size),
            None => persisted.default_image_size,
        },
    }
}

/// The outcome of `context set` before anything is saved: the format of the
/// report and the new Active Context, or the first error, in this order.
pub open spec fn context_set_outcome(
    args: ContextSetArgs,
    persisted: Result<ActiveContext, String>,
) -> Result<(OutputFormat, ActiveContextView), AppErrorView> {
    match output_format_outcome(args.format@) {
        Err(e) => Err(e),
        Ok(format) => if args.render is None && args.output is None && args.size is None {
            Err(app_error("missing_context_changes"@, missing_changes_message(), format))
        } else {
            match persisted {
                Err(message) => Err(app_error("context_load_failed"@, message@, format)),
                Ok(p) => if args.render matches Some(word) && render_mode_named(word@) is None {
                    Err(app_error("invalid_render_mode"@, render_mode_error(args.render->0@), format))
                } else if args.size == Some(0u32) {
                    Err(app_error("invalid_size"@, "Image size must be greater than zero."@, format))
                } else {
                    Ok((format, updated_context(args, p@)))
                },
            }
        },
    }
}

/// The new Active Context that `context set` saves, and the format of its
/// report.
#[derive(Debug)]
pub struct ContextUpdate {
    pub format: OutputFormat,
    pub active_context: ActiveContext,
}

/// Applies the flags of `context set` to the persisted Active Context (or
/// reports why it could not be read). Nothing is saved here.
pub fn handle_context_set(
    args: &ContextSetArgs,
    persisted: Result<ActiveContext, String>,
) -> (r: Result<ContextUpdate, AppError>)
    ensures
        match r {
            Ok(update) => context_set_outcome(*args, persisted) == Ok::<
                (OutputFormat, ActiveContextView),
                AppErrorView,
            >((update.format, update.active_context@)),
            Err(e) => context_set_outcome(*args, persisted) == Err::<
                (OutputFormat, ActiveContextView),
                AppErrorView,
            >(e@),
        },
{
    let format = parse_output_format(args.format.as_str())?;
    if args.render.is_none() && args.output.is_none() && args.size.is_none() {
        return Err(
            AppError::new(
                "missing_context_changes",
                String::from_str("Provide at least one of `--render`, `--output`, or `--size`."),
                format,
                1,
            ),
        );
    }
    let mut active_context = match persisted {
        Ok(c) => c,
        Err(message) => return Err(AppError::new("context_load_failed", message, format, 1)),
    };
    if let Some(word) = &args.render {
        active_context.default_render = Some(parse_render_mode(word.as_str(), format)?);
    }
    if let Some(path) = &args.output {
        active_context.default_output = Some(path.clone());
    }
    if let Some(size) = args.size {
        if size == 0 {
            return Err(
                AppError::new(
                    "invalid_size",
                    String::from_str("Image size must be greater than zero."),
                    format,
                    1,
                ),
            );
        }
        active_context.default_image_size = Some(size);
    }
    Ok(ContextUpdate { format, active_context })
}

/// Reports a saved Active Context, given the outcome of saving it and of
/// determining the runtime directories.
pub fn complete_context_set(
    update: ContextUpdate,
    saved: Result<(), String>,
    paths: Result<RuntimePaths, String>,
) -> (r: Result<ContextResponse, AppError>)
    ensures
        match saved {
            Err(message) => r matches Err(err) && err@ == app_error(
                "context_save_failed"@,
                message@,
                update.format,
            ),
            Ok(_) => match paths {
                Err(message) => r matches Err(err) && err@ == paths_error(message@, update.format),
                Ok(p) => r matches Ok(response) && {
                    &&& response.command@ == "context set"@
                    &&& response.active_context@ == update.active_context@
                    &&& response.runtime_directories@ == p@
                    &&& response.source.path@ == p.context_file@
                    &&& response.source.exists
                },
            },
        },
{
    let format = update.format;
    if let Err(message) = saved {
        return Err(AppError::new("context_save_failed", message, format, 1));
    }
    let paths = match paths {
        Ok(p) => p,
        Err(message) => return Err(paths_unavailable(message, format)),
    };
    let path = paths.context_file.clone();
    Ok(
        ContextResponse {
            command: "context set",
            active_context: update.active_context,
            source: ContextSource { exists: true, path },
            runtime_directories: paths,
        },
    )
}

/// Reports a cleared Active Context, given the format already read, whether
/// a file was removed (or why removing failed) and the runtime directories.
pub fn handle_context_clear(
    format: OutputFormat,
    cleared: Result<bool, String>,
    paths: Result<RuntimePaths, String>,
) -> (r: Result<ContextClearResponse, AppError>)
    ensures
        match cleared {
            Err(message) => r matches Err(err) && err@ == app_error("context_clear_failed"@, message@, format),
            Ok(removed) => match paths {
                Err(message) => r matches Err(err) && err@ == paths_error(message@, format),
                Ok(p) => r matches Ok(response) && {
                    &&& response.command@ == "context clear"@
                    &&& response.cleared == removed
                    &&& response.runtime_directories@ == p@
                },
            },
        },
{
    let cleared = match cleared {
        Ok(removed) => removed,
        Err(message) => return Err(AppError::new("context_clear_failed", message, format, 1)),
    };
    let paths = match paths {
        Ok(p) => p,
        Err(message) => return Err(paths_unavailable(message, format)),
    };
    Ok(ContextClearResponse { command: "context clear", cleared, runtime_directories: paths })
}

/// The message for a command path that names no command.
pub open spec fn unknown_path_message(path: Seq<Seq<char>>) -> Seq<char> {
    "Unknown command path `"@ + (if path.len() == 0 {
        "<root>"@
    } else {
        joined(path, " "@)
    }) + "`."@
}

/// The structured help of a command path, or why there is none.
pub fn handle_help(args: &HelpArgs, paths: Result<RuntimePaths, String>) -> (r: Result<HelpDoc, AppError>)
    ensures
        match output_format_outcome(args.format@) {
            Err(e) => r matches Err(err) && err@ == e,
            Ok(format) => match paths {
                Err(message) => r matches Err(err) && err@ == paths_error(message@, format),
                Ok(p) => match help_doc_for(texts(args.command_path@), p@) {
                    Some(doc) => r matches Ok(d) && d@ == doc,
                    None => r matches Err(err) && err@ == app_error(
                        "unknown_command_path"@,
                        unknown_path_message(texts(args.command_path@)),
                        format,
                    ),
                },
            },
        },
{
    let format = parse_output_format(args.format.as_str())?;
    let paths = match paths {
        Ok(p) => p,
        Err(message) => return Err(paths_unavailable(message, format)),
    };
    match structured_help(args.command_path.as_slice(), &paths) {
        Some(doc) => Ok(doc),
        None => {
            let mut message = String::from_str("Unknown command path `");
            if args.command_path.len() == 0 {
                message.append("<root>");
            } else {
                let path = join_texts(&args.command_path, " ");
                message.append(path.as_str());
            }
            message.append("`.");
            Err(AppError::new("unknown_command_path", message, format, 1))
        },
    }
}

} // verus!

//! Properties that hold across the library's operations.

use vstd::prelude::*;

use crate::commands::{context_set_outcome, ContextSetArgs};
use crate::context::{resolved_runtime_paths, joined_path, RuntimeEnvironment};
use crate::context::{opt_text, ActiveContext, ActiveContextView, RuntimePathsView, DEFAULT_IMAGE_SIZE};
use crate::error::AppErrorView;
use crate::formats::{output_format_named, render_mode_named, OutputFormat, RenderMode};
use crate::help::{context_help, help_doc_for, root_help};
use crate::run::{content_bytes, run_error, run_resolves_to, RunArgs, ResolvedRun};
use crate::text::{ascii_lower, ascii_lowercase, ends_with_newline, with_newline};

verus! {

/// Flags of a run win over the persisted defaults, which win over the
/// built-in defaults: for the render mode, the image size, and the path an
/// image is written to.
pub proof fn law_run_flags_override_defaults(
    run: ResolvedRun,
    args: RunArgs,
    persisted: ActiveContext,
    current_dir: Result<String, String>,
)
    requires
        run_error(args, Ok(persisted), current_dir) is None,
        run_resolves_to(
            run,
            args,
            persisted@,
            match current_dir {
                Ok(d) => d@,
                Err(_) => Seq::empty(),
            },
        ),
    ensures
        args.render matches Some(word) ==> render_mode_named(word@) == Some(run.render),
        args.render is None && persisted@.default_render is Some ==> Some(run.render)
            == persisted@.default_render,
        args.render is None && persisted@.default_render is None ==> run.render == RenderMode::Text,
        args.size matches Some(size) ==> run.image_size == size,
        args.size is None && persisted@.default_image_size is Some ==> Some(run.image_size)
            == persisted@.default_image_size,
        args.size is None && persisted@.default_image_size is None ==> run.image_size == DEFAULT_IMAGE_SIZE,
        run.render == RenderMode::Image && args.output is Some ==> opt_text(run.output) == opt_text(
            args.output,
        ),
        run.render == RenderMode::Image && args.output is None && persisted@.default_output is Some
            ==> opt_text(run.output) == persisted@.default_output,
        run.render == RenderMode::Text ==> run.output is None && run.effective_context.resolved@.default_output
            is None,
        run.render == RenderMode::Image ==> run.output is Some,
{
}

/// An output path does not stop a text run: `--output` is ignored in text
/// mode, whatever the other settings are.
pub proof fn law_text_run_ignores_output(
    args: RunArgs,
    persisted: ActiveContext,
    current_dir: Result<String, String>,
)
    requires
        args.output is Some,
        output_format_named(args.format@) is Some,
        args.content is Some,
        args.size != Some(0u32),
        args.render matches Some(word) ==> render_mode_named(word@) == Some(RenderMode::Text),
        args.render is None ==> persisted@.default_render != Some(RenderMode::Image),
    ensures
        run_error(args, Ok(persisted), current_dir) is None,
{
}

/// With no persisted defaults (after `context clear`) and no flags, a run
/// falls back to the built-in defaults: text, 256 pixels.
pub proof fn law_cleared_context_uses_builtin_defaults(
    run: ResolvedRun,
    args: RunArgs,
    current_dir: Seq<char>,
)
    requires
        args.render is None,
        args.size is None,
        args.output is None,
        run_resolves_to(
            run,
            args,
            ActiveContextView { default_render: None, default_output: None, default_image_size: None },
            current_dir,
        ),
    ensures
        run.render == RenderMode::Text,
        run.image_size == DEFAULT_IMAGE_SIZE,
        run.output is None,
{
}

/// What `context set` saves is what later runs without flags inherit.
pub proof fn law_context_set_then_run_inherits(
    set_args: ContextSetArgs,
    persisted: Result<ActiveContext, String>,
    format: OutputFormat,
    saved: ActiveContextView,
    run: ResolvedRun,
    run_args: RunArgs,
    current_dir: Seq<char>,
)
    requires
        context_set_outcome(set_args, persisted) == Ok::<(OutputFormat, ActiveContextView), AppErrorView>(
            (format, saved),
        ),
        run_args.render is None,
        run_args.size is None,
        run_args.output is None,
        run_resolves_to(run, run_args, saved, current_dir),
    ensures
        set_args.render matches Some(word) ==> render_mode_named(word@) == Some(run.render),
        set_args.size matches Some(size) ==> run.image_size == size,
        set_args.output is Some && run.render == RenderMode::Image ==> opt_text(run.output) == Some(
            set_args.output->0@,
        ),
{
}

/// `context set` replaces only the fields it is given.
pub proof fn law_context_set_keeps_other_fields(
    set_args: ContextSetArgs,
    persisted: ActiveContext,
    format: OutputFormat,
    saved: ActiveContextView,
)
    requires
        context_set_outcome(set_args, Ok(persisted)) == Ok::<
            (OutputFormat, ActiveContextView),
            AppErrorView,
        >((format, saved)),
    ensures
        set_args.render is None ==> saved.default_render == persisted@.default_render,
        set_args.output is None ==> saved.default_output == persisted@.default_output,
        set_args.size is None ==> saved.default_image_size == persisted@.default_image_size,
        set_args.output matches Some(path) ==> saved.default_output == Some(path@),
        set_args.size matches Some(size) ==> saved.default_image_size == Some(size),
{
}

/// Setting the same fields again changes nothing: applied to a context that
/// holds what a `context set` saved, the same flags give the same context.
pub proof fn law_context_set_is_idempotent(
    set_args: ContextSetArgs,
    persisted: ActiveContext,
    format: OutputFormat,
    saved: ActiveContextView,
    reloaded: ActiveContext,
)
    requires
        context_set_outcome(set_args, Ok(persisted)) == Ok::<
            (OutputFormat, ActiveContextView),
            AppErrorView,
        >((format, saved)),
        reloaded@ == saved,
    ensures
        context_set_outcome(set_args, Ok(reloaded)) == Ok::<
            (OutputFormat, ActiveContextView),
            AppErrorView,
        >((format, saved)),
{
}

/// A zero image size is refused by `run` and by `context set`.
pub proof fn law_zero_size_is_refused(
    run_args: RunArgs,
    set_args: ContextSetArgs,
    persisted: Result<ActiveContext, String>,
    current_dir: Result<String, String>,
)
    requires
        run_args.size == Some(0u32),
        set_args.size == Some(0u32),
    ensures
        run_error(run_args, persisted, current_dir) is Some,
        context_set_outcome(set_args, persisted) is Err,
{
}

/// Once the requested format is understood, every error of `run` and
/// `context set` is reported in it; an unknown format is reported in YAML.
pub proof fn law_errors_use_requested_format(
    run_args: RunArgs,
    set_args: ContextSetArgs,
    persisted: Result<ActiveContext, String>,
    current_dir: Result<String, String>,
)
    ensures
        output_format_named(run_args.format@) is Some && run_error(run_args, persisted, current_dir) is Some
            ==> run_error(run_args, persisted, current_dir)->0.format == output_format_named(
            run_args.format@,
        )->0,
        output_format_named(run_args.format@) is None ==> (run_error(run_args, persisted, current_dir)
            matches Some(e) && e.format == OutputFormat::Yaml && e.code == "invalid_output_format"@),
        output_format_named(set_args.format@) is Some && context_set_outcome(set_args, persisted) is Err
            ==> context_set_outcome(set_args, persisted)->Err_0.format == output_format_named(
            set_args.format@,
        )->0,
        output_format_named(set_args.format@) is None ==> (context_set_outcome(set_args, persisted)
            matches Err(e) && e.format == OutputFormat::Yaml),
{
}

proof fn lemma_ascii_lower_idempotent(c: char)
    ensures
        ascii_lower(ascii_lower(c)) == ascii_lower(c),
{
}

/// ASCII lower-casing twice is lower-casing once.
pub proof fn law_ascii_lowercase_idempotent(s: Seq<char>)
    ensures
        ascii_lowercase(ascii_lowercase(s)) == ascii_lowercase(s),
{
    assert forall|i: int| 0 <= i < s.len() implies #[trigger] ascii_lowercase(ascii_lowercase(s))[i]
        == ascii_lowercase(s)[i] by {
        lemma_ascii_lower_idempotent(s[i]);
    }
    assert(ascii_lowercase(ascii_lowercase(s)) =~= ascii_lowercase(s));
}

/// Render modes and output formats are read without regard to ASCII case.
pub proof fn law_parsing_ignores_ascii_case(s: Seq<char>)
    ensures
        render_mode_named(ascii_lowercase(s)) == render_mode_named(s),
        output_format_named(ascii_lowercase(s)) == output_format_named(s),
{
    law_ascii_lowercase_idempotent(s);
}

/// Output ends with exactly the line feed it needs: adding a trailing line
/// feed gives text that ends with one, and doing it again changes nothing.
pub proof fn law_trailing_newline(s: Seq<char>)
    ensures
        ends_with_newline(with_newline(s)),
        with_newline(with_newline(s)) == with_newline(s),
        ends_with_newline(s) ==> with_newline(s) == s,
{
}

/// Every help document names its command path after the program's name,
/// shows the given runtime directories, and points at their Active Context
/// file.
pub proof fn law_help_documents_their_path(path: Seq<Seq<char>>, paths: RuntimePathsView)
    ensures
        help_doc_for(path, paths) matches Some(doc) ==> {
            &&& doc.command_path == seq!["qrcode-agent-cli"@] + path
            &&& doc.runtime_directories == paths
            &&& doc.active_context.persisted_location == paths.context_file
        },
{
    if path.len() == 0 {
        assert(seq!["qrcode-agent-cli"@] + path =~= seq!["qrcode-agent-cli"@]);
    } else if path.len() == 1 {
        assert(seq!["qrcode-agent-cli"@] + path =~= seq!["qrcode-agent-cli"@, path[0]]);
    } else if path.len() == 2 {
        assert(seq!["qrcode-agent-cli"@] + path =~= seq!["qrcode-agent-cli"@, path[0], path[1]]);
    }
}

/// A non-empty override variable of a directory is that directory, whatever
/// the platform offers; the platform's directory (under the program's name)
/// counts only where no non-empty override is set. The Active Context file
/// is `active-context.toml` in the config directory, and a directory that
/// every override names is always determined.
pub proof fn law_runtime_overrides_win(env: RuntimeEnvironment)
    ensures
        ({
            let config = env.config_override;
            let data = env.data_override;
            let state = env.state_override;
            let cache = env.cache_override;
            &&& (config is Some && config->0@.len() > 0 && data is Some && data->0@.len() > 0 && state is Some
                && state->0@.len() > 0 && cache is Some && cache->0@.len() > 0) ==> resolved_runtime_paths(env) is Ok
            &&& resolved_runtime_paths(env) matches Ok(p) ==> {
                &&& p.context_file == joined_path(p.config_dir, "active-context.toml"@)
                &&& config is Some && config->0@.len() > 0 ==> p.config_dir == config->0@
                &&& data is Some && data->0@.len() > 0 ==> p.data_dir == data->0@
                &&& state is Some && state->0@.len() > 0 ==> p.state_dir == state->0@
                &&& cache is Some && cache->0@.len() > 0 ==> p.cache_dir == cache->0@
                &&& (config is None || config->0@.len() == 0) && env.config_home is Some ==> p.config_dir
                    == joined_path(env.config_home->0@, "qrcode-agent-cli"@)
                &&& (data is None || data->0@.len() == 0) && env.data_home is Some ==> p.data_dir
                    == joined_path(env.data_home->0@, "qrcode-agent-cli"@)
                &&& (cache is None || cache->0@.len() == 0) && env.cache_home is Some ==> p.cache_dir
                    == joined_path(env.cache_home->0@, "qrcode-agent-cli"@)
                &&& (state is None || state->0@.len() == 0) && env.state_home is Some ==> p.state_dir
                    == joined_path(env.state_home->0@, "qrcode-agent-cli"@)
                &&& (state is None || state->0@.len() == 0) && env.state_home is None
                    && env.data_local_home is Some ==> p.state_dir == joined_path(
                    joined_path(env.data_local_home->0@, "qrcode-agent-cli"@),
                    "state"@,
                )
            }
        }),
{
    reveal_strlit("qrcode-agent-cli");
    reveal_strlit("active-context.toml");
}

/// What the QR encoder is given is exactly the UTF-8 encoding of the
/// content, every byte of it.
pub proof fn law_encoder_gets_utf8_content(content: Seq<char>)
    ensures
        content_bytes(content) == vstd::utf8::encode_utf8(content),
{
}

/// `context set` succeeds for every change it is given, as long as the
/// format is known, the persisted context was read, a render word (if any)
/// names a mode and the size (if any) is not zero; a given size is saved as
/// it is, however large.
pub proof fn law_context_set_accepts_every_nonzero_size(
    args: ContextSetArgs,
    persisted: ActiveContext,
)
    requires
        output_format_named(args.format@) is Some,
        args.render is Some || args.output is Some || args.size is Some,
        args.render is Some ==> render_mode_named(args.render->0@) is Some,
        args.size != Some(0u32),
    ensures
        context_set_outcome(args, Ok(persisted)) is Ok,
        args.size is Some ==> context_set_outcome(args, Ok(persisted))->Ok_0.1.default_image_size == args.size,
        args.output is Some ==> context_set_outcome(args, Ok(persisted))->Ok_0.1.default_output == Some(
            args.output->0@,
        ),
        args.render is Some ==> context_set_outcome(args, Ok(persisted))->Ok_0.1.default_render
            == render_mode_named(args.render->0@),
        context_set_outcome(args, Ok(persisted))->Ok_0.0 == output_format_named(args.format@)->0,
{
}

/// A run fails only for the listed reasons: with a known format, readable
/// persisted defaults, content, a render word (if any) that names a mode, a
/// size other than zero and a known working directory, it starts, in text
/// and image mode alike and at every size.
pub proof fn law_run_fails_only_for_listed_reasons(
    args: RunArgs,
    persisted: ActiveContext,
    current_dir: String,
)
    requires
        output_format_named(args.format@) is Some,
        args.content is Some,
        args.render is Some ==> render_mode_named(args.render->0@) is Some,
        args.size != Some(0u32),
    ensures
        run_error(args, Ok(persisted), Ok(current_dir)) is None,
{
}

/// Every help document lists exactly the subcommands that have help of
/// their own: a word is among the subcommands of a path's help if and only
/// if the path extended by that word has a help document.
pub proof fn law_help_lists_exactly_its_subcommands(path: Seq<Seq<char>>, paths: RuntimePathsView)
    ensures
        help_doc_for(path, paths) matches Some(doc) ==> forall|word: Seq<char>|
            #[trigger] doc.subcommands.contains(word) <==> help_doc_for(path.push(word), paths) is Some,
{
    reveal_strlit("run");
    reveal_strlit("paths");
    reveal_strlit("context");
    reveal_strlit("help");
    reveal_strlit("show");
    reveal_strlit("set");
    reveal_strlit("clear");
    if let Some(doc) = help_doc_for(path, paths) {
        assert forall|word: Seq<char>|
            #[trigger] doc.subcommands.contains(word) <==> help_doc_for(path.push(word), paths) is Some by {
            let longer = path.push(word);
            assert(longer.len() == path.len() + 1);
            assert(longer[longer.len() - 1] == word);
            assert(forall|i: int| 0 <= i < path.len() ==> longer[i] == path[i]);
            if doc.subcommands.contains(word) {
                let k = choose|k: int| 0 <= k < doc.subcommands.len() && doc.subcommands[k] == word;
                assert(doc.subcommands[k] == word);
            }
            if help_doc_for(longer, paths) is Some {
                if path.len() == 0 {
                    assert(doc == root_help(paths));
                    if word == "run"@ {
                        assert(doc.subcommands[0] == word);
                    } else if word == "paths"@ {
                        assert(doc.subcommands[1] == word);
                    } else if word == "context"@ {
                        assert(doc.subcommands[2] == word);
                    } else {
                        assert(doc.subcommands[3] == word);
                    }
                } else {
                    assert(path.len() == 1 && path[0] == "context"@);
                    assert("context"@.len() == 7 && "run"@.len() == 3 && "paths"@.len() == 5);
                    assert(path[0] != "run"@ && path[0] != "paths"@);
                    assert(doc == context_help(paths));
                    if word == "show"@ {
                        assert(doc.subcommands[0] == word);
                    } else if word == "set"@ {
                        assert(doc.subcommands[1] == word);
                    } else {
                        assert(doc.subcommands[2] == word);
                    }
                }
            }
        }
    }
}

} // verus!

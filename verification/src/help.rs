//! The machine-readable help surface: one document per known command path.

use vstd::prelude::*;

use crate::context::{RuntimePaths, RuntimePathsView, DEFAULT_IMAGE_SIZE};
use crate::text::{decimal, decimal_text, str_texts, text_is, texts};

verus! {

/// One option of a command, as documented.
#[derive(Debug)]
pub struct HelpOption {
    pub name: String,
    pub value_type: String,
    pub required: bool,
    pub default: Option<String>,
    pub description: String,
    pub enum_values: Vec<String>,
}

/// A documented option as values.
#[verifier::ext_equal]
pub struct HelpOptionView {
    pub name: Seq<char>,
    pub value_type: Seq<char>,
    pub required: bool,
    pub default: Option<Seq<char>>,
    pub description: Seq<char>,
    pub enum_values: Seq<Seq<char>>,
}

impl View for HelpOption {
    type V = HelpOptionView;

    open spec fn view(&self) -> HelpOptionView {
        HelpOptionView {
            name: self.name@,
            value_type: self.value_type@,
            required: self.required,
            default: match self.default {
                Some(d) => Some(d@),
                None => None,
            },
            description: self.description@,
            enum_values: texts(self.enum_values@),
        }
    }
}

/// How the Active Context is documented.
#[derive(Debug)]
pub struct ActiveContextDoc {
    pub persisted_location: String,
    pub supported_fields: Vec<String>,
    pub override_precedence: String,
}

/// The Active Context documentation as values.
#[verifier::ext_equal]
pub struct ActiveContextDocView {
    pub persisted_location: Seq<char>,
    pub supported_fields: Seq<Seq<char>>,
    pub override_precedence: Seq<char>,
}

impl View for ActiveContextDoc {
    type V = ActiveContextDocView;

    open spec fn view(&self) -> ActiveContextDocView {
        ActiveContextDocView {
            persisted_location: self.persisted_location@,
            supported_fields: texts(self.supported_fields@),
            override_precedence: self.override_precedence@,
        }
    }
}

/// The structured help of one command path.
#[derive(Debug)]
pub struct HelpDoc {
    pub command_path: Vec<String>,
    pub summary: String,
    pub description: String,
    pub subcommands: Vec<String>,
    pub options: Vec<HelpOption>,
    pub output_formats: Vec<String>,
    pub runtime_directories: RuntimePaths,
    pub active_context: ActiveContextDoc,
    pub examples: Vec<String>,
}

/// A help document as values.
#[verifier::ext_equal]
pub struct HelpDocView {
    pub command_path: Seq<Seq<char>>,
    pub summary: Seq<char>,
    pub description: Seq<char>,
    pub subcommands: Seq<Seq<char>>,
    pub options: Seq<HelpOptionView>,
    pub output_formats: Seq<Seq<char>>,
    pub runtime_directories: RuntimePathsView,
    pub active_context: ActiveContextDocView,
    pub examples: Seq<Seq<char>>,
}

/// The views of a sequence of documented options.
pub open spec fn option_views(v: Seq<HelpOption>) -> Seq<HelpOptionView> {
    v.map_values(|o: HelpOption| o@)
}

impl View for HelpDoc {
    type V = HelpDocView;

    open spec fn view(&self) -> HelpDocView {
        HelpDocView {
            command_path: texts(self.command_path@),
            summary: self.summary@,
            description: self.description@,
            subcommands: texts(self.subcommands@),
            options: option_views(self.options@),
            output_formats: texts(self.output_formats@),
            runtime_directories: self.runtime_directories@,
            active_context: self.active_context@,
            examples: texts(self.examples@),
        }
    }
}

/// The three structured output formats, by name.
pub open spec fn format_names() -> Seq<Seq<char>> {
    seq!["yaml"@, "json"@, "toml"@]
}

/// The render modes, by name.
pub open spec fn render_mode_names() -> Seq<Seq<char>> {
    seq!["text"@, "image"@]
}

/// A documented option built from its parts.
pub open spec fn option_of(
    name: Seq<char>,
    value_type: Seq<char>,
    required: bool,
    default: Option<Seq<char>>,
    description: Seq<char>,
    enum_values: Seq<Seq<char>>,
) -> HelpOptionView {
    HelpOptionView { name, value_type, required, default, description, enum_values }
}

/// The `format` option as most structured commands document it.
pub open spec fn format_option() -> HelpOptionView {
    option_of("format"@, "enum"@, false, Some("yaml"@), "Structured output format"@, format_names())
}

/// How the Active Context is documented, given where it is persisted.
pub open spec fn active_context_doc_of(paths: RuntimePathsView) -> ActiveContextDocView {
    ActiveContextDocView {
        persisted_location: paths.context_file,
        supported_fields: seq!["default_render"@, "default_output"@, "default_image_size"@],
        override_precedence: "Explicit run flags win for the current invocation and never mutate persisted defaults"@,
    }
}

/// A help document from its parts and the runtime directories.
pub open spec fn doc_of(
    command_path: Seq<Seq<char>>,
    summary: Seq<char>,
    description: Seq<char>,
    subcommands: Seq<Seq<char>>,
    options: Seq<HelpOptionView>,
    output_formats: Seq<Seq<char>>,
    examples: Seq<Seq<char>>,
    paths: RuntimePathsView,
) -> HelpDocView {
    HelpDocView {
        command_path,
        summary,
        description,
        subcommands,
        options,
        output_formats,
        runtime_directories: paths,
        active_context: active_context_doc_of(paths),
        examples,
    }
}

/// The help of the program as a whole.
pub open spec fn root_help(paths: RuntimePathsView) -> HelpDocView {
    doc_of(
        seq!["qrcode-agent-cli"@],
        "Generate QR codes as terminal text or PNG images"@,
        "Use `run` for QR generation, `paths` to inspect runtime directories, `context` to persist default settings, and `help` for structured help output."@,
        seq!["run"@, "paths"@, "context"@, "help"@],
        Seq::empty(),
        format_names(),
        seq![
            "qrcode-agent-cli run \"https://openai.com\" --render text"@,
            "qrcode-agent-cli run \"hello\" --render image --output ./hello.png"@,
            "qrcode-agent-cli help run --format json"@,
        ],
        paths,
    )
}

/// The help of `run`.
pub open spec fn run_help(paths: RuntimePathsView) -> HelpDocView {
    doc_of(
        seq!["qrcode-agent-cli"@, "run"@],
        "Generate one QR code from inline content"@,
        "Text rendering writes the QR code itself to stdout. Image rendering writes a PNG file and returns structured metadata on stdout."@,
        Seq::empty(),
        seq![
            option_of("content"@, "string"@, false, None, "Inline text content to encode as a QR code"@, Seq::empty()),
            option_of("render"@, "enum"@, false, Some("text"@), "Render mode to use for this invocation"@, render_mode_names()),
            option_of("output"@, "path"@, false, Some("./qrcode.png when render=image"@), "Where to write the PNG image. Ignored in text mode."@, Seq::empty()),
            option_of("size"@, "int"@, false, Some(decimal(DEFAULT_IMAGE_SIZE as nat)), "Square PNG size in pixels when render=image"@, Seq::empty()),
            option_of("format"@, "enum"@, false, Some("yaml"@), "Structured success or error format for non-text responses"@, format_names()),
        ],
        seq!["text"@, "yaml"@, "json"@, "toml"@],
        seq![
            "qrcode-agent-cli run \"hello from terminal\" --render text"@,
            "qrcode-agent-cli run \"hello from png\" --render image --output ./hello.png --format json"@,
        ],
        paths,
    )
}

/// The help of `paths`.
pub open spec fn paths_help(paths: RuntimePathsView) -> HelpDocView {
    doc_of(
        seq!["qrcode-agent-cli"@, "paths"@],
        "Show config, data, state, cache, and context-file locations"@,
        "This command reports user-scoped runtime directories and any environment variable overrides that can redirect them for local testing."@,
        Seq::empty(),
        seq![format_option()],
        format_names(),
        seq!["qrcode-agent-cli paths --format toml"@],
        paths,
    )
}

/// The help of `context`.
pub open spec fn context_help(paths: RuntimePathsView) -> HelpDocView {
    doc_of(
        seq!["qrcode-agent-cli"@, "context"@],
        "Inspect or persist default QR rendering settings"@,
        "The active context stores default render settings in a user-scoped config file. `run` reads those defaults and lets invocation flags override them without mutating the saved file."@,
        seq!["show"@, "set"@, "clear"@],
        Seq::empty(),
        format_names(),
        seq![
            "qrcode-agent-cli context show --format json"@,
            "qrcode-agent-cli context set --render image --size 512"@,
        ],
        paths,
    )
}

/// The help of `context show`.
pub open spec fn context_show_help(paths: RuntimePathsView) -> HelpDocView {
    doc_of(
        seq!["qrcode-agent-cli"@, "context"@, "show"@],
        "Show the persisted active context"@,
        "Returns the saved default render mode, default PNG output path, and default image size together with the runtime-directory layout."@,
        Seq::empty(),
        seq![format_option()],
        format_names(),
        seq!["qrcode-agent-cli context show --format yaml"@],
        paths,
    )
}

/// The help of `context set`.
pub open spec fn context_set_help(paths: RuntimePathsView) -> HelpDocView {
    doc_of(
        seq!["qrcode-agent-cli"@, "context"@, "set"@],
        "Persist new default render settings"@,
        "Any provided fields are written to the active-context file. Later `run` invocations inherit these defaults unless the invocation passes explicit overrides."@,
        Seq::empty(),
        seq![
            option_of("render"@, "enum"@, false, None, "Persist the default render mode"@, render_mode_names()),
            option_of("output"@, "path"@, false, None, "Persist the default PNG output path"@, Seq::empty()),
            option_of("size"@, "int"@, false, None, "Persist the default PNG size in pixels"@, Seq::empty()),
            format_option(),
        ],
        format_names(),
        seq![
            "qrcode-agent-cli context set --render text"@,
            "qrcode-agent-cli context set --render image --output ./saved.png --size 384 --format json"@,
        ],
        paths,
    )
}

/// The help of `context clear`.
pub open spec fn context_clear_help(paths: RuntimePathsView) -> HelpDocView {
    doc_of(
        seq!["qrcode-agent-cli"@, "context"@, "clear"@],
        "Delete the persisted active context"@,
        "After clearing the active context, `run` falls back to built-in defaults again."@,
        Seq::empty(),
        seq![format_option()],
        format_names(),
        seq!["qrcode-agent-cli context clear --format json"@],
        paths,
    )
}

/// The help of `help`.
pub open spec fn help_help(paths: RuntimePathsView) -> HelpDocView {
    doc_of(
        seq!["qrcode-agent-cli"@, "help"@],
        "Return structured help for the CLI or a specific command path"@,
        "This command is the machine-readable help surface. Plain-text help stays on `--help` for people and shells."@,
        Seq::empty(),
        seq![
            option_of("command_path"@, "string[]"@, false, Some("[]"@), "Optional command path such as `run` or `context show`"@, Seq::empty()),
            format_option(),
        ],
        format_names(),
        seq![
            "qrcode-agent-cli help --format yaml"@,
            "qrcode-agent-cli help context set --format json"@,
        ],
        paths,
    )
}

/// The help document of a command path, where the path names a command.
pub open spec fn help_doc_for(path: Seq<Seq<char>>, paths: RuntimePathsView) -> Option<HelpDocView> {
    if path.len() == 0 {
        Some(root_help(paths))
    } else if path.len() == 1 && path[0] == "run"@ {
        Some(run_help(paths))
    } else if path.len() == 1 && path[0] == "paths"@ {
        Some(paths_help(paths))
    } else if path.len() == 1 && path[0] == "context"@ {
        Some(context_help(paths))
    } else if path.len() == 2 && path[0] == "context"@ && path[1] == "show"@ {
        Some(context_show_help(paths))
    } else if path.len() == 2 && path[0] == "context"@ && path[1] == "set"@ {
        Some(context_set_help(paths))
    } else if path.len() == 2 && path[0] == "context"@ && path[1] == "clear"@ {
        Some(context_clear_help(paths))
    } else if path.len() == 1 && path[0] == "help"@ {
        Some(help_help(paths))
    } else {
        None
    }
}

/// The views of an optional help document.
pub open spec fn opt_help_view(doc: Option<HelpDoc>) -> Option<HelpDocView> {
    match doc {
        Some(d) => Some(d@),
        None => None,
    }
}

/// New strings holding the given texts, in order.
pub fn enum_values(values: &[&str]) -> (r: Vec<String>)
    ensures
        texts(r@) == str_texts(values@),
{
    let mut r: Vec<String> = Vec::new();
    let mut i: usize = 0;
    while i < values.len()
        invariant
            i <= values@.len(),
            texts(r@) =~= str_texts(values@).take(i as int),
        decreases values@.len() - i,
    {
        let ghost before = r@;
        r.push(String::from_str(values[i]));
        assert(texts(r@) =~= texts(before).push(values@[i as int]@));
        assert(str_texts(values@).take(i + 1) =~= str_texts(values@).take(i as int).push(values@[i as int]@));
        i = i + 1;
    }
    assert(str_texts(values@).take(values@.len() as int) =~= str_texts(values@));
    r
}

/// The names of the three structured output formats.
pub fn format_list() -> (r: Vec<String>)
    ensures
        texts(r@) == format_names(),
{
    let r = enum_values(&["yaml", "json", "toml"]);
    assert(str_texts(seq!["yaml", "json", "toml"]) =~= format_names());
    r
}

/// A documented option.
pub fn option(
    name: &str,
    value_type: &str,
    required: bool,
    default: Option<&str>,
    description: &str,
    enum_values: Vec<String>,
) -> (r: HelpOption)
    ensures
        r@ == option_of(
            name@,
            value_type@,
            required,
            match default {
                Some(d) => Some(d@),
                None => None,
            },
            description@,
            texts(enum_values@),
        ),
{
    HelpOption {
        name: String::from_str(name),
        value_type: String::from_str(value_type),
        required,
        default: match default {
            Some(d) => Some(String::from_str(d)),
            None => None,
        },
        description: String::from_str(description),
        enum_values,
    }
}

fn format_doc_option() -> (r: HelpOption)
    ensures
        r@ == format_option(),
{
    option("format", "enum", false, Some("yaml"), "Structured output format", format_list())
}

fn render_mode_list() -> (r: Vec<String>)
    ensures
        texts(r@) == render_mode_names(),
{
    let r = enum_values(&["text", "image"]);
    assert(str_texts(seq!["text", "image"]) =~= render_mode_names());
    r
}

fn active_context_doc(paths: &RuntimePaths) -> (r: ActiveContextDoc)
    ensures
        r@ == active_context_doc_of(paths@),
{
    let supported_fields = enum_values(&["default_render", "default_output", "default_image_size"]);
    assert(str_texts(seq!["default_render", "default_output", "default_image_size"])
        =~= seq!["default_render"@, "default_output"@, "default_image_size"@]);
    ActiveContextDoc {
        persisted_location: paths.context_file.clone(),
        supported_fields,
        override_precedence: String::from_str(
            "Explicit run flags win for the current invocation and never mutate persisted defaults",
        ),
    }
}

fn root_doc(paths: &RuntimePaths) -> (r: HelpDoc)
    ensures
        r@ == root_help(paths@),
{
    let command_path = enum_values(&["qrcode-agent-cli"]);
    let subcommands = enum_values(&["run", "paths", "context", "help"]);
    let examples = enum_values(
        &[
            "qrcode-agent-cli run \"https://openai.com\" --render text",
            "qrcode-agent-cli run \"hello\" --render image --output ./hello.png",
            "qrcode-agent-cli help run --format json",
        ],
    );
    let options: Vec<HelpOption> = Vec::new();
    let r = HelpDoc {
        command_path,
        summary: String::from_str("Generate QR codes as terminal text or PNG images"),
        description: String::from_str(
            "Use `run` for QR generation, `paths` to inspect runtime directories, `context` to persist default settings, and `help` for structured help output.",
        ),
        subcommands,
        options,
        output_formats: format_list(),
        runtime_directories: paths.clone(),
        active_context: active_context_doc(paths),
        examples,
    };
    assert(option_views(r.options@) =~= Seq::<HelpOptionView>::empty());
    assert(r@ =~= root_help(paths@));
    r
}

fn run_doc(paths: &RuntimePaths) -> (r: HelpDoc)
    ensures
        r@ == run_help(paths@),
{
    let command_path = enum_values(&["qrcode-agent-cli", "run"]);
    let size_default = decimal_text(DEFAULT_IMAGE_SIZE);
    let options = vec![
        option("content", "string", false, None, "Inline text content to encode as a QR code", Vec::new()),
        option("render", "enum", false, Some("text"), "Render mode to use for this invocation", render_mode_list()),
        option(
            "output",
            "path",
            false,
            Some("./qrcode.png when render=image"),
            "Where to write the PNG image. Ignored in text mode.",
            Vec::new(),
        ),
        option(
            "size",
            "int",
            false,
            Some(size_default.as_str()),
            "Square PNG size in pixels when render=image",
            Vec::new(),
        ),
        option(
            "format",
            "enum",
            false,
            Some("yaml"),
            "Structured success or error format for non-text responses",
            format_list(),
        ),
    ];
    let output_formats = enum_values(&["text", "yaml", "json", "toml"]);
    let examples = enum_values(
        &[
            "qrcode-agent-cli run \"hello from terminal\" --render text",
            "qrcode-agent-cli run \"hello from png\" --render image --output ./hello.png --format json",
        ],
    );
    let r = HelpDoc {
        command_path,
        summary: String::from_str("Generate one QR code from inline content"),
        description: String::from_str(
            "Text rendering writes the QR code itself to stdout. Image rendering writes a PNG file and returns structured metadata on stdout.",
        ),
        subcommands: Vec::new(),
        options,
        output_formats,
        runtime_directories: paths.clone(),
        active_context: active_context_doc(paths),
        examples,
    };
    assert(texts(r.subcommands@) =~= Seq::<Seq<char>>::empty());
    assert(option_views(r.options@) =~= run_help(paths@).options);
    assert(r@ =~= run_help(paths@));
    r
}

fn paths_doc(paths: &RuntimePaths) -> (r: HelpDoc)
    ensures
        r@ == paths_help(paths@),
{
    let r = HelpDoc {
        command_path: enum_values(&["qrcode-agent-cli", "paths"]),
        summary: String::from_str("Show config, data, state, cache, and context-file locations"),
        description: String::from_str(
            "This command reports user-scoped runtime directories and any environment variable overrides that can redirect them for local testing.",
        ),
        subcommands: Vec::new(),
        options: vec![format_doc_option()],
        output_formats: format_list(),
        runtime_directories: paths.clone(),
        active_context: active_context_doc(paths),
        examples: enum_values(&["qrcode-agent-cli paths --format toml"]),
    };
    assert(texts(r.subcommands@) =~= Seq::<Seq<char>>::empty());
    assert(option_views(r.options@) =~= paths_help(paths@).options);
    assert(r@ =~= paths_help(paths@));
    r
}

fn context_doc(paths: &RuntimePaths) -> (r: HelpDoc)
    ensures
        r@ == context_help(paths@),
{
    let options: Vec<HelpOption> = Vec::new();
    let r = HelpDoc {
        command_path: enum_values(&["qrcode-agent-cli", "context"]),
        summary: String::from_str("Inspect or persist default QR rendering settings"),
        description: String::from_str(
            "The active context stores default render settings in a user-scoped config file. `run` reads those defaults and lets invocation flags override them without mutating the saved file.",
        ),
        subcommands: enum_values(&["show", "set", "clear"]),
        options,
        output_formats: format_list(),
        runtime_directories: paths.clone(),
        active_context: active_context_doc(paths),
        examples: enum_values(
            &[
                "qrcode-agent-cli context show --format json",
                "qrcode-agent-cli context set --render image --size 512",
            ],
        ),
    };
    assert(option_views(r.options@) =~= Seq::<HelpOptionView>::empty());
    assert(r@ =~= context_help(paths@));
    r
}

fn context_show_doc(paths: &RuntimePaths) -> (r: HelpDoc)
    ensures
        r@ == context_show_help(paths@),
{
    let r = HelpDoc {
        command_path: enum_values(&["qrcode-agent-cli", "context", "show"]),
        summary: String::from_str("Show the persisted active context"),
        description: String::from_str(
            "Returns the saved default render mode, default PNG output path, and default image size together with the runtime-directory layout.",
        ),
        subcommands: Vec::new(),
        options: vec![format_doc_option()],
        output_formats: format_list(),
        runtime_directories: paths.clone(),
        active_context: active_context_doc(paths),
        examples: enum_values(&["qrcode-agent-cli context show --format yaml"]),
    };
    assert(texts(r.subcommands@) =~= Seq::<Seq<char>>::empty());
    assert(option_views(r.options@) =~= context_show_help(paths@).options);
    assert(r@ =~= context_show_help(paths@));
    r
}

fn context_set_doc(paths: &RuntimePaths) -> (r: HelpDoc)
    ensures
        r@ == context_set_help(paths@),
{
    let options = vec![
        option("render", "enum", false, None, "Persist the default render mode", render_mode_list()),
        option("output", "path", false, None, "Persist the default PNG output path", Vec::new()),
        option("size", "int", false, None, "Persist the default PNG size in pixels", Vec::new()),
        option("format", "enum", false, Some("yaml"), "Structured output format", format_list()),
    ];
    let r = HelpDoc {
        command_path: enum_values(&["qrcode-agent-cli", "context", "set"]),
        summary: String::from_str("Persist new default render settings"),
        description: String::from_str(
            "Any provided fields are written to the active-context file. Later `run` invocations inherit these defaults unless the invocation passes explicit overrides.",
        ),
        subcommands: Vec::new(),
        options,
        output_formats: format_list(),
        runtime_directories: paths.clone(),
        active_context: active_context_doc(paths),
        examples: enum_values(
            &[
                "qrcode-agent-cli context set --render text",
                "qrcode-agent-cli context set --render image --output ./saved.png --size 384 --format json",
            ],
        ),
    };
    assert(texts(r.subcommands@) =~= Seq::<Seq<char>>::empty());
    assert(option_views(r.options@) =~= context_set_help(paths@).options);
    assert(r@ =~= context_set_help(paths@));
    r
}

fn context_clear_doc(paths: &RuntimePaths) -> (r: HelpDoc)
    ensures
        r@ == context_clear_help(paths@),
{
    let r = HelpDoc {
        command_path: enum_values(&["qrcode-agent-cli", "context", "clear"]),
        summary: String::from_str("Delete the persisted active context"),
        description: String::from_str(
            "After clearing the active context, `run` falls back to built-in defaults again.",
        ),
        subcommands: Vec::new(),
        options: vec![format_doc_option()],
        output_formats: format_list(),
        runtime_directories: paths.clone(),
        active_context: active_context_doc(paths),
        examples: enum_values(&["qrcode-agent-cli context clear --format json"]),
    };
    assert(texts(r.subcommands@) =~= Seq::<Seq<char>>::empty());
    assert(option_views(r.options@) =~= context_clear_help(paths@).options);
    assert(r@ =~= context_clear_help(paths@));
    r
}

fn help_doc(paths: &RuntimePaths) -> (r: HelpDoc)
    ensures
        r@ == help_help(paths@),
{
    let options = vec![
        option(
            "command_path",
            "string[]",
            false,
            Some("[]"),
            "Optional command path such as `run` or `context show`",
            Vec::new(),
        ),
        option("format", "enum", false, Some("yaml"), "Structured output format", format_list()),
    ];
    let r = HelpDoc {
        command_path: enum_values(&["qrcode-agent-cli", "help"]),
        summary: String::from_str("Return structured help for the CLI or a specific command path"),
        description: String::from_str(
            "This command is the machine-readable help surface. Plain-text help stays on `--help` for people and shells.",
        ),
        subcommands: Vec::new(),
        options,
        output_formats: format_list(),
        runtime_directories: paths.clone(),
        active_context: active_context_doc(paths),
        examples: enum_values(
            &["qrcode-agent-cli help --format yaml", "qrcode-agent-cli help context set --format json"],
        ),
    };
    assert(texts(r.subcommands@) =~= Seq::<Seq<char>>::empty());
    assert(option_views(r.options@) =~= help_help(paths@).options);
    assert(r@ =~= help_help(paths@));
    r
}

/// The structured help of a command path: `None` where the path names no
/// command.
pub fn structured_help(path: &[String], runtime_paths: &RuntimePaths) -> (r: Option<HelpDoc>)
    ensures
        opt_help_view(r) == help_doc_for(texts(path@), runtime_paths@),
{
    let n = path.len();
    if n == 0 {
        Some(root_doc(runtime_paths))
    } else if n == 1 && text_is(&path[0], "run") {
        Some(run_doc(runtime_paths))
    } else if n == 1 && text_is(&path[0], "paths") {
        Some(paths_doc(runtime_paths))
    } else if n == 1 && text_is(&path[0], "context") {
        Some(context_doc(runtime_paths))
    } else if n == 2 && text_is(&path[0], "context") && text_is(&path[1], "show") {
        Some(context_show_doc(runtime_paths))
    } else if n == 2 && text_is(&path[0], "context") && text_is(&path[1], "set") {
        Some(context_set_doc(runtime_paths))
    } else if n == 2 && text_is(&path[0], "context") && text_is(&path[1], "clear") {
        Some(context_clear_doc(runtime_paths))
    } else if n == 1 && text_is(&path[0], "help") {
        Some(help_doc(runtime_paths))
    } else {
        None
    }
}

} // verus!

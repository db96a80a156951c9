//! The two small vocabularies of the command line: render modes and
//! structured output formats.

use vstd::prelude::*;

use crate::text::{ascii_lowercase, eq_ascii_lowercase};

verus! {

/// How a QR code is rendered.
#[derive(Debug, Clone, Copy, PartialEq, Eq, Structural)]
pub enum RenderMode {
    Text,
    Image,
}

/// The structured format of non-text responses and of errors.
#[derive(Debug, Clone, Copy, PartialEq, Eq, Structural)]
pub enum OutputFormat {
    Yaml,
    Json,
    Toml,
}

/// The render mode a command-line word names, compared without regard to
/// ASCII case: `text`, or `image` and its alias `png`.
pub open spec fn render_mode_named(input: Seq<char>) -> Option<RenderMode> {
    let word = ascii_lowercase(input);
    if word == "text"@ {
        Some(RenderMode::Text)
    } else if word == "image"@ || word == "png"@ {
        Some(RenderMode::Image)
    } else {
        None
    }
}

/// The message given for a word that names no render mode.
pub open spec fn render_mode_error(input: Seq<char>) -> Seq<char> {
    "Unsupported render mode `"@ + input + "`. Use `text` or `image`."@
}

/// The output format a command-line word names, compared without regard to
/// ASCII case.
pub open spec fn output_format_named(input: Seq<char>) -> Option<OutputFormat> {
    let word = ascii_lowercase(input);
    if word == "yaml"@ {
        Some(OutputFormat::Yaml)
    } else if word == "json"@ {
        Some(OutputFormat::Json)
    } else if word == "toml"@ {
        Some(OutputFormat::Toml)
    } else {
        None
    }
}

/// The message given for a word that names no output format.
pub open spec fn output_format_error(input: Seq<char>) -> Seq<char> {
    "Unsupported format `"@ + input + "`. Use `yaml`, `json`, or `toml`."@
}

/// The canonical name of an output format.
pub open spec fn output_format_name(format: OutputFormat) -> Seq<char> {
    match format {
        OutputFormat::Yaml => "yaml"@,
        OutputFormat::Json => "json"@,
        OutputFormat::Toml => "toml"@,
    }
}

/// `prefix`, then `middle`, then `suffix`, as one new string.
pub fn surround(prefix: &str, middle: &str, suffix: &str) -> (r: String)
    ensures
        r@ == prefix@ + middle@ + suffix@,
{
    let mut r = String::from_str(prefix);
    r.append(middle);
    r.append(suffix);
    r
}

impl RenderMode {
    /// Reads a render mode from a command-line word.
    pub fn parse(input: &str) -> (r: Result<RenderMode, String>)
        ensures
            match r {
                Ok(mode) => render_mode_named(input@) == Some(mode),
                Err(message) => render_mode_named(input@) is None && message@ == render_mode_error(input@),
            },
    {
        if eq_ascii_lowercase(input, "text") {
            Ok(RenderMode::Text)
        } else if eq_ascii_lowercase(input, "image") || eq_ascii_lowercase(input, "png") {
            Ok(RenderMode::Image)
        } else {
            Err(surround("Unsupported render mode `", input, "`. Use `text` or `image`."))
        }
    }
}

impl OutputFormat {
    /// Reads an output format from a command-line word.
    pub fn parse(input: &str) -> (r: Result<OutputFormat, String>)
        ensures
            match r {
                Ok(format) => output_format_named(input@) == Some(format),
                Err(message) => output_format_named(input@) is None && message@ == output_format_error(input@),
            },
    {
        if eq_ascii_lowercase(input, "yaml") {
            Ok(OutputFormat::Yaml)
        } else if eq_ascii_lowercase(input, "json") {
            Ok(OutputFormat::Json)
        } else if eq_ascii_lowercase(input, "toml") {
            Ok(OutputFormat::Toml)
        } else {
            Err(surround("Unsupported format `", input, "`. Use `yaml`, `json`, or `toml`."))
        }
    }

    /// The format a word names, and YAML where it names none.
    pub fn fallback(input: &str) -> (r: OutputFormat)
        ensures
            r == match output_format_named(input@) {
                Some(format) => format,
                None => OutputFormat::Yaml,
            },
    {
        match OutputFormat::parse(input) {
            Ok(format) => format,
            Err(_) => OutputFormat::Yaml,
        }
    }

    /// The canonical lower-case name of the format.
    pub fn as_str(self) -> (r: &'static str)
        ensures
            r@ == output_format_name(self),
    {
        match self {
            OutputFormat::Yaml => "yaml",
            OutputFormat::Json => "json",
            OutputFormat::Toml => "toml",
        }
    }
}

/// Every output format is read back from its canonical name.
pub proof fn lemma_output_format_name_roundtrip(format: OutputFormat)
    ensures
        output_format_named(output_format_name(format)) == Some(format),
{
    reveal_strlit("yaml");
    reveal_strlit("json");
    reveal_strlit("toml");
    assert(ascii_lowercase("yaml"@) =~= "yaml"@);
    assert(ascii_lowercase("json"@) =~= "json"@);
    assert(ascii_lowercase("toml"@) =~= "toml"@);
    assert("json"@[0] != "yaml"@[0]);
    assert("toml"@[0] != "yaml"@[0]);
    assert("toml"@[0] != "json"@[0]);
}

} // verus!

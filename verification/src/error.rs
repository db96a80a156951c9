//! Structured errors: what went wrong, in which output format to report it,
//! and with which exit code.

use vstd::prelude::*;

use crate::formats::{
    output_format_error, output_format_name, output_format_named, render_mode_error,
    render_mode_named, OutputFormat, RenderMode,
};
use crate::text::{texts, with_newline, with_trailing_newline};

verus! {

/// A failed command: a stable code, a human message, optional details, the
/// format the error is reported in, and the process exit code.
#[derive(Debug)]
pub struct AppError {
    pub code: String,
    pub message: String,
    pub details: Vec<String>,
    pub format: OutputFormat,
    pub exit_code: i32,
}

/// A failed command as values.
pub struct AppErrorView {
    pub code: Seq<char>,
    pub message: Seq<char>,
    pub details: Seq<Seq<char>>,
    pub format: OutputFormat,
    pub exit_code: i32,
}

impl View for AppError {
    type V = AppErrorView;

    open spec fn view(&self) -> AppErrorView {
        AppErrorView {
            code: self.code@,
            message: self.message@,
            details: texts(self.details@),
            format: self.format,
            exit_code: self.exit_code,
        }
    }
}

/// The error with the given code and message, no details, and exit code 1.
pub open spec fn app_error(code: Seq<char>, message: Seq<char>, format: OutputFormat) -> AppErrorView {
    AppErrorView { code, message, details: Seq::empty(), format, exit_code: 1 }
}

/// The body of an error report.
#[derive(Debug)]
pub struct ErrorResponse {
    pub code: String,
    pub message: String,
    pub details: Vec<String>,
}

impl AppError {
    /// An error with no details.
    pub fn new(code: &str, message: String, format: OutputFormat, exit_code: i32) -> (r: AppError)
        ensures
            r@ == (AppErrorView { code: code@, message: message@, details: Seq::empty(), format, exit_code }),
    {
        let r = AppError { code: String::from_str(code), message, details: Vec::new(), format, exit_code };
        assert(texts(r.details@) =~= Seq::<Seq<char>>::empty());
        r
    }

    /// The body of the report of this error.
    pub fn response(&self) -> (r: ErrorResponse)
        ensures
            r.code@ == self.code@,
            r.message@ == self.message@,
            texts(r.details@) == texts(self.details@),
    {
        let mut details: Vec<String> = Vec::new();
        let mut i: usize = 0;
        while i < self.details.len()
            invariant
                i <= self.details@.len(),
                texts(details@) =~= texts(self.details@).take(i as int),
            decreases self.details@.len() - i,
        {
            let ghost before = details@;
            details.push(self.details[i].clone());
            assert(texts(details@) =~= texts(before).push(self.details@[i as int]@));
            assert(texts(self.details@).take(i + 1) =~= texts(self.details@).take(i as int).push(
                self.details@[i as int]@,
            ));
            i = i + 1;
        }
        assert(texts(self.details@).take(self.details@.len() as int) =~= texts(self.details@));
        ErrorResponse { code: self.code.clone(), message: self.message.clone(), details }
    }

    /// The text of the report, given the outcome of serializing its body in
    /// the error's format: the serialized body, or a plain `code:` and
    /// `message:` pair where serializing failed; with a final line feed.
    pub fn render(&self, serialized: Result<String, String>) -> (r: String)
        ensures
            r@ == match serialized {
                Ok(text) => with_newline(text@),
                Err(_) => with_newline(plain_error_report(self.code@, self.message@)),
            },
    {
        match serialized {
            Ok(text) => with_trailing_newline(text),
            Err(_) => {
                let mut plain = String::from_str("code: ");
                plain.append(self.code.as_str());
                plain.append("\nmessage: ");
                plain.append(self.message.as_str());
                with_trailing_newline(plain)
            },
        }
    }
}

/// The plain report of an error, used when its body cannot be serialized.
pub open spec fn plain_error_report(code: Seq<char>, message: Seq<char>) -> Seq<char> {
    "code: "@ + code + "\nmessage: "@ + message
}

/// The message of a failed serialization.
pub open spec fn serialization_error(format: OutputFormat, error: Seq<char>) -> Seq<char> {
    "Failed to serialize output as "@ + output_format_name(format) + ": "@ + error
}

impl OutputFormat {
    /// The output of a structured command, given the outcome of serializing
    /// its response in this format: the text with a final line feed, or a
    /// `serialization_failed` error.
    pub fn serialized(self, rendered: Result<String, String>) -> (r: Result<String, AppError>)
        ensures
            match rendered {
                Ok(text) => r matches Ok(out) && out@ == with_newline(text@),
                Err(error) => r matches Err(e)
                    && e@ == app_error("serialization_failed"@, serialization_error(self, error@), self),
            },
    {
        match rendered {
            Ok(text) => Ok(with_trailing_newline(text)),
            Err(error) => {
                let mut message = String::from_str("Failed to serialize output as ");
                message.append(self.as_str());
                message.append(": ");
                message.append(error.as_str());
                Err(AppError::new("serialization_failed", message, self, 1))
            },
        }
    }
}

/// The outcome of reading an output format from a command-line word.
pub open spec fn output_format_outcome(input: Seq<char>) -> Result<OutputFormat, AppErrorView> {
    match output_format_named(input) {
        Some(format) => Ok(format),
        None => Err(app_error("invalid_output_format"@, output_format_error(input), OutputFormat::Yaml)),
    }
}

/// Reads an output format; a word that names none is an
/// `invalid_output_format` error reported in YAML.
pub fn parse_output_format(input: &str) -> (r: Result<OutputFormat, AppError>)
    ensures
        match r {
            Ok(format) => output_format_outcome(input@) == Ok::<OutputFormat, AppErrorView>(format),
            Err(e) => output_format_outcome(input@) == Err::<OutputFormat, AppErrorView>(e@),
        },
{
    match OutputFormat::parse(input) {
        Ok(format) => Ok(format),
        Err(message) => Err(AppError::new("invalid_output_format", message, OutputFormat::fallback(input), 1)),
    }
}

/// The outcome of reading a render mode, errors reported in `format`.
pub open spec fn render_mode_outcome(input: Seq<char>, format: OutputFormat) -> Result<RenderMode, AppErrorView> {
    match render_mode_named(input) {
        Some(mode) => Ok(mode),
        None => Err(app_error("invalid_render_mode"@, render_mode_error(input), format)),
    }
}

/// Reads a render mode; a word that names none is an `invalid_render_mode`
/// error.
pub fn parse_render_mode(input: &str, format: OutputFormat) -> (r: Result<RenderMode, AppError>)
    ensures
        match r {
            Ok(mode) => render_mode_outcome(input@, format) == Ok::<RenderMode, AppErrorView>(mode),
            Err(e) => render_mode_outcome(input@, format) == Err::<RenderMode, AppErrorView>(e@),
        },
{
    match RenderMode::parse(input) {
        Ok(mode) => Ok(mode),
        Err(message) => Err(AppError::new("invalid_render_mode", message, format, 1)),
    }
}

} // verus!

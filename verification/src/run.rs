//! The `run` command: resolving the effective settings from flags, persisted
//! defaults and built-in defaults, and producing the QR code.

use vstd::prelude::*;

use crate::context::{
    copy_text, joined_path, opt_text, ActiveContext, ActiveContextView, DEFAULT_IMAGE_SIZE,
    DEFAULT_OUTPUT_FILE_NAME, default_output_in,
};
use crate::error::{app_error, output_format_outcome, parse_output_format, parse_render_mode, AppError, AppErrorView};
use crate::formats::{output_format_name, render_mode_error, render_mode_named, OutputFormat, RenderMode};
use crate::qr::{
    encode_image, encode_text, image_size_in_range, qr_dense_text, qr_encode_failure,
    qr_luma_image, qr_failure_message, qr_failure_text, GrayPixels, QrFailure,
};
use crate::text::{with_newline, with_trailing_newline};

verus! {

/// The flags of `run`.
#[derive(Debug)]
pub struct RunArgs {
    pub content: Option<String>,
    pub render: Option<String>,
    pub output: Option<String>,
    pub size: Option<u32>,
    pub format: String,
}

/// The flags this invocation passed, as they override the defaults.
#[derive(Debug)]
pub struct InvocationOverrides {
    pub render: Option<RenderMode>,
    pub output: Option<String>,
    pub image_size: Option<u32>,
}

/// The persisted defaults, this invocation's overrides, and what they
/// resolve to.
#[derive(Debug)]
pub struct EffectiveContextView {
    pub persisted_defaults: ActiveContext,
    pub invocation_overrides: InvocationOverrides,
    pub resolved: ActiveContext,
}

/// The settings one `run` works with.
#[derive(Debug)]
pub struct ResolvedRun {
    pub format: OutputFormat,
    pub content: String,
    pub render: RenderMode,
    pub output: Option<String>,
    pub image_size: u32,
    pub effective_context: EffectiveContextView,
}

/// The metadata reported after writing a PNG.
#[derive(Debug)]
pub struct ImageRunResponse {
    pub command: &'static str,
    pub status: &'static str,
    pub render: RenderMode,
    pub content: String,
    pub image_path: String,
    pub image_size: u32,
    pub output_format: String,
    pub effective_context: EffectiveContextView,
}

/// What `run` produces: the QR code as text for the terminal, or an image to
/// be written to `output` followed by its metadata.
#[derive(Debug)]
pub enum RunOutput {
    Text(String),
    Image { image: GrayPixels, output: String, response: ImageRunResponse },
}

/// The message for a missing content argument.
pub open spec fn missing_content_message() -> Seq<char> {
    "Provide inline content to encode, for example: `qrcode-agent-cli run \"hello\"`."@
}

/// The message for a zero image size.
pub open spec fn invalid_size_message() -> Seq<char> {
    "Image size must be greater than zero."@
}

/// The render mode of a run: the flag, else the persisted default, else text.
pub open spec fn resolved_render(args: RunArgs, persisted: ActiveContextView) -> RenderMode {
    match args.render {
        Some(word) => match render_mode_named(word@) {
            Some(mode) => mode,
            None => RenderMode::Text,
        },
        None => match persisted.default_render {
            Some(mode) => mode,
            None => RenderMode::Text,
        },
    }
}

/// The image size of a run: the flag, else the persisted default, else the
/// built-in default.
pub open spec fn resolved_size(args: RunArgs, persisted: ActiveContextView) -> u32 {
    match args.size {
        Some(size) => size,
        None => match persisted.default_image_size {
            Some(size) => size,
            None => DEFAULT_IMAGE_SIZE,
        },
    }
}

/// The output path of an image run: the flag, else the persisted default,
/// else `qrcode.png` in the working directory.
pub open spec fn resolved_image_output(args: RunArgs, persisted: ActiveContextView, current_dir: Seq<char>) -> Seq<char> {
    match args.output {
        Some(path) => path@,
        None => match persisted.default_output {
            Some(path) => path,
            None => joined_path(current_dir, DEFAULT_OUTPUT_FILE_NAME@),
        },
    }
}

/// Why a run cannot start, if it cannot: checked in this order.
pub open spec fn run_error(
    args: RunArgs,
    persisted: Result<ActiveContext, String>,
    current_dir: Result<String, String>,
) -> Option<AppErrorView> {
    match output_format_outcome(args.format@) {
        Err(e) => Some(e),
        Ok(format) => match persisted {
            Err(message) => Some(app_error("context_load_failed"@, message@, format)),
            Ok(p) => {
                if args.content is None {
                    Some(app_error("missing_content"@, missing_content_message(), format))
                } else if args.render matches Some(word) && render_mode_named(word@) is None {
                    Some(app_error("invalid_render_mode"@, render_mode_error(args.render->0@), format))
                } else if args.size == Some(0u32) {
                    Some(app_error("invalid_size"@, invalid_size_message(), format))
                } else if resolved_render(args, p@) == RenderMode::Image && current_dir is Err {
                    Some(app_error("default_output_unavailable"@, current_dir->Err_0@, format))
                } else {
                    None
                }
            },
        },
    }
}

/// The optional render mode of a flag.
pub open spec fn flag_render(args: RunArgs) -> Option<RenderMode> {
    match args.render {
        Some(word) => Some(
            match render_mode_named(word@) {
                Some(mode) => mode,
                None => RenderMode::Text,
            },
        ),
        None => None,
    }
}

/// What a run that can start works with.
pub open spec fn run_resolves_to(
    run: ResolvedRun,
    args: RunArgs,
    persisted: ActiveContextView,
    current_dir: Seq<char>,
) -> bool {
    let render = resolved_render(args, persisted);
    let size = resolved_size(args, persisted);
    let output = if render == RenderMode::Image {
        Some(resolved_image_output(args, persisted, current_dir))
    } else {
        None
    };
    &&& output_format_outcome(args.format@) == Ok::<OutputFormat, AppErrorView>(run.format)
    &&& args.content matches Some(c) && run.content@ == c@
    &&& run.render == render
    &&& opt_text(run.output) == output
    &&& run.image_size == size
    &&& run.effective_context.invocation_overrides.render == flag_render(args)
    &&& opt_text(run.effective_context.invocation_overrides.output) == opt_text(args.output)
    &&& run.effective_context.invocation_overrides.image_size == args.size
    &&& run.effective_context.resolved@ == (ActiveContextView {
        default_render: Some(render),
        default_output: output,
        default_image_size: Some(size),
    })
}

/// Resolves the settings of a run from its flags, the persisted defaults
/// (or why they could not be read) and the working directory (or why it is
/// unknown). Flags win over persisted defaults, which win over built-in
/// defaults; an output path is ignored in text mode; the persisted defaults
/// are reported exactly as they were read.
pub fn resolve_run(
    args: &RunArgs,
    persisted: Result<ActiveContext, String>,
    current_dir: Result<String, String>,
) -> (r: Result<ResolvedRun, AppError>)
    ensures
        match r {
            Err(e) => run_error(*args, persisted, current_dir) == Some(e@),
            Ok(run) => {
                &&& run_error(*args, persisted, current_dir) is None
                &&& persisted matches Ok(p) && run.effective_context.persisted_defaults@ == p@
                &&& persisted matches Ok(p) && run_resolves_to(
                    run,
                    *args,
                    p@,
                    match current_dir {
                        Ok(d) => d@,
                        Err(_) => Seq::empty(),
                    },
                )
            },
        },
{
    let format = parse_output_format(args.format.as_str())?;
    let persisted = match persisted {
        Ok(p) => p,
        Err(message) => return Err(AppError::new("context_load_failed", message, format, 1)),
    };
    let content = match &args.content {
        Some(c) => c.clone(),
        None => {
            return Err(
                AppError::new(
                    "missing_content",
                    String::from_str(
                        "Provide inline content to encode, for example: `qrcode-agent-cli run \"hello\"`.",
                    ),
                    format,
                    1,
                ),
            )
        },
    };
    let render = match &args.render {
        Some(word) => parse_render_mode(word.as_str(), format)?,
        None => match persisted.default_render {
            Some(mode) => mode,
            None => RenderMode::Text,
        },
    };
    let image_size = match args.size {
        Some(0) => {
            return Err(
                AppError::new(
                    "invalid_size",
                    String::from_str("Image size must be greater than zero."),
                    format,
                    1,
                ),
            )
        },
        Some(size) => size,
        None => match persisted.default_image_size {
            Some(size) => size,
            None => DEFAULT_IMAGE_SIZE,
        },
    };
    let output_override = copy_text(&args.output);
    let effective_output: Option<String> = match render {
        RenderMode::Text => None,
        RenderMode::Image => {
            let fallback = match current_dir {
                Ok(dir) => default_output_in(&dir),
                Err(message) => return Err(AppError::new("default_output_unavailable", message, format, 1)),
            };
            match &args.output {
                Some(path) => Some(path.clone()),
                None => match &persisted.default_output {
                    Some(path) => Some(path.clone()),
                    None => Some(fallback),
                },
            }
        },
    };
    let overrides = InvocationOverrides {
        render: match &args.render {
            Some(_) => Some(render),
            None => None,
        },
        output: output_override,
        image_size: args.size,
    };
    let resolved = ActiveContext {
        default_render: Some(render),
        default_output: copy_text(&effective_output),
        default_image_size: Some(image_size),
    };
    Ok(
        ResolvedRun {
            format,
            content,
            render,
            output: effective_output,
            image_size,
            effective_context: EffectiveContextView {
                persisted_defaults: persisted,
                invocation_overrides: overrides,
                resolved,
            },
        },
    )
}

/// The bytes that are encoded: the UTF-8 encoding of the content.
pub open spec fn content_bytes(content: Seq<char>) -> Seq<u8> {
    vstd::utf8::encode_utf8(content)
}

/// The message for data that cannot be encoded.
pub open spec fn generation_error(failure: QrFailure) -> Seq<char> {
    "Failed to generate a QR code: "@ + qr_failure_text(failure)
}

/// Whether `handle_run` can render a run: text always, an image when its
/// size is within what the image renderer can lay out.
pub open spec fn renderable(run: ResolvedRun) -> bool {
    run.render == RenderMode::Image ==> image_size_in_range(run.image_size)
}

/// Whether an image of this size can be rendered.
pub fn image_size_supported(size: u32) -> (r: bool)
    ensures
        r == image_size_in_range(size),
{
    if size > u32::MAX - 184 {
        return false;
    }
    let side: u128 = size as u128 + 184;
    assert(side * side <= 0x1_0000_0000 * 0x1_0000_0000) by (nonlinear_arith)
        requires
            side <= 0x1_0000_0000,
    ;
    side * side <= isize::MAX as u128
}

/// What the image run reports once its PNG is written.
pub open spec fn image_response_of(
    response: ImageRunResponse,
    resolved: ResolvedRun,
    output: Seq<char>,
) -> bool {
    &&& response.command@ == "run"@
    &&& response.status@ == "ok"@
    &&& response.render == RenderMode::Image
    &&& response.content@ == resolved.content@
    &&& response.image_path@ == output
    &&& response.image_size == resolved.image_size
    &&& response.output_format@ == output_format_name(resolved.format)
    &&& response.effective_context == resolved.effective_context
}

/// Produces the QR code of a resolved run: the text with a final line feed,
/// or the image, the path to write it to, and the metadata to report.
pub fn handle_run(resolved: ResolvedRun) -> (r: Result<RunOutput, AppError>)
    requires
        renderable(resolved),
    ensures
        match qr_encode_failure(vstd::utf8::encode_utf8(resolved.content@)) {
            Some(failure) => r matches Err(e) && e@ == app_error(
                "qrcode_generation_failed"@,
                generation_error(failure),
                resolved.format,
            ),
            None => match resolved.render {
                RenderMode::Text => r matches Ok(RunOutput::Text(text))
                    && text@ == with_newline(qr_dense_text(vstd::utf8::encode_utf8(resolved.content@))),
                RenderMode::Image => match resolved.output {
                    None => r matches Err(e) && e@ == app_error(
                        "missing_output"@,
                        "Image mode requires an output path"@,
                        resolved.format,
                    ),
                    Some(path) => r matches Ok(RunOutput::Image { image, output, response })
                        && (image.width, image.height, image.luma@) == qr_luma_image(
                        vstd::utf8::encode_utf8(resolved.content@),
                        resolved.image_size,
                    ) && output@ == path@ && image_response_of(response, resolved, path@),
                },
            },
        },
{
    let format = resolved.format;
    let data = resolved.content.as_str().as_bytes();
    match resolved.render {
        RenderMode::Text => match encode_text(data) {
            Ok(text) => Ok(RunOutput::Text(with_trailing_newline(text))),
            Err(failure) => Err(generation_failed(failure, format)),
        },
        RenderMode::Image => {
            let image = match encode_image(data, resolved.image_size) {
                Ok(image) => image,
                Err(failure) => return Err(generation_failed(failure, format)),
            };
            let output = match &resolved.output {
                Some(path) => path.clone(),
                None => {
                    return Err(
                        AppError::new(
                            "missing_output",
                            String::from_str("Image mode requires an output path"),
                            format,
                            1,
                        ),
                    )
                },
            };
            let response = ImageRunResponse {
                command: "run",
                status: "ok",
                render: RenderMode::Image,
                content: resolved.content.clone(),
                image_path: output.clone(),
                image_size: resolved.image_size,
                output_format: String::from_str(format.as_str()),
                effective_context: resolved.effective_context,
            };
            Ok(RunOutput::Image { image, output, response })
        },
    }
}

fn generation_failed(failure: QrFailure, format: OutputFormat) -> (r: AppError)
    ensures
        r@ == app_error("qrcode_generation_failed"@, generation_error(failure), format),
{
    let mut message = String::from_str("Failed to generate a QR code: ");
    let wording = qr_failure_message(failure);
    message.append(wording.as_str());
    AppError::new("qrcode_generation_failed", message, format, 1)
}

/// The error for an output directory that could not be created.
pub fn output_directory_error(parent: &str, error: &str, format: OutputFormat) -> (r: AppError)
    ensures
        r@ == app_error(
            "output_directory_creation_failed"@,
            "Failed to create output directory `"@ + parent@ + "`: "@ + error@,
            format,
        ),
{
    let mut message = String::from_str("Failed to create output directory `");
    message.append(parent);
    message.append("`: ");
    message.append(error);
    AppError::new("output_directory_creation_failed", message, format, 1)
}

/// The error for a PNG that could not be written.
pub fn image_write_error(output: &str, error: &str, format: OutputFormat) -> (r: AppError)
    ensures
        r@ == app_error("image_write_failed"@, "Failed to write `"@ + output@ + "`: "@ + error@, format),
{
    let mut message = String::from_str("Failed to write `");
    message.append(output);
    message.append("`: ");
    message.append(error);
    AppError::new("image_write_failed", message, format, 1)
}

} // verus!

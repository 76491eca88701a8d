//! The decisions of `grokrs generate`: image option names and whether the
//! policy lets an output file be written.

use vstd::prelude::*;
use crate::policy::{Decision, Effect, PolicyEngine, spec_evaluate};
use crate::text::{opt_str_view, owned, spec_starts_with, starts_with, str_eq};

verus! {

/// The `grokrs generate` subcommands.
#[derive(Debug, Clone, PartialEq, Eq)]
pub enum GenerateCommand {
    /// An image from a text prompt, written to a workspace-relative path.
    Image {
        prompt: String,
        output: String,
        model: Option<String>,
        aspect_ratio: Option<String>,
        quality: Option<String>,
        resolution: Option<String>,
        format: String,
        edit: Option<String>,
    },
    /// A video from a text prompt, or an extension of an existing one.
    Video {
        prompt: String,
        model: Option<String>,
        aspect_ratio: Option<String>,
        duration: Option<u32>,
        resolution: Option<String>,
        extend: Option<String>,
    },
}

/// Image aspect ratios.
#[derive(Debug, Clone, Copy, PartialEq, Eq)]
pub enum AspectRatio {
    Square,
    Wide,
    Tall,
    Landscape,
    Portrait,
    ClassicLandscape,
    ClassicPortrait,
}

/// Image resolutions.
#[derive(Debug, Clone, Copy, PartialEq, Eq)]
pub enum ImageResolution {
    Res1024x1024,
    Res1024x1792,
    Res1792x1024,
}

/// How generated images are returned.
#[derive(Debug, Clone, Copy, PartialEq, Eq)]
pub enum ImageResponseFormat {
    Url,
    B64Json,
}

/// The aspect ratio a flag names.
pub open spec fn spec_aspect_ratio(s: Seq<char>) -> Option<AspectRatio> {
    if s == "1:1"@ { Some(AspectRatio::Square) }
    else if s == "16:9"@ { Some(AspectRatio::Wide) }
    else if s == "9:16"@ { Some(AspectRatio::Tall) }
    else if s == "4:3"@ { Some(AspectRatio::Landscape) }
    else if s == "3:4"@ { Some(AspectRatio::Portrait) }
    else if s == "3:2"@ { Some(AspectRatio::ClassicLandscape) }
    else if s == "2:3"@ { Some(AspectRatio::ClassicPortrait) }
    else { None }
}

pub const ASPECT_VALUES: &'static str = "'\nValid values: 1:1, 16:9, 9:16, 4:3, 3:4, 3:2, 2:3";

/// Parse an aspect ratio flag.
pub fn parse_aspect_ratio(s: &str) -> (r: Result<AspectRatio, String>)
    ensures
        match spec_aspect_ratio(s@) {
            Some(a) => r == Ok::<AspectRatio, String>(a),
            None => r matches Err(e) && e@ == "unknown aspect ratio: '"@ + s@ + ASPECT_VALUES@,
        },
{
    if str_eq(s, "1:1") { Ok(AspectRatio::Square) }
    else if str_eq(s, "16:9") { Ok(AspectRatio::Wide) }
    else if str_eq(s, "9:16") { Ok(AspectRatio::Tall) }
    else if str_eq(s, "4:3") { Ok(AspectRatio::Landscape) }
    else if str_eq(s, "3:4") { Ok(AspectRatio::Portrait) }
    else if str_eq(s, "3:2") { Ok(AspectRatio::ClassicLandscape) }
    else if str_eq(s, "2:3") { Ok(AspectRatio::ClassicPortrait) }
    else {
        let mut e = owned("unknown aspect ratio: '");
        e.append(s);
        e.append(ASPECT_VALUES);
        Err(e)
    }
}

/// The resolution a flag names.
pub open spec fn spec_resolution(s: Seq<char>) -> Option<ImageResolution> {
    if s == "1024x1024"@ { Some(ImageResolution::Res1024x1024) }
    else if s == "1024x1792"@ { Some(ImageResolution::Res1024x1792) }
    else if s == "1792x1024"@ { Some(ImageResolution::Res1792x1024) }
    else { None }
}

pub const RESOLUTION_VALUES: &'static str = "'\nValid values: 1024x1024, 1024x1792, 1792x1024";

/// Parse an image resolution flag.
pub fn parse_image_resolution(s: &str) -> (r: Result<ImageResolution, String>)
    ensures
        match spec_resolution(s@) {
            Some(x) => r == Ok::<ImageResolution, String>(x),
            None => r matches Err(e) && e@ == "unknown image resolution: '"@ + s@ + RESOLUTION_VALUES@,
        },
{
    if str_eq(s, "1024x1024") { Ok(ImageResolution::Res1024x1024) }
    else if str_eq(s, "1024x1792") { Ok(ImageResolution::Res1024x1792) }
    else if str_eq(s, "1792x1024") { Ok(ImageResolution::Res1792x1024) }
    else {
        let mut e = owned("unknown image resolution: '");
        e.append(s);
        e.append(RESOLUTION_VALUES);
        Err(e)
    }
}

/// The response format a flag names; `b64` and `b64_json` are the same.
pub open spec fn spec_image_format(s: Seq<char>) -> Option<ImageResponseFormat> {
    if s == "url"@ { Some(ImageResponseFormat::Url) }
    else if s == "b64"@ || s == "b64_json"@ { Some(ImageResponseFormat::B64Json) }
    else { None }
}

pub const FORMAT_VALUES: &'static str = "'\nValid values: url, b64";

/// Parse an image response format flag.
pub fn parse_image_format(s: &str) -> (r: Result<ImageResponseFormat, String>)
    ensures
        match spec_image_format(s@) {
            Some(x) => r == Ok::<ImageResponseFormat, String>(x),
            None => r matches Err(e) && e@ == "unknown image format: '"@ + s@ + FORMAT_VALUES@,
        },
{
    if str_eq(s, "url") { Ok(ImageResponseFormat::Url) }
    else if str_eq(s, "b64") || str_eq(s, "b64_json") { Ok(ImageResponseFormat::B64Json) }
    else {
        let mut e = owned("unknown image format: '");
        e.append(s);
        e.append(FORMAT_VALUES);
        Err(e)
    }
}

pub const ASK_WRITE_TAIL: &'static str = "\nSet approval_mode = \"allow\" in [session] to bypass.";
pub const DENY_WRITE_TAIL: &'static str = "\nTo enable workspace writes, set `allow_workspace_writes = true` in [policy].";

/// Whether an output file may be written, by the policy decision for the
/// write and the approval mode, and the error when it may not.
pub open spec fn spec_output_write(d: Decision, mode: Seq<char>, path: Seq<char>) -> Option<Seq<char>> {
    match d {
        Decision::Allow { .. } => None,
        Decision::Ask { reason } => if mode == "allow"@ {
            None
        } else {
            Some("writing to '"@ + path + "' requires approval: "@ + reason@ + ASK_WRITE_TAIL@)
        },
        Decision::Deny { reason } => Some("writing to '"@ + path + "' denied by policy: "@ + reason@ + DENY_WRITE_TAIL@),
    }
}

/// The decision for writing a workspace file with a given configuration.
pub open spec fn write_decision(engine: PolicyEngine) -> Decision {
    if engine.config().allow_workspace_writes {
        Decision::Allow { reason: "workspace writes are allowed by config" }
    } else {
        Decision::Deny { reason: "workspace writes are disabled by config" }
    }
}

/// A `..` component starts at `i` in `p`.
pub open spec fn dotdot_at(p: Seq<char>, i: int) -> bool {
    &&& 0 <= i && i + 2 <= p.len()
    &&& p[i] == '.' && p[i + 1] == '.'
    &&& (i == 0 || p[i - 1] == '/')
    &&& (i + 2 == p.len() || p[i + 2] == '/')
}

/// A path that stays inside the workspace: non-empty, not absolute, and
/// with no `..` component.
pub open spec fn is_workspace_relative(p: Seq<char>) -> bool {
    &&& p.len() > 0
    &&& p[0] != '/'
    &&& forall|i: int| !#[trigger] dotdot_at(p, i)
}

/// Whether a path stays inside the workspace.
pub fn workspace_relative(path: &str) -> (r: bool)
    ensures
        r == is_workspace_relative(path@),
{
    let n = path.unicode_len();
    if n == 0 || path.get_char(0) == '/' {
        return false;
    }
    let mut i: usize = 0;
    while i < n
        invariant
            n == path@.len(),
            i <= n,
            forall|j: int| 0 <= j < i ==> !#[trigger] dotdot_at(path@, j),
        decreases n - i,
    {
        if i < n - 1 && path.get_char(i) == '.' && path.get_char(i + 1) == '.'
            && (i == 0 || path.get_char(i - 1) == '/')
            && (i + 2 == n || path.get_char(i + 2) == '/')
        {
            assert(dotdot_at(path@, i as int));
            return false;
        }
        assert(!dotdot_at(path@, i as int));
        i = i + 1;
    }
    assert forall|j: int| !#[trigger] dotdot_at(path@, j) by {
        if 0 <= j < n {
        } else {
        }
    }
    true
}

/// The error for an output path that leaves the workspace.
pub open spec fn outside_workspace_error(path: Seq<char>) -> Seq<char> {
    "invalid output path '"@ + path + "': must be workspace-relative"@
}

/// Check an output path: it must stay inside the workspace, and policy
/// must let the file be written there. Gives the path back when it may be
/// written.
pub fn validate_output_path(path: &str, engine: &PolicyEngine, approval_mode: &str) -> (r: Result<String, String>)
    ensures
        !is_workspace_relative(path@) ==> (r matches Err(e) && e@ == outside_workspace_error(path@)),
        is_workspace_relative(path@) ==> match spec_output_write(write_decision(*engine), approval_mode@, path@) {
            None => r matches Ok(p) && p@ == path@,
            Some(m) => r matches Err(e) && e@ == m,
        },
{
    if !workspace_relative(path) {
        let mut e = owned("invalid output path '");
        e.append(path);
        e.append("': must be workspace-relative");
        return Err(e);
    }
    match check_output_write(path, engine, approval_mode) {
        Ok(()) => Ok(owned(path)),
        Err(e) => Err(e),
    }
}

/// Check that policy lets the generated file be written to `path`.
pub fn check_output_write(path: &str, engine: &PolicyEngine, approval_mode: &str) -> (r: Result<(), String>)
    ensures
        match spec_output_write(write_decision(*engine), approval_mode@, path@) {
            None => r is Ok,
            Some(m) => r matches Err(e) && e@ == m,
        },
{
    let decision = engine.evaluate(&Effect::FsWrite(owned(path)));
    match decision {
        Decision::Allow { .. } => Ok(()),
        Decision::Ask { reason } => {
            if str_eq(approval_mode, "allow") {
                Ok(())
            } else {
                let mut e = owned("writing to '");
                e.append(path);
                e.append("' requires approval: ");
                e.append(reason);
                e.append(ASK_WRITE_TAIL);
                Err(e)
            }
        },
        Decision::Deny { reason } => {
            let mut e = owned("writing to '");
            e.append(path);
            e.append("' denied by policy: ");
            e.append(reason);
            e.append(DENY_WRITE_TAIL);
            Err(e)
        },
    }
}


pub const DEFAULT_IMAGE_MODEL: &'static str = "grok-2-image";

/// The decision for reading a workspace file.
pub open spec fn read_decision(engine: PolicyEngine) -> Decision {
    spec_evaluate(engine.config(), Effect::FsRead(arbitrary()))
}

/// Whether the output path may be written: `None` when it may, else the
/// error of `validate_output_path`.
pub open spec fn spec_output_check(path: Seq<char>, engine: PolicyEngine, mode: Seq<char>) -> Option<Seq<char>> {
    if !is_workspace_relative(path) {
        Some(outside_workspace_error(path))
    } else {
        spec_output_write(write_decision(engine), mode, path)
    }
}

/// Where an image to edit comes from.
#[derive(Debug, Clone, PartialEq, Eq)]
pub enum EditSource {
    /// An `http://` or `https://` URL, passed on as it is.
    Url(String),
    /// A workspace file, to be read and sent inline.
    WorkspaceFile(String),
}

/// The edit source a flag names: a URL, or a workspace path that policy
/// lets be read; `(true, s)` for a URL and `(false, s)` for a file.
pub open spec fn spec_edit_source(src: Seq<char>, engine: PolicyEngine, mode: Seq<char>) -> Result<(bool, Seq<char>), Seq<char>> {
    if spec_starts_with(src, "http://"@) || spec_starts_with(src, "https://"@) {
        Ok((true, src))
    } else if !is_workspace_relative(src) {
        Err("invalid edit input path '"@ + src + "': must be workspace-relative"@)
    } else {
        match read_decision(engine) {
            Decision::Allow { .. } => Ok((false, src)),
            Decision::Ask { reason } => if mode == "allow"@ {
                Ok((false, src))
            } else {
                Err("reading '"@ + src + "' requires approval: "@ + reason@)
            },
            Decision::Deny { reason } => Err("reading '"@ + src + "' denied by policy: "@ + reason@),
        }
    }
}

/// The source as a pair: whether it is a URL, and its text.
pub open spec fn edit_view(e: EditSource) -> (bool, Seq<char>) {
    match e {
        EditSource::Url(u) => (true, u@),
        EditSource::WorkspaceFile(p) => (false, p@),
    }
}

/// The edit source of the `--edit` flag.
pub fn edit_source(src: &str, engine: &PolicyEngine, approval_mode: &str) -> (r: Result<EditSource, String>)
    ensures
        match spec_edit_source(src@, *engine, approval_mode@) {
            Ok(v) => r matches Ok(e) && edit_view(e) == v,
            Err(m) => r matches Err(e) && e@ == m,
        },
{
    if starts_with(src, "http://") || starts_with(src, "https://") {
        return Ok(EditSource::Url(owned(src)));
    }
    if !workspace_relative(src) {
        let mut e = owned("invalid edit input path '");
        e.append(src);
        e.append("': must be workspace-relative");
        return Err(e);
    }
    let decision = engine.evaluate(&Effect::FsRead(owned(src)));
    proof {
        assert(decision == read_decision(*engine));
    }
    match decision {
        Decision::Allow { .. } => Ok(EditSource::WorkspaceFile(owned(src))),
        Decision::Ask { reason } => {
            if str_eq(approval_mode, "allow") {
                Ok(EditSource::WorkspaceFile(owned(src)))
            } else {
                let mut e = owned("reading '");
                e.append(src);
                e.append("' requires approval: ");
                e.append(reason);
                Err(e)
            }
        },
        Decision::Deny { reason } => {
            let mut e = owned("reading '");
            e.append(src);
            e.append("' denied by policy: ");
            e.append(reason);
            Err(e)
        },
    }
}

/// What `generate image` settles before any request.
#[derive(Debug, Clone, PartialEq, Eq)]
pub struct ImagePlan {
    pub output: String,
    pub model: String,
    pub format: ImageResponseFormat,
    pub aspect_ratio: Option<AspectRatio>,
    pub resolution: Option<ImageResolution>,
    pub edit: Option<EditSource>,
}

/// The first error of `generate image`'s checks, in order: the output
/// path, the response format, the aspect ratio, the resolution, and the
/// edit source; `None` when all pass.
pub open spec fn spec_image_error(
    output: Seq<char>,
    aspect_ratio: Option<Seq<char>>,
    resolution: Option<Seq<char>>,
    format: Seq<char>,
    edit: Option<Seq<char>>,
    engine: PolicyEngine,
    mode: Seq<char>,
) -> Option<Seq<char>> {
    if spec_output_check(output, engine, mode) is Some {
        spec_output_check(output, engine, mode)
    } else if spec_image_format(format) is None {
        Some("unknown image format: '"@ + format + FORMAT_VALUES@)
    } else if aspect_ratio matches Some(a) && spec_aspect_ratio(a) is None {
        Some("unknown aspect ratio: '"@ + aspect_ratio->0 + ASPECT_VALUES@)
    } else if resolution matches Some(x) && spec_resolution(x) is None {
        Some("unknown image resolution: '"@ + resolution->0 + RESOLUTION_VALUES@)
    } else if edit matches Some(src) && spec_edit_source(src, engine, mode) is Err {
        Some(spec_edit_source(edit->0, engine, mode)->Err_0)
    } else {
        None
    }
}

/// Settle what `generate image` asks for: the output path checked against
/// the workspace and policy, the model (`grok-2-image` by default), the
/// format, aspect ratio and resolution parsed, and the edit source checked.
pub fn plan_image(
    output: &str,
    model: Option<&str>,
    aspect_ratio: Option<&str>,
    resolution: Option<&str>,
    format: &str,
    edit: Option<&str>,
    engine: &PolicyEngine,
    approval_mode: &str,
) -> (r: Result<ImagePlan, String>)
    ensures
        match spec_image_error(output@, opt_str_view(aspect_ratio), opt_str_view(resolution), format@,
            opt_str_view(edit), *engine, approval_mode@) {
            Some(m) => r matches Err(e) && e@ == m,
            None => r matches Ok(p) && {
                &&& p.output@ == output@
                &&& p.model@ == match model { Some(m) => m@, None => DEFAULT_IMAGE_MODEL@ }
                &&& spec_image_format(format@) == Some(p.format)
                &&& p.aspect_ratio == match aspect_ratio { Some(a) => spec_aspect_ratio(a@), None => None }
                &&& p.resolution == match resolution { Some(x) => spec_resolution(x@), None => None }
                &&& match edit {
                    Some(src) => p.edit matches Some(e) && spec_edit_source(src@, *engine, approval_mode@)
                        == Ok::<(bool, Seq<char>), Seq<char>>(edit_view(e)),
                    None => p.edit is None,
                }
            },
        },
{
    let out = match validate_output_path(output, engine, approval_mode) {
        Ok(p) => p,
        Err(e) => return Err(e),
    };
    let model = match model {
        Some(m) => owned(m),
        None => owned(DEFAULT_IMAGE_MODEL),
    };
    let format = match parse_image_format(format) {
        Ok(f) => f,
        Err(e) => return Err(e),
    };
    let aspect_ratio = match aspect_ratio {
        Some(a) => match parse_aspect_ratio(a) {
            Ok(x) => Some(x),
            Err(e) => return Err(e),
        },
        None => None,
    };
    let resolution = match resolution {
        Some(s) => match parse_image_resolution(s) {
            Ok(x) => Some(x),
            Err(e) => return Err(e),
        },
        None => None,
    };
    let edit = match edit {
        Some(src) => match edit_source(src, engine, approval_mode) {
            Ok(e) => Some(e),
            Err(e) => return Err(e),
        },
        None => None,
    };
    Ok(ImagePlan { output: out, model, format, aspect_ratio, resolution, edit })
}

/// One image of an image response.
#[derive(Debug, Clone, PartialEq, Eq)]
pub struct ImageDatum {
    pub url: Option<String>,
    pub b64_json: Option<String>,
    pub revised_prompt: Option<String>,
}

pub const NO_IMAGE_DATA: &'static str = "API returned no image data";
pub const NO_IMAGE_CONTENT: &'static str = "API returned image data with neither URL nor base64 content";

/// The image a response delivers: the first one, or an error when there is none.
pub fn first_image(data: &Vec<ImageDatum>) -> (r: Result<&ImageDatum, String>)
    ensures
        data@.len() == 0 ==> (r matches Err(e) && e@ == NO_IMAGE_DATA@),
        data@.len() > 0 ==> r == Ok::<&ImageDatum, String>(&data@[0]),
{
    if data.len() == 0 {
        return Err(owned(NO_IMAGE_DATA));
    }
    Ok(&data[0])
}

/// How the image is to be saved.
#[derive(Debug, Clone, PartialEq, Eq)]
pub enum ImagePayload {
    /// Download it from this URL.
    Download(String),
    /// Decode this base64 text.
    Decode(String),
}

/// How to save an image: from its URL when it has one, else from its
/// base64 data, else an error.
pub fn image_payload(d: &ImageDatum) -> (r: Result<ImagePayload, String>)
    ensures
        match (d.url, d.b64_json) {
            (Some(u), _) => r matches Ok(ImagePayload::Download(x)) && x@ == u@,
            (None, Some(b)) => r matches Ok(ImagePayload::Decode(x)) && x@ == b@,
            (None, None) => r matches Err(e) && e@ == NO_IMAGE_CONTENT@,
        },
{
    match &d.url {
        Some(u) => Ok(ImagePayload::Download(u.clone())),
        None => match &d.b64_json {
            Some(b) => Ok(ImagePayload::Decode(b.clone())),
            None => Err(owned(NO_IMAGE_CONTENT)),
        },
    }
}

/// The line that reports the prompt the service rewrote, if it did.
pub fn revised_prompt_line(d: &ImageDatum) -> (r: Option<String>)
    ensures
        match d.revised_prompt {
            Some(p) => r matches Some(l) && l@ == "[generate] revised prompt: "@ + p@,
            None => r is None,
        },
{
    match &d.revised_prompt {
        Some(p) => {
            let mut l = owned("[generate] revised prompt: ");
            l.append(p.as_str());
            Some(l)
        },
        None => None,
    }
}

} // verus!

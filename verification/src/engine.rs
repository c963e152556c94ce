//! The template engine binding: one fresh environment per render call, the
//! profile bound as the single top-level context object, and the two markdown
//! filters registered.

use vstd::prelude::*;
use vstd::utf8::decode_utf8;
use vstd::utf8::valid_utf8;

use crate::json::json_of_profile;
use crate::json::profile_to_json;
use crate::profile::ProfileData;

verus! {

/// Why a render call produced no output.
#[derive(Clone, Copy, Debug, PartialEq, Eq, Structural)]
pub enum RenderFault {
    /// The theme bytes are not valid UTF-8: a decode fault.
    ThemeNotUtf8,
    /// The theme failed to compile or to evaluate: a compile or evaluation
    /// fault.
    Engine,
}

/// A theme of literal text alone: it holds none of the two-character markers
/// (`{` followed by `{`, `%` or `#`) that open an expression, a block or a
/// comment, so it can hold no template syntax.
pub open spec fn literal_theme(theme: Seq<char>) -> bool {
    forall|i: int|
        0 <= i && i + 1 < theme.len() ==> !(#[trigger] theme[i] == '{' && (theme[i + 1] == '{'
            || theme[i + 1] == '%' || theme[i + 1] == '#'))
}

/// What evaluating a theme against a context document yields: the template
/// engine's output, or nothing on a compile or evaluation fault.
pub uninterp spec fn theme_rendering(theme: Seq<char>, ctx_json: Seq<char>) -> Option<Seq<char>>;

/// Relies on `core::str::from_utf8`: it succeeds exactly on valid UTF-8 and
/// yields the decoding of the bytes it was given.
#[verifier::external_body]
fn theme_str(bytes: &[u8]) -> (r: Option<&str>)
    ensures
        r matches Some(s) ==> valid_utf8(bytes@) && s@ == decode_utf8(bytes@),
        r is None ==> !valid_utf8(bytes@),
{
    core::str::from_utf8(bytes).ok()
}

/// Relies on minijinja: a fresh environment per call (`render_str` with the
/// trailing newline kept and the two markdown filters registered) renders
/// deterministically, from the theme text and the context document alone; and
/// its lexer emits text outside `{`-opened markers verbatim, so a theme
/// without an expression, block or comment marker compiles and renders to
/// itself. Relies on
/// `serde_json::from_str` to decode the context document, which succeeds on
/// every object that `json_of_profile` emits.
#[verifier::external_body]
fn minijinja_render(theme: &str, ctx_json: &str) -> (r: Option<String>)
    ensures
        match r {
            Some(s) => theme_rendering(theme@, ctx_json@) == Some(s@),
            None => theme_rendering(theme@, ctx_json@) is None,
        },
        r matches Some(s) ==> (literal_theme(theme@) && (exists|p: ProfileData|
            ctx_json@ == json_of_profile(p)) ==> s@ == theme@),
        r is None ==> !(literal_theme(theme@) && (exists|p: ProfileData|
            ctx_json@ == json_of_profile(p))),
{
    let ctx: serde_json::Value = match serde_json::from_str(ctx_json) {
        Ok(v) => v,
        Err(_) => return None,
    };
    let mut env = minijinja::Environment::new();
    env.set_keep_trailing_newline(true);
    env.add_filter("markdown", |m: String| crate::filters::render_markdown(&m));
    env.add_filter("markdown_text", |m: String| crate::filters::render_markdown_text(&m));
    env.render_str(theme, minijinja::Value::from_serialize(&ctx)).ok()
}

/// What a render call yields for a profile and raw theme bytes: the engine's
/// output for the decoded theme bound to the profile's context document, or
/// the fault that stopped the call.
pub open spec fn render_result(profile: ProfileData, theme: Seq<u8>) -> Result<
    Seq<char>,
    RenderFault,
> {
    if !valid_utf8(theme) {
        Err(RenderFault::ThemeNotUtf8)
    } else {
        match theme_rendering(decode_utf8(theme), json_of_profile(profile)) {
            Some(s) => Ok(s),
            None => Err(RenderFault::Engine),
        }
    }
}

/// Renders a theme against a profile: decodes the theme bytes, compiles them
/// as a template, binds the profile as the context, and evaluates, with the
/// two markdown filters available. Rejected themes are reported as the fault
/// that stopped the call; a theme of literal text alone always succeeds and
/// renders to itself.
pub fn render(profile: &ProfileData, theme: &[u8]) -> (r: Result<String, RenderFault>)
    ensures
        r matches Ok(s) ==> render_result(*profile, theme@) == Ok::<Seq<char>, RenderFault>(s@),
        r matches Err(f) ==> render_result(*profile, theme@) == Err::<Seq<char>, RenderFault>(f),
        valid_utf8(theme@) && literal_theme(decode_utf8(theme@)) ==> (r matches Ok(s) && s@
            == decode_utf8(theme@)),
{
    let t = match theme_str(theme) {
        Some(t) => t,
        None => {
            return Err(RenderFault::ThemeNotUtf8);
        },
    };
    let ctx = profile_to_json(profile);
    proof {
        assert(ctx@ == json_of_profile(*profile));
        assert(exists|p: ProfileData| ctx@ == json_of_profile(p));
    }
    match minijinja_render(t, ctx.as_str()) {
        Some(s) => Ok(s),
        None => Err(RenderFault::Engine),
    }
}

} // verus!

//! The output channel: the single-slot handoff of a rendered string to the
//! host.
//!
//! The host must drain a full cycle — render, read the output, release it —
//! before starting the next. The slot owns at most one live output at a time;
//! releasing is bound to that exact output and demands that one is held, so a
//! release can never free anything twice.

use vstd::prelude::*;
use vstd::utf8::valid_utf8;

use crate::engine::render;
use crate::engine::render_result;
use crate::profile::ProfileData;

verus! {

/// The single-slot record of the most recently produced render result.
pub struct OutputChannel {
    slot: Option<String>,
}

impl OutputChannel {
    /// The text the channel currently holds for the host, if any.
    pub closed spec fn spec_output(&self) -> Option<Seq<char>> {
        match self.slot {
            Some(s) => Some(s@),
            None => None,
        }
    }

    /// Whether an output is held and not yet released.
    pub open spec fn has_output(&self) -> bool {
        self.spec_output() is Some
    }

    /// A channel that holds no output yet.
    pub fn new() -> (c: Self)
        ensures
            !c.has_output(),
    {
        OutputChannel { slot: None }
    }

    /// Takes ownership of a fresh render result. A prior unreleased output is
    /// overwritten: it becomes unreachable (an orphaned allocation); it is
    /// not freed through the release action, which is bound per output.
    pub fn store(&mut self, rendered: String)
        ensures
            final(self).spec_output() == Some(rendered@),
    {
        self.slot = Some(rendered);
    }

    /// The held output, for the host to read and copy; nothing after a
    /// release or a faulted render.
    pub fn output(&self) -> (r: Option<&String>)
        ensures
            match r {
                Some(s) => self.spec_output() == Some(s@),
                None => !self.has_output(),
            },
    {
        match &self.slot {
            Some(s) => Some(s),
            None => None,
        }
    }

    /// Frees the held output, exactly once per render. The host must not
    /// release again before a new render stores a fresh output: that is the
    /// precondition here, and a released channel no longer meets it.
    pub fn release_output(&mut self)
        requires
            old(self).has_output(),
        ensures
            !final(self).has_output(),
    {
        self.slot = None;
    }
}

/// The release action bound before any render has produced an output: it
/// frees nothing.
pub fn null_fn() {
}

/// Runs one render call against the channel: on success the result takes the
/// slot; on a fault — a theme that is not valid UTF-8 among them — the slot
/// is left exactly as it was, so a prior output stays readable until it is
/// explicitly released.
pub fn render_to_channel(ch: &mut OutputChannel, profile: &ProfileData, theme: &[u8]) -> (ok: bool)
    ensures
        ok ==> (render_result(*profile, theme@) matches Ok(s) && final(ch).spec_output()
            == Some(s)),
        !ok ==> (render_result(*profile, theme@) matches Err(_) && *final(ch) == *old(ch)),
        !valid_utf8(theme@) ==> !ok,
{
    match render(profile, theme) {
        Ok(s) => {
            ch.store(s);
            true
        },
        Err(_) => false,
    }
}

/// Law: the handoff protocol is idempotent per cycle. Storing a fresh render
/// result, reading it as the host does, and releasing it hands back exactly
/// the stored text and leaves the channel empty — whatever it held before —
/// so a second release without an intervening render fails `release_output`'s
/// precondition instead of freeing anything twice.
pub fn run_cycle(ch: &mut OutputChannel, rendered: String) -> (r: String)
    ensures
        r@ == rendered@,
        !final(ch).has_output(),
{
    ch.store(rendered);
    let r = match ch.output() {
        Some(s) => s.clone(),
        None => String::new(),
    };
    ch.release_output();
    r
}

} // verus!

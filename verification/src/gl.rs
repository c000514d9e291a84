//! Headless OpenGL bootstrap over EGL: which device to render on, which
//! framebuffer configuration to take, and which context to create.
//!
//! The host queries the platform and creates the display, the context and
//! the drawing library's interface; the choices among what it found are made
//! here.

use vstd::prelude::*;
use crate::error::BootstrapError;

verus! {

/// The bits of alpha that the color buffer must have.
pub const ALPHA_SIZE: u8 = 8;

/// What a framebuffer configuration is asked to offer.
#[derive(Clone, Copy, Debug, PartialEq, Eq, Structural)]
pub struct ConfigTemplate {
    /// The bits of alpha in the color buffer.
    pub alpha_size: u8,
    /// The kinds of surface that the configuration must support, as the raw
    /// bits of `glutin::config::ConfigSurfaceTypes`.
    pub surface_types: u8,
}

/// The rendering API that a context is pinned to.
#[derive(Clone, Copy, Debug, PartialEq, Eq, Structural)]
pub enum ContextApi {
    /// Desktop OpenGL, in any version.
    OpenGl,
    /// OpenGL ES, in any version.
    Gles,
}

/// The two contexts that a bootstrap may end up with.
#[derive(Clone, Copy, Debug, PartialEq, Eq, Structural)]
pub enum ContextProfile {
    /// The context that the platform creates when nothing is pinned: a core
    /// profile.
    Core,
    /// The context that is fallen back to: any context of the OpenGL API.
    Compatibility,
}

/// What a context is created with.
#[derive(Clone, Copy, Debug, PartialEq, Eq, Structural)]
pub struct ContextAttributes {
    /// The API that is pinned, if any.
    pub api: Option<ContextApi>,
}

/// What the bootstrap does next about its context.
#[derive(Clone, Copy, Debug, PartialEq, Eq, Structural)]
pub enum ContextStep {
    /// Try to create a context of this profile.
    Attempt(ContextProfile),
    /// Go on with the context of this profile, which was created.
    Use(ContextProfile),
    /// Give up: no context can be had.
    Fail(BootstrapError),
}

/// The raw bits of `glutin::config::ConfigSurfaceTypes::empty()`: no bit is
/// set.
#[verifier::external_body]
fn no_surface_types() -> (bits: u8)
    ensures
        bits == 0,
{
    glutin::config::ConfigSurfaceTypes::empty().bits()
}

/// Whether configuration `i` is the one to take: none has more samples, and
/// none before it has as many.
pub open spec fn is_best_config(samples: Seq<u8>, i: int) -> bool {
    &&& 0 <= i < samples.len()
    &&& forall|j: int| 0 <= j < samples.len() ==> #[trigger] samples[j] <= samples[i]
    &&& forall|j: int| 0 <= j < i ==> #[trigger] samples[j] < samples[i]
}

/// The step that follows the context attempts made so far. Each argument is
/// the outcome of one attempt, `None` while it has not been made.
pub open spec fn context_after(core: Option<bool>, compatibility: Option<bool>) -> ContextStep {
    match core {
        None => ContextStep::Attempt(ContextProfile::Core),
        Some(true) => ContextStep::Use(ContextProfile::Core),
        Some(false) => match compatibility {
            None => ContextStep::Attempt(ContextProfile::Compatibility),
            Some(true) => ContextStep::Use(ContextProfile::Compatibility),
            Some(false) => ContextStep::Fail(BootstrapError::NoContext),
        },
    }
}

/// Picks the device to render on among `count` devices, in the order in
/// which the platform listed them: the first. No device is a failure.
pub fn select_device(count: usize) -> (device: Result<usize, BootstrapError>)
    ensures
        device == if count == 0 {
            Err::<usize, BootstrapError>(BootstrapError::NoDevice)
        } else {
            Ok::<usize, BootstrapError>(0)
        },
{
    if count == 0 {
        Err(BootstrapError::NoDevice)
    } else {
        Ok(0)
    }
}

/// The template that configurations are matched against: eight bits of
/// alpha, and no kind of on-screen or off-screen surface demanded, since
/// everything is rendered to targets of the drawing library's own.
pub fn config_template() -> (template: ConfigTemplate)
    ensures
        template == (ConfigTemplate { alpha_size: ALPHA_SIZE, surface_types: 0 }),
{
    ConfigTemplate { alpha_size: ALPHA_SIZE, surface_types: no_surface_types() }
}

/// Picks a configuration by the sample count of each, in the order in which
/// the platform listed them: the one with the most samples, and among equals
/// the one listed first. No configuration is a failure.
pub fn select_config(samples: &Vec<u8>) -> (config: Result<usize, BootstrapError>)
    ensures
        match config {
            Ok(i) => is_best_config(samples@, i as int),
            Err(e) => e == BootstrapError::NoConfig && samples@.len() == 0,
        },
{
    if samples.len() == 0 {
        return Err(BootstrapError::NoConfig);
    }
    let mut best: usize = 0;
    let mut i: usize = 1;
    while i < samples.len()
        invariant
            1 <= i <= samples.len(),
            best < i,
            forall|j: int| 0 <= j < i ==> #[trigger] samples@[j] <= samples@[best as int],
            forall|j: int| 0 <= j < best ==> #[trigger] samples@[j] < samples@[best as int],
        decreases samples.len() - i,
    {
        if samples[i] > samples[best] {
            best = i;
        }
        i += 1;
    }
    Ok(best)
}

/// Decides the next step about the context from the attempts made so far.
/// The core profile is tried first and used if it can be created; only after
/// it failed is the compatibility profile tried, once; if that fails too the
/// bootstrap fails.
pub fn context_step(core: Option<bool>, compatibility: Option<bool>) -> (step: ContextStep)
    ensures
        step == context_after(core, compatibility),
{
    match core {
        None => ContextStep::Attempt(ContextProfile::Core),
        Some(true) => ContextStep::Use(ContextProfile::Core),
        Some(false) => match compatibility {
            None => ContextStep::Attempt(ContextProfile::Compatibility),
            Some(true) => ContextStep::Use(ContextProfile::Compatibility),
            Some(false) => ContextStep::Fail(BootstrapError::NoContext),
        },
    }
}

/// The attributes that a context of each profile is created with: nothing
/// pinned for the core profile, the OpenGL API in any version for the
/// compatibility profile. Neither names a window: the context is made
/// current without a surface.
pub fn context_attributes(profile: ContextProfile) -> (attributes: ContextAttributes)
    ensures
        attributes.api == match profile {
            ContextProfile::Core => None::<ContextApi>,
            ContextProfile::Compatibility => Some(ContextApi::OpenGl),
        },
{
    match profile {
        ContextProfile::Core => ContextAttributes { api: None },
        ContextProfile::Compatibility => ContextAttributes { api: Some(ContextApi::OpenGl) },
    }
}

/// A list of configurations has at most one best.
pub proof fn lemma_best_config_unique(samples: Seq<u8>, i: int, j: int)
    requires
        is_best_config(samples, i),
        is_best_config(samples, j),
    ensures
        i == j,
{
    if i < j {
        assert(samples[i] < samples[j]);
        assert(samples[j] <= samples[i]);
    } else if j < i {
        assert(samples[j] < samples[i]);
        assert(samples[i] <= samples[j]);
    }
}

/// A core context that cannot be created does not fail the bootstrap while
/// the compatibility context can: the bootstrap goes on with that one. It
/// fails only when both attempts were made and both failed, and it never
/// tries the compatibility context while the core one is untried or good.
pub proof fn lemma_context_fallback(core: Option<bool>, compatibility: Option<bool>)
    ensures
        context_after(Some(false), Some(true)) == ContextStep::Use(ContextProfile::Compatibility),
        context_after(core, compatibility) is Fail <==> core == Some(false) && compatibility
            == Some(false),
        context_after(core, compatibility) == ContextStep::Attempt(ContextProfile::Compatibility)
            <==> core == Some(false) && compatibility is None,
        core == Some(true) ==> context_after(core, compatibility) == ContextStep::Use(
            ContextProfile::Core,
        ),
{
}

} // verus!

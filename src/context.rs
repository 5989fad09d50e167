use vstd::prelude::*;

use crate::geometry::{coordinates_for, coordinates_spec, EmbedderCoordinates};

verus! {

/// Where a drawing surface is in its life: not yet given a GL context, bound to
/// the engine, or destroyed for good.
#[derive(Clone, Copy, Debug, PartialEq, Eq, Structural)]
pub enum Phase {
    Unrealized,
    Bound,
    TornDown,
}

/// The GL flavour that the host context was created with.
#[derive(Clone, Copy, Debug, PartialEq, Eq, Structural)]
pub enum GlApi {
    Gl,
    Gles,
}

/// The flavour and major.minor version reported to the engine.
#[derive(Clone, Copy, Debug, PartialEq, Eq, Structural)]
pub enum GlVersion {
    Gl(u8, u8),
    Gles(u8, u8),
}

/// Why the surface's GL context could not be made current.
#[derive(Clone, Copy, Debug, PartialEq, Eq, Structural)]
pub enum ContextError {
    NotRealized,
    TornDown,
    ActivationFailed,
}

/// The rendering and window-geometry back end handed to the engine: it mirrors
/// the state of one host drawing surface. Methods that would touch GL say by
/// their result whether the host call may be made.
#[derive(Clone, Copy, Debug, PartialEq, Eq, Structural)]
pub struct GTKRenderingContext {
    pub phase: Phase,
    pub api: GlApi,
    pub width: i32,
    pub height: i32,
    pub scale: i32,
    /// A redraw of the surface has been asked of the host and has not run yet.
    pub redraw_queued: bool,
    /// The surface's context was last reported current by the host.
    pub current: bool,
}

/// The error that `make_current` reports in a phase other than `Bound`.
pub open spec fn phase_error(p: Phase) -> Result<(), ContextError> {
    match p {
        Phase::Unrealized => Err(ContextError::NotRealized),
        Phase::TornDown => Err(ContextError::TornDown),
        Phase::Bound => Ok(()),
    }
}

/// The state after one `present`.
pub open spec fn presented(c: GTKRenderingContext) -> GTKRenderingContext {
    GTKRenderingContext { redraw_queued: c.redraw_queued || c.phase == Phase::Bound, ..c }
}

/// Whether one `present` on `c` asks the host for a new redraw.
pub open spec fn present_requests(c: GTKRenderingContext) -> bool {
    c.phase == Phase::Bound && !c.redraw_queued
}

/// The number of redraws asked of the host by `n` calls of `present` in a row.
pub open spec fn redraws_requested(c: GTKRenderingContext, n: nat) -> nat
    decreases n,
{
    if n == 0 {
        0
    } else {
        (if present_requests(c) { 1nat } else { 0nat }) + redraws_requested(presented(c), (n - 1) as nat)
    }
}

/// The state after the host reports a new size and scale.
pub open spec fn host_resized_spec(c: GTKRenderingContext, w: i32, h: i32, scale: i32) -> GTKRenderingContext {
    if c.phase == Phase::TornDown {
        c
    } else {
        GTKRenderingContext { width: w, height: h, scale, ..c }
    }
}

/// The state after the host answered an activation with `activated`.
pub open spec fn activated_spec(c: GTKRenderingContext, activated: bool) -> GTKRenderingContext {
    if c.phase == Phase::Bound {
        GTKRenderingContext { current: activated, ..c }
    } else {
        c
    }
}

/// The framebuffer reported by `c` when the host GL has `binding` bound for drawing.
pub open spec fn framebuffer_spec(c: GTKRenderingContext, binding: i32) -> u32 {
    if c.phase == Phase::Bound && c.current {
        binding as u32
    } else {
        0
    }
}

/// The geometry that `c` reports.
pub open spec fn geometry_of(c: GTKRenderingContext) -> EmbedderCoordinates {
    coordinates_spec(c.width, c.height, c.scale)
}

/// The version reported for a context of flavour `api` whose host reported
/// `negotiated`, or nothing yet.
pub open spec fn version_spec(api: GlApi, negotiated: Option<(i32, i32)>) -> GlVersion {
    let (major, minor) = match negotiated {
        Some(v) => v,
        None => (0i32, 0i32),
    };
    match api {
        GlApi::Gl => GlVersion::Gl(major as u8, minor as u8),
        GlApi::Gles => GlVersion::Gles(major as u8, minor as u8),
    }
}

/// The flavour of GL function table to load for a host context: desktop GL
/// where the host's API set holds it, GLES otherwise.
pub fn select_api(host_has_gl: bool) -> (r: GlApi)
    ensures
        r == (if host_has_gl { GlApi::Gl } else { GlApi::Gles }),
{
    if host_has_gl {
        GlApi::Gl
    } else {
        GlApi::Gles
    }
}

impl GTKRenderingContext {
    /// A context for a surface that exists but has no GL context yet.
    pub fn new(width: i32, height: i32, scale: i32) -> (r: Self)
        ensures
            r == (GTKRenderingContext {
                phase: Phase::Unrealized,
                api: GlApi::Gl,
                width,
                height,
                scale,
                redraw_queued: false,
                current: false,
            }),
    {
        GTKRenderingContext {
            phase: Phase::Unrealized,
            api: GlApi::Gl,
            width,
            height,
            scale,
            redraw_queued: false,
            current: false,
        }
    }

    /// The host realized the surface: the one transition from `Unrealized` to
    /// `Bound`. Returns whether it happened; in any other phase nothing changes.
    pub fn realize(&mut self, api: GlApi, width: i32, height: i32, scale: i32) -> (r: bool)
        ensures
            r == (old(self).phase == Phase::Unrealized),
            r ==> *final(self) == (GTKRenderingContext {
                phase: Phase::Bound,
                api,
                width,
                height,
                scale,
                redraw_queued: false,
                current: false,
            }),
            !r ==> *final(self) == *old(self),
    {
        if self.phase == Phase::Unrealized {
            *self = GTKRenderingContext {
                phase: Phase::Bound,
                api,
                width,
                height,
                scale,
                redraw_queued: false,
                current: false,
            };
            true
        } else {
            false
        }
    }

    /// The host reports a new size or scale for the surface; ignored once it is destroyed.
    pub fn host_resized(&mut self, width: i32, height: i32, scale: i32)
        ensures
            *final(self) == host_resized_spec(*old(self), width, height, scale),
    {
        if self.phase != Phase::TornDown {
            self.width = width;
            self.height = height;
            self.scale = scale;
        }
    }

    /// The host destroyed the surface: a final transition; nothing is current
    /// or queued afterwards.
    pub fn destroy(&mut self)
        ensures
            *final(self) == (GTKRenderingContext {
                phase: Phase::TornDown,
                redraw_queued: false,
                current: false,
                ..*old(self)
            }),
    {
        self.phase = Phase::TornDown;
        self.redraw_queued = false;
        self.current = false;
    }

    /// The engine asks for a new size: the host's layout owns the size, so
    /// nothing is done.
    pub fn resize(&self, _width: i32, _height: i32) {
    }

    /// The engine asks for the surface to be redrawn. Returns whether the host
    /// must be asked for a redraw now: only on a bound surface with none pending,
    /// so calls before the redraw runs collapse into one.
    pub fn present(&mut self) -> (r: bool)
        ensures
            r == present_requests(*old(self)),
            *final(self) == presented(*old(self)),
    {
        let ask = self.phase == Phase::Bound && !self.redraw_queued;
        if self.phase == Phase::Bound {
            self.redraw_queued = true;
        }
        ask
    }

    /// The host runs the surface's redraw callback. Returns whether the view is
    /// to be composited (only on a bound surface); the pending redraw is used up.
    pub fn on_render(&mut self) -> (r: bool)
        ensures
            r == (old(self).phase == Phase::Bound),
            *final(self) == (GTKRenderingContext { redraw_queued: false, ..*old(self) }),
    {
        self.redraw_queued = false;
        self.phase == Phase::Bound
    }

    /// The engine asks for the surface's context to be made current. `Ok` means
    /// the host activation is to be made, then reported through
    /// `activation_result`; an error means no GL call is to be made at all.
    pub fn make_current(&self) -> (r: Result<(), ContextError>)
        ensures
            r == phase_error(self.phase),
    {
        match self.phase {
            Phase::Unrealized => Err(ContextError::NotRealized),
            Phase::TornDown => Err(ContextError::TornDown),
            Phase::Bound => Ok(()),
        }
    }

    /// Records what the host said of an activation asked for by `make_current`.
    pub fn activation_result(&mut self, activated: bool) -> (r: Result<(), ContextError>)
        ensures
            old(self).phase != Phase::Bound ==> r == phase_error(old(self).phase) && *final(self) == *old(self),
            old(self).phase == Phase::Bound ==> {
                &&& r == (if activated { Ok(()) } else { Err(ContextError::ActivationFailed) })
            },
            *final(self) == activated_spec(*old(self), activated),
    {
        match self.phase {
            Phase::Unrealized => Err(ContextError::NotRealized),
            Phase::TornDown => Err(ContextError::TornDown),
            Phase::Bound => {
                self.current = activated;
                if activated {
                    Ok(())
                } else {
                    Err(ContextError::ActivationFailed)
                }
            },
        }
    }

    /// Whether GL may be queried now: the surface is bound and its context current.
    pub fn can_query_gl(&self) -> (r: bool)
        ensures
            r == (self.phase == Phase::Bound && self.current),
    {
        self.phase == Phase::Bound && self.current
    }

    /// The draw framebuffer the engine composites into, from the binding that
    /// the host GL reported; 0, the default framebuffer, when GL may not be queried.
    pub fn framebuffer_object(&self, binding: i32) -> (r: u32)
        ensures
            r == framebuffer_spec(*self, binding),
    {
        if self.can_query_gl() {
            binding as u32
        } else {
            0
        }
    }

    /// The flavour of the loaded GL function table.
    pub fn gl_api(&self) -> (r: GlApi)
        ensures
            r == self.api,
    {
        self.api
    }

    /// The GL version to report, from the version the host context negotiated
    /// (`None` while it has no context).
    pub fn gl_version(&self, negotiated: Option<(i32, i32)>) -> (r: GlVersion)
        ensures
            r == version_spec(self.api, negotiated),
    {
        let (major, minor) = match negotiated {
            Some(v) => v,
            None => (0i32, 0i32),
        };
        match self.api {
            GlApi::Gl => GlVersion::Gl(major as u8, minor as u8),
            GlApi::Gles => GlVersion::Gles(major as u8, minor as u8),
        }
    }

    /// The window geometry, computed afresh from the current size on every call.
    pub fn get_coordinates(&self) -> (r: EmbedderCoordinates)
        ensures
            r == geometry_of(*self),
    {
        coordinates_for(self.width, self.height, self.scale)
    }

    /// The engine reports whether it animates; the host loop runs regardless.
    pub fn set_animation_state(&self, _animating: bool) {
    }
}

/// However many times `present` is called before the redraw runs, the host is
/// asked for at most one redraw.
pub proof fn lemma_present_coalesces(c: GTKRenderingContext, n: nat)
    ensures
        redraws_requested(c, n) <= 1,
        c.redraw_queued ==> redraws_requested(c, n) == 0,
    decreases n,
{
    if n > 0 {
        lemma_present_coalesces(presented(c), (n - 1) as nat);
        if c.phase == Phase::Bound {
            assert(presented(c).redraw_queued);
        } else {
            assert(presented(c) == c);
        }
    }
}

/// On a bound surface with no redraw pending, any run of one or more `present`
/// calls asks the host for exactly one redraw.
pub proof fn lemma_present_requests_one(c: GTKRenderingContext, n: nat)
    requires
        c.phase == Phase::Bound,
        !c.redraw_queued,
        n >= 1,
    ensures
        redraws_requested(c, n) == 1,
{
    lemma_present_coalesces(presented(c), (n - 1) as nat);
}

/// The geometry is recomputed from the current size: a resize by the host shows
/// on the very next query, and the calls that leave the size alone (presenting,
/// redrawing, activating) leave the answer as it was, so two queries with no
/// resize between agree.
pub proof fn lemma_coordinates_follow_resize(c: GTKRenderingContext, w: i32, h: i32, scale: i32, activated: bool)
    requires
        c.phase != Phase::TornDown,
    ensures
        geometry_of(host_resized_spec(c, w, h, scale)) == coordinates_spec(w, h, scale),
        geometry_of(presented(c)) == geometry_of(c),
        geometry_of(GTKRenderingContext { redraw_queued: false, ..c }) == geometry_of(c),
        geometry_of(activated_spec(c, activated)) == geometry_of(c),
{
}

/// Right after a successful activation, the framebuffer reported is the one the
/// host GL has bound for drawing.
pub proof fn lemma_framebuffer_after_make_current(c: GTKRenderingContext, binding: i32)
    requires
        phase_error(c.phase) == Ok::<(), ContextError>(()),
    ensures
        framebuffer_spec(activated_spec(c, true), binding) == binding as u32,
{
}

} // verus!

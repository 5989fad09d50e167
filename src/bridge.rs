use vstd::prelude::*;

use crate::context::{select_api, GTKRenderingContext, GlApi, Phase};
use crate::pump::{step_spec, LoopPump, PumpStep};
use crate::view::Web;

verus! {

#[verifier::external_type_specification]
#[verifier::external_body]
pub struct ExUrl(url::Url);

#[verifier::external_type_specification]
#[verifier::external_body]
pub struct ExParseError(url::ParseError);

/// Whether `s` parses as an absolute URL.
pub uninterp spec fn url_parses(s: Seq<char>) -> bool;

/// Relies on url::Url::parse, which succeeds or fails by the input text alone.
#[verifier::external_body]
fn parse_url(s: &str) -> (r: Result<url::Url, url::ParseError>)
    ensures
        r.is_ok() == url_parses(s@),
{
    url::Url::parse(s)
}

/// Why the surface could not be bound to the engine.
#[derive(Clone, Copy, Debug, PartialEq, Eq, Structural)]
pub enum BridgeError {
    /// The surface was realized before; it is bound once only.
    AlreadyRealized,
    /// The view's target is not a URL.
    InvalidTarget,
}

/// The composition root: the rendering context of the one surface, the loop
/// pump that drives the engine, and the delegate of the one view.
#[derive(Clone, Copy, Debug, PartialEq, Eq, Structural)]
pub struct Bridge {
    pub context: GTKRenderingContext,
    pub pump: LoopPump,
    pub delegate: Web,
}

/// The bridge once its surface is realized with a GL context of flavour `api`
/// and bound to the engine: context bound, pump installed, view not yet shown.
pub open spec fn bound_spec(b: Bridge, api: GlApi, width: i32, height: i32, scale: i32) -> Bridge {
    Bridge {
        context: GTKRenderingContext {
            phase: Phase::Bound,
            api,
            width,
            height,
            scale,
            redraw_queued: false,
            current: false,
        },
        pump: LoopPump { installed: true, ..b.pump },
        delegate: b.delegate,
    }
}

impl Bridge {
    /// A bridge around a surface that has no GL context yet.
    pub fn new(width: i32, height: i32, scale: i32) -> (r: Self)
        ensures
            r.context == (GTKRenderingContext {
                phase: Phase::Unrealized,
                api: GlApi::Gl,
                width,
                height,
                scale,
                redraw_queued: false,
                current: false,
            }),
            r.pump == (LoopPump { installed: false, stopped: false, wake_pending: false }),
            !r.delegate.shown,
    {
        Bridge { context: GTKRenderingContext::new(width, height, scale), pump: LoopPump::new(), delegate: Web::new() }
    }

    /// The host realized the surface: the one transition from unrealized to
    /// bound. The view's target is checked first; on `Ok` it is handed back
    /// parsed, for the engine's view, and the pump is installed. On an error
    /// nothing changes.
    pub fn on_realize(&mut self, host_has_gl: bool, width: i32, height: i32, scale: i32, target: &str) -> (r: Result<url::Url, BridgeError>)
        ensures
            old(self).context.phase != Phase::Unrealized ==> r == Err::<url::Url, BridgeError>(BridgeError::AlreadyRealized),
            old(self).context.phase == Phase::Unrealized && !url_parses(target@) ==> r == Err::<url::Url, BridgeError>(BridgeError::InvalidTarget),
            r.is_err() ==> *final(self) == *old(self),
            r.is_ok() == (old(self).context.phase == Phase::Unrealized && url_parses(target@)),
            r.is_ok() ==> *final(self) == bound_spec(*old(self), if host_has_gl { GlApi::Gl } else { GlApi::Gles }, width, height, scale),
    {
        if self.context.phase != Phase::Unrealized {
            return Err(BridgeError::AlreadyRealized);
        }
        let url = match parse_url(target) {
            Ok(u) => u,
            Err(_) => {
                return Err(BridgeError::InvalidTarget);
            },
        };
        let api = select_api(host_has_gl);
        self.context.realize(api, width, height, scale);
        self.pump.install();
        Ok(url)
    }

    /// One iteration of the host loop: the pump ticks while the surface is bound
    /// and stops once it is torn down.
    pub fn on_idle(&mut self) -> (r: PumpStep)
        ensures
            (final(self).pump, r) == step_spec(old(self).pump, old(self).context.phase == Phase::Bound),
            final(self).context == old(self).context,
            final(self).delegate == old(self).delegate,
    {
        let alive = self.context.phase == Phase::Bound;
        self.pump.on_idle(alive)
    }

    /// The host destroyed the surface: for good.
    pub fn on_destroy(&mut self)
        ensures
            final(self).context == (GTKRenderingContext {
                phase: Phase::TornDown,
                redraw_queued: false,
                current: false,
                ..old(self).context
            }),
            final(self).pump == old(self).pump,
            final(self).delegate == old(self).delegate,
    {
        self.context.destroy();
    }
}

/// Once bound, the surface is no longer unrealized, so a further realization is
/// refused; the installed pump ticks while the surface lives and stops on the
/// first iteration after it is gone.
pub proof fn lemma_bound_once(b: Bridge, api: GlApi, width: i32, height: i32, scale: i32)
    requires
        b.context.phase == Phase::Unrealized,
        !b.pump.stopped,
    ensures
        bound_spec(b, api, width, height, scale).context.phase != Phase::Unrealized,
        step_spec(bound_spec(b, api, width, height, scale).pump, true).1 == PumpStep::Tick,
        step_spec(bound_spec(b, api, width, height, scale).pump, false).1 == PumpStep::Stop,
{
}

} // verus!

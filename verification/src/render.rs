//! The render pass of the integration and the data it receives from the
//! main world each frame.

use vstd::prelude::*;

verus! {

/// The label of the Iced render pass in the render graph.
#[derive(Clone, Copy, Hash, Debug, Eq, PartialEq)]
pub struct IcedPass;

/// What happens to the draw flag between two frames of the render world.
#[derive(Clone, Copy, Debug, PartialEq, Eq, Structural)]
pub enum FrameStep {
    /// A user interface is displayed in the main world.
    Display,
    /// The render world extracts the frame.
    Extract,
}

/// Whether a user interface was displayed since the render world last
/// extracted a frame.
#[derive(Clone, Copy, Debug, Default, PartialEq, Eq)]
pub struct DidDraw(pub bool);

impl DidDraw {
    /// The flag after `step`: a display sets it, an extraction clears it.
    pub open spec fn after(self, step: FrameStep) -> DidDraw {
        match step {
            FrameStep::Display => DidDraw(true),
            FrameStep::Extract => DidDraw(false),
        }
    }

    /// The flag after `steps`, taken in order.
    pub open spec fn after_all(self, steps: Seq<FrameStep>) -> DidDraw
        decreases steps.len(),
    {
        if steps.len() == 0 {
            self
        } else {
            self.after_all(steps.drop_last()).after(steps.last())
        }
    }

    /// Records that a user interface was displayed.
    pub fn mark(&mut self)
        ensures
            *final(self) == old(self).after(FrameStep::Display),
    {
        self.0 = true;
    }

    /// Takes the flag for the render world, leaving it cleared.
    pub fn take(&mut self) -> (drawn: bool)
        ensures
            drawn == old(self).0,
            *final(self) == old(self).after(FrameStep::Extract),
    {
        let drawn = self.0;
        self.0 = false;
        drawn
    }
}

/// Whether `steps` holds a display after its last extraction.
pub open spec fn displayed_since_extract(steps: Seq<FrameStep>) -> bool {
    exists|j: int| 0 <= j < steps.len() && steps[j] == FrameStep::Display
        && forall|k: int| j < k < steps.len() ==> steps[k] != FrameStep::Extract
}

/// After any run of displays and extractions, the flag, which the next
/// extraction hands to the render world, is set exactly when a user
/// interface was displayed after the last extraction (or, when there was no
/// extraction, when one was displayed or the flag was set at the start). So each
/// display is drawn by at most one frame of the render world, and a frame
/// with nothing displayed draws nothing.
pub proof fn lemma_extract_hands_over_displays(start: DidDraw, steps: Seq<FrameStep>)
    ensures
        start.after_all(steps).0 == (displayed_since_extract(steps)
            || (start.0 && forall|k: int| 0 <= k < steps.len() ==> steps[k] != FrameStep::Extract)),
    decreases steps.len(),
{
    if steps.len() > 0 {
        let rest = steps.drop_last();
        let n = steps.len() - 1;
        lemma_extract_hands_over_displays(start, rest);
        assert forall|k: int| 0 <= k < rest.len() implies rest[k] == steps[k] by {}
        if steps[n] == FrameStep::Extract && displayed_since_extract(steps) {
            let j = choose|j: int| 0 <= j < steps.len() && steps[j] == FrameStep::Display
                && forall|k: int| j < k < steps.len() ==> steps[k] != FrameStep::Extract;
            assert(j != n);
        }
    }
}

/// The render graph node that draws the Iced user interface.
#[derive(Clone, Copy, Debug, Eq, PartialEq)]
pub struct IcedNode;

impl IcedNode {
    /// Creates the node.
    pub fn new() -> (node: Self)
        ensures
            node == IcedNode,
    {
        IcedNode
    }
}

/// The viewport the user interface is laid out and drawn in.
#[derive(Clone, Copy, Debug, PartialEq, Eq)]
pub struct ViewportResource<V>(pub V);

/// Optional clear color for the Iced render pass. When set, the pass clears
/// the target with this color; when absent, it keeps what the target holds.
#[derive(Clone, Copy, Debug, PartialEq, Eq)]
pub struct IcedClearColor<C>(pub C);

/// What the render world receives from the main world for one frame.
pub struct ExtractedFrame<V, C> {
    /// The viewport of the main world.
    pub viewport: ViewportResource<V>,
    /// Whether a user interface was displayed since the previous frame.
    pub did_draw: bool,
    /// The clear color, when the main world has one.
    pub clear_color: Option<IcedClearColor<C>>,
}

/// Extracts a frame: the render world gets the main world's viewport and
/// clear color as they are, and the draw flag, which the main world loses.
pub fn extract_iced_data<V, C>(
    viewport: ViewportResource<V>,
    did_draw: &mut DidDraw,
    clear_color: Option<IcedClearColor<C>>,
) -> (frame: ExtractedFrame<V, C>)
    ensures
        frame.viewport == viewport,
        frame.did_draw == old(did_draw).0,
        frame.clear_color == clear_color,
        *final(did_draw) == old(did_draw).after(FrameStep::Extract),
{
    let drawn = did_draw.take();
    ExtractedFrame { viewport, did_draw: drawn, clear_color }
}

/// What the render pass does in a frame.
#[derive(Clone, Copy, Debug, PartialEq, Eq)]
pub enum RenderStep<C> {
    /// Nothing is drawn.
    Skip,
    /// The user interface is drawn into the window's texture, after
    /// clearing it with `clear_color` when there is one.
    Draw { clear_color: Option<C> },
}

/// The step of a frame that has a window or not, a draw flag (none before
/// the first extraction), a texture to draw into or not, and a clear color
/// or not: it draws only with a window, a set flag and a texture.
pub open spec fn render_step<C>(has_window: bool, did_draw: Option<bool>, has_view: bool, clear_color: Option<C>) -> RenderStep<C> {
    if has_window && did_draw == Some(true) && has_view {
        RenderStep::Draw { clear_color }
    } else {
        RenderStep::Skip
    }
}

/// Whenever the pass draws, it clears the target with exactly the clear
/// color it was given, and keeps what the target holds when it was given
/// none.
pub proof fn lemma_pass_clears_with_given_color<C>(
    has_window: bool,
    did_draw: Option<bool>,
    has_view: bool,
    clear_color: Option<C>,
)
    ensures
        render_step(has_window, did_draw, has_view, clear_color) matches RenderStep::Draw { clear_color: used }
            ==> used == clear_color,
{
}

impl IcedNode {
    /// Decides what the render pass does in a frame (see `render_step`).
    pub fn plan<C>(&self, has_window: bool, did_draw: Option<bool>, has_view: bool, clear_color: Option<C>) -> (step: RenderStep<C>)
        ensures
            step == render_step(has_window, did_draw, has_view, clear_color),
    {
        if !has_window {
            return RenderStep::Skip;
        }
        let drawn = match did_draw {
            Some(drawn) => drawn,
            None => false,
        };
        if !drawn {
            return RenderStep::Skip;
        }
        if !has_view {
            return RenderStep::Skip;
        }
        RenderStep::Draw { clear_color }
    }
}

/// A window's size in physical pixels and its scale factor.
#[derive(Clone, Copy, Debug, PartialEq, Eq)]
pub struct WindowMetrics<S> {
    /// The width, in physical pixels.
    pub physical_width: u32,
    /// The height, in physical pixels.
    pub physical_height: u32,
    /// The window's scale factor.
    pub scale_factor: S,
}

/// A viewport of a physical size, with a scale factor.
#[derive(Clone, Copy, Debug, PartialEq, Eq)]
pub struct ViewportSize<S> {
    /// The width, in physical pixels.
    pub physical_width: u32,
    /// The height, in physical pixels.
    pub physical_height: u32,
    /// The scale factor.
    pub scale_factor: S,
}

/// The viewport for the windows `windows` and the configured scale factor:
/// none unless there is exactly one window; otherwise the window's
/// physical size, with the configured scale factor, or the window's own
/// scale factor when none is configured.
pub fn update_viewport<S: Copy>(windows: &Vec<WindowMetrics<S>>, scale_factor: Option<S>) -> (viewport: Option<ViewportSize<S>>)
    ensures
        viewport == (if windows@.len() == 1 {
            Some(ViewportSize {
                physical_width: windows@[0].physical_width,
                physical_height: windows@[0].physical_height,
                scale_factor: match scale_factor {
                    Some(factor) => factor,
                    None => windows@[0].scale_factor,
                },
            })
        } else {
            None
        }),
{
    if windows.len() != 1 {
        return None;
    }
    let window = &windows[0];
    let factor = match scale_factor {
        Some(factor) => factor,
        None => window.scale_factor,
    };
    Some(ViewportSize {
        physical_width: window.physical_width,
        physical_height: window.physical_height,
        scale_factor: factor,
    })
}

} // verus!

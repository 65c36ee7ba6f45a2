//! The presentable-surface configuration: format negotiation, the resize
//! guard, and the policy the render loop follows when presenting fails.
//!
//! The surface is the buffer shown on screen, distinct from the persistent
//! canvas: resizing the window reconfigures the surface but never the
//! canvas, whose logical resolution is fixed.

use vstd::prelude::*;

verus! {

/// A surface format as the graphics collaborator advertises it: an opaque
/// format code together with whether the format is sRGB-capable.
#[derive(Clone, Copy, PartialEq, Eq, Structural, Debug)]
pub struct SurfaceFormat {
    pub code: u32,
    pub srgb: bool,
}

/// The first sRGB-capable format of the advertised list, if any.
pub open spec fn first_srgb(formats: Seq<SurfaceFormat>) -> Option<SurfaceFormat>
    decreases formats.len(),
{
    if formats.len() == 0 {
        Option::None
    } else if formats[0].srgb {
        Option::Some(formats[0])
    } else {
        first_srgb(formats.skip(1))
    }
}

/// The format the surface is configured with: the first advertised
/// sRGB-capable format, or the first advertised format when none is.
pub open spec fn preferred_format(formats: Seq<SurfaceFormat>) -> SurfaceFormat
    recommends
        formats.len() > 0,
{
    match first_srgb(formats) {
        Option::Some(f) => f,
        Option::None => formats[0],
    }
}

/// Negotiates the surface format from the non-empty list the surface
/// advertises.
pub fn choose_surface_format(formats: &Vec<SurfaceFormat>) -> (r: SurfaceFormat)
    requires
        formats@.len() > 0,
    ensures
        r == preferred_format(formats@),
{
    let mut i: usize = 0;
    proof {
        assert(formats@.skip(0) =~= formats@);
    }
    while i < formats.len()
        invariant
            i <= formats@.len(),
            first_srgb(formats@) == first_srgb(formats@.skip(i as int)),
        decreases formats@.len() - i,
    {
        if formats[i].srgb {
            proof {
                assert(formats@.skip(i as int)[0] == formats@[i as int]);
            }
            return formats[i];
        }
        proof {
            assert(formats@.skip(i as int).skip(1) =~= formats@.skip(i as int + 1));
        }
        i = i + 1;
    }
    proof {
        assert(formats@.skip(i as int) =~= Seq::<SurfaceFormat>::empty());
    }
    formats[0]
}

/// The presentable surface configuration: extents and negotiated format.
#[derive(Clone, Copy, PartialEq, Eq, Structural, Debug)]
pub struct SurfaceConfiguration {
    pub width: u32,
    pub height: u32,
    pub format: SurfaceFormat,
}

impl SurfaceConfiguration {
    /// Applies a window resize. A size with a zero width or height leaves
    /// the configuration untouched — no reconfiguration, no panic;
    /// otherwise the surface takes the new extents and keeps its format.
    pub fn resize(&mut self, new_width: u32, new_height: u32)
        ensures
            (new_width == 0 || new_height == 0) ==> *final(self) == *old(self),
            (new_width > 0 && new_height > 0) ==> *final(self) == (SurfaceConfiguration {
                width: new_width,
                height: new_height,
                format: old(self).format,
            }),
    {
        if new_width > 0 && new_height > 0 {
            self.width = new_width;
            self.height = new_height;
        }
    }
}

/// A failure the surface reports when the current frame is presented.
#[derive(Clone, Copy, PartialEq, Eq, Structural, Debug)]
pub enum SurfaceIssue {
    /// Acquiring the next frame took too long.
    Timeout,
    /// The surface no longer matches the window and must be reconfigured.
    Outdated,
    /// The surface was lost and must be recreated.
    Lost,
    /// No memory left for a new frame.
    OutOfMemory,
    /// Any other device error.
    Other,
}

/// What the render loop does after a failed present.
#[derive(Clone, Copy, PartialEq, Eq, Structural, Debug)]
pub enum FrameAction {
    /// Drop the frame and reconfigure the surface on the next redraw.
    Reconfigure,
    /// Terminate the render loop: the condition is fatal.
    Exit,
    /// Drop the frame and retry on the next redraw.
    SkipFrame,
}

/// The response the policy prescribes for each present failure.
pub open spec fn frame_action_spec(issue: SurfaceIssue) -> FrameAction {
    match issue {
        SurfaceIssue::Lost => FrameAction::Reconfigure,
        SurfaceIssue::OutOfMemory => FrameAction::Exit,
        _ => FrameAction::SkipFrame,
    }
}

/// Decides the render loop's response to a present failure: a lost surface
/// is recoverable by reconfiguration on the next frame; out of memory is
/// fatal; every other issue costs the user at most the current frame,
/// which is dropped and retried on the next redraw.
pub fn frame_action(issue: SurfaceIssue) -> (r: FrameAction)
    ensures
        r == frame_action_spec(issue),
{
    match issue {
        SurfaceIssue::Lost => FrameAction::Reconfigure,
        SurfaceIssue::OutOfMemory => FrameAction::Exit,
        SurfaceIssue::Timeout => FrameAction::SkipFrame,
        SurfaceIssue::Outdated => FrameAction::SkipFrame,
        SurfaceIssue::Other => FrameAction::SkipFrame,
    }
}

} // verus!

//! The lifecycle that every backend shares: a wrapper starts without a
//! surface, each successful resize gives it a fresh one of the window's size,
//! and a present reads that surface back into the framebuffer.
//!
//! The wrapper resizes no framebuffer and allocates no surface itself. The
//! host does both, tells the wrapper how the framebuffer fared, and
//! allocates what `surface` then describes.

use vstd::prelude::*;
use softbuffer::SoftBufferError;
use crate::error::{PresentError, ResizeError, SurfaceError};
use crate::surface::{
    check_size,
    is_allocated,
    is_valid_size,
    kind_of,
    read_back_of,
    size_error,
    surface_for,
    surface_kind,
    Backend,
    DrawSurface,
    PixelFormat,
    ReadBack,
    BYTES_PER_PIXEL,
};

verus! {

/// What a wrapper is, seen from outside: its backend, and its drawing
/// surface once it has one.
pub struct WindowState {
    /// The rendering path.
    pub backend: Backend,
    /// The current drawing surface; none before the first resize.
    pub surface: Option<DrawSurface>,
}

impl WindowState {
    /// The state that a wrapper starts in.
    pub open spec fn unready(backend: Backend) -> WindowState {
        WindowState { backend, surface: None }
    }

    /// The size last resized to, or zero by zero before any resize.
    pub open spec fn size(self) -> (i32, i32) {
        match self.surface {
            Some(s) => (s.width, s.height),
            None => (0, 0),
        }
    }

    /// What a resize answers: the size's own fault if it has one, else the
    /// framebuffer's failure if it failed, else success.
    pub open spec fn resize_result(
        width: u32,
        height: u32,
        framebuffer: Result<(), SoftBufferError>,
    ) -> Result<(), ResizeError> {
        match size_error(width, height) {
            Some(e) => Err(e),
            None => match framebuffer {
                Err(e) => Err(ResizeError::Framebuffer(e)),
                Ok(()) => Ok(()),
            },
        }
    }

    /// The state after a resize: with a fresh surface of the size asked for
    /// where the resize succeeds, unchanged where it does not.
    pub open spec fn resize(
        self,
        width: u32,
        height: u32,
        framebuffer: Result<(), SoftBufferError>,
    ) -> WindowState {
        if Self::resize_result(width, height, framebuffer) is Ok {
            WindowState {
                backend: self.backend,
                surface: Some(surface_for(self.backend, width, height)),
            }
        } else {
            self
        }
    }

    /// What asking for the surface answers.
    pub open spec fn surface_result(self) -> Result<DrawSurface, SurfaceError> {
        match self.surface {
            Some(s) => Ok(s),
            None => Err(SurfaceError::NotReady),
        }
    }

    /// The read-back that a present performs: that of the whole surface, or
    /// none while there is no surface.
    pub open spec fn read_back(self) -> Option<ReadBack> {
        match self.surface {
            Some(s) => Some(read_back_of(s)),
            None => None,
        }
    }

    /// What holds of every wrapper: its surface, if it has one, is an
    /// allocated surface of its backend's kind.
    pub open spec fn is_consistent(self) -> bool {
        match self.surface {
            Some(s) => is_allocated(s) && s.kind == surface_kind(self.backend),
            None => true,
        }
    }
}

/// The presentation state of one window: the backend it is drawn through,
/// the drawing surface that the last resize gave it, and the size of both
/// surface and framebuffer.
#[derive(Debug)]
pub struct WindowWrapper {
    backend: Backend,
    surface: Option<DrawSurface>,
    size: (i32, i32),
}

impl View for WindowWrapper {
    type V = WindowState;

    closed spec fn view(&self) -> WindowState {
        WindowState { backend: self.backend, surface: self.surface }
    }
}

impl WindowWrapper {
    /// Surface and size agree, and the surface is one that the backend
    /// allocates.
    #[verifier::type_invariant]
    spec fn well_formed(self) -> bool {
        &&& self.size == self@.size()
        &&& self@.is_consistent()
    }

    /// Wraps a window that is drawn through `backend`. The wrapper has no
    /// surface until its first resize succeeds.
    pub fn wrap(backend: Backend) -> (wrapper: WindowWrapper)
        ensures
            wrapper@ == WindowState::unready(backend),
    {
        WindowWrapper { backend, surface: None, size: (0, 0) }
    }

    /// The backend that the window is drawn through.
    pub fn backend(&self) -> (backend: Backend)
        ensures
            backend == self@.backend,
    {
        self.backend
    }

    /// Whether the wrapper has a surface: whether a resize has succeeded.
    pub fn is_ready(&self) -> (ready: bool)
        ensures
            ready == self@.surface is Some,
    {
        self.surface.is_some()
    }

    /// The size that surface and framebuffer have, in pixels: the one last
    /// resized to, zero by zero before any resize.
    pub fn size(&self) -> (size: (i32, i32))
        ensures
            size == self@.size(),
            self@.is_consistent(),
    {
        proof {
            use_type_invariant(self);
        }
        self.size
    }

    /// Describes the surface that this wrapper's backend allocates for a
    /// size, or says why the size is refused.
    pub fn create_surface(&self, width: u32, height: u32) -> (surface: Result<
        DrawSurface,
        ResizeError,
    >)
        ensures
            surface == match size_error(width, height) {
                Some(e) => Err::<DrawSurface, ResizeError>(e),
                None => Ok::<DrawSurface, ResizeError>(surface_for(self@.backend, width, height)),
            },
    {
        match check_size(width, height) {
            Err(e) => Err(e),
            Ok(()) => Ok(
                DrawSurface {
                    kind: kind_of(self.backend),
                    format: PixelFormat::N32Premul,
                    width: width as i32,
                    height: height as i32,
                },
            ),
        }
    }

    /// Takes in a resize of the window to `width` by `height` pixels, after
    /// the host has tried to resize the framebuffer to that size. A size
    /// with a zero dimension, or one too large for a surface, is refused
    /// whatever became of the framebuffer; a framebuffer that could not be
    /// resized is reported. In both cases the wrapper keeps its surface and
    /// size. Otherwise the old surface is dropped for a fresh one of the new
    /// size.
    pub fn resize(
        &mut self,
        width: u32,
        height: u32,
        framebuffer: Result<(), SoftBufferError>,
    ) -> (result: Result<(), ResizeError>)
        ensures
            result == WindowState::resize_result(width, height, framebuffer),
            final(self)@ == old(self)@.resize(width, height, framebuffer),
            final(self)@.is_consistent(),
    {
        proof {
            use_type_invariant(&*self);
        }
        let surface = match self.create_surface(width, height) {
            Ok(surface) => surface,
            Err(e) => {
                return Err(e);
            },
        };
        match framebuffer {
            Err(e) => Err(ResizeError::Framebuffer(e)),
            Ok(()) => {
                *self = WindowWrapper {
                    backend: self.backend,
                    surface: Some(surface),
                    size: (surface.width, surface.height),
                };
                Ok(())
            },
        }
    }

    /// The current drawing surface. Before the first successful resize there
    /// is none, and the call fails.
    pub fn surface(&self) -> (surface: Result<&DrawSurface, SurfaceError>)
        ensures
            match surface {
                Ok(s) => self@.surface_result() == Ok::<DrawSurface, SurfaceError>(*s),
                Err(e) => self@.surface_result() == Err::<DrawSurface, SurfaceError>(e),
            },
            self@.is_consistent(),
    {
        proof {
            use_type_invariant(self);
        }
        match &self.surface {
            Some(s) => Ok(s),
            None => Err(SurfaceError::NotReady),
        }
    }

    /// Says what to read back for a present: the whole surface, from its
    /// first pixel, in the surface's own pixel format, into framebuffer rows
    /// of four bytes per pixel that follow each other without a gap. Without
    /// a surface there is nothing to present.
    pub fn present(&self) -> (read_back: Option<ReadBack>)
        ensures
            read_back == self@.read_back(),
            self@.is_consistent(),
    {
        proof {
            use_type_invariant(self);
        }
        match self.surface {
            None => None,
            Some(s) => {
                let w: usize = s.width as usize;
                let h: usize = s.height as usize;
                assert(w * h <= 4 * w * h && 4 * w <= 4 * w * h) by (nonlinear_arith)
                    requires
                        0 < w,
                        0 < h,
                ;
                Some(
                    ReadBack {
                        format: s.format,
                        width: s.width,
                        height: s.height,
                        x: 0,
                        y: 0,
                        row_bytes: BYTES_PER_PIXEL * w,
                        pixels: w * h,
                    },
                )
            },
        }
    }

    /// Says how a present ended, from what the host met after the
    /// framebuffer was mapped: whether the surface's pixels were read into
    /// it, and what submitting it came to. The framebuffer is submitted
    /// whether or not the read succeeded; of two failures the read's is
    /// reported.
    pub fn present_result(read: bool, submitted: Result<(), SoftBufferError>) -> (result: Result<
        (),
        PresentError,
    >)
        ensures
            result == present_outcome(read, submitted),
    {
        if !read {
            Err(PresentError::ReadBack)
        } else {
            match submitted {
                Err(e) => Err(PresentError::Submit(e)),
                Ok(()) => Ok(()),
            }
        }
    }
}

/// How a present ended, by the first of its steps that failed.
pub open spec fn present_outcome(read: bool, submitted: Result<(), SoftBufferError>) -> Result<
    (),
    PresentError,
> {
    if !read {
        Err(PresentError::ReadBack)
    } else {
        match submitted {
            Err(e) => Err(PresentError::Submit(e)),
            Ok(()) => Ok(()),
        }
    }
}

/// After two resizes that succeed, the surface has the size of the second,
/// whatever the first was.
pub proof fn lemma_last_resize_wins(
    state: WindowState,
    width1: u32,
    height1: u32,
    width2: u32,
    height2: u32,
)
    requires
        is_valid_size(width1, height1),
        is_valid_size(width2, height2),
    ensures
        ({
            let once = state.resize(width1, height1, Ok(()));
            let twice = once.resize(width2, height2, Ok(()));
            &&& twice.surface_result() == Ok::<DrawSurface, SurfaceError>(
                surface_for(state.backend, width2, height2),
            )
            &&& twice.size() == (width2 as i32, height2 as i32)
            &&& twice.size().0 == width2
            &&& twice.size().1 == height2
        }),
{
}

/// After a resize that succeeds, surface and framebuffer have the size asked
/// for: the surface reports it, and the read-back takes a framebuffer of
/// exactly `width` times `height` pixels, in rows of four bytes per pixel.
pub proof fn lemma_surface_matches_framebuffer(state: WindowState, width: u32, height: u32)
    requires
        is_valid_size(width, height),
    ensures
        ({
            let next = state.resize(width, height, Ok(()));
            &&& next.size() == (width as i32, height as i32)
            &&& next.read_back() matches Some(plan) && plan.pixels == width * height
                && plan.row_bytes == BYTES_PER_PIXEL * width && plan.buffer_result(
                Ok((width * height) as usize),
            ) is Ok
        }),
{
    assert(width * height <= BYTES_PER_PIXEL * width * height && BYTES_PER_PIXEL * width
        <= BYTES_PER_PIXEL * width * height) by (nonlinear_arith)
        requires
            0 < width,
            0 < height,
            BYTES_PER_PIXEL == 4,
    ;
}

/// A size with a zero dimension is refused as such, whatever the backend
/// and whatever became of the framebuffer, and the state stays as it was.
pub proof fn lemma_zero_size_is_refused(
    state: WindowState,
    width: u32,
    height: u32,
    framebuffer: Result<(), SoftBufferError>,
)
    requires
        width == 0 || height == 0,
    ensures
        WindowState::resize_result(width, height, framebuffer) == Err::<(), ResizeError>(
            ResizeError::ZeroDimension,
        ),
        state.resize(width, height, framebuffer) == state,
{
}

/// A wrapper that was never resized has no surface to hand out, and
/// nothing to present.
pub proof fn lemma_no_surface_before_resize(backend: Backend)
    ensures
        WindowState::unready(backend).surface_result() == Err::<DrawSurface, SurfaceError>(
            SurfaceError::NotReady,
        ),
        WindowState::unready(backend).read_back() is None,
        WindowState::unready(backend).size() == (0i32, 0i32),
{
}

/// A resize that fails changes nothing, and one that succeeds leaves a
/// surface: the surface is there exactly from the first success on.
pub proof fn lemma_resize_keeps_or_replaces(
    state: WindowState,
    width: u32,
    height: u32,
    framebuffer: Result<(), SoftBufferError>,
)
    requires
        state.is_consistent(),
    ensures
        WindowState::resize_result(width, height, framebuffer) is Err ==> state.resize(
            width,
            height,
            framebuffer,
        ) == state,
        WindowState::resize_result(width, height, framebuffer) is Ok ==> state.resize(
            width,
            height,
            framebuffer,
        ).surface == Some(surface_for(state.backend, width, height)),
        state.resize(width, height, framebuffer).is_consistent(),
        state.resize(width, height, framebuffer).backend == state.backend,
{
}

} // verus!

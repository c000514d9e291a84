//! Drawing surfaces as the lifecycle sees them: which sizes one can have,
//! what each backend allocates for a size, and how a surface's pixels are
//! laid out when they are read back into the framebuffer.

use vstd::prelude::*;
use softbuffer::SoftBufferError;
use crate::error::{PresentError, ResizeError};

verus! {

/// The largest width or height of a surface, whose extent is signed.
pub const MAX_DIMENSION: u32 = 0x7fff_ffff;

/// The bytes that one pixel takes.
pub const BYTES_PER_PIXEL: usize = 4;

/// The rendering path that a window is drawn through.
#[derive(Clone, Copy, Debug, PartialEq, Eq, Structural)]
pub enum Backend {
    /// Rasterized in main memory.
    Cpu,
    /// OpenGL on the desktop, with a context of the window's own.
    Gl,
    /// OpenGL on a headless EGL device.
    Egl,
    /// Vulkan.
    Vulkan,
}

/// How a pixel is stored.
#[derive(Clone, Copy, Debug, PartialEq, Eq, Structural)]
pub enum PixelFormat {
    /// In 32 bits, packed in the platform's native channel order, with the
    /// color channels multiplied by alpha.
    N32Premul,
}

/// Where a surface's first row lies.
#[derive(Clone, Copy, Debug, PartialEq, Eq, Structural)]
pub enum SurfaceOrigin {
    /// The first row is the top one.
    TopLeft,
    /// The first row is the bottom one.
    BottomLeft,
}

/// Where a surface's pixels live.
#[derive(Clone, Copy, Debug, PartialEq, Eq, Structural)]
pub enum SurfaceKind {
    /// In main memory.
    Raster,
    /// In a render target of the GPU context.
    RenderTarget {
        /// Whether the drawing library's cache may reclaim the target under
        /// memory pressure.
        budgeted: bool,
        /// Where the first row lies.
        origin: SurfaceOrigin,
        /// Whether the target has mip levels.
        mipmapped: bool,
    },
}

/// A drawing surface: where it lives and how large it is, in pixels.
#[derive(Clone, Copy, Debug, PartialEq, Eq, Structural)]
pub struct DrawSurface {
    /// Where the pixels live.
    pub kind: SurfaceKind,
    /// How each pixel is stored.
    pub format: PixelFormat,
    /// The width, in pixels.
    pub width: i32,
    /// The height, in pixels.
    pub height: i32,
}

/// What one present reads back from the drawing surface into the mapped
/// framebuffer.
#[derive(Clone, Copy, Debug, PartialEq, Eq, Structural)]
pub struct ReadBack {
    /// How each pixel is stored in the framebuffer.
    pub format: PixelFormat,
    /// The width of the area read, in pixels.
    pub width: i32,
    /// The height of the area read, in pixels.
    pub height: i32,
    /// The column of the surface that the area starts at.
    pub x: i32,
    /// The row of the surface that the area starts at.
    pub y: i32,
    /// The distance between the starts of two rows in the framebuffer, in
    /// bytes.
    pub row_bytes: usize,
    /// The number of pixels that the framebuffer must hold.
    pub pixels: usize,
}

/// Whether a surface of this size can exist: both dimensions positive and
/// within the signed extent, and the pixel buffer within the address space.
pub open spec fn is_valid_size(width: u32, height: u32) -> bool {
    &&& 0 < width <= MAX_DIMENSION
    &&& 0 < height <= MAX_DIMENSION
    &&& BYTES_PER_PIXEL * width * height <= usize::MAX
}

/// Why a size is refused, if it is.
pub open spec fn size_error(width: u32, height: u32) -> Option<ResizeError> {
    if width == 0 || height == 0 {
        Some(ResizeError::ZeroDimension)
    } else if !is_valid_size(width, height) {
        Some(ResizeError::TooLarge)
    } else {
        None
    }
}

/// Where each backend keeps its surfaces: main memory for the CPU backend, a
/// budgeted render target with its first row on top and no mip levels for
/// the others.
pub open spec fn surface_kind(backend: Backend) -> SurfaceKind {
    match backend {
        Backend::Cpu => SurfaceKind::Raster,
        _ => SurfaceKind::RenderTarget {
            budgeted: true,
            origin: SurfaceOrigin::TopLeft,
            mipmapped: false,
        },
    }
}

/// The surface that a backend allocates for a size.
pub open spec fn surface_for(backend: Backend, width: u32, height: u32) -> DrawSurface {
    DrawSurface {
        kind: surface_kind(backend),
        format: PixelFormat::N32Premul,
        width: width as i32,
        height: height as i32,
    }
}

/// Whether a surface is one that some backend allocates for some valid size.
pub open spec fn is_allocated(surface: DrawSurface) -> bool {
    &&& 0 < surface.width
    &&& 0 < surface.height
    &&& BYTES_PER_PIXEL * surface.width * surface.height <= usize::MAX
}

/// The read-back of a whole surface: all of it, from its first pixel, into
/// rows that follow each other without a gap.
pub open spec fn read_back_of(surface: DrawSurface) -> ReadBack {
    ReadBack {
        format: surface.format,
        width: surface.width,
        height: surface.height,
        x: 0,
        y: 0,
        row_bytes: (BYTES_PER_PIXEL * surface.width) as usize,
        pixels: (surface.width * surface.height) as usize,
    }
}

/// Whether `framebuffer` is what a read-back leaves behind of a surface whose
/// pixel in column `x` and row `y` is `pixel(x, y)`: each pixel of the area
/// stands at its place.
pub open spec fn is_read_back(
    plan: ReadBack,
    pixel: spec_fn(int, int) -> u32,
    framebuffer: Seq<u32>,
) -> bool {
    &&& framebuffer.len() == plan.pixels
    &&& forall|x: int, y: int|
        0 <= x < plan.width && 0 <= y < plan.height ==> framebuffer[#[trigger] plan.pixel_index(
            x,
            y,
        )] == pixel(x, y)
}

impl ReadBack {
    /// The byte of the framebuffer at which the pixel in column `x` and row
    /// `y` of the area starts.
    pub open spec fn byte_offset(self, x: int, y: int) -> int {
        y * self.row_bytes + BYTES_PER_PIXEL * x
    }

    /// The place that the pixel in column `x` and row `y` of the area has in
    /// the framebuffer, counted in pixels.
    pub open spec fn pixel_index(self, x: int, y: int) -> int {
        y * self.width + x
    }

    /// What mapping the framebuffer comes to: the failure to map it, or a
    /// mismatch where it does not hold exactly one pixel for each pixel
    /// read.
    pub open spec fn buffer_result(self, mapped: Result<usize, SoftBufferError>) -> Result<
        (),
        PresentError,
    > {
        match mapped {
            Err(e) => Err(PresentError::Buffer(e)),
            Ok(pixels) => if pixels == self.pixels {
                Ok(())
            } else {
                Err(PresentError::SizeMismatch)
            },
        }
    }

    /// Tests the outcome of mapping the framebuffer against the read-back.
    /// `mapped` is the number of pixels that the mapped framebuffer holds,
    /// or the error that mapping it failed with.
    pub fn check_buffer(&self, mapped: Result<usize, SoftBufferError>) -> (result: Result<
        (),
        PresentError,
    >)
        ensures
            result == self.buffer_result(mapped),
    {
        match mapped {
            Err(e) => Err(PresentError::Buffer(e)),
            Ok(pixels) => if pixels == self.pixels {
                Ok(())
            } else {
                Err(PresentError::SizeMismatch)
            },
        }
    }
}

/// Tests a size: `Ok` for a valid one, else the reason why it is refused,
/// zero dimensions first.
pub fn check_size(width: u32, height: u32) -> (result: Result<(), ResizeError>)
    ensures
        result == match size_error(width, height) {
            Some(e) => Err::<(), ResizeError>(e),
            None => Ok::<(), ResizeError>(()),
        },
{
    if width == 0 || height == 0 {
        return Err(ResizeError::ZeroDimension);
    }
    if width > MAX_DIMENSION || height > MAX_DIMENSION {
        return Err(ResizeError::TooLarge);
    }
    let w: u64 = width as u64;
    let h: u64 = height as u64;
    assert(w * h <= 0x7fff_ffff * 0x7fff_ffff) by (nonlinear_arith)
        requires
            w <= 0x7fff_ffff,
            h <= 0x7fff_ffff,
    ;
    let area: u64 = w * h;
    let bytes: u64 = area * 4;
    assert(bytes == BYTES_PER_PIXEL * width * height) by (nonlinear_arith)
        requires
            bytes == (width * height) * 4,
            BYTES_PER_PIXEL == 4,
    ;
    if bytes > usize::MAX as u64 {
        Err(ResizeError::TooLarge)
    } else {
        Ok(())
    }
}

/// The kind of surface that a backend allocates.
pub fn kind_of(backend: Backend) -> (kind: SurfaceKind)
    ensures
        kind == surface_kind(backend),
{
    match backend {
        Backend::Cpu => SurfaceKind::Raster,
        _ => SurfaceKind::RenderTarget {
            budgeted: true,
            origin: SurfaceOrigin::TopLeft,
            mipmapped: false,
        },
    }
}

/// A surface that a backend allocates for a valid size has that size, and
/// is allocated.
pub proof fn lemma_surface_has_size(backend: Backend, width: u32, height: u32)
    requires
        is_valid_size(width, height),
    ensures
        surface_for(backend, width, height).width == width,
        surface_for(backend, width, height).height == height,
        is_allocated(surface_for(backend, width, height)),
{
}

/// The read-back of an allocated surface fills the framebuffer row by row
/// without a gap: the pixel in column `x` and row `y` lands at the place
/// `y * width + x`, counted in pixels, and that place lies within the
/// framebuffer.
pub proof fn lemma_rows_are_tight(surface: DrawSurface, x: int, y: int)
    requires
        is_allocated(surface),
        0 <= x < surface.width,
        0 <= y < surface.height,
    ensures
        read_back_of(surface).row_bytes == BYTES_PER_PIXEL * surface.width,
        read_back_of(surface).pixels == surface.width * surface.height,
        read_back_of(surface).byte_offset(x, y) == BYTES_PER_PIXEL * read_back_of(
            surface,
        ).pixel_index(x, y),
        0 <= read_back_of(surface).pixel_index(x, y) < read_back_of(surface).pixels,
{
    let w = surface.width as int;
    let h = surface.height as int;
    assert(w * h <= 4 * w * h && 4 * w <= 4 * w * h && 0 < w * h) by (nonlinear_arith)
        requires
            0 < w,
            0 < h,
    ;
    assert(y * (4 * w) + 4 * x == 4 * (y * w + x)) by (nonlinear_arith);
    assert(0 <= y * w + x < w * h) by (nonlinear_arith)
        requires
            0 <= x < w,
            0 <= y < h,
    ;
}

/// Every place of the framebuffer is the place of some pixel of the area:
/// a read-back leaves no pixel of the framebuffer as it was.
pub proof fn lemma_every_place_is_filled(surface: DrawSurface, place: int)
    requires
        is_allocated(surface),
        0 <= place < read_back_of(surface).pixels,
    ensures
        0 <= place % (surface.width as int) < surface.width,
        0 <= place / (surface.width as int) < surface.height,
        read_back_of(surface).pixel_index(
            place % (surface.width as int),
            place / (surface.width as int),
        ) == place,
{
    let w = surface.width as int;
    let h = surface.height as int;
    assert(w * h <= 4 * w * h) by (nonlinear_arith)
        requires
            0 < w,
            0 < h,
    ;
    vstd::arithmetic::div_mod::lemma_fundamental_div_mod(place, w);
    assert(0 <= place / w < h && (place / w) * w == w * (place / w)) by (nonlinear_arith)
        requires
            0 <= place < w * h,
            0 < w,
            place == w * (place / w) + place % w,
            0 <= place % w < w,
    ;
}

/// Two pixels of the area never share a place in the framebuffer.
pub proof fn lemma_places_are_distinct(surface: DrawSurface, x1: int, y1: int, x2: int, y2: int)
    requires
        is_allocated(surface),
        0 <= x1 < surface.width,
        0 <= y1 < surface.height,
        0 <= x2 < surface.width,
        0 <= y2 < surface.height,
        read_back_of(surface).pixel_index(x1, y1) == read_back_of(surface).pixel_index(x2, y2),
    ensures
        x1 == x2,
        y1 == y2,
{
    let w = surface.width as int;
    if y1 < y2 {
        assert(y1 * w + x1 < y2 * w + x2) by (nonlinear_arith)
            requires
                y1 < y2,
                0 <= x1 < w,
                0 <= x2,
        ;
    } else if y2 < y1 {
        assert(y2 * w + x2 < y1 * w + x1) by (nonlinear_arith)
            requires
                y2 < y1,
                0 <= x2 < w,
                0 <= x1,
        ;
    }
}

/// A surface of one color is read back into a framebuffer of that color:
/// where every pixel of the surface is `color` and each is put at its place,
/// every pixel of the framebuffer is `color`.
pub proof fn lemma_solid_color_fills_framebuffer(
    surface: DrawSurface,
    color: u32,
    pixel: spec_fn(int, int) -> u32,
    framebuffer: Seq<u32>,
)
    requires
        is_allocated(surface),
        is_read_back(read_back_of(surface), pixel, framebuffer),
        forall|x: int, y: int|
            0 <= x < surface.width && 0 <= y < surface.height ==> #[trigger] pixel(x, y) == color,
    ensures
        forall|place: int|
            0 <= place < framebuffer.len() ==> #[trigger] framebuffer[place] == color,
{
    let plan = read_back_of(surface);
    let w = surface.width as int;
    assert forall|place: int| 0 <= place < framebuffer.len() implies #[trigger] framebuffer[place]
        == color by {
        lemma_every_place_is_filled(surface, place);
        let x = place % w;
        let y = place / w;
        assert(plan.pixel_index(x, y) == place);
        assert(pixel(x, y) == color);
    }
}

} // verus!

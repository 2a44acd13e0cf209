use vstd::prelude::*;

use crate::error::GlError;

verus! {

/// Pixel format flag: the buffer can draw to a window.
pub const PFD_DRAW_TO_WINDOW: u32 = 0x4;
/// Pixel format flag: the buffer supports the graphics API.
pub const PFD_SUPPORT_OPENGL: u32 = 0x20;
/// Pixel format flag: the buffer is double-buffered.
pub const PFD_DOUBLEBUFFER: u32 = 0x1;

/// Context attribute: the major version requested.
pub const CONTEXT_MAJOR_VERSION: i32 = 0x2091;
/// Context attribute: the minor version requested.
pub const CONTEXT_MINOR_VERSION: i32 = 0x2092;
/// Context attribute: the profile requested.
pub const CONTEXT_PROFILE_MASK: i32 = 0x9126;
/// Profile value: the core profile.
pub const CONTEXT_CORE_PROFILE_BIT: i32 = 0x1;

/// The major context version requested.
pub const MAJOR_VERSION: i32 = 3;
/// The minor context version requested.
pub const MINOR_VERSION: i32 = 2;

/// The name of the extension function that creates a versioned context.
pub const CREATE_CONTEXT_ATTRIBS: &'static str = "wglCreateContextAttribsARB";
/// The name of the extension function that sets the swap interval.
pub const SWAP_INTERVAL: &'static str = "wglSwapIntervalEXT";

/// What a pixel format must offer.
#[derive(Debug, Clone, Copy, PartialEq, Eq)]
pub struct PixelFormatRequest {
    pub flags: u32,
    pub color_bits: u8,
    pub depth_bits: u8,
    pub stencil_bits: u8,
}

impl PixelFormatRequest {
    /// A double-buffered, window-drawable RGBA format with 32 color bits,
    /// 24 depth bits and 8 stencil bits.
    pub fn required() -> (r: PixelFormatRequest)
        ensures
            r.flags == PFD_DRAW_TO_WINDOW | PFD_SUPPORT_OPENGL | PFD_DOUBLEBUFFER,
            r.color_bits == 32,
            r.depth_bits == 24,
            r.stencil_bits == 8,
    {
        PixelFormatRequest {
            flags: PFD_DRAW_TO_WINDOW | PFD_SUPPORT_OPENGL | PFD_DOUBLEBUFFER,
            color_bits: 32,
            depth_bits: 24,
            stencil_bits: 8,
        }
    }
}

/// The zero-terminated attribute list that asks for a core-profile context
/// of the given version.
pub fn context_attribs(major: i32, minor: i32) -> (r: Vec<i32>)
    ensures
        r@ == seq![
            CONTEXT_MAJOR_VERSION,
            major,
            CONTEXT_MINOR_VERSION,
            minor,
            CONTEXT_PROFILE_MASK,
            CONTEXT_CORE_PROFILE_BIT,
            0i32,
        ],
{
    let r = vec![
        CONTEXT_MAJOR_VERSION,
        major,
        CONTEXT_MINOR_VERSION,
        minor,
        CONTEXT_PROFILE_MASK,
        CONTEXT_CORE_PROFILE_BIT,
        0i32,
    ];
    assert(r@ =~= seq![
        CONTEXT_MAJOR_VERSION,
        major,
        CONTEXT_MINOR_VERSION,
        minor,
        CONTEXT_PROFILE_MASK,
        CONTEXT_CORE_PROFILE_BIT,
        0i32,
    ]);
    r
}

/// The value handed to the swap-interval extension: one refresh between
/// swaps when enabled, none otherwise.
pub fn swap_interval(enabled: bool) -> (r: i32)
    ensures
        r == (if enabled { 1i32 } else { 0i32 }),
{
    if enabled {
        1
    } else {
        0
    }
}

/// The steps of setting up a rendering context for a window, in order. Each
/// names the native work to do next.
#[derive(Debug, PartialEq, Eq)]
pub enum BootStep {
    /// Obtain the window's device context.
    GetDevice,
    /// Choose and set a pixel format meeting `PixelFormatRequest::required`.
    SetPixelFormat,
    /// Create a legacy context and make it current.
    CreateLegacy,
    /// Look up the extension named `CREATE_CONTEXT_ATTRIBS`.
    LoadCreateContext,
    /// Create the versioned core context, delete the legacy one and make the
    /// new one current.
    CreateCore,
    /// Look up the extension named `SWAP_INTERVAL`.
    LoadSwapInterval,
    /// The context is ready for use.
    Ready,
    /// Setting up failed for good.
    Failed(GlError),
}

/// The step after `s`, given whether the native work of `s` succeeded. The
/// order is fixed and a failure ends the setup: a missing extension with
/// `ExtensionUnavailable`, any other failure with `NativeApi`.
pub open spec fn boot_next(s: BootStep, ok: bool) -> BootStep {
    match s {
        BootStep::Ready => BootStep::Ready,
        BootStep::Failed(e) => BootStep::Failed(e),
        _ => if !ok {
            BootStep::Failed(
                if s is LoadCreateContext || s is LoadSwapInterval {
                    GlError::ExtensionUnavailable
                } else {
                    GlError::NativeApi
                },
            )
        } else {
            match s {
                BootStep::GetDevice => BootStep::SetPixelFormat,
                BootStep::SetPixelFormat => BootStep::CreateLegacy,
                BootStep::CreateLegacy => BootStep::LoadCreateContext,
                BootStep::LoadCreateContext => BootStep::CreateCore,
                BootStep::CreateCore => BootStep::LoadSwapInterval,
                _ => BootStep::Ready,
            }
        },
    }
}

impl BootStep {
    /// The first step.
    pub fn start() -> (r: BootStep)
        ensures
            r == BootStep::GetDevice,
    {
        BootStep::GetDevice
    }

    /// Moves on after the native work of this step, which succeeded or not.
    pub fn advance(self, ok: bool) -> (r: BootStep)
        ensures
            r == boot_next(self, ok),
    {
        match self {
            BootStep::Ready => BootStep::Ready,
            BootStep::Failed(e) => BootStep::Failed(e),
            BootStep::LoadCreateContext => if ok {
                BootStep::CreateCore
            } else {
                BootStep::Failed(GlError::ExtensionUnavailable)
            },
            BootStep::LoadSwapInterval => if ok {
                BootStep::Ready
            } else {
                BootStep::Failed(GlError::ExtensionUnavailable)
            },
            BootStep::GetDevice => if ok {
                BootStep::SetPixelFormat
            } else {
                BootStep::Failed(GlError::NativeApi)
            },
            BootStep::SetPixelFormat => if ok {
                BootStep::CreateLegacy
            } else {
                BootStep::Failed(GlError::NativeApi)
            },
            BootStep::CreateLegacy => if ok {
                BootStep::LoadCreateContext
            } else {
                BootStep::Failed(GlError::NativeApi)
            },
            BootStep::CreateCore => if ok {
                BootStep::LoadSwapInterval
            } else {
                BootStep::Failed(GlError::NativeApi)
            },
        }
    }

    /// Whether setup has ended, well or not.
    pub fn is_done(&self) -> (r: bool)
        ensures
            r <==> (*self is Ready || *self is Failed),
    {
        match self {
            BootStep::Ready | BootStep::Failed(_) => true,
            _ => false,
        }
    }
}

} // verus!

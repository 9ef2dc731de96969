//! How this backend obtains its OpenGL context and the entry points of the
//! OpenGL library.
//!
//! Nothing here calls the system. Each function looks at what the last
//! native call returned, as a number, and says which call comes next.

use vstd::prelude::*;
use crate::windows::GlContext;

verus! {

/// The pixel format asked of a window's device context.
#[derive(Debug, Clone, Copy, PartialEq, Eq, Structural)]
pub struct PixelFormat {
    pub version: u16,
    pub draw_to_window: bool,
    pub support_opengl: bool,
    pub double_buffer: bool,
    pub rgba: bool,
    pub color_bits: u8,
    pub depth_bits: u8,
    pub stencil_bits: u8,
    pub alpha_bits: u8,
}

/// The one pixel format that this backend uses.
pub open spec fn window_pixel_format() -> PixelFormat {
    PixelFormat {
        version: 1,
        draw_to_window: true,
        support_opengl: true,
        double_buffer: true,
        rgba: true,
        color_bits: 32,
        depth_bits: 24,
        stencil_bits: 8,
        alpha_bits: 8,
    }
}

/// The pixel format to choose and set before any context is created.
pub fn pixel_format() -> (f: PixelFormat)
    ensures
        f == window_pixel_format(),
{
    PixelFormat {
        version: 1,
        draw_to_window: true,
        support_opengl: true,
        double_buffer: true,
        rgba: true,
        color_bits: 32,
        depth_bits: 24,
        stencil_bits: 8,
        alpha_bits: 8,
    }
}

/// Attribute key: the major version of the context.
pub const CONTEXT_MAJOR_VERSION: i32 = 0x2091;

/// Attribute key: the minor version of the context.
pub const CONTEXT_MINOR_VERSION: i32 = 0x2092;

/// Attribute key: the profile of the context.
pub const CONTEXT_PROFILE_MASK: i32 = 0x9126;

/// Attribute value: the core profile.
pub const CONTEXT_CORE_PROFILE: i32 = 0x0001;

/// The attribute list of the context that is rendered with: key and value
/// in turn, closed by a zero. It asks for version 3.3, core profile.
pub fn context_attributes() -> (a: [i32; 7])
    ensures
        a@ == seq![
            CONTEXT_MAJOR_VERSION,
            3i32,
            CONTEXT_MINOR_VERSION,
            3i32,
            CONTEXT_PROFILE_MASK,
            CONTEXT_CORE_PROFILE,
            0i32,
        ],
{
    let a: [i32; 7] = [
        CONTEXT_MAJOR_VERSION,
        3,
        CONTEXT_MINOR_VERSION,
        3,
        CONTEXT_PROFILE_MASK,
        CONTEXT_CORE_PROFILE,
        0,
    ];
    assert(a@ =~= seq![
        CONTEXT_MAJOR_VERSION,
        3i32,
        CONTEXT_MINOR_VERSION,
        3i32,
        CONTEXT_PROFILE_MASK,
        CONTEXT_CORE_PROFILE,
        0i32,
    ]);
    a
}

/// Where the search for one entry point of the OpenGL library stands. A
/// stage that is not final names the native call whose answer is awaited.
#[derive(Debug, Clone, Copy, PartialEq, Eq, Structural)]
pub enum ProcLookup {
    /// Ask the current OpenGL context for the address of the entry point.
    AskContext,
    /// Load the system's OpenGL library.
    LoadLibrary,
    /// Ask the loaded library, by its module handle, for the address.
    AskLibrary { module: usize },
    /// Final: the entry point is at this address.
    Found { address: usize },
    /// Final: the entry point cannot be had.
    Missing,
}

impl ProcLookup {
    /// The search is over.
    pub open spec fn is_final(self) -> bool {
        self is Found || self is Missing
    }

    /// The stage is one that a search can be in: a module handle or an
    /// address that it holds is not null.
    pub open spec fn wf(self) -> bool {
        match self {
            ProcLookup::AskLibrary { module } => module != 0,
            ProcLookup::Found { address } => address != 0,
            _ => true,
        }
    }

    /// The stage that follows when the awaited call answered `answer`, null
    /// being 0. The context is asked first, and the library only where the
    /// context does not know the entry point.
    pub open spec fn next(self, answer: usize) -> ProcLookup {
        match self {
            ProcLookup::AskContext => if answer != 0 {
                ProcLookup::Found { address: answer }
            } else {
                ProcLookup::LoadLibrary
            },
            ProcLookup::LoadLibrary => if answer != 0 {
                ProcLookup::AskLibrary { module: answer }
            } else {
                ProcLookup::Missing
            },
            ProcLookup::AskLibrary { module } => if answer != 0 {
                ProcLookup::Found { address: answer }
            } else {
                ProcLookup::Missing
            },
            ProcLookup::Found { address } => self,
            ProcLookup::Missing => self,
        }
    }

    /// The number of native calls that a search at this stage can still
    /// need.
    pub open spec fn calls_left(self) -> nat {
        match self {
            ProcLookup::AskContext => 3,
            ProcLookup::LoadLibrary => 2,
            ProcLookup::AskLibrary { module } => 1,
            ProcLookup::Found { address } => 0,
            ProcLookup::Missing => 0,
        }
    }
}

/// Advances the search for an entry point by the answer of the call that
/// the stage names. A final stage stays as it is.
pub fn load_wgl_function(stage: ProcLookup, answer: usize) -> (next: ProcLookup)
    ensures
        next == stage.next(answer),
{
    match stage {
        ProcLookup::AskContext => if answer != 0 {
            ProcLookup::Found { address: answer }
        } else {
            ProcLookup::LoadLibrary
        },
        ProcLookup::LoadLibrary => if answer != 0 {
            ProcLookup::AskLibrary { module: answer }
        } else {
            ProcLookup::Missing
        },
        ProcLookup::AskLibrary { module } => if answer != 0 {
            ProcLookup::Found { address: answer }
        } else {
            ProcLookup::Missing
        },
        ProcLookup::Found { address } => stage,
        ProcLookup::Missing => stage,
    }
}

/// The address to hand to the renderer for a search that stands at `stage`.
pub open spec fn renderer_address(stage: ProcLookup) -> usize {
    match stage {
        ProcLookup::Found { address } => address,
        _ => 0,
    }
}

/// The address that the renderer is given for an entry point: the one
/// found, and null where the search has not found one.
pub fn load_skia_gl_function(stage: ProcLookup) -> (address: usize)
    ensures
        address == renderer_address(stage),
{
    match stage {
        ProcLookup::Found { address } => address,
        _ => 0,
    }
}

/// Every step of a search brings it nearer to its end and keeps null out
/// of what it holds; a search is over after three answers at most.
pub proof fn lemma_lookup_progress(stage: ProcLookup, answer: usize)
    requires
        stage.wf(),
    ensures
        stage.next(answer).wf(),
        !stage.is_final() ==> stage.next(answer).calls_left() < stage.calls_left(),
        stage.is_final() <==> stage.calls_left() == 0,
        stage.is_final() ==> stage.next(answer) == stage,
{
}

/// An entry point that the context knows is taken from it, and the library
/// is not loaded.
pub proof fn lemma_lookup_prefers_context(address: usize)
    requires
        address != 0,
    ensures
        ProcLookup::AskContext.next(address) == (ProcLookup::Found { address }),
{
}

/// An entry point that the context does not know is the one that the
/// library gives, and is missing where the library cannot be loaded or does
/// not know it either.
pub proof fn lemma_lookup_falls_back(module: usize, address: usize)
    ensures
        ProcLookup::AskContext.next(0).next(module).next(address) == if module != 0 && address
            != 0 {
            ProcLookup::Found { address }
        } else {
            ProcLookup::Missing
        },
{
}

/// Where the creation of a window's OpenGL context stands. A stage that is
/// not final names the native work whose answer is awaited.
#[derive(Debug, Clone, Copy, PartialEq, Eq, Structural)]
pub enum GlSetup {
    /// Set the pixel format on the device context, create a legacy context
    /// on it and make that current. Awaited: the legacy context.
    CreateLegacy { hdc: usize },
    /// Look up the entry point that creates contexts from attributes, with
    /// the legacy context current. Awaited: its address.
    ResolveEntry { hdc: usize, legacy: usize },
    /// Call the entry point with the attribute list. Awaited: the context
    /// that will be rendered with.
    CreateModern { hdc: usize, legacy: usize, entry: usize },
    /// Make no context current, delete the legacy context and make the
    /// modern one current. The answer is not looked at.
    Finish { hdc: usize, legacy: usize, modern: usize },
    /// Make no context current and delete the legacy context. The answer is
    /// not looked at.
    Abandon { legacy: usize },
    /// Final: the context is current on the device context.
    Ready { context: GlContext },
    /// Final: no context could be created.
    Failed,
}

impl GlSetup {
    /// The creation is over.
    pub open spec fn is_final(self) -> bool {
        self is Ready || self is Failed
    }

    /// The legacy context that exists at this stage and has not been
    /// deleted.
    pub open spec fn legacy_alive(self) -> Option<usize> {
        match self {
            GlSetup::ResolveEntry { hdc, legacy } => Some(legacy),
            GlSetup::CreateModern { hdc, legacy, entry } => Some(legacy),
            GlSetup::Finish { hdc, legacy, modern } => Some(legacy),
            GlSetup::Abandon { legacy } => Some(legacy),
            _ => None,
        }
    }

    /// The stage that follows when the awaited work answered `answer`, null
    /// being 0.
    pub open spec fn next(self, answer: usize) -> GlSetup {
        match self {
            GlSetup::CreateLegacy { hdc } => if answer != 0 {
                GlSetup::ResolveEntry { hdc, legacy: answer }
            } else {
                GlSetup::Failed
            },
            GlSetup::ResolveEntry { hdc, legacy } => if answer != 0 {
                GlSetup::CreateModern { hdc, legacy, entry: answer }
            } else {
                GlSetup::Abandon { legacy }
            },
            GlSetup::CreateModern { hdc, legacy, entry } => if answer != 0 {
                GlSetup::Finish { hdc, legacy, modern: answer }
            } else {
                GlSetup::Abandon { legacy }
            },
            GlSetup::Finish { hdc, legacy, modern } => GlSetup::Ready {
                context: GlContext { hdc, hglrc: modern },
            },
            GlSetup::Abandon { legacy } => GlSetup::Failed,
            GlSetup::Ready { context } => self,
            GlSetup::Failed => self,
        }
    }

    /// The number of stages that can still follow this one.
    pub open spec fn stages_left(self) -> nat {
        match self {
            GlSetup::CreateLegacy { hdc } => 4,
            GlSetup::ResolveEntry { hdc, legacy } => 3,
            GlSetup::CreateModern { hdc, legacy, entry } => 2,
            GlSetup::Finish { hdc, legacy, modern } => 1,
            GlSetup::Abandon { legacy } => 1,
            GlSetup::Ready { context } => 0,
            GlSetup::Failed => 0,
        }
    }
}

/// Advances the creation of a window's OpenGL context by the answer of the
/// work that the stage names. It begins at `CreateLegacy`; a final stage
/// stays as it is.
pub fn create_opengl_context(stage: GlSetup, answer: usize) -> (next: GlSetup)
    ensures
        next == stage.next(answer),
{
    match stage {
        GlSetup::CreateLegacy { hdc } => if answer != 0 {
            GlSetup::ResolveEntry { hdc, legacy: answer }
        } else {
            GlSetup::Failed
        },
        GlSetup::ResolveEntry { hdc, legacy } => if answer != 0 {
            GlSetup::CreateModern { hdc, legacy, entry: answer }
        } else {
            GlSetup::Abandon { legacy }
        },
        GlSetup::CreateModern { hdc, legacy, entry } => if answer != 0 {
            GlSetup::Finish { hdc, legacy, modern: answer }
        } else {
            GlSetup::Abandon { legacy }
        },
        GlSetup::Finish { hdc, legacy, modern } => GlSetup::Ready {
            context: GlContext { hdc, hglrc: modern },
        },
        GlSetup::Abandon { legacy } => GlSetup::Failed,
        GlSetup::Ready { context } => stage,
        GlSetup::Failed => stage,
    }
}

/// Every step brings the creation nearer to its end. A legacy context that
/// exists is carried on unchanged until the step that deletes it, and no
/// final stage is reached while one exists.
pub proof fn lemma_setup_progress(stage: GlSetup, answer: usize)
    ensures
        !stage.is_final() ==> stage.next(answer).stages_left() < stage.stages_left(),
        stage.is_final() <==> stage.stages_left() == 0,
        stage.is_final() ==> stage.next(answer) == stage && stage.legacy_alive() is None,
        stage.legacy_alive() is Some && !(stage is Finish) && !(stage is Abandon)
            ==> stage.next(answer).legacy_alive() == stage.legacy_alive(),
        stage.next(answer).is_final() && !stage.is_final() ==> stage is Finish || stage is Abandon
            || (stage is CreateLegacy && answer == 0),
{
}

/// Where every native call succeeds, the creation ends after four answers
/// with the modern context on the window's device context, the legacy
/// context having been deleted in the step before.
pub proof fn lemma_setup_succeeds(hdc: usize, legacy: usize, entry: usize, modern: usize, last: usize)
    requires
        legacy != 0,
        entry != 0,
        modern != 0,
    ensures
        (GlSetup::CreateLegacy { hdc }).next(legacy).next(entry).next(modern) == (GlSetup::Finish {
            hdc,
            legacy,
            modern,
        }),
        (GlSetup::CreateLegacy { hdc }).next(legacy).next(entry).next(modern).next(last) == (
        GlSetup::Ready { context: GlContext { hdc, hglrc: modern } }),
{
}

} // verus!

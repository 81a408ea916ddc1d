//! Choosing the renderer behind a window by its name.

use vstd::prelude::*;

verus! {

/// The renderers that can stand behind a window.
#[derive(Clone, Copy, Debug, PartialEq, Eq, Structural)]
pub enum RendererKind {
    FemtoVG,
    Skia,
}

/// The renderer that is used where none is asked for, or an unknown one.
pub open spec fn default_renderer() -> RendererKind {
    RendererKind::FemtoVG
}

/// The renderer that a name stands for, if it is a renderer's name.
pub open spec fn renderer_named(name: Seq<char>) -> Option<RendererKind> {
    if name == "gl"@ || name == "femtovg"@ {
        Some(RendererKind::FemtoVG)
    } else if name == "skia"@ {
        Some(RendererKind::Skia)
    } else {
        None
    }
}

/// The backend: which renderer makes the windows, and whether that is a
/// fallback for a name that no renderer has.
pub struct Backend {
    renderer: RendererKind,
    fell_back: bool,
}

impl Backend {
    pub closed spec fn spec_renderer(&self) -> RendererKind {
        self.renderer
    }

    pub closed spec fn spec_fell_back(&self) -> bool {
        self.fell_back
    }

    /// Chooses the renderer. Without a name it is the default one. An unknown
    /// name is no error: the default renderer is used, and the backend
    /// remembers that it fell back, so that the caller can warn.
    pub fn new(renderer_name: Option<&str>) -> (backend: Backend)
        ensures
            backend.spec_renderer() == (match renderer_name {
                Some(name) => match renderer_named(name@) {
                    Some(kind) => kind,
                    None => default_renderer(),
                },
                None => default_renderer(),
            }),
            backend.spec_fell_back() == (renderer_name matches Some(name) && renderer_named(
                name@,
            ).is_none()),
    {
        match renderer_name {
            None => Backend { renderer: RendererKind::FemtoVG, fell_back: false },
            Some(name) => {
                let asked: String = name.to_owned();
                let gl: String = "gl".to_owned();
                let femtovg: String = "femtovg".to_owned();
                let skia: String = "skia".to_owned();
                if asked == gl || asked == femtovg {
                    Backend { renderer: RendererKind::FemtoVG, fell_back: false }
                } else if asked == skia {
                    Backend { renderer: RendererKind::Skia, fell_back: false }
                } else {
                    Backend { renderer: RendererKind::FemtoVG, fell_back: true }
                }
            },
        }
    }

    /// The renderer that makes the windows.
    pub fn renderer(&self) -> (kind: RendererKind)
        ensures
            kind == self.spec_renderer(),
    {
        self.renderer
    }

    /// Whether the name that was asked for is no renderer's name.
    pub fn fell_back(&self) -> (yes: bool)
        ensures
            yes == self.spec_fell_back(),
    {
        self.fell_back
    }
}

} // verus!

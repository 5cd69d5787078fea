use vstd::prelude::*;

verus! {

/// The kinds of failure that the harness reports.
#[derive(Debug, Clone, Copy, PartialEq, Eq, Structural)]
pub enum OglError {
    WaylandError,
    SDLError,
    EglError,
    GlError,
    InvalidData,
    Unexpected,
}

/// The human-readable text of each error kind.
pub open spec fn error_message(e: OglError) -> Seq<char> {
    match e {
        OglError::WaylandError => "Wayland error"@,
        OglError::SDLError => "SDL error"@,
        OglError::EglError => "EGL error"@,
        OglError::GlError => "Opengl error"@,
        OglError::InvalidData => "Invalid error"@,
        OglError::Unexpected => "Unexpected error"@,
    }
}

impl OglError {
    /// The text shown for this error.
    pub fn message(&self) -> (r: &'static str)
        ensures
            r@ == error_message(*self),
    {
        match self {
            OglError::WaylandError => "Wayland error",
            OglError::SDLError => "SDL error",
            OglError::EglError => "EGL error",
            OglError::GlError => "Opengl error",
            OglError::InvalidData => "Invalid error",
            OglError::Unexpected => "Unexpected error",
        }
    }
}

} // verus!

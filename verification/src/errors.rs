//! The error taxonomy of the drawing layer.
//!
//! Resource-creation failures, draw failures, present failures and I/O
//! failures are distinct variants; the text a failing collaborator
//! reported travels along as a plain message, and the shader include
//! parser carries the offending line number.

use vstd::prelude::*;

verus! {

/// Every failure the drawing layer can surface. Nothing is swallowed: a
/// fallible operation returns one of these or is documented infallible.
#[derive(Debug, PartialEq, Eq)]
pub enum ProcessingErr {
    /// A texture could not be created.
    TextureNoCreate(String),
    /// A shader program failed to compile or link.
    ShaderCompileFail(String),
    /// A vertex buffer could not be created.
    VBNoCreate(String),
    /// An index buffer could not be created.
    IBNoCreate(String),
    /// A draw call against the visible surface was rejected.
    DrawFailed(String),
    /// The back buffer could not be presented.
    SwapFailed(String),
    /// A framebuffer could not be validated.
    FBNoCreate(String),
    /// A draw call against the offscreen framebuffer was rejected.
    FBDrawFailed(String),
    /// The named fragment-shader file was not found.
    ShaderNotFound(String),
    /// A file named by an include line was not found.
    IncludeNotFound(String),
    /// The assembled shader file could not be created.
    FullShaderNoCreate(String),
    /// The assembled shader file could not be written.
    FullShaderNoWrite(String),
    /// An image file was missing or could not be decoded.
    ImageNotFound(String),
    /// An image file could not be encoded or written.
    ImageNotSaved(String),
    /// An include file could not be read.
    ErrorReadingInclude(String),
    /// A line of a shader file could not be read; carries the line number.
    ErrorReadingShader(usize, String),
    /// The display window could not be created.
    DisplayNoCreate(String),
    /// A rendering context could not be created.
    ContextNoCreate(String),
    /// The cursor state could not be changed.
    CursorStateNotSet(String),
    /// A headless renderer could not be built.
    HeadlessRendererNoBuild(String),
    /// The headless rendering context failed.
    HeadlessContextError(String),
    /// A headless context could not be created.
    HeadlessNoCreate(String),
    /// The windowing library could not create a window.
    GLFWWindowNoCreate,
    /// The windowing library was initialized twice.
    GLFWAlreadyInited,
    /// An internal windowing-library failure.
    GLFWInternal,
}

/// An include line of a fragment shader that could not be parsed, with a
/// human-readable account of what was wrong.
#[derive(Debug, PartialEq, Eq)]
pub struct ErrorReadingIncludeLineInShader {
    /// A human-readable account of what was wrong.
    pub details: String,
}

impl ErrorReadingIncludeLineInShader {
    /// Record the given account of the malformed include line.
    pub fn new(msg: &str) -> (r: Self)
        ensures
            r.details@ == msg@,
    {
        ErrorReadingIncludeLineInShader { details: msg.to_owned() }
    }

    /// The recorded account of what was wrong.
    pub fn description(&self) -> (r: &str)
        ensures
            r@ == self.details@,
    {
        self.details.as_str()
    }
}

} // verus!

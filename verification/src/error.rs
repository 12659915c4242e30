use crate::backend::ShaderStage;
use vstd::prelude::*;

verus! {

/// Why a list of attribute descriptors is not a layout of the vertex record.
#[derive(Clone, Copy, Debug, PartialEq, Eq, Structural)]
pub enum LayoutError {
    /// The descriptor at `position` does not carry `position` as its index.
    IndexGap { position: usize },
    /// The descriptor at `position` does not start where its predecessors end.
    BadOffset { position: usize },
    /// The descriptors do not cover the vertex record exactly.
    SizeMismatch { record_size: usize },
}

/// Everything that an operation of this layer can report to its caller.
#[derive(Clone, Debug, PartialEq, Eq)]
pub enum GraphicsError {
    /// A buffer slot outside of the pool was addressed.
    SlotOutOfRange { slot: usize, capacity: usize },
    /// A slot without vertices and without indices was drawn.
    EmptyDraw { slot: usize },
    /// A shader source file could not be read.
    SourceReadError { path: String },
    /// The backend rejected the source of one shader stage.
    CompileError { stage: ShaderStage, log: String },
    /// The backend could not link the stages into a program.
    LinkError { log: String },
    /// Not every shader identifier came with a program, or not in order.
    IncompleteShaderSet,
    /// Uniforms were sent while no shader program was bound.
    NoBoundShaderError,
    /// The bound program has no uniform of this name.
    UnknownUniform { name: String },
    /// The texture registry has no texture of this name.
    TextureNotFound { name: String },
    /// The texture registry already has a texture of this name.
    DuplicateName { name: String },
    /// A texture was filled with data of the wrong length.
    SizeMismatch { expected: u128, actual: usize },
    /// A clear was requested that clears neither colour nor depth.
    NoOpClear,
    /// The command queue has no object handle left to hand out.
    OutOfHandles,
}

/// What a [`GraphicsError`] says, with its texts as sequences of characters.
pub ghost enum GraphicsErrorView {
    SlotOutOfRange { slot: usize, capacity: usize },
    EmptyDraw { slot: usize },
    SourceReadError { path: Seq<char> },
    CompileError { stage: ShaderStage, log: Seq<char> },
    LinkError { log: Seq<char> },
    IncompleteShaderSet,
    NoBoundShaderError,
    UnknownUniform { name: Seq<char> },
    TextureNotFound { name: Seq<char> },
    DuplicateName { name: Seq<char> },
    SizeMismatch { expected: u128, actual: usize },
    NoOpClear,
    OutOfHandles,
}

impl View for GraphicsError {
    type V = GraphicsErrorView;

    open spec fn view(&self) -> GraphicsErrorView {
        match self {
            GraphicsError::SlotOutOfRange { slot, capacity } => GraphicsErrorView::SlotOutOfRange {
                slot: *slot,
                capacity: *capacity,
            },
            GraphicsError::EmptyDraw { slot } => GraphicsErrorView::EmptyDraw { slot: *slot },
            GraphicsError::SourceReadError { path } => GraphicsErrorView::SourceReadError {
                path: path@,
            },
            GraphicsError::CompileError { stage, log } => GraphicsErrorView::CompileError {
                stage: *stage,
                log: log@,
            },
            GraphicsError::LinkError { log } => GraphicsErrorView::LinkError { log: log@ },
            GraphicsError::IncompleteShaderSet => GraphicsErrorView::IncompleteShaderSet,
            GraphicsError::NoBoundShaderError => GraphicsErrorView::NoBoundShaderError,
            GraphicsError::UnknownUniform { name } => GraphicsErrorView::UnknownUniform {
                name: name@,
            },
            GraphicsError::TextureNotFound { name } => GraphicsErrorView::TextureNotFound {
                name: name@,
            },
            GraphicsError::DuplicateName { name } => GraphicsErrorView::DuplicateName {
                name: name@,
            },
            GraphicsError::SizeMismatch { expected, actual } => GraphicsErrorView::SizeMismatch {
                expected: *expected,
                actual: *actual,
            },
            GraphicsError::NoOpClear => GraphicsErrorView::NoOpClear,
            GraphicsError::OutOfHandles => GraphicsErrorView::OutOfHandles,
        }
    }
}

/// What each of `errors` says, in order.
pub open spec fn error_views(errors: Seq<GraphicsError>) -> Seq<GraphicsErrorView> {
    Seq::new(errors.len(), |i: int| errors[i]@)
}

} // verus!

use vstd::prelude::*;

verus! {

/// Severity of a diagnostic title or of one of its footer annotations.
#[derive(Clone, Copy, Debug)]
pub enum Level {
    Error,
    Warn,
    Info,
    Note,
    Help,
}

/// The rendering engine's annotation-kind vocabulary, held as a plain value
/// of this crate so that contracts can speak of it.
#[derive(Clone, Copy, Debug, PartialEq, Eq, Structural)]
pub enum AnnotationKind {
    Error,
    Warning,
    Info,
    Note,
    Help,
}

impl Level {
    /// The engine annotation kind that this level maps to: one kind per
    /// level, defined for every level.
    pub open spec fn spec_annotation_kind(self) -> AnnotationKind {
        match self {
            Level::Error => AnnotationKind::Error,
            Level::Warn => AnnotationKind::Warning,
            Level::Info => AnnotationKind::Info,
            Level::Note => AnnotationKind::Note,
            Level::Help => AnnotationKind::Help,
        }
    }

    /// Map this level to the engine's annotation kind.
    pub fn annotation_kind(self) -> (k: AnnotationKind)
        ensures
            k == self.spec_annotation_kind(),
    {
        match self {
            Level::Error => AnnotationKind::Error,
            Level::Warn => AnnotationKind::Warning,
            Level::Info => AnnotationKind::Info,
            Level::Note => AnnotationKind::Note,
            Level::Help => AnnotationKind::Help,
        }
    }
}

} // verus!

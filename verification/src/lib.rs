pub mod diagnostic;
pub mod level;
pub mod line_fetch;
pub mod render;
pub mod text;

pub use diagnostic::Diagnostic;
pub use diagnostic::Slice;
pub use level::AnnotationKind;
pub use level::Level;
pub use line_fetch::line_at;
pub use render::Emission;

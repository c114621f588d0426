//! A line-oriented logging backend: it filters records by severity, gives each
//! accepted record a styled severity label and an optional source location, and
//! says on which output stream the finished line belongs.

pub mod facade;
pub mod line;
pub mod logger;
pub mod record;
pub mod severity;
pub mod text;

pub use facade::{init, Facade, Registration, RegistrationError};
pub use line::{BuildMode, Color, Label, Line, Stream, Style};
pub use logger::Logger;
pub use record::Record;
pub use severity::Severity;

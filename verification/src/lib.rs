//! Terminal styling for log output: a portable colour model with a textual
//! syntax, a style builder, and styled values that always leave the sink
//! reset after they have been written.

pub mod backend;
pub mod color;
pub mod formatter;
pub mod sink;
pub mod style;
pub mod syntax;

pub use backend::{ColorChoice, SinkKind, SyntaxError, Target, TermColor};
pub use color::{Color, ParseColorError};
pub use formatter::{Formatter, Level};
pub use sink::{FormatError, Sink, SinkWriter, StyleOp, WriteStyle};
pub use style::{settle, Style, StyleSpec, StyledValue};

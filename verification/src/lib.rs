//! Monthly TODO files: the days of a month, what is asked of the template
//! engine for each of them, and the markdown document that the rendered
//! blocks make up.

pub mod calendar;
pub mod cli;
pub mod document;
pub mod text;
pub mod todos;

pub use crate::calendar::CalendarDate;
pub use crate::cli::{parse_args, Args, UsageError};
pub use crate::document::{create_todos_file, RenderError, RenderedDocument, TodosFile};
pub use crate::todos::Todos;

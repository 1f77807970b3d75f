//! Decision logic of an editor-in-a-pipeline tool: text is staged in a
//! temporary file, an interactive editor runs on it, and the edited text is
//! handed on. This library holds every rule of that sequence; the caller
//! performs the input and output.

pub mod args;
pub mod pipeline;
pub mod text;
pub mod trace;

//! Snippet: a local AI companion for the text and screenshots a user is
//! working with. This library holds its logic: prompt construction, the
//! clipboard-based selection capture, settings validation, the decisions of
//! the Ollama provider, and the bookkeeping of running generations.

pub mod text;
pub mod prompt;
pub mod selection;
pub mod settings;
pub mod provider;
pub mod cancellation;
pub mod generation;
pub mod screen;
pub mod popup;

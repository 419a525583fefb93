//! Decision core of a language-lesson solver: a translation dictionary with
//! memoized language detection, an exercise classifier, and one solver per
//! exercise kind. Nothing here performs I/O: the caller scrapes the page, asks
//! the translation service and acts on the page, and the functions here decide.

pub mod bindings;
pub mod classifier;
pub mod dictionary;
pub mod language;
pub mod lessons;
pub mod matching;
pub mod session;
pub mod settings;
pub mod solvers;
pub mod text;

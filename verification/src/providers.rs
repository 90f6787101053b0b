//! Provider-facing helpers that are pure computation: everything that
//! speaks a concrete wire protocol lives outside the library and hands
//! plain values in and out.

pub mod ollama;

//! Code generation for statically-defined tracing probes in the SystemTap SDT
//! (version 3) record format.
//!
//! A provider description, read from a D provider script or given as a value,
//! is compiled into a module with one macro per probe. Each macro checks the
//! probe's semaphore and, only while a tracer is attached, evaluates and
//! marshals the probe's arguments and hits the trap site that the tracer
//! finds through an ELF note.

pub mod compile;
pub mod dsource;
pub mod grammar;
pub mod lexicon;
pub mod marshal;
pub mod model;
pub mod parse;
pub mod presence;
pub mod record;
pub mod roundtrip;
pub mod runtime;
pub mod sample;
pub mod synth;
pub mod text;
pub mod validate;

pub use compile::{compile_provider_from_definition, compile_provider_source, register_probes};
pub use model::{BitWidth, CompileProvidersConfig, DataType, Error, Probe, Provider};

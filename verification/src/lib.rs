//! Generation of the sources that let a Rust program fire LTTng-UST
//! tracepoints.
//!
//! A program describes its tracepoints as a schema: a [`Provider`] holds
//! event classes, an [`EventClass`] holds typed fields and the events
//! instantiated from it. From one schema the generators write three texts
//! that agree with each other: the native tracepoint declarations, a plain C
//! interface with one function for each event, and a Rust module with one
//! wrapper function for each event.
//!
//! ```ignore
//! use lttng_ust_generate::generator::{Action, Outcome};
//! use lttng_ust_generate::{CIntegerType, CTFType, Generator, Provider};
//!
//! let mut provider = Provider::new("my_first_rust_provider");
//! provider.create_class("my_first_class")
//!     .add_field("my_integer_field", CTFType::Integer(CIntegerType::I32))
//!     .add_field("my_string_field", CTFType::SequenceText)
//!     .instantiate("my_first_tracepoint");
//!
//! let generator = Generator::new("target/out")
//!     .generated_lib_name("tracepoint_library_link_name")
//!     .register_provider(provider);
//! let mut step = generator.start();
//! while !matches!(step.action, Action::Finish | Action::Abort { .. }) {
//!     // Create the directory, write the file, run the compiler or the
//!     // binding generator, as `step.action` asks, then go on.
//!     step = generator.step(step.stage, Outcome::Succeeded);
//! }
//! ```
//!
//! The order of the `add_field` calls is the order of the arguments of the
//! generated tracepoint function: the program that includes the generated
//! module calls
//! `my_first_rust_provider::my_first_tracepoint(42, "the meaning of life")`.
//!
//! The library writes text and nothing else. It does not touch the file
//! system, and it runs neither the C compiler nor the binding generator:
//! the [`Generator`] says which step is due and what it needs, and the
//! caller performs it.
//!
//! Names are used as they are given. Nothing checks that the names of
//! providers, classes, events and fields are unique where they have to be,
//! or that they are valid identifiers; a clash shows when the generated
//! sources are compiled.

pub mod generator;
pub mod logging;
pub mod schema;
pub mod signature;
pub mod text;
pub mod types;

pub use generator::Generator;
pub use schema::{EventClass, EventInstance, Field, Provider};
pub use types::{CFloatType, CIntegerType, CTFType, LogLevel};

//! Staged construction of arithmetic circuits.
//!
//! A computation is recorded into a circuit builder twice: once at key
//! generation, where the shape of the circuit is fixed, and once per proof,
//! where the recorded shape (the pinning) is adopted verbatim and only the
//! witness values differ.

pub mod builder;
pub mod error;
pub mod params;
pub mod pipeline;
pub mod scaffold;
pub mod stage;
pub mod transport;
pub mod tuning;

pub use builder::{BuilderState, CircuitBuilder, PublicCell};
pub use error::ScaffoldError;
pub use params::{check_columns, check_shape, row_capacity, CircuitParams, ParamsView};
pub use pipeline::{prepare_prove, run_prove, DEFAULT_DEGREE};
pub use scaffold::{configure_builder, finish_builder, CircuitScaffold, Pinning};
pub use stage::StageMode;
pub use transport::{encode_document, encode_snark, TransportError};
pub use tuning::{parse_usize, Tuning, DEFAULT_MINIMUM_ROWS};

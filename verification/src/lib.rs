//! Document-generation pipeline core.
//!
//! The library normalizes conversion requests (markdown, HTML, or
//! template+data) into rendering plans: it preprocesses content, composes a
//! layered stylesheet, resolves auxiliary header/footer inputs, validates
//! stored-artifact references, and builds the exact argument lists for the
//! external rendering and post-processing tools. Every decision the pipeline
//! makes is stated in a contract and verified; the surrounding binary performs
//! the file and process I/O that the plans call for.

pub mod args;
pub mod aux;
pub mod censor;
pub mod external;
pub mod paths;
pub mod pipeline;
pub mod stylesheet;
pub mod text;
pub mod types;

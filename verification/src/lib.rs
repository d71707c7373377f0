//! Label rendering pipeline: turns a label given as markup or as a raster
//! image into a page-sized PDF by way of external renderer engines, and routes
//! the result to a printer queue or to the default viewer.
//!
//! The library holds every decision of that pipeline and none of its effects:
//! it converts units, decodes the input, builds each command line, classifies
//! what a process reported and says what to do next. A driver performs the
//! actions (files, processes, the viewer) and reports back what happened.

pub mod adapter;
pub mod command;
pub mod content;
pub mod dispatch;
pub mod error;
pub mod label;
pub mod laws;
pub mod pipeline;
pub mod printers;
pub mod text;
pub mod units;

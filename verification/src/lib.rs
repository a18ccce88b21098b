//! Verified core of a photo editor's back end: which files it opens, HEIF
//! container sniffing and decode limits, preview generations, the
//! adjusted-thumbnail queue, and admission of work to the GPU.
pub mod converted_input;
pub mod formats;
pub mod gpu;
mod gpu_scheduler;
pub mod heif;
pub mod keyed;
pub mod paths;
pub mod preview;
pub mod records;
pub mod sync;
pub mod thumbnail_manager;
pub mod thumbnail_queue;

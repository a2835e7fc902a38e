//! Bookkeeping for the two GPU stages: the off-screen mesh renderer and the
//! glyph pipeline that reduces its image to cells.
//!
//! Nothing here talks to a GPU. Each type holds what its stage has been told
//! so far and answers, for each request, what has to be done on the device:
//! what to allocate anew, what to upload, which passes to record.

pub mod headless;
pub mod pipeline;

use vstd::prelude::*;

pub mod collection;
pub mod details;
pub mod discovery;
pub mod extension;
pub mod laws;
pub mod library;
pub mod lyrics;
pub mod model;
pub mod navigation;
pub mod playback;
pub mod queue;
pub mod random;
pub mod remote;
pub mod shortcuts;
pub mod stream;
pub mod text;
pub mod transport;

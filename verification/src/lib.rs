//! A verified model of a small fetch-and-render client: data transfer
//! objects mirroring a launch-listing API, a projection of responses into
//! rendered card labels, and a reactive fetch cell that tracks pending,
//! ready and failed states with request tokens so that the newest request
//! always wins.

pub mod cats;
pub mod cell;
pub mod launch_types;
pub mod launches;
pub mod text;

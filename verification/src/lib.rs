//! Planning layer for driving an external media transcoder, prober and
//! video-site downloader.  Every operation is turned into a `CommandPlan`
//! (program name, ordered argument list, expected output path) by pure,
//! verified code; running the plan as a child process is left to the caller.

pub mod calc;
pub mod download;
pub mod jsonio;
pub mod media;
pub mod noise;
pub mod paths;
pub mod plan;
pub mod probe;
pub mod text;
pub mod transcode;

//! Verified decision logic of a Node.js binding to the FFmpeg libraries.
//!
//! The FFmpeg and JavaScript calls themselves live outside this library; what
//! stands here is every rule that decides what to do with their results:
//! presentation-time correction, stream selection, channel-layout choice,
//! resampler configuration and the decode and resample step machines.

pub mod consts;
pub mod pts;
pub mod duration;
pub mod stream;
pub mod channel;
pub mod resample;
pub mod subtitle;
pub mod decode;

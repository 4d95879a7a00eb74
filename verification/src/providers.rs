//! Concrete providers, one per watched metric: a polling provider for the
//! local clock and a notification provider for the audio volume.

pub mod time;
pub mod volume;

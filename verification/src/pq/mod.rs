//! The post-quantum session: two Combiner send groups, one per direction, each a
//! classical MLS group paired with an ML-KEM one.

pub mod archive;
pub mod codec;
pub mod conduct;
pub mod durability;
pub mod error;
pub mod establish;
pub mod exchange;
pub mod founding;
pub mod frames;
pub mod incoming;
pub mod key_packages;
pub mod laws;
pub mod messaging;
pub mod persist;
pub mod pq_ops;
pub mod prepare;
pub mod providers;
pub mod reception;
pub mod refusals;
pub mod retention;
pub mod scope;
pub mod sealing;
pub mod side_band;
pub mod state;
pub mod windows;

pub mod bytes;
pub mod pq;
pub mod two_mls;
pub mod types;

pub mod backoff;
pub mod config;
pub mod grading;
pub mod health;
pub mod identity;
pub mod random;
pub mod seed;
pub mod supervisor;
pub mod stashes;
pub mod storage_key;
pub mod text;

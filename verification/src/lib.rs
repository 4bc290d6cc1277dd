//! A gateway to two text files, `config.json` and `watchlist.json`, kept in one
//! data directory. The library decides which directory that is, what is asked
//! of the disk and in which order, and what each answer of the disk means; the
//! host touches the disk.

pub mod disk;
pub mod error;
pub mod gateway;
pub mod paths;

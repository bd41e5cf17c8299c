//! What the command-line tools compute: the codec benchmark, the decoder
//! fuzzer, the in-process load generator, and the demo client and server
//! front ends.
pub mod bench;
pub mod cli;
pub mod fuzz;
pub mod loadtest;

//! What the network front ends need from the library.

pub mod http;

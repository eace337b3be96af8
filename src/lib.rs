//! GOST R 34.11-2012 ("Streebog") hashing and GOST R 34.10-2012 signatures.
pub mod block;
pub mod curve;
pub mod hex;
pub mod laws;
pub mod natural;
pub mod point;
pub mod signature;
pub mod streebog;
pub mod tables;

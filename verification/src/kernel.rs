//! Operation-family kernels.
pub mod wide;
pub mod sqrt;
pub mod tables;
pub mod scale;
pub mod exp2;
pub mod log2;
pub mod pow;
pub mod compound;

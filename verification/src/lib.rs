//! A seedable, reproducible pseudo-random number generator of the PCG
//! family (XSH-RR output permutation over a 64-bit linear congruential
//! state), together with a facade that exposes a single default stream.

pub mod facade;
pub mod pcg;

pub use facade::Rand;
pub use pcg::GenView;
pub use pcg::PcgXshRr;

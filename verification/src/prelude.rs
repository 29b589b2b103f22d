//! The handful of generator items most callers want in scope.

pub use crate::Prng64;
pub use crate::split_mix::SplitMix64;
pub use crate::split_mix::split_mix;
pub use crate::xorshiro::Xorshiro64;
pub use crate::xorshiro::xorshiro;

pub mod dice;
pub mod prng;

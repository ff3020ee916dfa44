pub mod rngs;

//! Small numeric utilities: zero/one/sign detection, rounding division
//! helpers, and an unreduced rational scaling factor (`Ratio`).

mod idents;
mod power;
mod ratio;
mod rounding;
mod sign;

pub use idents::{zero, IsMinusOne, IsOne, IsZero, MinusOne, One, OptionExt, Zero};
pub use power::{cb, log2, sq, sqrt, Log, Sqrt};
pub use ratio::{lemma_ceil_floor_agree, lemma_rcp_involutive, Ratio};
pub use rounding::{ceil_div, div_ceil, div_floor, floor_div, idiv_ceil, idiv_floor, idiv_rem};
pub use rounding::{lemma_ceil_div_ge_floor_div, lemma_ceil_div_via_floor_div, trunc_div, trunc_rem};
pub use sign::{abs, sign, Signed};

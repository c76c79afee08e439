//! Tin-pratyaya rules of the Ashtadhyayi (3.4.77 to the end of 3.4), over a
//! verified model of a prakriya (a derivation in progress).

pub mod args;
pub mod tag;
pub mod text;
pub mod term;
pub mod prakriya;
pub mod it_samjna;
pub mod operators;
pub mod misc;
pub mod tin_pratyaya;
pub mod tin_laws;

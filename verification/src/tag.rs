//! Tags on terms and on the prakriya as a whole.

use vstd::prelude::*;

verus! {

/// A samjna or marker that a term can carry.
#[allow(non_camel_case_types)]
#[derive(Clone, Copy, Debug, PartialEq, Eq, Structural)]
pub enum Tag {
    Pratyaya,
    Vibhakti,
    Tin,
    Dhatu,
    Agama,
    Adesha,
    Abhyasta,
    Taddhita,
    Prathama,
    Madhyama,
    Uttama,
    Ekavacana,
    Dvivacana,
    Bahuvacana,
    Parasmaipada,
    Atmanepada,
    /// Has k as an it letter.
    kit,
    /// Has N (the velar nasal) as an it letter.
    Nit,
    /// Has c as an it letter.
    cit,
    /// Has j as an it letter.
    jit,
    /// Has Y as an it letter.
    Yit,
    /// Has w as an it letter.
    wit,
    /// Has q as an it letter.
    qit,
    /// Has R as an it letter.
    Rit,
    /// Has p as an it letter.
    pit,
    /// Has m as an it letter.
    mit,
    /// Has l as an it letter.
    lit,
    /// Has S as an it letter.
    Sit,
    /// Has z as an it letter.
    zit,
    /// Has a nasalized a as an it letter.
    adit,
    /// Has a nasalized i as an it letter.
    idit,
    /// Has a nasalized u as an it letter.
    udit,
    /// Has a nasalized f as an it letter.
    fdit,
    /// Marks "hi" as optionally apit (3.4.88).
    Pit,
}

/// A tag on the prakriya as a whole.
#[derive(Clone, Copy, Debug, PartialEq, Eq, Structural)]
pub enum PrakriyaTag {
    Parasmaipada,
    Atmanepada,
    Uttama,
    /// leT is built on the luN stem.
    FlagLetStemLun,
    /// leT is built on the liT stem.
    FlagLetStemLit,
}

} // verus!

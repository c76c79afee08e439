//! The arguments of a derivation: lakaras, persons, numbers, padas and the
//! morphemes that the tin-pratyaya rules name.

use vstd::prelude::*;
use crate::tag::Tag;

verus! {

/// The ten lakaras, with liN split into its two uses.
#[derive(Clone, Copy, Debug, PartialEq, Eq, Structural)]
pub enum Lakara {
    Lat,
    Lit,
    Lut,
    Lrt,
    Let,
    Lot,
    Lan,
    VidhiLin,
    AshirLin,
    Lun,
    Lrn,
}

impl Lakara {
    /// Whether this lakara has N as an it letter.
    pub open spec fn nit(self) -> bool {
        match self {
            Lakara::Lan | Lakara::VidhiLin | Lakara::AshirLin | Lakara::Lun | Lakara::Lrn => true,
            _ => false,
        }
    }

    /// Whether this lakara is one of the two liN.
    pub open spec fn lin(self) -> bool {
        match self {
            Lakara::VidhiLin | Lakara::AshirLin => true,
            _ => false,
        }
    }

    /// The upadesha of this lakara, in SLP1.
    pub open spec fn text(self) -> Seq<char> {
        match self {
            Lakara::Lat => seq!['l', 'a', '~', 'w'],
            Lakara::Lit => seq!['l', 'i', '~', 'w'],
            Lakara::Lut => seq!['l', 'u', '~', 'w'],
            Lakara::Lrt => seq!['l', 'f', '~', 'w'],
            Lakara::Let => seq!['l', 'e', '~', 'w'],
            Lakara::Lot => seq!['l', 'o', '~', 'w'],
            Lakara::Lan => seq!['l', 'a', '~', 'N'],
            Lakara::VidhiLin => seq!['l', 'i', '~', 'N'],
            Lakara::AshirLin => seq!['l', 'i', '~', 'N'],
            Lakara::Lun => seq!['l', 'u', '~', 'N'],
            Lakara::Lrn => seq!['l', 'f', '~', 'N'],
        }
    }

    /// The upadesha of this lakara, in SLP1.
    pub fn as_text(&self) -> (r: Vec<char>)
        ensures
            r@ == self.text(),
    {
        match self {
            Lakara::Lat => vec!['l', 'a', '~', 'w'],
            Lakara::Lit => vec!['l', 'i', '~', 'w'],
            Lakara::Lut => vec!['l', 'u', '~', 'w'],
            Lakara::Lrt => vec!['l', 'f', '~', 'w'],
            Lakara::Let => vec!['l', 'e', '~', 'w'],
            Lakara::Lot => vec!['l', 'o', '~', 'w'],
            Lakara::Lan => vec!['l', 'a', '~', 'N'],
            Lakara::VidhiLin => vec!['l', 'i', '~', 'N'],
            Lakara::AshirLin => vec!['l', 'i', '~', 'N'],
            Lakara::Lun => vec!['l', 'u', '~', 'N'],
            Lakara::Lrn => vec!['l', 'f', '~', 'N'],
        }
    }

    /// Whether this lakara has N as an it letter.
    pub fn is_nit(&self) -> (r: bool)
        ensures
            r == self.nit(),
    {
        match self {
            Lakara::Lan | Lakara::VidhiLin | Lakara::AshirLin | Lakara::Lun | Lakara::Lrn => true,
            _ => false,
        }
    }

    /// Whether this lakara is one of the two liN.
    pub fn is_lin(&self) -> (r: bool)
        ensures
            r == self.lin(),
    {
        match self {
            Lakara::VidhiLin | Lakara::AshirLin => true,
            _ => false,
        }
    }
}

/// The three persons.
#[derive(Clone, Copy, Debug, PartialEq, Eq, Structural)]
pub enum Purusha {
    Prathama,
    Madhyama,
    Uttama,
}

impl Purusha {
    /// The tag that this person gives a term.
    pub open spec fn tag(self) -> Tag {
        match self {
            Purusha::Prathama => Tag::Prathama,
            Purusha::Madhyama => Tag::Madhyama,
            Purusha::Uttama => Tag::Uttama,
        }
    }

    /// The tag that this person gives a term.
    pub fn as_tag(&self) -> (r: Tag)
        ensures
            r == self.tag(),
    {
        match self {
            Purusha::Prathama => Tag::Prathama,
            Purusha::Madhyama => Tag::Madhyama,
            Purusha::Uttama => Tag::Uttama,
        }
    }
}

/// The three numbers.
#[derive(Clone, Copy, Debug, PartialEq, Eq, Structural)]
pub enum Vacana {
    Eka,
    Dvi,
    Bahu,
}

impl Vacana {
    /// The tag that this number gives a term.
    pub open spec fn tag(self) -> Tag {
        match self {
            Vacana::Eka => Tag::Ekavacana,
            Vacana::Dvi => Tag::Dvivacana,
            Vacana::Bahu => Tag::Bahuvacana,
        }
    }

    /// The tag that this number gives a term.
    pub fn as_tag(&self) -> (r: Tag)
        ensures
            r == self.tag(),
    {
        match self {
            Vacana::Eka => Tag::Ekavacana,
            Vacana::Dvi => Tag::Dvivacana,
            Vacana::Bahu => Tag::Bahuvacana,
        }
    }
}

/// The two padas of a verb ending.
#[derive(Clone, Copy, Debug, PartialEq, Eq, Structural)]
pub enum DhatuPada {
    Parasmaipada,
    Atmanepada,
}

impl DhatuPada {
    /// The tag that this pada gives a term.
    pub open spec fn tag(self) -> Tag {
        match self {
            DhatuPada::Parasmaipada => Tag::Parasmaipada,
            DhatuPada::Atmanepada => Tag::Atmanepada,
        }
    }

    /// The tag that this pada gives a term.
    pub fn as_tag(&self) -> (r: Tag)
        ensures
            r == self.tag(),
    {
        match self {
            DhatuPada::Parasmaipada => Tag::Parasmaipada,
            DhatuPada::Atmanepada => Tag::Atmanepada,
        }
    }
}

/// The eighteen tin endings of 3.4.78.
#[allow(non_camel_case_types)]
#[derive(Clone, Copy, Debug, PartialEq, Eq, Structural)]
pub enum Tin {
    tip,
    tas,
    Ji,
    sip,
    Tas,
    Ta,
    mip,
    vas,
    mas,
    ta,
    AtAm,
    Ja,
    TAs,
    ATAm,
    Dvam,
    iw,
    vahi,
    mahiN,
}

/// The tin ending for a pada, person and number, in the order of 3.4.78.
pub open spec fn tin_for(pada: DhatuPada, purusha: Purusha, vacana: Vacana) -> Tin {
    match (pada, purusha, vacana) {
        (DhatuPada::Parasmaipada, Purusha::Prathama, Vacana::Eka) => Tin::tip,
        (DhatuPada::Parasmaipada, Purusha::Prathama, Vacana::Dvi) => Tin::tas,
        (DhatuPada::Parasmaipada, Purusha::Prathama, Vacana::Bahu) => Tin::Ji,
        (DhatuPada::Parasmaipada, Purusha::Madhyama, Vacana::Eka) => Tin::sip,
        (DhatuPada::Parasmaipada, Purusha::Madhyama, Vacana::Dvi) => Tin::Tas,
        (DhatuPada::Parasmaipada, Purusha::Madhyama, Vacana::Bahu) => Tin::Ta,
        (DhatuPada::Parasmaipada, Purusha::Uttama, Vacana::Eka) => Tin::mip,
        (DhatuPada::Parasmaipada, Purusha::Uttama, Vacana::Dvi) => Tin::vas,
        (DhatuPada::Parasmaipada, Purusha::Uttama, Vacana::Bahu) => Tin::mas,
        (DhatuPada::Atmanepada, Purusha::Prathama, Vacana::Eka) => Tin::ta,
        (DhatuPada::Atmanepada, Purusha::Prathama, Vacana::Dvi) => Tin::AtAm,
        (DhatuPada::Atmanepada, Purusha::Prathama, Vacana::Bahu) => Tin::Ja,
        (DhatuPada::Atmanepada, Purusha::Madhyama, Vacana::Eka) => Tin::TAs,
        (DhatuPada::Atmanepada, Purusha::Madhyama, Vacana::Dvi) => Tin::ATAm,
        (DhatuPada::Atmanepada, Purusha::Madhyama, Vacana::Bahu) => Tin::Dvam,
        (DhatuPada::Atmanepada, Purusha::Uttama, Vacana::Eka) => Tin::iw,
        (DhatuPada::Atmanepada, Purusha::Uttama, Vacana::Dvi) => Tin::vahi,
        (DhatuPada::Atmanepada, Purusha::Uttama, Vacana::Bahu) => Tin::mahiN,
    }
}

impl Tin {
    /// The tin ending for a pada, person and number, in the order of 3.4.78.
    pub fn from_args(pada: DhatuPada, purusha: Purusha, vacana: Vacana) -> (r: Tin)
        ensures
            r == tin_for(pada, purusha, vacana),
    {
        match (pada, purusha, vacana) {
            (DhatuPada::Parasmaipada, Purusha::Prathama, Vacana::Eka) => Tin::tip,
            (DhatuPada::Parasmaipada, Purusha::Prathama, Vacana::Dvi) => Tin::tas,
            (DhatuPada::Parasmaipada, Purusha::Prathama, Vacana::Bahu) => Tin::Ji,
            (DhatuPada::Parasmaipada, Purusha::Madhyama, Vacana::Eka) => Tin::sip,
            (DhatuPada::Parasmaipada, Purusha::Madhyama, Vacana::Dvi) => Tin::Tas,
            (DhatuPada::Parasmaipada, Purusha::Madhyama, Vacana::Bahu) => Tin::Ta,
            (DhatuPada::Parasmaipada, Purusha::Uttama, Vacana::Eka) => Tin::mip,
            (DhatuPada::Parasmaipada, Purusha::Uttama, Vacana::Dvi) => Tin::vas,
            (DhatuPada::Parasmaipada, Purusha::Uttama, Vacana::Bahu) => Tin::mas,
            (DhatuPada::Atmanepada, Purusha::Prathama, Vacana::Eka) => Tin::ta,
            (DhatuPada::Atmanepada, Purusha::Prathama, Vacana::Dvi) => Tin::AtAm,
            (DhatuPada::Atmanepada, Purusha::Prathama, Vacana::Bahu) => Tin::Ja,
            (DhatuPada::Atmanepada, Purusha::Madhyama, Vacana::Eka) => Tin::TAs,
            (DhatuPada::Atmanepada, Purusha::Madhyama, Vacana::Dvi) => Tin::ATAm,
            (DhatuPada::Atmanepada, Purusha::Madhyama, Vacana::Bahu) => Tin::Dvam,
            (DhatuPada::Atmanepada, Purusha::Uttama, Vacana::Eka) => Tin::iw,
            (DhatuPada::Atmanepada, Purusha::Uttama, Vacana::Dvi) => Tin::vahi,
            (DhatuPada::Atmanepada, Purusha::Uttama, Vacana::Bahu) => Tin::mahiN,
        }
    }

    /// The upadesha of this ending, in SLP1.
    pub open spec fn text(self) -> Seq<char> {
        match self {
            Tin::tip => seq!['t', 'i', 'p'],
            Tin::tas => seq!['t', 'a', 's'],
            Tin::Ji => seq!['J', 'i'],
            Tin::sip => seq!['s', 'i', 'p'],
            Tin::Tas => seq!['T', 'a', 's'],
            Tin::Ta => seq!['T', 'a'],
            Tin::mip => seq!['m', 'i', 'p'],
            Tin::vas => seq!['v', 'a', 's'],
            Tin::mas => seq!['m', 'a', 's'],
            Tin::ta => seq!['t', 'a'],
            Tin::AtAm => seq!['A', 't', 'A', 'm'],
            Tin::Ja => seq!['J', 'a'],
            Tin::TAs => seq!['T', 'A', 's'],
            Tin::ATAm => seq!['A', 'T', 'A', 'm'],
            Tin::Dvam => seq!['D', 'v', 'a', 'm'],
            Tin::iw => seq!['i', 'w'],
            Tin::vahi => seq!['v', 'a', 'h', 'i'],
            Tin::mahiN => seq!['m', 'a', 'h', 'i', 'N'],
        }
    }

    /// The upadesha of this ending, in SLP1.
    pub fn as_text(&self) -> (r: Vec<char>)
        ensures
            r@ == self.text(),
    {
        match self {
            Tin::tip => vec!['t', 'i', 'p'],
            Tin::tas => vec!['t', 'a', 's'],
            Tin::Ji => vec!['J', 'i'],
            Tin::sip => vec!['s', 'i', 'p'],
            Tin::Tas => vec!['T', 'a', 's'],
            Tin::Ta => vec!['T', 'a'],
            Tin::mip => vec!['m', 'i', 'p'],
            Tin::vas => vec!['v', 'a', 's'],
            Tin::mas => vec!['m', 'a', 's'],
            Tin::ta => vec!['t', 'a'],
            Tin::AtAm => vec!['A', 't', 'A', 'm'],
            Tin::Ja => vec!['J', 'a'],
            Tin::TAs => vec!['T', 'A', 's'],
            Tin::ATAm => vec!['A', 'T', 'A', 'm'],
            Tin::Dvam => vec!['D', 'v', 'a', 'm'],
            Tin::iw => vec!['i', 'w'],
            Tin::vahi => vec!['v', 'a', 'h', 'i'],
            Tin::mahiN => vec!['m', 'a', 'h', 'i', 'N'],
        }
    }
}

/// The agamas that the tin-pratyaya rules insert.
#[allow(non_camel_case_types)]
#[derive(Clone, Copy, Debug, PartialEq, Eq, Structural)]
pub enum Agama {
    /// aw (3.4.94)
    aw,
    /// Aw (3.4.92, 3.4.94)
    Aw,
    /// yAsuw (3.4.103)
    yAsuw,
    /// sIyuw (3.4.102)
    sIyuw,
}

impl Agama {
    /// The upadesha of this agama, in SLP1.
    pub open spec fn text(self) -> Seq<char> {
        match self {
            Agama::aw => seq!['a', 'w'],
            Agama::Aw => seq!['A', 'w'],
            Agama::yAsuw => seq!['y', 'A', 's', 'u', '~', 'w'],
            Agama::sIyuw => seq!['s', 'I', 'y', 'u', '~', 'w'],
        }
    }

    /// The upadesha of this agama, in SLP1.
    pub fn as_text(&self) -> (r: Vec<char>)
        ensures
            r@ == self.text(),
    {
        match self {
            Agama::aw => vec!['a', 'w'],
            Agama::Aw => vec!['A', 'w'],
            Agama::yAsuw => vec!['y', 'A', 's', 'u', '~', 'w'],
            Agama::sIyuw => vec!['s', 'I', 'y', 'u', '~', 'w'],
        }
    }
}

/// Vikaranas: the affixes between a dhatu and its ending.
#[allow(non_camel_case_types)]
#[derive(Clone, Copy, Debug, PartialEq, Eq, Structural)]
pub enum Vikarana {
    Sap,
    Syan,
    Snu,
    Sa,
    Snam,
    u,
    SnA,
    sic,
    sip,
    tAsi,
    sya,
}

/// The ten dhatu classes.
#[derive(Clone, Copy, Debug, PartialEq, Eq, Structural)]
pub enum Gana {
    Bhvadi,
    Adadi,
    Juhotyadi,
    Divadi,
    Svadi,
    Tudadi,
    Rudhadi,
    Tanadi,
    Kryadi,
    Curadi,
}

/// What kind of morpheme a term is, where the rules name it.
#[derive(Clone, Copy, Debug, PartialEq, Eq, Structural)]
pub enum Morph {
    Other,
    Tin(Tin),
    Agama(Agama),
    Vikarana(Vikarana),
}

} // verus!

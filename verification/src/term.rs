//! A term (one morpheme) of a prakriya, and its model.

use vstd::prelude::*;
use crate::args::{Agama, Gana, Lakara, Morph, Tin, Vikarana};
use crate::tag::Tag;
use crate::text::{chars_of, ends_with, eq_text, find_in_list, has_adi, has_antya, in_list, slice, text_ends_with, text_has_adi, text_has_antya, WordList};

verus! {

broadcast use vstd::seq_lib::group_seq_properties;

/// One morpheme of a derivation: its upadesha (where it has one), its
/// current text, its tags, and what the rules know of it.
pub struct Term {
    pub u: Option<Vec<char>>,
    pub text: Vec<char>,
    pub tags: Vec<Tag>,
    pub morph: Morph,
    pub lakara: Option<Lakara>,
    pub gana: Option<Gana>,
}

/// The model of a term: text as sequences of characters, tags as a set.
#[verifier::ext_equal]
pub struct TermView {
    pub u: Option<Seq<char>>,
    pub text: Seq<char>,
    pub tags: Set<Tag>,
    pub morph: Morph,
    pub lakara: Option<Lakara>,
    pub gana: Option<Gana>,
}

/// The model of an optional text.
pub open spec fn opt_view(u: Option<Vec<char>>) -> Option<Seq<char>> {
    match u {
        Some(v) => Some(v@),
        None => None,
    }
}

impl View for Term {
    type V = TermView;

    open spec fn view(&self) -> TermView {
        TermView {
            u: opt_view(self.u),
            text: self.text@,
            tags: Set::new(|t: Tag| self.tags@.contains(t)),
            morph: self.morph,
            lakara: self.lakara,
            gana: self.gana,
        }
    }
}

impl TermView {
    pub open spec fn has_tag(self, tag: Tag) -> bool {
        self.tags.contains(tag)
    }

    pub open spec fn add_tag(self, tag: Tag) -> TermView {
        TermView { tags: self.tags.insert(tag), ..self }
    }

    pub open spec fn remove_tag(self, tag: Tag) -> TermView {
        TermView { tags: self.tags.remove(tag), ..self }
    }

    pub open spec fn with_text(self, s: Seq<char>) -> TermView {
        TermView { text: s, ..self }
    }

    /// The term with upadesha `s` and text `s`.
    pub open spec fn with_u_text(self, s: Seq<char>) -> TermView {
        TermView { u: Some(s), text: s, ..self }
    }

    pub open spec fn has_u(self, s: Seq<char>) -> bool {
        self.u == Some(s)
    }

    pub open spec fn has_u_in(self, l: WordList) -> bool {
        match self.u {
            Some(u) => in_list(l, u),
            None => false,
        }
    }

    pub open spec fn has_text_in(self, l: WordList) -> bool {
        in_list(l, self.text)
    }

    pub open spec fn ends_with(self, s: Seq<char>) -> bool {
        ends_with(self.text, s)
    }

    pub open spec fn has_antya(self, c: char) -> bool {
        has_antya(self.text, c)
    }

    pub open spec fn has_adi(self, c: char) -> bool {
        has_adi(self.text, c)
    }

    pub open spec fn is_tin(self, t: Tin) -> bool {
        self.morph == Morph::Tin(t)
    }

    pub open spec fn is_vikarana(self, v: Vikarana) -> bool {
        self.morph == Morph::Vikarana(v)
    }

    pub open spec fn has_lakara(self, la: Lakara) -> bool {
        self.lakara == Some(la)
    }

    pub open spec fn is_lin_lakara(self) -> bool {
        match self.lakara {
            Some(la) => la.lin(),
            None => false,
        }
    }

    pub open spec fn has_gana(self, g: Gana) -> bool {
        self.gana == Some(g)
    }

    pub open spec fn is_parasmaipada(self) -> bool {
        self.tags.contains(Tag::Parasmaipada)
    }

    pub open spec fn is_atmanepada(self) -> bool {
        self.tags.contains(Tag::Atmanepada)
    }

    pub open spec fn is_dhatu(self) -> bool {
        self.tags.contains(Tag::Dhatu)
    }
}

/// A new agama term.
pub open spec fn agama_term(a: Agama) -> TermView {
    TermView {
        u: Some(a.text()),
        text: a.text(),
        tags: set![Tag::Agama],
        morph: Morph::Agama(a),
        lakara: None,
        gana: None,
    }
}

impl Term {
    /// A term with upadesha `u`, with no tags.
    pub fn make_upadesha(u: &str) -> (r: Term)
        ensures
            r@.u == Some(u@),
            r@.text == u@,
            r@.tags == Set::<Tag>::empty(),
            r@.morph == Morph::Other,
            r@.lakara == None::<Lakara>,
            r@.gana == None::<Gana>,
    {
        let t = Term {
            u: Some(chars_of(u)),
            text: chars_of(u),
            tags: Vec::new(),
            morph: Morph::Other,
            lakara: None,
            gana: None,
        };
        assert(t@.tags =~= Set::<Tag>::empty());
        t
    }

    /// A dhatu with upadesha `u`, current text `text` and class `gana`.
    pub fn make_dhatu(u: &str, text: &str, gana: Gana) -> (r: Term)
        ensures
            r@.u == Some(u@),
            r@.text == text@,
            r@.tags == set![Tag::Dhatu],
            r@.morph == Morph::Other,
            r@.lakara == None::<Lakara>,
            r@.gana == Some(gana),
    {
        let mut tags: Vec<Tag> = Vec::new();
        tags.push(Tag::Dhatu);
        let t = Term {
            u: Some(chars_of(u)),
            text: chars_of(text),
            tags,
            morph: Morph::Other,
            lakara: None,
            gana: Some(gana),
        };
        assert(t@.tags =~= set![Tag::Dhatu]);
        t
    }

    /// The vikarana `v` with upadesha `u` and current text `text`.
    pub fn make_vikarana(v: Vikarana, u: &str, text: &str) -> (r: Term)
        ensures
            r@.u == Some(u@),
            r@.text == text@,
            r@.tags == set![Tag::Pratyaya],
            r@.morph == Morph::Vikarana(v),
            r@.lakara == None::<Lakara>,
            r@.gana == None::<Gana>,
    {
        let mut tags: Vec<Tag> = Vec::new();
        tags.push(Tag::Pratyaya);
        let t = Term {
            u: Some(chars_of(u)),
            text: chars_of(text),
            tags,
            morph: Morph::Vikarana(v),
            lakara: None,
            gana: None,
        };
        assert(t@.tags =~= set![Tag::Pratyaya]);
        t
    }

    /// The lakara `la` as a pratyaya, with its upadesha as text; tagged N-it
    /// where the lakara is Nit.
    pub fn make_lakara(la: Lakara) -> (r: Term)
        ensures
            r@.u == Some(la.text()),
            r@.text == la.text(),
            r@.tags == (if la.nit() {
                set![Tag::Pratyaya, Tag::Nit]
            } else {
                set![Tag::Pratyaya]
            }),
            r@.morph == Morph::Other,
            r@.lakara == Some(la),
            r@.gana == None::<Gana>,
    {
        let mut tags: Vec<Tag> = Vec::new();
        tags.push(Tag::Pratyaya);
        if la.is_nit() {
            tags.push(Tag::Nit);
        }
        let t = Term {
            u: Some(la.as_text()),
            text: la.as_text(),
            tags,
            morph: Morph::Other,
            lakara: Some(la),
            gana: None,
        };
        assert(t@.tags =~= (if la.nit() {
            set![Tag::Pratyaya, Tag::Nit]
        } else {
            set![Tag::Pratyaya]
        }));
        t
    }

    /// A new agama term.
    pub fn make_agama(a: Agama) -> (r: Term)
        ensures
            r@ == agama_term(a),
    {
        let mut tags: Vec<Tag> = Vec::new();
        tags.push(Tag::Agama);
        let t = Term {
            u: Some(a.as_text()),
            text: a.as_text(),
            tags,
            morph: Morph::Agama(a),
            lakara: None,
            gana: None,
        };
        assert(t@.tags =~= set![Tag::Agama]);
        t
    }

    pub fn has_tag(&self, tag: Tag) -> (r: bool)
        ensures
            r == self@.has_tag(tag),
    {
        let mut i: usize = 0;
        while i < self.tags.len()
            invariant
                i <= self.tags.len(),
                forall|j: int| 0 <= j < i ==> self.tags@[j] != tag,
            decreases self.tags.len() - i,
        {
            if self.tags[i] == tag {
                return true;
            }
            i = i + 1;
        }
        false
    }

    pub fn add_tag(&mut self, tag: Tag)
        ensures
            final(self)@ == old(self)@.add_tag(tag),
    {
        if !self.has_tag(tag) {
            self.tags.push(tag);
        }
        assert(self@.tags =~= old(self)@.tags.insert(tag));
    }

    pub fn remove_tag(&mut self, tag: Tag)
        ensures
            final(self)@ == old(self)@.remove_tag(tag),
    {
        let mut kept: Vec<Tag> = Vec::new();
        let mut i: usize = 0;
        while i < self.tags.len()
            invariant
                i <= self.tags.len(),
                forall|x: Tag|
                    kept@.contains(x) <==> (x != tag && self.tags@.subrange(0, i as int).contains(
                        x,
                    )),
            decreases self.tags.len() - i,
        {
            let x = self.tags[i];
            assert(self.tags@.subrange(0, i + 1) =~= self.tags@.subrange(0, i as int).push(x));
            if x != tag {
                kept.push(x);
            }
            i = i + 1;
        }
        assert(self.tags@.subrange(0, i as int) =~= self.tags@);
        self.tags = kept;
        assert(self@.tags =~= old(self)@.tags.remove(tag));
    }

    pub fn set_text(&mut self, s: Vec<char>)
        ensures
            final(self)@ == old(self)@.with_text(s@),
    {
        self.text = s;
    }

    /// Sets both the upadesha and the text to `s`.
    pub fn set_u_text(&mut self, s: Vec<char>)
        ensures
            final(self)@ == old(self)@.with_u_text(s@),
    {
        let t = slice(&s, 0, s.len());
        assert(s@.subrange(0, s.len() as int) =~= s@);
        self.u = Some(t);
        self.text = s;
    }

    pub fn set_morph(&mut self, m: Morph)
        ensures
            final(self)@ == (TermView { morph: m, ..old(self)@ }),
    {
        self.morph = m;
    }

    pub fn set_lakara(&mut self, la: Lakara)
        ensures
            final(self)@ == (TermView { lakara: Some(la), ..old(self)@ }),
    {
        self.lakara = Some(la);
    }

    pub fn set_gana(&mut self, g: Gana)
        ensures
            final(self)@ == (TermView { gana: Some(g), ..old(self)@ }),
    {
        self.gana = Some(g);
    }

    pub fn has_u(&self, s: &Vec<char>) -> (r: bool)
        ensures
            r == self@.has_u(s@),
    {
        match &self.u {
            Some(u) => eq_text(u, s),
            None => false,
        }
    }

    pub fn has_u_in(&self, l: WordList) -> (r: bool)
        ensures
            r == self@.has_u_in(l),
    {
        match &self.u {
            Some(u) => find_in_list(l, u).is_some(),
            None => false,
        }
    }

    pub fn has_text(&self, s: &Vec<char>) -> (r: bool)
        ensures
            r == (self@.text == s@),
    {
        eq_text(&self.text, s)
    }

    pub fn has_text_in(&self, l: WordList) -> (r: bool)
        ensures
            r == self@.has_text_in(l),
    {
        find_in_list(l, &self.text).is_some()
    }

    pub fn ends_with(&self, s: &Vec<char>) -> (r: bool)
        ensures
            r == self@.ends_with(s@),
    {
        text_ends_with(&self.text, s)
    }

    pub fn has_antya(&self, c: char) -> (r: bool)
        ensures
            r == self@.has_antya(c),
    {
        text_has_antya(&self.text, c)
    }

    pub fn has_adi(&self, c: char) -> (r: bool)
        ensures
            r == self@.has_adi(c),
    {
        text_has_adi(&self.text, c)
    }

    pub fn is_empty(&self) -> (r: bool)
        ensures
            r == (self@.text.len() == 0),
    {
        self.text.len() == 0
    }

    pub fn is_tin(&self, t: Tin) -> (r: bool)
        ensures
            r == self@.is_tin(t),
    {
        self.morph == Morph::Tin(t)
    }

    pub fn is_vikarana(&self, v: Vikarana) -> (r: bool)
        ensures
            r == self@.is_vikarana(v),
    {
        self.morph == Morph::Vikarana(v)
    }

    pub fn has_lakara(&self, la: Lakara) -> (r: bool)
        ensures
            r == self@.has_lakara(la),
    {
        self.lakara == Some(la)
    }

    pub fn is_lin_lakara(&self) -> (r: bool)
        ensures
            r == self@.is_lin_lakara(),
    {
        match self.lakara {
            Some(la) => la.is_lin(),
            None => false,
        }
    }

    pub fn has_gana(&self, g: Gana) -> (r: bool)
        ensures
            r == self@.has_gana(g),
    {
        self.gana == Some(g)
    }

    pub fn is_parasmaipada(&self) -> (r: bool)
        ensures
            r == self@.is_parasmaipada(),
    {
        self.has_tag(Tag::Parasmaipada)
    }

    pub fn is_atmanepada(&self) -> (r: bool)
        ensures
            r == self@.is_atmanepada(),
    {
        self.has_tag(Tag::Atmanepada)
    }

    pub fn is_dhatu(&self) -> (r: bool)
        ensures
            r == self@.is_dhatu(),
    {
        self.has_tag(Tag::Dhatu)
    }
}

} // verus!

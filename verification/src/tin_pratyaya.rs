//! tin_pratyaya (3.4.77 - end of 3.4)
//!
//! The rules in this section have two main functions:
//!
//! 1. Replace a given lakara with the appropriate tin-pratyaya. This is called tin-adesha ("verb
//!    ending substitution"). To perform tin-adesha, we must know the purusha, vacana, and pada
//!    associated with this prakriya.
//!
//! 2. Modify the basic tin-pratyaya according to the lakara and any other conditions relevant to
//!    the prakriya (for example, vidhi-lin vs. ashir-lin). This is called tin-siddhi ("verb
//!    ending completion").
//!
//! All of these rules are found at the end of section 3.4 of the Ashtadhyayi.

use vstd::prelude::*;
use crate::args::{
    tin_for, Agama, DhatuPada, Gana, Lakara, Morph, Purusha, Tin, Vacana, Vikarana,
};
use crate::it_samjna::{it_run, run as run_it_samjna};
use crate::misc::{has_vikarana, has_vikarana_spec, uses_sip_vikarana, uses_sip_vikarana_spec};
use crate::operators::{
    adesha as op_adesha, adesha_spec, optional_adesha, optional_adesha_spec, upadesha_yatha,
    yatha_spec,
};
use crate::prakriya::{Prakriya, PrakriyaView, Rule, Source, TermOp};
use crate::tag::{PrakriyaTag, Tag};
use crate::term::{agama_term, TermView};
use crate::text::{
    list_len, replace_char, set_adi, set_antya, set_last_two, set_ti, WordList,
};

verus! {

broadcast use crate::prakriya::lemma_terms_view_len;

/// The pada of the prakriya: parasmaipada where it is tagged so, else atmanepada.
pub open spec fn pada_of(p: PrakriyaView) -> DhatuPada {
    if p.has_tag(PrakriyaTag::Parasmaipada) {
        DhatuPada::Parasmaipada
    } else {
        DhatuPada::Atmanepada
    }
}

/// The last pratyaya after tin-adesha (3.4.78) for `purusha` and `vacana`:
/// tagged vibhakti (1.4.104), tin, and with its person, number and pada; the
/// tin ending for them as its upadesha (it-samjna run on it); and without the
/// N-it that it had from the lakara or from mahiN.
pub open spec fn adesha_result(p: PrakriyaView, purusha: Purusha, vacana: Vacana) -> PrakriyaView {
    let pada = pada_of(p);
    let tin = tin_for(pada, purusha, vacana);
    let i = p.find_last_with_tag(Tag::Pratyaya);
    if i < 0 {
        p
    } else {
        let t = p.terms[i];
        let t1 = t.add_tag(Tag::Vibhakti).add_tag(Tag::Tin).add_tag(purusha.tag()).add_tag(
            vacana.tag(),
        ).add_tag(pada.tag());
        let p1 = p.set_term(i, TermView { morph: Morph::Tin(tin), ..t1 });
        let p2 = adesha_spec(p1, Rule::Sutra(3, 4, 78), i, tin.text());
        if p2.terms[i].has_tag(Tag::Nit) {
            p2.set_term(i, p2.terms[i].remove_tag(Tag::Nit))
        } else {
            p2
        }
    }
}

/// Replaces the lakAra with a tiN-pratyaya.
pub fn adesha(p: &mut Prakriya, purusha: Purusha, vacana: Vacana)
    requires
        old(p)@.has_tag(PrakriyaTag::Parasmaipada) || old(p)@.has_tag(PrakriyaTag::Atmanepada),
    ensures
        final(p)@ == adesha_result(old(p)@, purusha, vacana),
{
    let pada = if p.has_tag(PrakriyaTag::Parasmaipada) {
        DhatuPada::Parasmaipada
    } else {
        DhatuPada::Atmanepada
    };
    let tin = Tin::from_args(pada, purusha, vacana);

    if let Some(i) = p.find_last_with_tag(Tag::Pratyaya) {
        proof {
            crate::prakriya::lemma_last_with_tag_below(
                old(p)@.terms,
                Tag::Pratyaya,
                old(p)@.terms.len() as int,
            );
        }
        // 1.4.104
        p.apply_at(i, TermOp::AddTag(Tag::Vibhakti));
        p.apply_at(i, TermOp::AddTag(Tag::Tin));
        p.apply_at(i, TermOp::AddTag(purusha.as_tag()));
        p.apply_at(i, TermOp::AddTag(vacana.as_tag()));
        p.apply_at(i, TermOp::AddTag(pada.as_tag()));
        p.apply_at(i, TermOp::SetMorph(Morph::Tin(tin)));
        proof {
            let t = old(p)@.terms[i as int];
            let t1 = t.add_tag(Tag::Vibhakti).add_tag(Tag::Tin).add_tag(purusha.tag()).add_tag(
                vacana.tag(),
            ).add_tag(pada.tag());
            assert(p@ =~= old(p)@.set_term(i as int, TermView { morph: Morph::Tin(tin), ..t1 }));
        }
        op_adesha(Rule::Sutra(3, 4, 78), p, i, tin.as_text());

        // Ignore Nit-tva that we get from the lakAra. Kashika on 3.4.103:
        //
        //   lakArAzrayaGitvam AdezAnAM na bhavati.
        //
        // Likewise, this rule ignores the N of mahiN, which is just for the sake
        // of making a pratyAhAra.
        if i < p.terms.len() && p.terms[i].has_tag(Tag::Nit) {
            p.apply_at(i, TermOp::RemoveTag(Tag::Nit));
        }
    }
}

/// `upadesha_yatha` under `rule`, then it-samjna on the term.
pub open spec fn yatha_result(p: PrakriyaView, rule: Rule, i: int, old: WordList, new: WordList) -> PrakriyaView {
    it_run(yatha_spec(p, i, old, new).step(rule), i).0
}

/// `yatha_result` under an optional rule, where the derivation takes it.
pub open spec fn yatha_optional_result(
    p: PrakriyaView,
    rule: Rule,
    i: int,
    old: WordList,
    new: WordList,
) -> PrakriyaView {
    if p.allows(rule) {
        yatha_result(p.decide(rule), rule, i, old, new)
    } else {
        p.decide(rule)
    }
}

fn yatha(rule: Rule, p: &mut Prakriya, i: usize, from: WordList, to: WordList)
    requires
        list_len(from) == list_len(to),
    ensures
        final(p).terms.len() == old(p).terms.len(),
        final(p)@ == yatha_result(old(p)@, rule, i as int, from, to),
{
    upadesha_yatha(p, i, from, to);
    p.step(rule);
    let _ = run_it_samjna(p, i);
}

fn yatha_optional(rule: Rule, p: &mut Prakriya, i: usize, from: WordList, to: WordList)
    requires
        list_len(from) == list_len(to),
    ensures
        final(p).terms.len() == old(p).terms.len(),
        final(p)@ == yatha_optional_result(old(p)@, rule, i as int, from, to),
{
    if p.optional(rule) {
        upadesha_yatha(p, i, from, to);
        p.step(rule);
        let _ = run_it_samjna(p, i);
    }
}

/// luw prathama (2.4.85): the ending becomes qA, rO or ras by number.
pub open spec fn lut_result(p: PrakriyaView, i: int) -> PrakriyaView {
    let t = p.terms[i];
    let ending = if t.has_tag(Tag::Ekavacana) {
        seq!['q', 'A']
    } else if t.has_tag(Tag::Dvivacana) {
        seq!['r', 'O']
    } else {
        seq!['r', 'a', 's']
    };
    adesha_spec(p, Rule::Sutra(2, 4, 85), i, ending)
}

fn siddhi_lut(p: &mut Prakriya, i: usize)
    requires
        i < old(p).terms.len(),
    ensures
        final(p).terms.len() == old(p).terms.len(),
        final(p)@ == lut_result(old(p)@, i as int),
{
    let ending = if p.terms[i].has_tag(Tag::Ekavacana) {
        vec!['q', 'A']
    } else if p.terms[i].has_tag(Tag::Dvivacana) {
        vec!['r', 'O']
    } else {
        vec!['r', 'a', 's']
    };
    op_adesha(Rule::Sutra(2, 4, 85), p, i, ending);
}

/// The atmanepada endings outside the Nit lakaras: ta and Ja become eS and
/// irec in liw (3.4.81); TAs becomes se (3.4.80); otherwise the ti becomes e
/// (3.4.79).
pub open spec fn atmanepada_result(p: PrakriyaView, i: int) -> PrakriyaView {
    let t = p.terms[i];
    if t.has_lakara(Lakara::Lit) && t.has_text_in(WordList::TaJha) {
        yatha_result(p, Rule::Sutra(3, 4, 81), i, WordList::TaJha, WordList::EsIrec)
    } else if t.is_tin(Tin::TAs) {
        adesha_spec(p, Rule::Sutra(3, 4, 80), i, seq!['s', 'e'])
    } else {
        p.run_text(Rule::Sutra(3, 4, 79), i, set_ti(t.text, seq!['e']))
    }
}

fn siddhi_atmanepada(p: &mut Prakriya, i: usize)
    requires
        i < old(p).terms.len(),
    ensures
        final(p).terms.len() == old(p).terms.len(),
        final(p)@ == atmanepada_result(old(p)@, i as int),
{
    if p.terms[i].has_lakara(Lakara::Lit) && p.terms[i].has_text_in(WordList::TaJha) {
        yatha(Rule::Sutra(3, 4, 81), p, i, WordList::TaJha, WordList::EsIrec);
    } else if p.terms[i].is_tin(Tin::TAs) {
        op_adesha(Rule::Sutra(3, 4, 80), p, i, vec!['s', 'e']);
    } else {
        let e = vec!['e'];
        assert(e@ == seq!['e']);
        p.run_ti(Rule::Sutra(3, 4, 79), i, e);
    }
}

/// brU in law parasmaipada (3.4.84), optional: brU becomes Ah and the first
/// five endings become Ral, atus, us, Tal, aTus.
pub open spec fn bru_result(p: PrakriyaView, i: int, i_dhatu: int) -> PrakriyaView {
    let rule = Rule::Sutra(3, 4, 84);
    if p.allows(rule) {
        let p1 = p.decide(rule).edit_text(i_dhatu, seq!['A', 'h']);
        it_run(yatha_spec(p1, i, WordList::TinPara, WordList::NalPara).step(rule), i).0
    } else {
        p.decide(rule)
    }
}

/// The substitutions of liw (3.4.82) and of law (3.4.83 - 3.4.84) in parasmaipada.
pub open spec fn lit_lat_result(p: PrakriyaView, i: int, i_dhatu: int) -> PrakriyaView {
    let t = p.terms[i];
    let dhatu = p.terms[i_dhatu];
    if t.has_lakara(Lakara::Lit) && t.is_parasmaipada() {
        yatha_result(p, Rule::Sutra(3, 4, 82), i, WordList::TinPara, WordList::NalPara)
    } else if t.has_lakara(Lakara::Lat) && t.is_parasmaipada() {
        if dhatu.has_u(seq!['v', 'i', 'd', 'a', '~']) && t.has_u_in(WordList::TinPara) {
            yatha_optional_result(p, Rule::Sutra(3, 4, 83), i, WordList::TinPara, WordList::NalPara)
        } else if dhatu.text == seq!['b', 'r', 'U'] && t.has_u_in(WordList::TinParaFirstFive) {
            bru_result(p, i, i_dhatu)
        } else {
            p
        }
    } else {
        p
    }
}

fn siddhi_lit_lat(p: &mut Prakriya, i: usize, i_dhatu: usize)
    requires
        i < old(p).terms.len(),
        i_dhatu < old(p).terms.len(),
    ensures
        final(p).terms.len() == old(p).terms.len(),
        final(p)@ == lit_lat_result(old(p)@, i as int, i_dhatu as int),
{
    if p.terms[i].has_lakara(Lakara::Lit) && p.terms[i].is_parasmaipada() {
        yatha(Rule::Sutra(3, 4, 82), p, i, WordList::TinPara, WordList::NalPara);
    } else if p.terms[i].has_lakara(Lakara::Lat) && p.terms[i].is_parasmaipada() {
        if p.terms[i_dhatu].has_u(&vec!['v', 'i', 'd', 'a', '~']) && p.terms[i].has_u_in(
            WordList::TinPara,
        ) {
            yatha_optional(Rule::Sutra(3, 4, 83), p, i, WordList::TinPara, WordList::NalPara);
        } else if p.terms[i_dhatu].has_text(&vec!['b', 'r', 'U']) && p.terms[i].has_u_in(
            WordList::TinParaFirstFive,
        ) {
            let rule = Rule::Sutra(3, 4, 84);
            if p.optional(rule) {
                p.apply_at(i_dhatu, TermOp::SetText(vec!['A', 'h']));
                upadesha_yatha(p, i, WordList::TinPara, WordList::NalPara);
                p.step(rule);
                let _ = run_it_samjna(p, i);
            }
        }
    }
}

/// The agama of leT (3.4.94), after mip becomes ni (3.4.89): the new
/// prakriya, the new index of the ending, and whether it-samjna of the agama
/// succeeded.
///
/// The agama is aw for a leT on the luN stem, for the dhatus that take the sip
/// vikarana, and after a stem that does not end in a; else Aw. On the liT stem
/// 3.4.94 leaves aw and Aw open: Aw is tried as an option, aw otherwise. With
/// the sip vikarana, sip may go without the agama (yakzi, vakzi, Srozi).
pub open spec fn let_agama_result(p: PrakriyaView, i: int, i_dhatu: int) -> (PrakriyaView, int, bool) {
    let p1 = if p.terms[i].ends_with(seq!['m', 'i']) {
        adesha_spec(p, Rule::Sutra(3, 4, 89), i, seq!['n', 'i'])
    } else {
        p
    };
    let k = p1.prev_not_empty(i);
    let stem_ends_in_a = k >= 0 && p1.terms[k].has_antya('a');
    let is_lun_stem = p1.has_tag(PrakriyaTag::FlagLetStemLun);
    let is_lit_stem = p1.has_tag(PrakriyaTag::FlagLetStemLit);
    let agama = if is_lun_stem || uses_sip_vikarana_spec(p1, i_dhatu) || !stem_ends_in_a {
        Agama::aw
    } else {
        Agama::Aw
    };
    let skip_agama = has_vikarana_spec(p1, Vikarana::sip) && p1.in_range(i) && p1.terms[i].is_tin(
        Tin::sip,
    );
    let anyatra = Rule::Anyatra(Source::LetSipWithoutAgama);
    let skipped = skip_agama && p1.allows(anyatra);
    let p2 = if skip_agama {
        if p1.allows(anyatra) {
            p1.decide(anyatra).edit_tag(i, Tag::pit).step(anyatra)
        } else {
            p1.decide(anyatra)
        }
    } else {
        p1
    };
    if skipped {
        (p2, i, true)
    } else {
        let r94 = Rule::Sutra(3, 4, 94);
        let p3 = if is_lit_stem && agama == Agama::aw {
            if p2.allows(r94) {
                p2.decide(r94).edit_tag(i, Tag::pit).insert_term(i, agama_term(Agama::Aw)).step(r94)
            } else {
                p2.decide(r94).edit_tag(i, Tag::pit).insert_term(i, agama_term(Agama::aw)).step(r94)
            }
        } else {
            p2.edit_tag(i, Tag::pit).insert_term(i, agama_term(agama)).step(r94)
        };
        let (p4, ok) = it_run(p3, i);
        (p4, i + 1, ok)
    }
}

fn siddhi_let_agama(p: &mut Prakriya, i: usize, i_dhatu: usize) -> (r: Option<usize>)
    requires
        i < old(p).terms.len(),
    ensures
        final(p).terms.len() >= old(p).terms.len(),
        match r {
            Some(j) => (final(p)@, j as int, true) == let_agama_result(old(p)@, i as int, i_dhatu as int),
            None => let_agama_result(old(p)@, i as int, i_dhatu as int).0 == final(p)@
                && !let_agama_result(old(p)@, i as int, i_dhatu as int).2,
        },
        r matches Some(j) ==> j < final(p).terms.len(),
{
    // 3.4.89 also fires under leT -- mip -> ni in 1sg (parallel to its
    // application under loT). Yields bhavAni in the pit branch.
    if p.terms[i].ends_with(&vec!['m', 'i']) {
        op_adesha(Rule::Sutra(3, 4, 89), p, i, vec!['n', 'i']);
    }
    let ghost p1 = p@;

    // 3.4.94 lewo'qAwO -- leT takes aw or Aw, chosen by the stem-final
    // phonology so that the agama gives the right surface form.
    let stem_ends_in_a = match p.prev_not_empty(i) {
        Some(k) => {
            proof {
                crate::prakriya::lemma_last_nonempty_below(p@.terms, i as int);
            }
            p.terms[k].has_antya('a')
        },
        None => false,
    };
    // For leT on the luN stem, always aw.
    let is_lun_stem = p.has_tag(PrakriyaTag::FlagLetStemLun);
    // For leT on the liT stem, 3.4.94 leaves aw and Aw open.
    let is_lit_stem = p.has_tag(PrakriyaTag::FlagLetStemLit);
    let agama = if is_lun_stem || uses_sip_vikarana(p, i_dhatu) || !stem_ends_in_a {
        Agama::aw
    } else {
        Agama::Aw
    };

    // With the sip vikarana and the ending sip, the agama may be omitted
    // (yakzi, vakzi, Srozi).
    let has_sip_vikarana = has_vikarana(p, Vikarana::sip);
    let skip_agama = has_sip_vikarana && i < p.terms.len() && p.terms[i].is_tin(Tin::sip);

    let mut agama_inserted = true;
    if skip_agama {
        let anyatra = Rule::Anyatra(Source::LetSipWithoutAgama);
        if p.optional(anyatra) {
            p.add_tag_to(i, Tag::pit);
            p.step(anyatra);
            agama_inserted = false;
        }
    }
    if agama_inserted {
        let r94 = Rule::Sutra(3, 4, 94);
        if is_lit_stem && agama == Agama::aw {
            if p.optional(r94) {
                p.add_tag_to(i, Tag::pit);
                p.insert_agama(i, Agama::Aw);
                p.step(r94);
            } else {
                p.add_tag_to(i, Tag::pit);
                p.insert_agama(i, Agama::aw);
                p.step(r94);
            }
        } else {
            p.add_tag_to(i, Tag::pit);
            p.insert_agama(i, agama);
            p.step(r94);
        }
        match run_it_samjna(p, i) {
            Ok(()) => Some(i + 1),
            Err(_) => None,
        }
    } else {
        Some(i)
    }
}

/// The endings of leT after the agama: A becomes E (3.4.95); the final i of
/// parasmaipada drops, always for juzI~, tF, madi~ and optionally otherwise
/// except in the 1sg (3.4.97); the s of the uttama optionally drops (3.4.98);
/// the e of atmanepada optionally becomes E outside the non-uttama dual
/// (3.4.96); and the 1sg parasmaipada ending optionally goes altogether (the
/// Vedic bare -A).
pub open spec fn let_endings_result(p: PrakriyaView, i: int, i_dhatu: int) -> PrakriyaView {
    let t = p.terms[i];
    let p1 = if t.has_adi('A') {
        p.run_text(Rule::Sutra(3, 4, 95), i, set_adi(t.text, seq!['E']))
    } else if p.in_range(i_dhatu) && p.terms[i_dhatu].has_u_in(WordList::SipDhatus)
        && t.is_parasmaipada() && t.has_antya('i') {
        p.run_text(Rule::Sutra(3, 4, 97), i, set_antya(t.text, Seq::empty()))
    } else if p.has_tag(PrakriyaTag::Uttama) && t.has_antya('s') {
        p.optional_run_text(Rule::Sutra(3, 4, 98), i, set_antya(t.text, Seq::empty()))
    } else {
        p
    };
    let t1 = p1.terms[i];
    let exclude_non_uttama_dual = t1.has_tag(Tag::Dvivacana) && !p1.has_tag(PrakriyaTag::Uttama);
    let p2 = if t1.is_atmanepada() && t1.has_antya('e') && !exclude_non_uttama_dual {
        p1.optional_run_text(Rule::Sutra(3, 4, 96), i, set_antya(t1.text, seq!['E']))
    } else {
        p1
    };
    let t2 = p2.terms[i];
    let p3 = if t2.is_parasmaipada() && t2.has_antya('i') && !(t2.has_tag(Tag::Uttama)
        && t2.has_tag(Tag::Ekavacana)) {
        p2.optional_run_text(Rule::Sutra(3, 4, 97), i, set_antya(t2.text, Seq::empty()))
    } else {
        p2
    };
    let t3 = p3.terms[i];
    if p3.has_tag(PrakriyaTag::Uttama) && t3.has_tag(Tag::Ekavacana) && t3.is_parasmaipada() {
        p3.optional_run_text(Rule::Anyatra(Source::LetBareA), i, Seq::empty())
    } else {
        p3
    }
}

fn siddhi_let_endings(p: &mut Prakriya, i: usize, i_dhatu: usize)
    requires
        i < old(p).terms.len(),
    ensures
        final(p)@ == let_endings_result(old(p)@, i as int, i_dhatu as int),
        final(p).terms.len() == old(p).terms.len(),
{
    if p.terms[i].has_adi('A') {
        // mantrayEte, mantrayETe ,...
        let e = vec!['E'];
        assert(e@ == seq!['E']);
        p.run_adi(Rule::Sutra(3, 4, 95), i, e);
    } else if i_dhatu < p.terms.len() && p.terms[i_dhatu].has_u_in(WordList::SipDhatus)
        && p.terms[i].is_parasmaipada() && p.terms[i].has_antya('i') {
        // jozizat, tArizat (3.4.97 is mandatory for these dhAtus).
        p.run_antya(Rule::Sutra(3, 4, 97), i, Vec::new());
    } else if p.has_tag(PrakriyaTag::Uttama) && p.terms[i].has_antya('s') {
        // karavAva, karavAma; karavAvaH, karavAmaH. Covers the vArttika
        // *lewsambandhin uttamapuruzasya sakArasya vA lopo bhavati*.
        p.optional_run_antya(Rule::Sutra(3, 4, 98), i, Vec::new());
    }

    // 3.4.96 (vaito'nyatra) for leT atmanepada: e -> E, optionally. Excluded:
    // non-uttama atmanepada duals, which already have -Ete from 3.4.95.
    let exclude_non_uttama_dual = p.terms[i].has_tag(Tag::Dvivacana) && !p.has_tag(
        PrakriyaTag::Uttama,
    );
    if p.terms[i].is_atmanepada() && p.terms[i].has_antya('e') && !exclude_non_uttama_dual {
        let e = vec!['E'];
        assert(e@ == seq!['E']);
        p.optional_run_antya(Rule::Sutra(3, 4, 96), i, e);
    }

    // 3.4.97 (itaSca lopaH parasmaipadezu): the final -i of a parasmaipada
    // ending optionally drops (BavAt, BavAn, BavAs beside BavAti, BavAnti,
    // BavAsi). Not in the 1sg: the lakAra's N-it does not pass to the -ni
    // substitute, so its -i stays.
    if p.terms[i].is_parasmaipada() && p.terms[i].has_antya('i') && !(p.terms[i].has_tag(
        Tag::Uttama,
    ) && p.terms[i].has_tag(Tag::Ekavacana)) {
        p.optional_run_antya(Rule::Sutra(3, 4, 97), i, Vec::new());
    }

    // The bare-A 1sg subjunctive (kfRavA, bharA, bravA; bhU gives BavA beside
    // BavAni): the ending optionally goes altogether.
    if p.has_tag(PrakriyaTag::Uttama) && p.terms[i].has_tag(Tag::Ekavacana)
        && p.terms[i].is_parasmaipada() {
        p.optional_run_lopa(Rule::Anyatra(Source::LetBareA), i);
    }
}

/// leT (3.4.89, 3.4.94 - 3.4.98): the new prakriya, and whether it-samjna of
/// the agama succeeded.
pub open spec fn let_result(p: PrakriyaView, i: int, i_dhatu: int) -> (PrakriyaView, bool) {
    let (p1, j, ok) = let_agama_result(p, i, i_dhatu);
    if !ok {
        (p1, false)
    } else {
        (let_endings_result(p1, j, i_dhatu), true)
    }
}

fn siddhi_let(p: &mut Prakriya, i: usize, i_dhatu: usize) -> (r: bool)
    requires
        i < old(p).terms.len(),
    ensures
        final(p).terms.len() >= old(p).terms.len(),
        (final(p)@, r) == let_result(old(p)@, i as int, i_dhatu as int),
{
    match siddhi_let_agama(p, i, i_dhatu) {
        Some(j) => {
            siddhi_let_endings(p, j, i_dhatu);
            true
        },
        None => false,
    }
}

/// The endings of loT before the uttama agama: sip becomes hi (3.4.87),
/// optionally apit in chandas (3.4.88); mip becomes ni (3.4.89); a final i
/// becomes u (3.4.86); a final e becomes E in the uttama (3.4.93), se and ve
/// become sva and vam (3.4.91), and otherwise Am (3.4.90).
pub open spec fn lot_endings_result(p: PrakriyaView, i: int) -> PrakriyaView {
    let t = p.terms[i];
    if t.is_tin(Tin::sip) {
        let q = p.set_term(i, t.with_u_text(seq!['h', 'i']).remove_tag(Tag::pit)).step(
            Rule::Sutra(3, 4, 87),
        );
        if q.chandasi {
            q.optional_run_tag(Rule::Sutra(3, 4, 88), i, Tag::Pit)
        } else {
            q
        }
    } else if t.ends_with(seq!['m', 'i']) {
        adesha_spec(p, Rule::Sutra(3, 4, 89), i, seq!['n', 'i'])
    } else if t.has_antya('i') {
        p.run_text(Rule::Sutra(3, 4, 86), i, set_antya(t.text, seq!['u']))
    } else if t.has_antya('e') {
        if t.has_tag(Tag::Uttama) {
            p.run_text(Rule::Sutra(3, 4, 93), i, set_antya(t.text, seq!['E']))
        } else if t.ends_with(seq!['s', 'e']) {
            p.run_text(Rule::Sutra(3, 4, 91), i, set_last_two(t.text, seq!['s', 'v', 'a']))
        } else if t.ends_with(seq!['v', 'e']) {
            p.run_text(Rule::Sutra(3, 4, 91), i, set_last_two(t.text, seq!['v', 'a', 'm']))
        } else {
            p.run_text(Rule::Sutra(3, 4, 90), i, set_antya(t.text, seq!['A', 'm']))
        }
    } else {
        p
    }
}

/// loT (3.4.86 - 3.4.93): the endings, then the Aw agama of the uttama
/// (3.4.92); the new prakriya, and whether it-samjna of the agama succeeded.
pub open spec fn lot_result(p: PrakriyaView, i: int) -> (PrakriyaView, bool) {
    let p1 = lot_endings_result(p, i);
    if p1.terms[i].has_tag(Tag::Uttama) {
        it_run(
            p1.edit_tag(i, Tag::pit).insert_term(i, agama_term(Agama::Aw)).step(
                Rule::Sutra(3, 4, 92),
            ),
            i,
        )
    } else {
        (p1, true)
    }
}

fn siddhi_lot_endings(p: &mut Prakriya, i: usize)
    requires
        i < old(p).terms.len(),
    ensures
        final(p)@ == lot_endings_result(old(p)@, i as int),
        final(p).terms.len() == old(p).terms.len(),
{
    // Applies tin-siddhi rules that apply to just loT.
    if p.terms[i].is_tin(Tin::sip) {
        let hi = vec!['h', 'i'];
        p.apply_at(i, TermOp::SetUText(hi));
        p.apply_at(i, TermOp::RemoveTag(Tag::pit));
        p.step(Rule::Sutra(3, 4, 87));
        proof {
            let t = old(p)@.terms[i as int];
            assert(p@ =~= old(p)@.set_term(
                i as int,
                t.with_u_text(seq!['h', 'i']).remove_tag(Tag::pit),
            ).step(Rule::Sutra(3, 4, 87)));
        }
        if p.is_chandasi() {
            p.optional_run_add_tag(Rule::Sutra(3, 4, 88), i, Tag::Pit);
        }
    } else if p.terms[i].ends_with(&vec!['m', 'i']) {
        // BavAni
        op_adesha(Rule::Sutra(3, 4, 89), p, i, vec!['n', 'i']);
    } else if p.terms[i].has_antya('i') {
        // Bavatu
        let u = vec!['u'];
        assert(u@ == seq!['u']);
        p.run_antya(Rule::Sutra(3, 4, 86), i, u);
    } else if p.terms[i].has_antya('e') {
        if p.terms[i].has_tag(Tag::Uttama) {
            // karavE, karavAvahE, karavAmahE
            let e = vec!['E'];
            assert(e@ == seq!['E']);
            p.run_antya(Rule::Sutra(3, 4, 93), i, e);
        } else if p.terms[i].ends_with(&vec!['s', 'e']) {
            // pacasva
            p.run_last_two(Rule::Sutra(3, 4, 91), i, vec!['s', 'v', 'a']);
        } else if p.terms[i].ends_with(&vec!['v', 'e']) {
            // pacaDvam
            p.run_last_two(Rule::Sutra(3, 4, 91), i, vec!['v', 'a', 'm']);
        } else {
            // pacatAm, pacetAm, pacantAm
            p.run_antya(Rule::Sutra(3, 4, 90), i, vec!['A', 'm']);
        }
    }
}

fn siddhi_lot(p: &mut Prakriya, i: usize) -> (r: bool)
    requires
        i < old(p).terms.len(),
    ensures
        final(p).terms.len() >= old(p).terms.len(),
        (final(p)@, r) == lot_result(old(p)@, i as int),
{
    siddhi_lot_endings(p, i);
    if p.terms[i].has_tag(Tag::Uttama) {
        // BavAni: add pit to the pratyaya, not the Agama.
        p.add_tag_to(i, Tag::pit);
        p.insert_agama(i, Agama::Aw);
        p.step(Rule::Sutra(3, 4, 92));
        run_it_samjna(p, i).is_ok()
    } else {
        true
    }
}

/// The substitutions by lakara: liw and law parasmaipada, leT and loT; the
/// new prakriya, and whether the derivation goes on.
pub open spec fn by_lakara_result(p: PrakriyaView, i: int, i_dhatu: int) -> (PrakriyaView, bool) {
    let t = p.terms[i];
    if (t.has_lakara(Lakara::Lit) || t.has_lakara(Lakara::Lat)) && t.is_parasmaipada() {
        (lit_lat_result(p, i, i_dhatu), true)
    } else if t.has_lakara(Lakara::Let) {
        let_result(p, i, i_dhatu)
    } else if t.has_lakara(Lakara::Lot) {
        lot_result(p, i)
    } else {
        (p, true)
    }
}

fn siddhi_by_lakara(p: &mut Prakriya, i: usize, i_dhatu: usize) -> (r: bool)
    requires
        i < old(p).terms.len(),
        i_dhatu < old(p).terms.len(),
    ensures
        final(p).terms.len() >= old(p).terms.len(),
        (final(p)@, r) == by_lakara_result(old(p)@, i as int, i_dhatu as int),
{
    if (p.terms[i].has_lakara(Lakara::Lit) || p.terms[i].has_lakara(Lakara::Lat))
        && p.terms[i].is_parasmaipada() {
        siddhi_lit_lat(p, i, i_dhatu);
        true
    } else if p.terms[i].has_lakara(Lakara::Let) {
        siddhi_let(p, i, i_dhatu)
    } else if p.terms[i].has_lakara(Lakara::Lot) {
        siddhi_lot(p, i)
    } else {
        true
    }
}

/// Ji becomes jus: in liN (3.4.108); in the Nit lakaras after sic, an
/// abhyasta or vid of adAdi (3.4.109), after a dhatu in A (3.4.110; optional
/// in laN, 3.4.111), and after dviz in laN, optionally (3.4.112). The new
/// prakriya, and whether a term before `i` with nonempty text was there to
/// look at where one was needed.
pub open spec fn jus_result(p: PrakriyaView, i: int, la: Lakara) -> (PrakriyaView, bool) {
    let jus = seq!['j', 'u', 's'];
    if !p.terms[i].is_tin(Tin::Ji) {
        (p, true)
    } else if la == Lakara::AshirLin || la == Lakara::VidhiLin {
        (adesha_spec(p, Rule::Sutra(3, 4, 108), i, jus), true)
    } else if !la.nit() {
        (p, true)
    } else {
        let k = p.prev_not_empty(i);
        if k < 0 {
            (p, false)
        } else {
            let prev = p.terms[k];
            let is_vid = prev.text == seq!['v', 'i', 'd'] && prev.has_gana(Gana::Adadi);
            if prev.is_vikarana(Vikarana::sic) || prev.has_tag(Tag::Abhyasta) || is_vid {
                (adesha_spec(p, Rule::Sutra(3, 4, 109), i, jus), true)
            } else if prev.is_dhatu() && prev.has_antya('A') {
                if la == Lakara::Lan {
                    (optional_adesha_spec(p, Rule::Sutra(3, 4, 111), i, jus), true)
                } else {
                    (adesha_spec(p, Rule::Sutra(3, 4, 110), i, jus), true)
                }
            } else if prev.is_dhatu() && prev.text == seq!['d', 'v', 'i', 'z'] && la
                == Lakara::Lan {
                (optional_adesha_spec(p, Rule::Sutra(3, 4, 112), i, jus), true)
            } else {
                (p, true)
            }
        }
    }
}

fn siddhi_jus(p: &mut Prakriya, i: usize, la: Lakara) -> (r: bool)
    requires
        i < old(p).terms.len(),
    ensures
        (final(p)@, r) == jus_result(old(p)@, i as int, la),
        final(p).terms.len() == old(p).terms.len(),
{
    // Substitution of jhi --> jus. Must occur before 3.4.100 when performing
    // loT/Nit siddhi.
    if p.terms[i].is_tin(Tin::Ji) {
        if la == Lakara::AshirLin || la == Lakara::VidhiLin {
            op_adesha(Rule::Sutra(3, 4, 108), p, i, vec!['j', 'u', 's']);
        } else if la.is_nit() {
            let i_prev = match p.prev_not_empty(i) {
                Some(k) => k,
                None => {
                    return false;
                },
            };
            proof {
                crate::prakriya::lemma_last_nonempty_below(p@.terms, i as int);
            }
            let is_vid = p.terms[i_prev].has_text(&vec!['v', 'i', 'd']) && p.terms[i_prev].has_gana(
                Gana::Adadi,
            );
            if p.terms[i_prev].is_vikarana(Vikarana::sic) || p.terms[i_prev].has_tag(
                Tag::Abhyasta,
            ) || is_vid {
                op_adesha(Rule::Sutra(3, 4, 109), p, i, vec!['j', 'u', 's']);
            } else if p.terms[i_prev].is_dhatu() {
                if p.terms[i_prev].has_antya('A') {
                    if la == Lakara::Lan {
                        optional_adesha(Rule::Sutra(3, 4, 111), p, i, vec!['j', 'u', 's']);
                    } else {
                        op_adesha(Rule::Sutra(3, 4, 110), p, i, vec!['j', 'u', 's']);
                    }
                } else if p.terms[i_prev].has_text(&vec!['d', 'v', 'i', 'z']) && la == Lakara::Lan {
                    optional_adesha(Rule::Sutra(3, 4, 112), p, i, vec!['j', 'u', 's']);
                }
            }
        }
    }
    true
}

/// loT and the Nit lakaras (3.4.85): tas, Tas, Ta, mip become tAm, tam, ta,
/// am (3.4.101); in parasmaipada the s of the uttama drops (3.4.99), and a
/// final i drops outside loT (3.4.100).
pub open spec fn nit_result(p: PrakriyaView, i: int, la: Lakara) -> PrakriyaView {
    if la == Lakara::Lot || la.nit() {
        let p1 = if p.terms[i].has_u_in(WordList::TasThas) {
            yatha_result(p, Rule::Sutra(3, 4, 101), i, WordList::TasThas, WordList::TaamTam)
        } else {
            p
        };
        if p1.terms[i].is_parasmaipada() {
            let p2 = if p1.terms[i].has_tag(Tag::Uttama) && p1.terms[i].has_antya('s') {
                p1.run_text(Rule::Sutra(3, 4, 99), i, set_antya(p1.terms[i].text, Seq::empty()))
            } else {
                p1
            };
            if p2.terms[i].has_antya('i') && la != Lakara::Lot {
                p2.run_text(Rule::Sutra(3, 4, 100), i, set_antya(p2.terms[i].text, Seq::empty()))
            } else {
                p2
            }
        } else {
            p1
        }
    } else {
        p
    }
}

fn siddhi_nit(p: &mut Prakriya, i: usize, la: Lakara)
    requires
        i < old(p).terms.len(),
    ensures
        final(p)@ == nit_result(old(p)@, i as int, la),
        final(p).terms.len() == old(p).terms.len(),
{
    if la == Lakara::Lot || la.is_nit() {
        if p.terms[i].has_u_in(WordList::TasThas) {
            yatha(Rule::Sutra(3, 4, 101), p, i, WordList::TasThas, WordList::TaamTam);
        }
        if p.terms[i].is_parasmaipada() {
            if p.terms[i].has_tag(Tag::Uttama) && p.terms[i].has_antya('s') {
                p.run_antya(Rule::Sutra(3, 4, 99), i, Vec::new());
            }
            // lo~w excluded by existence of 3.4.86
            if p.terms[i].has_antya('i') && la != Lakara::Lot {
                p.run_antya(Rule::Sutra(3, 4, 100), i, Vec::new());
            }
        }
    }
}

/// liN (3.4.102 - 3.4.107): parasmaipada takes yAsuw, and the ending is kit
/// in ASIrliN (3.4.104) and Nit in vidhiliN (3.4.103); atmanepada takes sIyuw
/// (3.4.102), Ja becomes ran (3.4.105) and iw becomes a (3.4.106); then t and
/// T of the ending take s before them (3.4.107). The new prakriya, and whether
/// a term tagged tin was found after the agama.
pub open spec fn lin_result(p: PrakriyaView, i: int, la: Lakara) -> (PrakriyaView, bool) {
    if !p.terms[i].is_lin_lakara() {
        (p, true)
    } else {
        let p1 = if p.terms[i].is_parasmaipada() {
            let q = p.insert_term(i, agama_term(Agama::yAsuw));
            let q2 = if la == Lakara::AshirLin {
                q.run_tag(Rule::Sutra(3, 4, 104), i + 1, Tag::kit)
            } else {
                q.run_tag(Rule::Sutra(3, 4, 103), i + 1, Tag::Nit)
            };
            it_run(q2, i).0
        } else {
            let q = it_run(
                p.insert_term(i, agama_term(Agama::sIyuw)).step(Rule::Sutra(3, 4, 102)),
                i,
            ).0;
            let j = i + 1;
            if q.in_range(j) && q.terms[j].is_tin(Tin::Ja) {
                adesha_spec(q, Rule::Sutra(3, 4, 105), j, seq!['r', 'a', 'n'])
            } else if q.in_range(j) && q.terms[j].is_tin(Tin::iw) {
                adesha_spec(q, Rule::Sutra(3, 4, 106), j, seq!['a'])
            } else {
                q
            }
        };
        let k = p1.find_last_with_tag(Tag::Tin);
        if k < 0 {
            (p1, false)
        } else {
            let text = p1.terms[k].text;
            if text.contains('t') || text.contains('T') {
                let s = replace_char(replace_char(text, 't', seq!['s', 't']), 'T', seq!['s', 'T']);
                (p1.edit_text(k, s).step(Rule::Sutra(3, 4, 107)), true)
            } else {
                (p1, true)
            }
        }
    }
}

fn siddhi_lin(p: &mut Prakriya, i: usize, la: Lakara) -> (r: bool)
    requires
        i < old(p).terms.len(),
    ensures
        final(p).terms.len() >= old(p).terms.len(),
        (final(p)@, r) == lin_result(old(p)@, i as int, la),
{
    if !p.terms[i].is_lin_lakara() {
        return true;
    }
    if p.terms[i].is_parasmaipada() {
        p.insert_agama(i, Agama::yAsuw);
        if la == Lakara::AshirLin {
            // ucyAt: add kit to the pratyaya, not the Agama.
            p.run_add_tag(Rule::Sutra(3, 4, 104), i + 1, Tag::kit);
        } else {
            // kuryAt: add Nit to the pratyaya, not the Agama.
            p.run_add_tag(Rule::Sutra(3, 4, 103), i + 1, Tag::Nit);
        }
        let r = run_it_samjna(p, i);
        assert(r is Ok);
    } else {
        // paceta; pakzIzwa
        p.insert_agama(i, Agama::sIyuw);
        p.step(Rule::Sutra(3, 4, 102));
        let r = run_it_samjna(p, i);
        assert(r is Ok);

        let i_tin = i + 1;
        if i_tin < p.terms.len() && p.terms[i_tin].is_tin(Tin::Ja) {
            // paceran, yajeran, kfzIran
            op_adesha(Rule::Sutra(3, 4, 105), p, i_tin, vec!['r', 'a', 'n']);
        } else if i_tin < p.terms.len() && p.terms[i_tin].is_tin(Tin::iw) {
            // paceya, yajeya, kfzIya, hfzIya
            let a = vec!['a'];
            assert(a@ == seq!['a']);
            op_adesha(Rule::Sutra(3, 4, 106), p, i_tin, a);
        }
    }

    let k = match p.find_last_with_tag(Tag::Tin) {
        Some(k) => k,
        None => {
            return false;
        },
    };
    proof {
        crate::prakriya::lemma_last_with_tag_below(p@.terms, Tag::Tin, p@.terms.len() as int);
    }
    if crate::text::text_contains(&p.terms[k].text, 't') || crate::text::text_contains(
        &p.terms[k].text,
        'T',
    ) {
        // kfzIzwa, kfzIyAstAm; kfzIzWAH, kfzIyAsTAm
        let ghost p1 = p@;
        p.apply_at(k, TermOp::Replace('t', vec!['s', 't']));
        p.apply_at(k, TermOp::Replace('T', vec!['s', 'T']));
        p.step(Rule::Sutra(3, 4, 107));
        proof {
            let text = p1.terms[k as int].text;
            let s = replace_char(replace_char(text, 't', seq!['s', 't']), 'T', seq!['s', 'T']);
            assert(p@ =~= p1.edit_text(k as int, s).step(Rule::Sutra(3, 4, 107)));
        }
    }
    true
}

/// The S of eS is only for sarva-adesha (1.1.55); the last tin term with
/// upadesha eS loses the tag Sit. The new prakriya, and whether a term tagged
/// tin was found.
pub open spec fn clear_sit_result(p: PrakriyaView) -> (PrakriyaView, bool) {
    let i = p.find_last_with_tag(Tag::Tin);
    if i < 0 {
        (p, false)
    } else if p.terms[i].has_u(seq!['e', 'S']) {
        (p.set_term(i, p.terms[i].remove_tag(Tag::Sit)), true)
    } else {
        (p, true)
    }
}

fn siddhi_clear_sit(p: &mut Prakriya) -> (r: bool)
    ensures
        final(p).terms.len() >= old(p).terms.len(),
        (final(p)@, r) == clear_sit_result(old(p)@),
{
    let i = match p.find_last_with_tag(Tag::Tin) {
        Some(i) => i,
        None => {
            return false;
        },
    };
    proof {
        crate::prakriya::lemma_last_with_tag_below(p@.terms, Tag::Tin, p@.terms.len() as int);
    }
    if p.terms[i].has_u(&vec!['e', 'S']) {
        p.apply_at(i, TermOp::RemoveTag(Tag::Sit));
    }
    true
}

/// tin-siddhi: the new prakriya, and whether the derivation reached the end
/// of the section (`siddhi` returns `Some`).
///
/// It stops where the prakriya has no dhatu or no tin term, where the tin
/// term has no lakara, and after the luw prathama ending (2.4.85). Otherwise
/// it applies, in order: the atmanepada endings outside the Nit lakaras
/// (3.4.79 - 3.4.81), the substitutions of liw, law, leT and loT, Ji to jus
/// (3.4.108 - 3.4.112), the rules of loT and the Nit lakaras (3.4.99 -
/// 3.4.101), those of liN (3.4.102 - 3.4.107), and the removal of the S-it of
/// eS.
pub open spec fn siddhi_result(p: PrakriyaView, la: Lakara) -> (PrakriyaView, bool) {
    let i_dhatu = p.find_last_with_tag(Tag::Dhatu);
    let i = p.find_last_with_tag(Tag::Tin);
    if i_dhatu < 0 || i < 0 {
        (p, false)
    } else if p.terms[i].has_tag(Tag::Prathama) && la == Lakara::Lut {
        (lut_result(p, i), false)
    } else if p.terms[i].lakara is None {
        (p, false)
    } else {
        let t = p.terms[i];
        let la = t.lakara->0;
        let p1 = if t.is_atmanepada() && !la.nit() {
            atmanepada_result(p, i)
        } else {
            p
        };
        let (p2, ok2) = by_lakara_result(p1, i, i_dhatu);
        if !ok2 {
            (p2, false)
        } else {
            let (p3, ok3) = jus_result(p2, i, la);
            if !ok3 {
                (p3, false)
            } else {
                let k = p3.find_last_with_tag(Tag::Tin);
                if k < 0 {
                    (p3, false)
                } else {
                    let p4 = nit_result(p3, k, la);
                    let (p5, ok5) = lin_result(p4, k, la);
                    if !ok5 {
                        (p5, false)
                    } else {
                        clear_sit_result(p5)
                    }
                }
            }
        }
    }
}

fn siddhi(p: &mut Prakriya, la: Lakara) -> (r: Option<()>)
    ensures
        (final(p)@, r is Some) == siddhi_result(old(p)@, la),
{
    let i_dhatu = p.find_last_with_tag(Tag::Dhatu)?;
    let i = p.find_last_with_tag(Tag::Tin)?;
    proof {
        crate::prakriya::lemma_last_with_tag_below(p@.terms, Tag::Dhatu, p@.terms.len() as int);
        crate::prakriya::lemma_last_with_tag_below(p@.terms, Tag::Tin, p@.terms.len() as int);
    }

    // Special case: handle lut_siddhi first.
    if p.terms[i].has_tag(Tag::Prathama) && la == Lakara::Lut {
        siddhi_lut(p, i);
        return None;
    }

    let la = p.terms[i].lakara?;

    if p.terms[i].is_atmanepada() && !la.is_nit() {
        siddhi_atmanepada(p, i);
    }

    if !siddhi_by_lakara(p, i, i_dhatu) {
        return None;
    }

    if !siddhi_jus(p, i, la) {
        return None;
    }

    // loT and Nit siddhi (includes lo~w by 3.4.85).
    let i = p.find_last_with_tag(Tag::Tin)?;
    proof {
        crate::prakriya::lemma_last_with_tag_below(p@.terms, Tag::Tin, p@.terms.len() as int);
    }
    siddhi_nit(p, i, la);

    // liN-only siddhi
    if !siddhi_lin(p, i, la) {
        return None;
    }

    // The 'S' of 'eS' is just for sarva-Adeza (1.1.55). If it is kept, it will
    // cause many problems when deriving li~T. So, remove it here.
    if siddhi_clear_sit(p) {
        Some(())
    } else {
        None
    }
}

/// Whether the last term of the prakriya is the ending Ji.
pub open spec fn last_is_jhi(p: PrakriyaView) -> bool {
    p.terms.len() > 0 && p.terms.last().is_tin(Tin::Ji)
}

/// `try_general_siddhi`: tin-siddhi unless the last term is Ji; the new
/// prakriya, and whether there is a last term (`Some`).
pub open spec fn general_siddhi_result(p: PrakriyaView, la: Lakara) -> (PrakriyaView, bool) {
    if p.terms.len() == 0 {
        (p, false)
    } else if last_is_jhi(p) {
        (p, true)
    } else {
        (siddhi_result(p, la).0, true)
    }
}

/// `try_siddhi_for_jhi`: tin-siddhi only where the last term is Ji; the new
/// prakriya, and whether there is a last term (`Some`).
pub open spec fn jhi_siddhi_result(p: PrakriyaView, la: Lakara) -> (PrakriyaView, bool) {
    if p.terms.len() == 0 {
        (p, false)
    } else if last_is_jhi(p) {
        (siddhi_result(p, la).0, true)
    } else {
        (p, true)
    }
}

/// Applies substitutions to the given tin suffix.
pub fn try_general_siddhi(p: &mut Prakriya, la: Lakara) -> (r: Option<()>)
    ensures
        (final(p)@, r is Some) == general_siddhi_result(old(p)@, la),
{
    if p.terms.len() == 0 {
        return None;
    }
    if !p.terms[p.terms.len() - 1].is_tin(Tin::Ji) {
        let _ = siddhi(p, la);
    }
    Some(())
}

/// Applies substitutions to the given tin suffix.
///
/// Due to rule 3.4.109 ("sic-abhyasta-vidibhyaH ca"), this should run after dvitva and the
/// insertion of vikaraNas.
pub fn try_siddhi_for_jhi(p: &mut Prakriya, la: Lakara) -> (r: Option<()>)
    ensures
        (final(p)@, r is Some) == jhi_siddhi_result(old(p)@, la),
{
    if p.terms.len() == 0 {
        return None;
    }
    if p.terms[p.terms.len() - 1].is_tin(Tin::Ji) {
        let _ = siddhi(p, la);
    }
    Some(())
}

} // verus!

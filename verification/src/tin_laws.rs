//! Laws of tin-adesha and tin-siddhi over all prakriyas.

use vstd::prelude::*;
use crate::args::{tin_for, Lakara, Morph, Purusha, Vacana};
use crate::it_samjna::{
    apply_it, it_run, lemma_it_tags_grow,
};
use crate::operators::{adesha_spec, optional_adesha_spec, yatha_spec};
use crate::prakriya::{last_with_tag_below, PrakriyaView, Rule};
use crate::tag::{PrakriyaTag, Tag};
use crate::term::TermView;
use crate::text::{replace_char, WordList};
use crate::tin_pratyaya::{
    adesha_result, atmanepada_result, bru_result, by_lakara_result, clear_sit_result,
    general_siddhi_result, jhi_siddhi_result, jus_result, last_is_jhi, let_agama_result,
    let_endings_result, let_result, lin_result, lit_lat_result, lot_endings_result, lot_result,
    lut_result, nit_result, pada_of, siddhi_result, yatha_optional_result, yatha_result,
};

verus! {

/// `q` follows from `p` by the changes that tin-siddhi makes: no term goes
/// (the last keeps its morpheme), the history and the record of optional
/// rules only grow, the configuration and the prakriya's tags stay, and each
/// optional rule newly met is taken exactly where it is not declined.
pub open spec fn extends(p: PrakriyaView, q: PrakriyaView) -> bool {
    &&& p.terms.len() <= q.terms.len()
    &&& (p.terms.len() > 0 ==> q.terms.last().morph == p.terms.last().morph)
    &&& p.history.len() <= q.history.len()
    &&& q.history.subrange(0, p.history.len() as int) == p.history
    &&& p.decisions.len() <= q.decisions.len()
    &&& q.decisions.subrange(0, p.decisions.len() as int) == p.decisions
    &&& q.declined == p.declined
    &&& q.chandasi == p.chandasi
    &&& q.tags == p.tags
    &&& forall|k: int|
        p.decisions.len() <= k < q.decisions.len() ==> (#[trigger] q.decisions[k]).1
            == !q.declined.contains(q.decisions[k].0)
}

proof fn lemma_extends_refl(p: PrakriyaView)
    ensures
        extends(p, p),
{
    assert(p.history.subrange(0, p.history.len() as int) =~= p.history);
    assert(p.decisions.subrange(0, p.decisions.len() as int) =~= p.decisions);
}

proof fn lemma_extends_trans(p: PrakriyaView, q: PrakriyaView, r: PrakriyaView)
    requires
        extends(p, q),
        extends(q, r),
    ensures
        extends(p, r),
{
    assert(r.history.subrange(0, p.history.len() as int) =~= r.history.subrange(
        0,
        q.history.len() as int,
    ).subrange(0, p.history.len() as int));
    assert(r.decisions.subrange(0, p.decisions.len() as int) =~= r.decisions.subrange(
        0,
        q.decisions.len() as int,
    ).subrange(0, p.decisions.len() as int));
    assert forall|k: int| p.decisions.len() <= k < r.decisions.len() implies (
    #[trigger] r.decisions[k]).1 == !r.declined.contains(r.decisions[k].0) by {
        if k < q.decisions.len() {
            assert(r.decisions[k] == r.decisions.subrange(0, q.decisions.len() as int)[k]);
        }
    }
}

proof fn lemma_extends_step(p: PrakriyaView, rule: Rule)
    ensures
        extends(p, p.step(rule)),
{
    assert(p.step(rule).history.subrange(0, p.history.len() as int) =~= p.history);
    assert(p.decisions.subrange(0, p.decisions.len() as int) =~= p.decisions);
}

proof fn lemma_extends_decide(p: PrakriyaView, rule: Rule)
    ensures
        extends(p, p.decide(rule)),
{
    assert(p.history.subrange(0, p.history.len() as int) =~= p.history);
    assert(p.decide(rule).decisions.subrange(0, p.decisions.len() as int) =~= p.decisions);
}

proof fn lemma_extends_set_term(p: PrakriyaView, i: int, t: TermView)
    requires
        p.in_range(i),
        t.morph == p.terms[i].morph,
    ensures
        extends(p, p.set_term(i, t)),
{
    lemma_extends_refl(p);
}

proof fn lemma_extends_insert(p: PrakriyaView, i: int, t: TermView)
    requires
        p.in_range(i),
    ensures
        extends(p, p.insert_term(i, t)),
{
    lemma_extends_refl(p);
    assert(p.insert_term(i, t).terms.last() == p.terms.last());
}

proof fn lemma_extends_it_run(p: PrakriyaView, i: int)
    ensures
        extends(p, it_run(p, i).0),
{
    lemma_extends_refl(p);
    if p.in_range(i) && p.terms[i].u is Some {
        let q = it_run(p, i).0;
        assert(q.history.subrange(0, p.history.len() as int) =~= p.history);
    }
}

proof fn lemma_extends_edits(p: PrakriyaView, rule: Rule, i: int, s: Seq<char>, tag: Tag)
    ensures
        extends(p, p.edit_text(i, s)),
        extends(p, p.edit_tag(i, tag)),
        extends(p, p.run_text(rule, i, s)),
        extends(p, p.run_tag(rule, i, tag)),
        extends(p, p.optional_run_text(rule, i, s)),
        extends(p, p.optional_run_tag(rule, i, tag)),
{
    lemma_extends_refl(p);
    if p.in_range(i) {
        lemma_extends_set_term(p, i, p.terms[i].with_text(s));
        lemma_extends_set_term(p, i, p.terms[i].add_tag(tag));
        lemma_extends_step(p.edit_text(i, s), rule);
        lemma_extends_trans(p, p.edit_text(i, s), p.run_text(rule, i, s));
        lemma_extends_step(p.edit_tag(i, tag), rule);
        lemma_extends_trans(p, p.edit_tag(i, tag), p.run_tag(rule, i, tag));
    }
    let d = p.decide(rule);
    lemma_extends_decide(p, rule);
    if d.in_range(i) {
        lemma_extends_set_term(d, i, d.terms[i].with_text(s));
        lemma_extends_step(d.edit_text(i, s), rule);
        lemma_extends_trans(d, d.edit_text(i, s), d.run_text(rule, i, s));
        lemma_extends_set_term(d, i, d.terms[i].add_tag(tag));
        lemma_extends_step(d.edit_tag(i, tag), rule);
        lemma_extends_trans(d, d.edit_tag(i, tag), d.run_tag(rule, i, tag));
    } else {
        lemma_extends_refl(d);
    }
    lemma_extends_trans(p, d, d.run_text(rule, i, s));
    lemma_extends_trans(p, d, d.run_tag(rule, i, tag));
}

proof fn lemma_extends_adesha(p: PrakriyaView, rule: Rule, i: int, s: Seq<char>)
    ensures
        extends(p, adesha_spec(p, rule, i, s)),
        extends(p, optional_adesha_spec(p, rule, i, s)),
{
    lemma_extends_refl(p);
    if p.in_range(i) {
        let p1 = p.set_term(i, p.terms[i].with_u_text(s).add_tag(Tag::Adesha));
        lemma_extends_set_term(p, i, p.terms[i].with_u_text(s).add_tag(Tag::Adesha));
        lemma_extends_step(p1, rule);
        lemma_extends_trans(p, p1, p1.step(rule));
        lemma_extends_it_run(p1.step(rule), i);
        lemma_extends_trans(p, p1.step(rule), adesha_spec(p, rule, i, s));
    }
    let d = p.decide(rule);
    lemma_extends_decide(p, rule);
    if d.in_range(i) {
        let d1 = d.set_term(i, d.terms[i].with_u_text(s).add_tag(Tag::Adesha));
        lemma_extends_set_term(d, i, d.terms[i].with_u_text(s).add_tag(Tag::Adesha));
        lemma_extends_step(d1, rule);
        lemma_extends_trans(d, d1, d1.step(rule));
        lemma_extends_it_run(d1.step(rule), i);
        lemma_extends_trans(d, d1.step(rule), adesha_spec(d, rule, i, s));
    } else {
        lemma_extends_refl(d);
    }
    lemma_extends_trans(p, d, adesha_spec(d, rule, i, s));
}

proof fn lemma_extends_yatha(p: PrakriyaView, rule: Rule, i: int, old: WordList, new: WordList)
    ensures
        extends(p, yatha_spec(p, i, old, new)),
        extends(p, yatha_result(p, rule, i, old, new)),
        extends(p, yatha_optional_result(p, rule, i, old, new)),
{
    lemma_extends_yatha_spec(p, i, old, new);
    lemma_extends_yatha_result(p, rule, i, old, new);
    let d = p.decide(rule);
    lemma_extends_decide(p, rule);
    lemma_extends_yatha_result(d, rule, i, old, new);
    lemma_extends_trans(p, d, yatha_result(d, rule, i, old, new));
}

proof fn lemma_extends_yatha_spec(p: PrakriyaView, i: int, old: WordList, new: WordList)
    ensures
        extends(p, yatha_spec(p, i, old, new)),
{
    lemma_extends_refl(p);
    if p.in_range(i) && p.terms[i].u is Some && crate::text::index_from(old, p.terms[i].u->0, 0)
        >= 0 {
        let t = p.terms[i];
        lemma_extends_set_term(
            p,
            i,
            t.with_u_text(crate::text::word(new, crate::text::index_from(old, t.u->0, 0))).add_tag(
                Tag::Adesha,
            ),
        );
    }
}

proof fn lemma_extends_yatha_result(p: PrakriyaView, rule: Rule, i: int, old: WordList, new: WordList)
    ensures
        extends(p, yatha_result(p, rule, i, old, new)),
{
    let p1 = yatha_spec(p, i, old, new);
    lemma_extends_yatha_spec(p, i, old, new);
    lemma_extends_step(p1, rule);
    lemma_extends_trans(p, p1, p1.step(rule));
    lemma_extends_it_run(p1.step(rule), i);
    lemma_extends_trans(p, p1.step(rule), yatha_result(p, rule, i, old, new));
}

proof fn lemma_extends_lut_atmanepada(p: PrakriyaView, i: int)
    ensures
        extends(p, lut_result(p, i)),
        extends(p, atmanepada_result(p, i)),
{
    let t = p.terms[i];
    let ending = if t.has_tag(Tag::Ekavacana) {
        seq!['q', 'A']
    } else if t.has_tag(Tag::Dvivacana) {
        seq!['r', 'O']
    } else {
        seq!['r', 'a', 's']
    };
    lemma_extends_adesha(p, Rule::Sutra(2, 4, 85), i, ending);
    lemma_extends_yatha(p, Rule::Sutra(3, 4, 81), i, WordList::TaJha, WordList::EsIrec);
    lemma_extends_adesha(p, Rule::Sutra(3, 4, 80), i, seq!['s', 'e']);
    lemma_extends_edits(p, Rule::Sutra(3, 4, 79), i, crate::text::set_ti(t.text, seq!['e']), Tag::pit);
}

proof fn lemma_extends_lit_lat(p: PrakriyaView, i: int, i_dhatu: int)
    ensures
        extends(p, lit_lat_result(p, i, i_dhatu)),
{
    lemma_extends_refl(p);
    lemma_extends_yatha(p, Rule::Sutra(3, 4, 82), i, WordList::TinPara, WordList::NalPara);
    lemma_extends_yatha(p, Rule::Sutra(3, 4, 83), i, WordList::TinPara, WordList::NalPara);
    let rule = Rule::Sutra(3, 4, 84);
    let d = p.decide(rule);
    lemma_extends_decide(p, rule);
    let p1 = d.edit_text(i_dhatu, seq!['A', 'h']);
    lemma_extends_edits(d, rule, i_dhatu, seq!['A', 'h'], Tag::pit);
    lemma_extends_trans(p, d, p1);
    lemma_extends_yatha_result(p1, rule, i, WordList::TinPara, WordList::NalPara);
    lemma_extends_trans(p, p1, bru_result(p, i, i_dhatu));
}

proof fn lemma_extends_let_agama(p: PrakriyaView, i: int, i_dhatu: int)
    requires
        p.in_range(i),
    ensures
        extends(p, let_agama_result(p, i, i_dhatu).0),
{
    let p1 = if p.terms[i].ends_with(seq!['m', 'i']) {
        adesha_spec(p, Rule::Sutra(3, 4, 89), i, seq!['n', 'i'])
    } else {
        p
    };
    lemma_extends_refl(p);
    lemma_extends_adesha(p, Rule::Sutra(3, 4, 89), i, seq!['n', 'i']);
    let anyatra = Rule::Anyatra(crate::prakriya::Source::LetSipWithoutAgama);
    let d = p1.decide(anyatra);
    lemma_extends_decide(p1, anyatra);
    lemma_extends_edits(d, anyatra, i, Seq::empty(), Tag::pit);
    lemma_extends_step(d.edit_tag(i, Tag::pit), anyatra);
    lemma_extends_trans(d, d.edit_tag(i, Tag::pit), d.edit_tag(i, Tag::pit).step(anyatra));
    lemma_extends_trans(p1, d, d.edit_tag(i, Tag::pit).step(anyatra));
    lemma_extends_refl(p1);
    let k = p1.prev_not_empty(i);
    let stem_ends_in_a = k >= 0 && p1.terms[k].has_antya('a');
    let is_lun_stem = p1.has_tag(PrakriyaTag::FlagLetStemLun);
    let is_lit_stem = p1.has_tag(PrakriyaTag::FlagLetStemLit);
    let agama = if is_lun_stem || crate::misc::uses_sip_vikarana_spec(p1, i_dhatu)
        || !stem_ends_in_a {
        crate::args::Agama::aw
    } else {
        crate::args::Agama::Aw
    };
    let skip_agama = crate::misc::has_vikarana_spec(p1, crate::args::Vikarana::sip) && p1.in_range(
        i,
    ) && p1.terms[i].is_tin(crate::args::Tin::sip);
    let skipped = skip_agama && p1.allows(anyatra);
    let p2 = if skip_agama {
        if p1.allows(anyatra) {
            p1.decide(anyatra).edit_tag(i, Tag::pit).step(anyatra)
        } else {
            p1.decide(anyatra)
        }
    } else {
        p1
    };
    lemma_extends_trans(p, p1, p2);
    if !skipped {
        let r94 = Rule::Sutra(3, 4, 94);
        let base = if is_lit_stem && agama == crate::args::Agama::aw {
            p2.decide(r94)
        } else {
            p2
        };
        lemma_extends_decide(p2, r94);
        lemma_extends_refl(p2);
        let e = base.edit_tag(i, Tag::pit);
        lemma_extends_edits(base, r94, i, Seq::empty(), Tag::pit);
        lemma_extends_trans(p2, base, e);
        let a = if is_lit_stem && agama == crate::args::Agama::aw {
            if p2.allows(r94) {
                crate::args::Agama::Aw
            } else {
                crate::args::Agama::aw
            }
        } else {
            agama
        };
        let ins = e.insert_term(i, crate::term::agama_term(a));
        lemma_extends_insert(e, i, crate::term::agama_term(a));
        lemma_extends_step(ins, r94);
        lemma_extends_trans(e, ins, ins.step(r94));
        lemma_extends_it_run(ins.step(r94), i);
        lemma_extends_trans(ins, ins.step(r94), it_run(ins.step(r94), i).0);
        lemma_extends_trans(e, ins, it_run(ins.step(r94), i).0);
        lemma_extends_trans(p2, e, it_run(ins.step(r94), i).0);
        lemma_extends_trans(p, p2, it_run(ins.step(r94), i).0);
    }
}

proof fn lemma_extends_let_endings(p: PrakriyaView, i: int, i_dhatu: int)
    ensures
        extends(p, let_endings_result(p, i, i_dhatu)),
{
    let t = p.terms[i];
    let e = seq!['E'];
    let z = Seq::<char>::empty();
    lemma_extends_refl(p);
    lemma_extends_edits(p, Rule::Sutra(3, 4, 95), i, crate::text::set_adi(t.text, e), Tag::pit);
    lemma_extends_edits(p, Rule::Sutra(3, 4, 97), i, crate::text::set_antya(t.text, z), Tag::pit);
    lemma_extends_edits(p, Rule::Sutra(3, 4, 98), i, crate::text::set_antya(t.text, z), Tag::pit);
    let p1 = if t.has_adi('A') {
        p.run_text(Rule::Sutra(3, 4, 95), i, crate::text::set_adi(t.text, seq!['E']))
    } else if p.in_range(i_dhatu) && p.terms[i_dhatu].has_u_in(WordList::SipDhatus)
        && t.is_parasmaipada() && t.has_antya('i') {
        p.run_text(Rule::Sutra(3, 4, 97), i, crate::text::set_antya(t.text, Seq::empty()))
    } else if p.has_tag(PrakriyaTag::Uttama) && t.has_antya('s') {
        p.optional_run_text(Rule::Sutra(3, 4, 98), i, crate::text::set_antya(t.text, Seq::empty()))
    } else {
        p
    };
    let t1 = p1.terms[i];
    lemma_extends_refl(p1);
    lemma_extends_edits(p1, Rule::Sutra(3, 4, 96), i, crate::text::set_antya(t1.text, e), Tag::pit);
    let exclude_non_uttama_dual = t1.has_tag(Tag::Dvivacana) && !p1.has_tag(PrakriyaTag::Uttama);
    let p2 = if t1.is_atmanepada() && t1.has_antya('e') && !exclude_non_uttama_dual {
        p1.optional_run_text(Rule::Sutra(3, 4, 96), i, crate::text::set_antya(t1.text, seq!['E']))
    } else {
        p1
    };
    lemma_extends_trans(p, p1, p2);
    let t2 = p2.terms[i];
    lemma_extends_refl(p2);
    lemma_extends_edits(p2, Rule::Sutra(3, 4, 97), i, crate::text::set_antya(t2.text, z), Tag::pit);
    let p3 = if t2.is_parasmaipada() && t2.has_antya('i') && !(t2.has_tag(Tag::Uttama)
        && t2.has_tag(Tag::Ekavacana)) {
        p2.optional_run_text(Rule::Sutra(3, 4, 97), i, crate::text::set_antya(t2.text, Seq::empty()))
    } else {
        p2
    };
    lemma_extends_trans(p, p2, p3);
    lemma_extends_refl(p3);
    lemma_extends_edits(p3, Rule::Anyatra(crate::prakriya::Source::LetBareA), i, z, Tag::pit);
    lemma_extends_trans(p, p3, let_endings_result(p, i, i_dhatu));
}

proof fn lemma_extends_let(p: PrakriyaView, i: int, i_dhatu: int)
    requires
        p.in_range(i),
    ensures
        extends(p, let_result(p, i, i_dhatu).0),
{
    let r = let_agama_result(p, i, i_dhatu);
    lemma_extends_let_agama(p, i, i_dhatu);
    lemma_extends_let_endings(r.0, r.1, i_dhatu);
    lemma_extends_trans(p, r.0, let_endings_result(r.0, r.1, i_dhatu));
}

proof fn lemma_extends_lot(p: PrakriyaView, i: int)
    requires
        p.in_range(i),
    ensures
        extends(p, lot_result(p, i).0),
{
    let t = p.terms[i];
    lemma_extends_refl(p);
    let q0 = p.set_term(i, t.with_u_text(seq!['h', 'i']).remove_tag(Tag::pit));
    lemma_extends_set_term(p, i, t.with_u_text(seq!['h', 'i']).remove_tag(Tag::pit));
    lemma_extends_step(q0, Rule::Sutra(3, 4, 87));
    lemma_extends_trans(p, q0, q0.step(Rule::Sutra(3, 4, 87)));
    let q = q0.step(Rule::Sutra(3, 4, 87));
    lemma_extends_edits(q, Rule::Sutra(3, 4, 88), i, Seq::empty(), Tag::Pit);
    lemma_extends_trans(p, q, q.optional_run_tag(Rule::Sutra(3, 4, 88), i, Tag::Pit));
    lemma_extends_adesha(p, Rule::Sutra(3, 4, 89), i, seq!['n', 'i']);
    lemma_extends_edits(p, Rule::Sutra(3, 4, 86), i, crate::text::set_antya(t.text, seq!['u']), Tag::pit);
    lemma_extends_edits(p, Rule::Sutra(3, 4, 93), i, crate::text::set_antya(t.text, seq!['E']), Tag::pit);
    lemma_extends_edits(p, Rule::Sutra(3, 4, 91), i, crate::text::set_last_two(t.text, seq!['s', 'v', 'a']), Tag::pit);
    lemma_extends_edits(p, Rule::Sutra(3, 4, 91), i, crate::text::set_last_two(t.text, seq!['v', 'a', 'm']), Tag::pit);
    lemma_extends_edits(p, Rule::Sutra(3, 4, 90), i, crate::text::set_antya(t.text, seq!['A', 'm']), Tag::pit);
    let p1 = lot_endings_result(p, i);
    assert(extends(p, p1));
    if p1.terms[i].has_tag(Tag::Uttama) {
        let e = p1.edit_tag(i, Tag::pit);
        lemma_extends_edits(p1, Rule::Sutra(3, 4, 92), i, Seq::empty(), Tag::pit);
        let ins = e.insert_term(i, crate::term::agama_term(crate::args::Agama::Aw));
        lemma_extends_insert(e, i, crate::term::agama_term(crate::args::Agama::Aw));
        lemma_extends_step(ins, Rule::Sutra(3, 4, 92));
        lemma_extends_it_run(ins.step(Rule::Sutra(3, 4, 92)), i);
        lemma_extends_trans(ins, ins.step(Rule::Sutra(3, 4, 92)), it_run(ins.step(Rule::Sutra(3, 4, 92)), i).0);
        lemma_extends_trans(e, ins, it_run(ins.step(Rule::Sutra(3, 4, 92)), i).0);
        lemma_extends_trans(p1, e, it_run(ins.step(Rule::Sutra(3, 4, 92)), i).0);
        lemma_extends_trans(p, p1, it_run(ins.step(Rule::Sutra(3, 4, 92)), i).0);
    }
}

proof fn lemma_extends_by_lakara(p: PrakriyaView, i: int, i_dhatu: int)
    requires
        p.in_range(i),
    ensures
        extends(p, by_lakara_result(p, i, i_dhatu).0),
{
    lemma_extends_refl(p);
    lemma_extends_lit_lat(p, i, i_dhatu);
    lemma_extends_let(p, i, i_dhatu);
    lemma_extends_lot(p, i);
}

proof fn lemma_extends_jus(p: PrakriyaView, i: int, la: Lakara)
    ensures
        extends(p, jus_result(p, i, la).0),
{
    let jus = seq!['j', 'u', 's'];
    lemma_extends_refl(p);
    lemma_extends_adesha(p, Rule::Sutra(3, 4, 108), i, jus);
    lemma_extends_adesha(p, Rule::Sutra(3, 4, 109), i, jus);
    lemma_extends_adesha(p, Rule::Sutra(3, 4, 110), i, jus);
    lemma_extends_adesha(p, Rule::Sutra(3, 4, 111), i, jus);
    lemma_extends_adesha(p, Rule::Sutra(3, 4, 112), i, jus);
}

proof fn lemma_extends_nit(p: PrakriyaView, i: int, la: Lakara)
    ensures
        extends(p, nit_result(p, i, la)),
{
    lemma_extends_refl(p);
    lemma_extends_yatha(p, Rule::Sutra(3, 4, 101), i, WordList::TasThas, WordList::TaamTam);
    let p1 = if p.terms[i].has_u_in(WordList::TasThas) {
        yatha_result(p, Rule::Sutra(3, 4, 101), i, WordList::TasThas, WordList::TaamTam)
    } else {
        p
    };
    let z = Seq::<char>::empty();
    lemma_extends_refl(p1);
    lemma_extends_edits(p1, Rule::Sutra(3, 4, 99), i, crate::text::set_antya(p1.terms[i].text, z), Tag::pit);
    let p2 = if p1.terms[i].has_tag(Tag::Uttama) && p1.terms[i].has_antya('s') {
        p1.run_text(Rule::Sutra(3, 4, 99), i, crate::text::set_antya(p1.terms[i].text, Seq::empty()))
    } else {
        p1
    };
    lemma_extends_trans(p, p1, p2);
    lemma_extends_edits(p2, Rule::Sutra(3, 4, 100), i, crate::text::set_antya(p2.terms[i].text, z), Tag::pit);
    lemma_extends_trans(p, p2, p2.run_text(Rule::Sutra(3, 4, 100), i, crate::text::set_antya(p2.terms[i].text, Seq::empty())));
}

proof fn lemma_extends_lin(p: PrakriyaView, i: int, la: Lakara)
    requires
        p.in_range(i),
    ensures
        extends(p, lin_result(p, i, la).0),
{
    lemma_extends_refl(p);
    if p.terms[i].is_lin_lakara() {
        let yas = crate::term::agama_term(crate::args::Agama::yAsuw);
        let q = p.insert_term(i, yas);
        lemma_extends_insert(p, i, yas);
        lemma_extends_edits(q, Rule::Sutra(3, 4, 104), i + 1, Seq::empty(), Tag::kit);
        lemma_extends_edits(q, Rule::Sutra(3, 4, 103), i + 1, Seq::empty(), Tag::Nit);
        let q2 = if la == Lakara::AshirLin {
            q.run_tag(Rule::Sutra(3, 4, 104), i + 1, Tag::kit)
        } else {
            q.run_tag(Rule::Sutra(3, 4, 103), i + 1, Tag::Nit)
        };
        lemma_extends_trans(p, q, q2);
        lemma_extends_it_run(q2, i);
        lemma_extends_trans(p, q2, it_run(q2, i).0);

        let siy = crate::term::agama_term(crate::args::Agama::sIyuw);
        let r0 = p.insert_term(i, siy);
        lemma_extends_insert(p, i, siy);
        lemma_extends_step(r0, Rule::Sutra(3, 4, 102));
        lemma_extends_trans(p, r0, r0.step(Rule::Sutra(3, 4, 102)));
        let r = it_run(r0.step(Rule::Sutra(3, 4, 102)), i).0;
        lemma_extends_it_run(r0.step(Rule::Sutra(3, 4, 102)), i);
        lemma_extends_trans(p, r0.step(Rule::Sutra(3, 4, 102)), r);
        lemma_extends_adesha(r, Rule::Sutra(3, 4, 105), i + 1, seq!['r', 'a', 'n']);
        lemma_extends_adesha(r, Rule::Sutra(3, 4, 106), i + 1, seq!['a']);
        lemma_extends_refl(r);
        let r2 = if r.in_range(i + 1) && r.terms[i + 1].is_tin(crate::args::Tin::Ja) {
            adesha_spec(r, Rule::Sutra(3, 4, 105), i + 1, seq!['r', 'a', 'n'])
        } else if r.in_range(i + 1) && r.terms[i + 1].is_tin(crate::args::Tin::iw) {
            adesha_spec(r, Rule::Sutra(3, 4, 106), i + 1, seq!['a'])
        } else {
            r
        };
        lemma_extends_trans(p, r, r2);

        let p1 = if p.terms[i].is_parasmaipada() {
            it_run(q2, i).0
        } else {
            r2
        };
        let k = p1.find_last_with_tag(Tag::Tin);
        if k >= 0 {
            let text = p1.terms[k].text;
            let s2 = crate::text::replace_char(
                crate::text::replace_char(text, 't', seq!['s', 't']),
                'T',
                seq!['s', 'T'],
            );
            lemma_extends_edits(p1, Rule::Sutra(3, 4, 107), k, s2, Tag::pit);
            lemma_extends_step(p1.edit_text(k, s2), Rule::Sutra(3, 4, 107));
            lemma_extends_trans(p1, p1.edit_text(k, s2), p1.edit_text(k, s2).step(Rule::Sutra(3, 4, 107)));
            lemma_extends_trans(p, p1, p1.edit_text(k, s2).step(Rule::Sutra(3, 4, 107)));
        }
    }
}

proof fn lemma_extends_clear_sit(p: PrakriyaView)
    ensures
        extends(p, clear_sit_result(p).0),
{
    lemma_extends_refl(p);
    let i = p.find_last_with_tag(Tag::Tin);
    crate::prakriya::lemma_last_with_tag_below(p.terms, Tag::Tin, p.terms.len() as int);
    if i >= 0 {
        lemma_extends_set_term(p, i, p.terms[i].remove_tag(Tag::Sit));
    }
}

/// tin-siddhi never removes a term (and the last term keeps its morpheme);
/// it only adds to the history and to the record of optional rules; it keeps
/// the configuration and the prakriya's tags; and it takes each optional rule
/// that it meets exactly where the derivation does not decline it.
pub proof fn lemma_siddhi_extends(p: PrakriyaView, la: Lakara)
    ensures
        extends(p, siddhi_result(p, la).0),
{
    lemma_extends_refl(p);
    let i_dhatu = p.find_last_with_tag(Tag::Dhatu);
    let i = p.find_last_with_tag(Tag::Tin);
    crate::prakriya::lemma_last_with_tag_below(p.terms, Tag::Tin, p.terms.len() as int);
    if i_dhatu >= 0 && i >= 0 {
        lemma_extends_lut_atmanepada(p, i);
        if !(p.terms[i].has_tag(Tag::Prathama) && la == Lakara::Lut) && p.terms[i].lakara is Some {
            let t = p.terms[i];
            let l = t.lakara->0;
            let p1 = if t.is_atmanepada() && !l.nit() {
                atmanepada_result(p, i)
            } else {
                p
            };
            lemma_extends_by_lakara(p1, i, i_dhatu);
            let p2 = by_lakara_result(p1, i, i_dhatu).0;
            lemma_extends_trans(p, p1, p2);
            lemma_extends_jus(p2, i, l);
            let p3 = jus_result(p2, i, l).0;
            lemma_extends_trans(p, p2, p3);
            let k = p3.find_last_with_tag(Tag::Tin);
            crate::prakriya::lemma_last_with_tag_below(p3.terms, Tag::Tin, p3.terms.len() as int);
            if k >= 0 {
                lemma_extends_nit(p3, k, l);
                let p4 = nit_result(p3, k, l);
                lemma_extends_trans(p, p3, p4);
                lemma_extends_lin(p4, k, l);
                let p5 = lin_result(p4, k, l).0;
                lemma_extends_trans(p, p4, p5);
                lemma_extends_clear_sit(p5);
                lemma_extends_trans(p, p5, clear_sit_result(p5).0);
            }
        }
    }
}

/// The two entry points split the prakriyas between them:
/// `try_general_siddhi` runs tin-siddhi exactly where the last term is not
/// Ji, and `try_siddhi_for_jhi` exactly where it is. So calling both, in
/// either order, runs tin-siddhi once; and both return `Some` exactly where
/// the prakriya has a term.
pub proof fn lemma_entry_points_partition(p: PrakriyaView, la: Lakara)
    ensures
        general_siddhi_result(p, la).1 == (p.terms.len() > 0),
        jhi_siddhi_result(p, la).1 == (p.terms.len() > 0),
        general_siddhi_result(p, la).0 == p || jhi_siddhi_result(p, la).0 == p,
        jhi_siddhi_result(general_siddhi_result(p, la).0, la).0 == siddhi_result(p, la).0,
        general_siddhi_result(jhi_siddhi_result(p, la).0, la).0 == siddhi_result(p, la).0,
{
    lemma_siddhi_extends(p, la);
    let q = siddhi_result(p, la).0;
    if p.terms.len() == 0 {
        assert(p.find_last_with_tag(Tag::Dhatu) < 0);
        assert(q == p);
    } else {
        assert(last_is_jhi(q) == last_is_jhi(p));
    }
}

/// Changing a term at `i` without changing whether it carries `tag` leaves
/// the last index with `tag` where it was.
proof fn lemma_last_with_tag_update(terms: Seq<TermView>, tag: Tag, n: int, i: int, t: TermView)
    requires
        0 <= i < terms.len(),
        0 <= n <= terms.len(),
        t.has_tag(tag) == terms[i].has_tag(tag),
    ensures
        last_with_tag_below(terms.update(i, t), tag, n) == last_with_tag_below(terms, tag, n),
    decreases n,
{
    if n > 0 {
        lemma_last_with_tag_update(terms, tag, n - 1, i, t);
    }
}

/// tin-adesha (3.4.78). Where the prakriya has a pratyaya, the last one takes
/// as upadesha and morpheme the tin ending for the pada, person and number;
/// it is tagged vibhakti (1.4.104), tin, with its person, number and pada, and
/// as an adesha, and keeps the tags it had but N-it; it never carries N-it (not
/// from the lakara, nor from mahiN); no other term changes; and the history
/// goes on with 3.4.78. Where there is no pratyaya, nothing changes.
pub proof fn lemma_adesha_ending(p: PrakriyaView, purusha: Purusha, vacana: Vacana)
    ensures
        p.find_last_with_tag(Tag::Pratyaya) < 0 ==> adesha_result(p, purusha, vacana) == p,
        p.find_last_with_tag(Tag::Pratyaya) >= 0 ==> {
            let i = p.find_last_with_tag(Tag::Pratyaya);
            let q = adesha_result(p, purusha, vacana);
            let pada = pada_of(p);
            let tin = tin_for(pada, purusha, vacana);
            &&& q.terms.len() == p.terms.len()
            &&& q.terms[i].u == Some(tin.text())
            &&& q.terms[i].morph == Morph::Tin(tin)
            &&& q.terms[i].has_tag(Tag::Vibhakti)
            &&& q.terms[i].has_tag(Tag::Tin)
            &&& q.terms[i].has_tag(purusha.tag())
            &&& q.terms[i].has_tag(vacana.tag())
            &&& q.terms[i].has_tag(pada.tag())
            &&& q.terms[i].has_tag(Tag::Adesha)
            &&& !q.terms[i].has_tag(Tag::Nit)
            &&& forall|x: Tag| x != Tag::Nit && #[trigger] p.terms[i].has_tag(x) ==> q.terms[i].has_tag(x)
            &&& forall|j: int| 0 <= j < p.terms.len() && j != i ==> #[trigger] q.terms[j] == p.terms[j]
            &&& q.history.len() > p.history.len()
            &&& q.history.subrange(0, p.history.len() as int) == p.history
            &&& q.history[p.history.len() as int] == Rule::Sutra(3, 4, 78)
        },
{
    let i = p.find_last_with_tag(Tag::Pratyaya);
    crate::prakriya::lemma_last_with_tag_below(p.terms, Tag::Pratyaya, p.terms.len() as int);
    if i >= 0 {
        let pada = pada_of(p);
        let tin = tin_for(pada, purusha, vacana);
        let t = p.terms[i];
        let t1 = t.add_tag(Tag::Vibhakti).add_tag(Tag::Tin).add_tag(purusha.tag()).add_tag(
            vacana.tag(),
        ).add_tag(pada.tag());
        let p1 = p.set_term(i, TermView { morph: Morph::Tin(tin), ..t1 });
        let t2 = p1.terms[i].with_u_text(tin.text()).add_tag(Tag::Adesha);
        let p2 = p1.set_term(i, t2).step(Rule::Sutra(3, 4, 78));
        lemma_it_tags_grow(t2, tin.text());
        let p3 = it_run(p2, i).0;
        assert(p3.terms[i] == apply_it(t2, tin.text()));
        let q = adesha_result(p, purusha, vacana);
        assert(q.history =~= p3.history);
        assert(p3.history.subrange(0, p.history.len() as int) =~= p.history);
    }
}

/// luw prathama (2.4.85). Where the prakriya has a dhatu and a tin term and
/// the last tin term is prathama, tin-siddhi for luw replaces its ending by
/// qA, rO or ras by number, changes no other term, and stops there.
pub proof fn lemma_lut_prathama(p: PrakriyaView)
    requires
        p.find_last_with_tag(Tag::Dhatu) >= 0,
        p.find_last_with_tag(Tag::Tin) >= 0,
        p.terms[p.find_last_with_tag(Tag::Tin)].has_tag(Tag::Prathama),
    ensures
        ({
            let i = p.find_last_with_tag(Tag::Tin);
            let t = p.terms[i];
            let q = siddhi_result(p, Lakara::Lut);
            &&& !q.1
            &&& q.0.terms.len() == p.terms.len()
            &&& q.0.terms[i].u == Some(
                if t.has_tag(Tag::Ekavacana) {
                    seq!['q', 'A']
                } else if t.has_tag(Tag::Dvivacana) {
                    seq!['r', 'O']
                } else {
                    seq!['r', 'a', 's']
                },
            )
            &&& forall|j: int| 0 <= j < p.terms.len() && j != i ==> #[trigger] q.0.terms[j] == p.terms[j]
        }),
{
    crate::prakriya::lemma_last_with_tag_below(p.terms, Tag::Tin, p.terms.len() as int);
}

/// Where tin-siddhi reaches the end, there is a last tin term, and it does
/// not carry S-it where its upadesha is eS: the S of eS serves sarva-adesha
/// (1.1.55) only.
pub proof fn lemma_siddhi_clears_es(p: PrakriyaView, la: Lakara)
    ensures
        siddhi_result(p, la).1 ==> {
            let q = siddhi_result(p, la).0;
            let k = q.find_last_with_tag(Tag::Tin);
            &&& k >= 0
            &&& q.terms[k].has_u(seq!['e', 'S']) ==> !q.terms[k].has_tag(Tag::Sit)
        },
{
    let i_dhatu = p.find_last_with_tag(Tag::Dhatu);
    let i = p.find_last_with_tag(Tag::Tin);
    if i_dhatu >= 0 && i >= 0 && !(p.terms[i].has_tag(Tag::Prathama) && la == Lakara::Lut)
        && p.terms[i].lakara is Some {
        let t = p.terms[i];
        let l = t.lakara->0;
        let p1 = if t.is_atmanepada() && !l.nit() {
            atmanepada_result(p, i)
        } else {
            p
        };
        let p2 = by_lakara_result(p1, i, i_dhatu).0;
        let p3 = jus_result(p2, i, l).0;
        let k = p3.find_last_with_tag(Tag::Tin);
        if k >= 0 {
            let p4 = nit_result(p3, k, l);
            let p5 = lin_result(p4, k, l).0;
            lemma_clear_sit(p5);
        }
    }
}

proof fn lemma_clear_sit(p: PrakriyaView)
    ensures
        clear_sit_result(p).1 ==> {
            let q = clear_sit_result(p).0;
            let k = q.find_last_with_tag(Tag::Tin);
            &&& k >= 0
            &&& q.terms[k].has_u(seq!['e', 'S']) ==> !q.terms[k].has_tag(Tag::Sit)
        },
{
    let i = p.find_last_with_tag(Tag::Tin);
    crate::prakriya::lemma_last_with_tag_below(p.terms, Tag::Tin, p.terms.len() as int);
    if i >= 0 && p.terms[i].has_u(seq!['e', 'S']) {
        lemma_last_with_tag_update(
            p.terms,
            Tag::Tin,
            p.terms.len() as int,
            i,
            p.terms[i].remove_tag(Tag::Sit),
        );
    }
}

/// `q` extends `p`, and no optional rule met on the way is `rule`.
pub open spec fn avoids(p: PrakriyaView, q: PrakriyaView, rule: Rule) -> bool {
    &&& extends(p, q)
    &&& forall|k: int| p.decisions.len() <= k < q.decisions.len() ==> (#[trigger] q.decisions[k]).0 != rule
}

proof fn lemma_avoids_trans(p: PrakriyaView, q: PrakriyaView, r: PrakriyaView, rule: Rule)
    requires
        avoids(p, q, rule),
        avoids(q, r, rule),
    ensures
        avoids(p, r, rule),
{
    lemma_extends_trans(p, q, r);
    assert forall|k: int| p.decisions.len() <= k < r.decisions.len() implies (
    #[trigger] r.decisions[k]).0 != rule by {
        if k < q.decisions.len() {
            assert(r.decisions[k] == r.decisions.subrange(0, q.decisions.len() as int)[k]);
        }
    }
}

/// Edits that meet no optional rule avoid every rule.
proof fn lemma_avoids_plain(p: PrakriyaView, q: PrakriyaView, rule: Rule)
    requires
        extends(p, q),
        q.decisions.len() == p.decisions.len(),
    ensures
        avoids(p, q, rule),
{
}

proof fn lemma_avoids_optional(p: PrakriyaView, other: Rule, rule: Rule, i: int, s: Seq<char>)
    requires
        other != rule,
    ensures
        avoids(p, p.optional_run_text(other, i, s), rule),
        avoids(p, p.run_text(other, i, s), rule),
{
    lemma_extends_edits(p, other, i, s, Tag::pit);
}

/// Under leT, a 1sg ending is never offered the optional lopa of its final i
/// (3.4.97): the N-it of the lakara does not pass to the substitute -ni
/// (Kasika on 3.4.103), so its -i stays.
pub proof fn lemma_let_1sg_not_offered_optional_lopa(p: PrakriyaView, i: int, i_dhatu: int)
    requires
        p.in_range(i),
        p.terms[i].has_tag(Tag::Uttama),
        p.terms[i].has_tag(Tag::Ekavacana),
    ensures
        avoids(p, let_result(p, i, i_dhatu).0, Rule::Sutra(3, 4, 97)),
{
    let r97 = Rule::Sutra(3, 4, 97);
    let (p4, j, ok) = let_agama_result(p, i, i_dhatu);
    lemma_let_agama_keeps_1sg(p, i, i_dhatu);
    if ok {
        lemma_let_endings_1sg(p4, j, i_dhatu);
        lemma_avoids_trans(p, p4, let_endings_result(p4, j, i_dhatu), r97);
    }
}

proof fn lemma_let_agama_keeps_1sg(p: PrakriyaView, i: int, i_dhatu: int)
    requires
        p.in_range(i),
        p.terms[i].has_tag(Tag::Uttama),
        p.terms[i].has_tag(Tag::Ekavacana),
    ensures
        avoids(p, let_agama_result(p, i, i_dhatu).0, Rule::Sutra(3, 4, 97)),
        let_agama_result(p, i, i_dhatu).2 ==> {
            let (q, j, _) = let_agama_result(p, i, i_dhatu);
            &&& q.in_range(j)
            &&& q.terms[j].has_tag(Tag::Uttama)
            &&& q.terms[j].has_tag(Tag::Ekavacana)
        },
{
    let r97 = Rule::Sutra(3, 4, 97);
    lemma_extends_let_agama(p, i, i_dhatu);
    let p1 = if p.terms[i].ends_with(seq!['m', 'i']) {
        adesha_spec(p, Rule::Sutra(3, 4, 89), i, seq!['n', 'i'])
    } else {
        p
    };
    lemma_extends_adesha(p, Rule::Sutra(3, 4, 89), i, seq!['n', 'i']);
    lemma_extends_refl(p);
    if p.terms[i].ends_with(seq!['m', 'i']) {
        let t2 = p.terms[i].with_u_text(seq!['n', 'i']).add_tag(Tag::Adesha);
        lemma_it_tags_grow(t2, seq!['n', 'i']);
    }
    assert(p1.terms[i].has_tag(Tag::Uttama) && p1.terms[i].has_tag(Tag::Ekavacana));
    let anyatra = Rule::Anyatra(crate::prakriya::Source::LetSipWithoutAgama);
    let k = p1.prev_not_empty(i);
    let stem_ends_in_a = k >= 0 && p1.terms[k].has_antya('a');
    let is_lun_stem = p1.has_tag(PrakriyaTag::FlagLetStemLun);
    let is_lit_stem = p1.has_tag(PrakriyaTag::FlagLetStemLit);
    let agama = if is_lun_stem || crate::misc::uses_sip_vikarana_spec(p1, i_dhatu)
        || !stem_ends_in_a {
        crate::args::Agama::aw
    } else {
        crate::args::Agama::Aw
    };
    let skip_agama = crate::misc::has_vikarana_spec(p1, crate::args::Vikarana::sip) && p1.in_range(
        i,
    ) && p1.terms[i].is_tin(crate::args::Tin::sip);
    let skipped = skip_agama && p1.allows(anyatra);
    let p2 = if skip_agama {
        if p1.allows(anyatra) {
            p1.decide(anyatra).edit_tag(i, Tag::pit).step(anyatra)
        } else {
            p1.decide(anyatra)
        }
    } else {
        p1
    };
    lemma_extends_decide(p1, anyatra);
    lemma_extends_edits(p1.decide(anyatra), anyatra, i, Seq::empty(), Tag::pit);
    lemma_extends_step(p1.decide(anyatra).edit_tag(i, Tag::pit), anyatra);
    lemma_extends_trans(
        p1.decide(anyatra),
        p1.decide(anyatra).edit_tag(i, Tag::pit),
        p1.decide(anyatra).edit_tag(i, Tag::pit).step(anyatra),
    );
    lemma_extends_trans(p1, p1.decide(anyatra), p1.decide(anyatra).edit_tag(i, Tag::pit).step(anyatra));
    lemma_extends_refl(p1);
    assert(avoids(p1, p2, r97));
    assert(p2.terms[i].has_tag(Tag::Uttama) && p2.terms[i].has_tag(Tag::Ekavacana));
    lemma_avoids_plain(p, p1, r97);
    lemma_avoids_trans(p, p1, p2, r97);
    if !skipped {
        let r94 = Rule::Sutra(3, 4, 94);
        let base = if is_lit_stem && agama == crate::args::Agama::aw {
            p2.decide(r94)
        } else {
            p2
        };
        lemma_extends_decide(p2, r94);
        lemma_extends_refl(p2);
        assert(avoids(p2, base, r97));
        let e = base.edit_tag(i, Tag::pit);
        lemma_extends_edits(base, r94, i, Seq::empty(), Tag::pit);
        let a = if is_lit_stem && agama == crate::args::Agama::aw {
            if p2.allows(r94) {
                crate::args::Agama::Aw
            } else {
                crate::args::Agama::aw
            }
        } else {
            agama
        };
        let ins = e.insert_term(i, crate::term::agama_term(a));
        lemma_extends_insert(e, i, crate::term::agama_term(a));
        lemma_extends_step(ins, r94);
        lemma_extends_it_run(ins.step(r94), i);
        lemma_extends_trans(ins, ins.step(r94), it_run(ins.step(r94), i).0);
        lemma_extends_trans(e, ins, it_run(ins.step(r94), i).0);
        lemma_extends_trans(base, e, it_run(ins.step(r94), i).0);
        lemma_avoids_plain(base, it_run(ins.step(r94), i).0, r97);
        lemma_avoids_trans(p2, base, it_run(ins.step(r94), i).0, r97);
        lemma_avoids_trans(p, p2, it_run(ins.step(r94), i).0, r97);
        assert(ins.terms[i + 1] == e.terms[i]);
        assert(it_run(ins.step(r94), i).0.terms[i + 1] == ins.terms[i + 1]);
    }
}

proof fn lemma_let_endings_1sg(p: PrakriyaView, i: int, i_dhatu: int)
    requires
        p.in_range(i),
        p.terms[i].has_tag(Tag::Uttama),
        p.terms[i].has_tag(Tag::Ekavacana),
    ensures
        avoids(p, let_endings_result(p, i, i_dhatu), Rule::Sutra(3, 4, 97)),
{
    let r97 = Rule::Sutra(3, 4, 97);
    let t = p.terms[i];
    let z = Seq::<char>::empty();
    lemma_extends_refl(p);
    lemma_avoids_optional(p, Rule::Sutra(3, 4, 95), r97, i, crate::text::set_adi(t.text, seq!['E']));
    lemma_extends_edits(p, r97, i, crate::text::set_antya(t.text, z), Tag::pit);
    lemma_avoids_plain(p, p.run_text(r97, i, crate::text::set_antya(t.text, z)), r97);
    lemma_avoids_optional(p, Rule::Sutra(3, 4, 98), r97, i, crate::text::set_antya(t.text, z));
    lemma_avoids_plain(p, p, r97);
    let p1 = if t.has_adi('A') {
        p.run_text(Rule::Sutra(3, 4, 95), i, crate::text::set_adi(t.text, seq!['E']))
    } else if p.in_range(i_dhatu) && p.terms[i_dhatu].has_u_in(WordList::SipDhatus)
        && t.is_parasmaipada() && t.has_antya('i') {
        p.run_text(Rule::Sutra(3, 4, 97), i, crate::text::set_antya(t.text, Seq::empty()))
    } else if p.has_tag(PrakriyaTag::Uttama) && t.has_antya('s') {
        p.optional_run_text(Rule::Sutra(3, 4, 98), i, crate::text::set_antya(t.text, Seq::empty()))
    } else {
        p
    };
    assert(avoids(p, p1, r97));
    let t1 = p1.terms[i];
    assert(t1.tags == t.tags);
    lemma_avoids_optional(p1, Rule::Sutra(3, 4, 96), r97, i, crate::text::set_antya(t1.text, seq!['E']));
    lemma_extends_refl(p1);
    lemma_avoids_plain(p1, p1, r97);
    let exclude_non_uttama_dual = t1.has_tag(Tag::Dvivacana) && !p1.has_tag(PrakriyaTag::Uttama);
    let p2 = if t1.is_atmanepada() && t1.has_antya('e') && !exclude_non_uttama_dual {
        p1.optional_run_text(Rule::Sutra(3, 4, 96), i, crate::text::set_antya(t1.text, seq!['E']))
    } else {
        p1
    };
    lemma_avoids_trans(p, p1, p2, r97);
    let t2 = p2.terms[i];
    assert(t2.tags == t.tags);
    lemma_extends_refl(p2);
    lemma_avoids_plain(p2, p2, r97);
    let p3 = p2;
    lemma_avoids_optional(p3, Rule::Anyatra(crate::prakriya::Source::LetBareA), r97, i, z);
    lemma_avoids_trans(p, p3, let_endings_result(p, i, i_dhatu), r97);
}

/// Every `c` in `s` directly follows an `s` (3.4.107: suw before t and T).
pub open spec fn each_preceded_by_s(text: Seq<char>, c: char) -> bool {
    forall|j: int| 0 <= j < text.len() && #[trigger] text[j] == c ==> j > 0 && text[j - 1] == 's'
}

/// Scanning `text` from the front: every `c` follows an `s`, where before the
/// first letter an `s` stands exactly where `prev_s` holds.
spec fn s_before(text: Seq<char>, c: char, prev_s: bool) -> bool
    decreases text.len(),
{
    if text.len() == 0 {
        true
    } else {
        (text[0] == c ==> prev_s) && s_before(text.drop_first(), c, text[0] == 's')
    }
}

proof fn lemma_s_before_concat(a: Seq<char>, b: Seq<char>, c: char, ps: bool)
    ensures
        s_before(a + b, c, ps) == (s_before(a, c, ps) && s_before(
            b,
            c,
            if a.len() == 0 {
                ps
            } else {
                a.last() == 's'
            },
        )),
    decreases a.len(),
{
    if a.len() == 0 {
        assert(a + b =~= b);
    } else {
        assert((a + b).drop_first() =~= a.drop_first() + b);
        lemma_s_before_concat(a.drop_first(), b, c, a[0] == 's');
        if a.len() > 1 {
            assert(a.drop_first().last() == a.last());
        }
    }
}

proof fn lemma_s_before_forall(text: Seq<char>, c: char, ps: bool)
    requires
        s_before(text, c, ps),
    ensures
        forall|j: int|
            0 <= j < text.len() && #[trigger] text[j] == c ==> (if j == 0 {
                ps
            } else {
                text[j - 1] == 's'
            }),
    decreases text.len(),
{
    if text.len() > 0 {
        lemma_s_before_forall(text.drop_first(), c, text[0] == 's');
        assert forall|j: int| 0 <= j < text.len() && #[trigger] text[j] == c implies (if j == 0 {
            ps
        } else {
            text[j - 1] == 's'
        }) by {
            if j > 0 {
                assert(text.drop_first()[j - 1] == text[j]);
                if j > 1 {
                    assert(text.drop_first()[j - 2] == text[j - 1]);
                }
            }
        }
    }
}

proof fn lemma_s_before_small(a: char, d: char, c: char, ps: bool)
    ensures
        s_before(seq![a], c, ps) == (a == c ==> ps),
        s_before(seq!['s', d], c, ps) == ((c == 's' ==> ps) && (d == c ==> true)),
{
    let e = Seq::<char>::empty();
    assert(s_before(e, c, true));
    assert(s_before(e, c, false));
    assert(seq![a].drop_first() =~= e);
    assert(seq![d].drop_first() =~= e);
    assert(seq!['s', d].drop_first() =~= seq![d]);
    assert(s_before(seq![d], c, true) == true);
}

/// Replacing every `c` by `s` and `c` puts an `s` before every `c`.
proof fn lemma_replace_puts_s_before(x: Seq<char>, c: char, ps: bool)
    requires
        c != 's',
    ensures
        s_before(replace_char(x, c, seq!['s', c]), c, ps),
    decreases x.len(),
{
    if x.len() > 0 {
        let piece = if x[0] == c {
            seq!['s', c]
        } else {
            seq![x[0]]
        };
        lemma_replace_puts_s_before(x.drop_first(), c, x[0] == 's');
        lemma_replace_puts_s_before(x.drop_first(), c, false);
        lemma_s_before_concat(piece, replace_char(x.drop_first(), c, seq!['s', c]), c, ps);
        lemma_s_before_small(x[0], c, c, ps);
    }
}

/// Replacing another letter `d` by `s` and `d` keeps an `s` before every `c`.
proof fn lemma_replace_keeps_s_before(x: Seq<char>, c: char, d: char, ps: bool)
    requires
        c != d,
        c != 's',
        d != 's',
        s_before(x, c, ps),
    ensures
        s_before(replace_char(x, d, seq!['s', d]), c, ps),
    decreases x.len(),
{
    if x.len() > 0 {
        let piece = if x[0] == d {
            seq!['s', d]
        } else {
            seq![x[0]]
        };
        lemma_replace_keeps_s_before(x.drop_first(), c, d, x[0] == 's');
        lemma_s_before_concat(piece, replace_char(x.drop_first(), d, seq!['s', d]), c, ps);
        lemma_s_before_small(x[0], d, c, ps);
    }
}

/// liN, 3.4.107 (suw tithoH). Where tin-siddhi of liN goes through, every t
/// and every T of the tin ending directly follows an s.
pub proof fn lemma_lin_suw_before_t(p: PrakriyaView, i: int, la: Lakara)
    requires
        p.in_range(i),
        p.terms[i].is_lin_lakara(),
    ensures
        lin_result(p, i, la).1 ==> {
            let q = lin_result(p, i, la).0;
            let k = q.find_last_with_tag(Tag::Tin);
            &&& k >= 0
            &&& each_preceded_by_s(q.terms[k].text, 't')
            &&& each_preceded_by_s(q.terms[k].text, 'T')
        },
{
    let (q, ok) = lin_result(p, i, la);
    let p1 = if p.terms[i].is_parasmaipada() {
        let q0 = p.insert_term(i, crate::term::agama_term(crate::args::Agama::yAsuw));
        let q2 = if la == Lakara::AshirLin {
            q0.run_tag(Rule::Sutra(3, 4, 104), i + 1, Tag::kit)
        } else {
            q0.run_tag(Rule::Sutra(3, 4, 103), i + 1, Tag::Nit)
        };
        it_run(q2, i).0
    } else {
        let q0 = it_run(
            p.insert_term(i, crate::term::agama_term(crate::args::Agama::sIyuw)).step(
                Rule::Sutra(3, 4, 102),
            ),
            i,
        ).0;
        let j = i + 1;
        if q0.in_range(j) && q0.terms[j].is_tin(crate::args::Tin::Ja) {
            adesha_spec(q0, Rule::Sutra(3, 4, 105), j, seq!['r', 'a', 'n'])
        } else if q0.in_range(j) && q0.terms[j].is_tin(crate::args::Tin::iw) {
            adesha_spec(q0, Rule::Sutra(3, 4, 106), j, seq!['a'])
        } else {
            q0
        }
    };
    let k = p1.find_last_with_tag(Tag::Tin);
    crate::prakriya::lemma_last_with_tag_below(p1.terms, Tag::Tin, p1.terms.len() as int);
    if k >= 0 {
        let text = p1.terms[k].text;
        if text.contains('t') || text.contains('T') {
            let s1 = replace_char(text, 't', seq!['s', 't']);
            let s2 = replace_char(s1, 'T', seq!['s', 'T']);
            lemma_replace_puts_s_before(text, 't', false);
            lemma_replace_keeps_s_before(s1, 't', 'T', false);
            lemma_replace_puts_s_before(s1, 'T', false);
            lemma_s_before_forall(s2, 't', false);
            lemma_s_before_forall(s2, 'T', false);
            lemma_last_with_tag_update(
                p1.terms,
                Tag::Tin,
                p1.terms.len() as int,
                k,
                p1.terms[k].with_text(s2),
            );
            assert(q.terms[k].text == s2);
        } else {
            assert forall|j: int| 0 <= j < text.len() implies #[trigger] text[j] != 't' && text[j] != 'T' by {
                if text[j] == 't' {
                    assert(text.contains('t'));
                }
                if text[j] == 'T' {
                    assert(text.contains('T'));
                }
            }
        }
    }
}

/// loT and the Nit lakaras, 3.4.99 (nityaM GitaH): a parasmaipada uttama
/// ending in s (other than one that 3.4.101 replaces) loses that s, in every
/// number: the result is shorter than the ending was, and a prefix of it.
pub proof fn lemma_nit_uttama_drops_s(p: PrakriyaView, i: int, la: Lakara)
    requires
        p.in_range(i),
        la == Lakara::Lot || la.nit(),
        p.terms[i].is_parasmaipada(),
        p.terms[i].has_tag(Tag::Uttama),
        crate::text::has_antya(p.terms[i].text, 's'),
        !p.terms[i].has_u_in(WordList::TasThas),
    ensures
        ({
            let t = p.terms[i];
            let q = nit_result(p, i, la).terms[i];
            &&& q.text.len() < t.text.len()
            &&& q.text == t.text.subrange(0, q.text.len() as int)
        }),
{
}

/// loT, 3.4.86 (er uH): an ending other than sip and mi that ends in i has
/// that i replaced by u, in every person and number; the rest of its text
/// stays.
pub proof fn lemma_lot_i_becomes_u(p: PrakriyaView, i: int)
    requires
        p.in_range(i),
        !p.terms[i].is_tin(crate::args::Tin::sip),
        !p.terms[i].ends_with(seq!['m', 'i']),
        crate::text::has_antya(p.terms[i].text, 'i'),
    ensures
        ({
            let t = p.terms[i];
            let q = lot_endings_result(p, i).terms[i];
            &&& q.text.len() == t.text.len()
            &&& q.text.last() == 'u'
            &&& q.text.drop_last() == t.text.drop_last()
            &&& q.u == t.u
        }),
{
    let t = p.terms[i];
    let q = lot_endings_result(p, i).terms[i];
    assert(q.text == t.text.drop_last() + seq!['u']);
    assert((t.text.drop_last() + seq!['u']).drop_last() =~= t.text.drop_last());
}

/// Ji becomes jus (3.4.108 - 3.4.109): always in liN; in the other Nit
/// lakaras where the nearest term before the ending with nonempty text is sic,
/// is abhyasta, or is vid of adAdi. The step goes through and the ending's
/// upadesha is jus.
pub proof fn lemma_jhi_becomes_jus(p: PrakriyaView, i: int, la: Lakara)
    requires
        p.in_range(i),
        p.terms[i].is_tin(crate::args::Tin::Ji),
        la.lin() || (la.nit() && p.prev_not_empty(i) >= 0 && ({
            let prev = p.terms[p.prev_not_empty(i)];
            ||| prev.is_vikarana(crate::args::Vikarana::sic)
            ||| prev.has_tag(Tag::Abhyasta)
            ||| (prev.text == seq!['v', 'i', 'd'] && prev.has_gana(crate::args::Gana::Adadi))
        })),
    ensures
        jus_result(p, i, la).1,
        jus_result(p, i, la).0.terms[i].u == Some(seq!['j', 'u', 's']),
{
}

/// liw parasmaipada, 3.4.82 (parasmaipadAnAM Nalatususthalathusa...): each of
/// the nine endings tip, tas, Ji, sip, Tas, Ta, mip, vas, mas has as upadesha
/// its counterpart Ral, atus, us, Tal, aTus, a, Ral, va, ma, in every number.
pub proof fn lemma_lit_parasmaipada_endings(p: PrakriyaView, i: int, i_dhatu: int, tin: crate::args::Tin)
    requires
        p.in_range(i),
        p.terms[i].has_lakara(Lakara::Lit),
        p.terms[i].is_parasmaipada(),
        p.terms[i].u == Some(tin.text()),
        tin_for(crate::args::DhatuPada::Parasmaipada, tin_purusha(tin), tin_vacana(tin)) == tin,
    ensures
        lit_lat_result(p, i, i_dhatu).terms[i].u == Some(nal_of(tin)),
{
    lemma_tin_para_index(tin);
}

/// The person of a parasmaipada ending.
pub open spec fn tin_purusha(tin: crate::args::Tin) -> Purusha {
    match tin {
        crate::args::Tin::tip | crate::args::Tin::tas | crate::args::Tin::Ji => Purusha::Prathama,
        crate::args::Tin::sip | crate::args::Tin::Tas | crate::args::Tin::Ta => Purusha::Madhyama,
        _ => Purusha::Uttama,
    }
}

/// The number of a parasmaipada ending.
pub open spec fn tin_vacana(tin: crate::args::Tin) -> Vacana {
    match tin {
        crate::args::Tin::tip | crate::args::Tin::sip | crate::args::Tin::mip => Vacana::Eka,
        crate::args::Tin::tas | crate::args::Tin::Tas | crate::args::Tin::vas => Vacana::Dvi,
        _ => Vacana::Bahu,
    }
}

/// The liw replacement of a parasmaipada ending (3.4.82).
pub open spec fn nal_of(tin: crate::args::Tin) -> Seq<char> {
    match tin {
        crate::args::Tin::tip => seq!['R', 'a', 'l'],
        crate::args::Tin::tas => seq!['a', 't', 'u', 's'],
        crate::args::Tin::Ji => seq!['u', 's'],
        crate::args::Tin::sip => seq!['T', 'a', 'l'],
        crate::args::Tin::Tas => seq!['a', 'T', 'u', 's'],
        crate::args::Tin::Ta => seq!['a'],
        crate::args::Tin::mip => seq!['R', 'a', 'l'],
        crate::args::Tin::vas => seq!['v', 'a'],
        _ => seq!['m', 'a'],
    }
}

proof fn lemma_tin_para_index(tin: crate::args::Tin)
    requires
        tin_for(crate::args::DhatuPada::Parasmaipada, tin_purusha(tin), tin_vacana(tin)) == tin,
    ensures
        crate::text::index_from(WordList::TinPara, tin.text(), 0) >= 0,
        crate::text::word(
            WordList::NalPara,
            crate::text::index_from(WordList::TinPara, tin.text(), 0),
        ) == nal_of(tin),
{
    let l = WordList::TinPara;
    let s = tin.text();
    let target: int = match tin {
        crate::args::Tin::tip => 0,
        crate::args::Tin::tas => 1,
        crate::args::Tin::Ji => 2,
        crate::args::Tin::sip => 3,
        crate::args::Tin::Tas => 4,
        crate::args::Tin::Ta => 5,
        crate::args::Tin::mip => 6,
        crate::args::Tin::vas => 7,
        _ => 8,
    };
    assert(crate::text::word(l, target) =~= s);
    assert forall|j: int| 0 <= j < target implies ({
        let w = #[trigger] crate::text::word(l, j);
        w[0] != s[0] || w[w.len() - 1] != s[s.len() - 1]
    }) by {}
    lemma_index_at(l, s, 0, target);
}

/// Where `s` stands at `target` and every earlier word from `k` on differs
/// from it in its first or last letter, the search from `k` finds `target`.
proof fn lemma_index_at(l: WordList, s: Seq<char>, k: int, target: int)
    requires
        0 <= k <= target < crate::text::list_len(l),
        crate::text::word(l, target) == s,
        s.len() > 0,
        forall|j: int| k <= j < target ==> ({
            let w = #[trigger] crate::text::word(l, j);
            w[0] != s[0] || w[w.len() - 1] != s[s.len() - 1]
        }),
    ensures
        crate::text::index_from(l, s, k) == target,
    decreases target - k,
{
    if k < target {
        let w = crate::text::word(l, k);
        assert(w != s);
        lemma_index_at(l, s, k + 1, target);
    }
}

} // verus!

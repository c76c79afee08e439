//! Derivations through the tin-pratyaya rules, compared term by term.
//!
//! The texts are those at the end of section 3.4: sandhi and the later rules
//! of the full derivation have not applied yet (so bhU's leT 3sg stands as
//! "Bav" + "a" + "A" + "ti", which 6.1.101 later makes BavAti).

use vidyut_prakriya::args::{Gana, Lakara, Purusha, Vacana, Vikarana};
use vidyut_prakriya::prakriya::{Prakriya, Rule, Source};
use vidyut_prakriya::tag::{PrakriyaTag, Tag};
use vidyut_prakriya::term::Term;
use vidyut_prakriya::tin_pratyaya::{adesha, try_general_siddhi, try_siddhi_for_jhi};

fn s(v: &[char]) -> String {
    v.iter().collect()
}

fn texts(p: &Prakriya) -> Vec<String> {
    p.terms.iter().map(|t| s(&t.text)).collect()
}

fn joined(p: &Prakriya) -> String {
    s(&p.text())
}

/// dhatu + vikarana + lakara, with the pada's tag, the uttama tag where it
/// applies, and the given declined rules; then tin-adesha and tin-siddhi.
fn derive(
    dhatu: Term,
    vikarana: Option<Term>,
    la: Lakara,
    atmanepada: bool,
    purusha: Purusha,
    vacana: Vacana,
    declined: &[Rule],
) -> Prakriya {
    let mut p = Prakriya::new();
    p.push_term(dhatu);
    if let Some(v) = vikarana {
        p.push_term(v);
    }
    p.push_term(Term::make_lakara(la));
    p.add_tag(if atmanepada { PrakriyaTag::Atmanepada } else { PrakriyaTag::Parasmaipada });
    if purusha == Purusha::Uttama {
        p.add_tag(PrakriyaTag::Uttama);
    }
    for r in declined {
        p.decline(*r);
    }
    adesha(&mut p, purusha, vacana);
    try_general_siddhi(&mut p, la);
    try_siddhi_for_jhi(&mut p, la);
    p
}

fn bhu(la: Lakara, purusha: Purusha, vacana: Vacana, declined: &[Rule]) -> Prakriya {
    derive(
        Term::make_dhatu("BU", "Bav", Gana::Bhvadi),
        Some(Term::make_vikarana(Vikarana::Sap, "Sap", "a")),
        la,
        false,
        purusha,
        vacana,
        declined,
    )
}

fn pac_atmane(la: Lakara, purusha: Purusha, vacana: Vacana) -> Prakriya {
    derive(
        Term::make_dhatu("qupac~^z", "pac", Gana::Bhvadi),
        Some(Term::make_vikarana(Vikarana::Sap, "Sap", "a")),
        la,
        true,
        purusha,
        vacana,
        &[],
    )
}

const R97: Rule = Rule::Sutra(3, 4, 97);
const R98: Rule = Rule::Sutra(3, 4, 98);
const BARE_A: Rule = Rule::Anyatra(Source::LetBareA);

// leT of bhU (Macdonell, Vedic Grammar 159), before sandhi.

#[test]
fn let_bhu_3sg_both_forms() {
    assert_eq!(joined(&bhu(Lakara::Let, Purusha::Prathama, Vacana::Eka, &[])), "BavaAt");
    assert_eq!(joined(&bhu(Lakara::Let, Purusha::Prathama, Vacana::Eka, &[R97])), "BavaAti");
}

#[test]
fn let_bhu_3du() {
    assert_eq!(joined(&bhu(Lakara::Let, Purusha::Prathama, Vacana::Dvi, &[])), "BavaAtas");
}

#[test]
fn let_bhu_3pl_both_forms() {
    assert_eq!(joined(&bhu(Lakara::Let, Purusha::Prathama, Vacana::Bahu, &[])), "BavaAJ");
    assert_eq!(joined(&bhu(Lakara::Let, Purusha::Prathama, Vacana::Bahu, &[R97])), "BavaAJi");
}

#[test]
fn let_bhu_2sg_2du_2pl() {
    assert_eq!(joined(&bhu(Lakara::Let, Purusha::Madhyama, Vacana::Eka, &[])), "BavaAs");
    assert_eq!(joined(&bhu(Lakara::Let, Purusha::Madhyama, Vacana::Eka, &[R97])), "BavaAsi");
    assert_eq!(joined(&bhu(Lakara::Let, Purusha::Madhyama, Vacana::Dvi, &[])), "BavaATas");
    assert_eq!(joined(&bhu(Lakara::Let, Purusha::Madhyama, Vacana::Bahu, &[])), "BavaATa");
}

#[test]
fn let_bhu_1sg_ni_and_bare_a() {
    let p = bhu(Lakara::Let, Purusha::Uttama, Vacana::Eka, &[]);
    assert_eq!(joined(&p), "BavaA");
    assert!(p.history.contains(&Rule::Sutra(3, 4, 89)));
    assert!(p.history.contains(&BARE_A));
    let p = bhu(Lakara::Let, Purusha::Uttama, Vacana::Eka, &[BARE_A]);
    assert_eq!(joined(&p), "BavaAni");
    // The -i of -ni is never offered the optional lopa of 3.4.97.
    assert!(!p.history.contains(&R97));
    assert!(p.decisions.iter().all(|(r, _)| *r != R97));
}

#[test]
fn let_bhu_1du_1pl_both_forms() {
    assert_eq!(joined(&bhu(Lakara::Let, Purusha::Uttama, Vacana::Dvi, &[])), "BavaAva");
    assert_eq!(joined(&bhu(Lakara::Let, Purusha::Uttama, Vacana::Dvi, &[R98])), "BavaAvas");
    assert_eq!(joined(&bhu(Lakara::Let, Purusha::Uttama, Vacana::Bahu, &[])), "BavaAma");
    assert_eq!(joined(&bhu(Lakara::Let, Purusha::Uttama, Vacana::Bahu, &[R98])), "BavaAmas");
}

#[test]
fn let_agama_is_aw_after_consonant_stem() {
    // as (adAdi): no vikarana, consonant-final stem, so aw: asat.
    let p = derive(
        Term::make_dhatu("asa~", "as", Gana::Adadi),
        None,
        Lakara::Let,
        false,
        Purusha::Prathama,
        Vacana::Eka,
        &[],
    );
    assert_eq!(texts(&p), vec!["as", "a", "t"]);
    assert!(p.history.contains(&Rule::Sutra(3, 4, 94)));
}

#[test]
fn let_lit_stem_tries_long_agama() {
    let mut p = Prakriya::new();
    p.push_term(Term::make_dhatu("pfcI~", "papfc", Gana::Rudhadi));
    p.push_term(Term::make_lakara(Lakara::Let));
    p.add_tag(PrakriyaTag::Parasmaipada);
    p.add_tag(PrakriyaTag::FlagLetStemLit);
    p.decline(R97);
    adesha(&mut p, Purusha::Madhyama, Vacana::Eka);
    try_general_siddhi(&mut p, Lakara::Let);
    assert_eq!(joined(&p), "papfcAsi");

    let mut q = Prakriya::new();
    q.push_term(Term::make_dhatu("pfcI~", "papfc", Gana::Rudhadi));
    q.push_term(Term::make_lakara(Lakara::Let));
    q.add_tag(PrakriyaTag::Parasmaipada);
    q.add_tag(PrakriyaTag::FlagLetStemLit);
    q.decline(R97);
    q.decline(Rule::Sutra(3, 4, 94));
    adesha(&mut q, Purusha::Madhyama, Vacana::Eka);
    try_general_siddhi(&mut q, Lakara::Let);
    assert_eq!(joined(&q), "papfcasi");
}

#[test]
fn let_sip_vikarana_may_skip_agama() {
    let build = |declined: &[Rule]| {
        derive(
            Term::make_dhatu("ya\\ja~^", "yaj", Gana::Bhvadi),
            Some(Term::make_vikarana(Vikarana::sip, "sip", "s")),
            Lakara::Let,
            false,
            Purusha::Madhyama,
            Vacana::Eka,
            declined,
        )
    };
    let p = build(&[R97]);
    assert_eq!(joined(&p), "yajssi");
    assert!(p.history.contains(&Rule::Anyatra(Source::LetSipWithoutAgama)));
    let q = build(&[R97, Rule::Anyatra(Source::LetSipWithoutAgama)]);
    assert_eq!(joined(&q), "yajsasi");
}

#[test]
fn let_juz_drops_final_i_always() {
    let p = derive(
        Term::make_dhatu("juzI~", "jozi", Gana::Tudadi),
        Some(Term::make_vikarana(Vikarana::sip, "sip", "z")),
        Lakara::Let,
        false,
        Purusha::Prathama,
        Vacana::Eka,
        &[R97],
    );
    // 3.4.97 is mandatory here although the optional 3.4.97 is declined.
    assert_eq!(joined(&p), "jozizat");
}

#[test]
fn let_atmanepada_e_to_ai() {
    let p = pac_atmane(Lakara::Let, Purusha::Prathama, Vacana::Eka);
    assert_eq!(joined(&p), "pacaAtE");
    let p = pac_atmane(Lakara::Let, Purusha::Prathama, Vacana::Dvi);
    // AtAm > Ate (3.4.79) > Ete (3.4.95); no further E.
    assert_eq!(joined(&p), "pacaAEte");
}

// loT

#[test]
fn lot_bhu_parasmaipada() {
    assert_eq!(joined(&bhu(Lakara::Lot, Purusha::Prathama, Vacana::Eka, &[])), "Bavatu");
    assert_eq!(joined(&bhu(Lakara::Lot, Purusha::Prathama, Vacana::Dvi, &[])), "BavatAm");
    assert_eq!(joined(&bhu(Lakara::Lot, Purusha::Madhyama, Vacana::Eka, &[])), "Bavahi");
    assert_eq!(joined(&bhu(Lakara::Lot, Purusha::Madhyama, Vacana::Bahu, &[])), "Bavata");
    assert_eq!(joined(&bhu(Lakara::Lot, Purusha::Uttama, Vacana::Eka, &[])), "BavaAni");
    assert_eq!(joined(&bhu(Lakara::Lot, Purusha::Uttama, Vacana::Dvi, &[])), "BavaAva");
}

#[test]
fn lot_atmanepada() {
    assert_eq!(joined(&pac_atmane(Lakara::Lot, Purusha::Prathama, Vacana::Eka)), "pacatAm");
    assert_eq!(joined(&pac_atmane(Lakara::Lot, Purusha::Madhyama, Vacana::Eka)), "pacasva");
    assert_eq!(joined(&pac_atmane(Lakara::Lot, Purusha::Madhyama, Vacana::Bahu)), "pacaDvam");
    assert_eq!(joined(&pac_atmane(Lakara::Lot, Purusha::Uttama, Vacana::Eka)), "pacaAE");
}

#[test]
fn lot_hi_is_optionally_apit_in_chandas() {
    let mut p = Prakriya::new();
    p.push_term(Term::make_dhatu("BU", "Bav", Gana::Bhvadi));
    p.push_term(Term::make_vikarana(Vikarana::Sap, "Sap", "a"));
    p.push_term(Term::make_lakara(Lakara::Lot));
    p.add_tag(PrakriyaTag::Parasmaipada);
    p.set_chandasi(true);
    adesha(&mut p, Purusha::Madhyama, Vacana::Eka);
    try_general_siddhi(&mut p, Lakara::Lot);
    assert!(p.terms[2].has_tag(Tag::Pit));
    assert!(!p.terms[2].has_tag(Tag::pit));
}

// The Nit lakaras and liN

#[test]
fn lan_bhu() {
    assert_eq!(joined(&bhu(Lakara::Lan, Purusha::Prathama, Vacana::Eka, &[])), "Bavat");
    assert_eq!(joined(&bhu(Lakara::Lan, Purusha::Prathama, Vacana::Dvi, &[])), "BavatAm");
    assert_eq!(joined(&bhu(Lakara::Lan, Purusha::Madhyama, Vacana::Dvi, &[])), "Bavatam");
    assert_eq!(joined(&bhu(Lakara::Lan, Purusha::Uttama, Vacana::Eka, &[])), "Bavaam");
    assert_eq!(joined(&bhu(Lakara::Lan, Purusha::Uttama, Vacana::Dvi, &[])), "Bavava");
}

#[test]
fn vidhilin_parasmaipada_and_atmanepada() {
    let p = bhu(Lakara::VidhiLin, Purusha::Prathama, Vacana::Eka, &[]);
    assert_eq!(texts(&p), vec!["Bav", "a", "yAs", "st"]);
    assert!(p.terms[3].has_tag(Tag::Nit));
    assert_eq!(joined(&pac_atmane(Lakara::VidhiLin, Purusha::Prathama, Vacana::Eka)), "pacasIysta");
    assert_eq!(joined(&pac_atmane(Lakara::VidhiLin, Purusha::Prathama, Vacana::Bahu)), "pacasIyran");
    assert_eq!(joined(&pac_atmane(Lakara::VidhiLin, Purusha::Uttama, Vacana::Eka)), "pacasIya");
}

#[test]
fn ashirlin_is_kit() {
    let p = bhu(Lakara::AshirLin, Purusha::Prathama, Vacana::Eka, &[]);
    assert!(p.terms[3].has_tag(Tag::kit));
    assert!(p.history.contains(&Rule::Sutra(3, 4, 104)));
}

#[test]
fn lin_jhi_becomes_jus() {
    let p = bhu(Lakara::VidhiLin, Purusha::Prathama, Vacana::Bahu, &[]);
    assert_eq!(texts(&p), vec!["Bav", "a", "yAs", "us"]);
    assert!(p.history.contains(&Rule::Sutra(3, 4, 108)));
}

#[test]
fn lan_jhi_after_a_dhatu_is_optional() {
    let ya = || Term::make_dhatu("yA\\", "yA", Gana::Adadi);
    let p = derive(ya(), None, Lakara::Lan, false, Purusha::Prathama, Vacana::Bahu, &[]);
    assert_eq!(joined(&p), "yAus");
    let q = derive(ya(), None, Lakara::Lan, false, Purusha::Prathama, Vacana::Bahu, &[Rule::Sutra(3, 4, 111)]);
    assert_eq!(joined(&q), "yAJ");
}

#[test]
fn lun_jhi_after_sic_is_jus() {
    let p = derive(
        Term::make_dhatu("qukf\\Y", "kAr", Gana::Tanadi),
        Some(Term::make_vikarana(Vikarana::sic, "si~c", "s")),
        Lakara::Lun,
        false,
        Purusha::Prathama,
        Vacana::Bahu,
        &[],
    );
    assert_eq!(joined(&p), "kArsus");
    assert!(p.history.contains(&Rule::Sutra(3, 4, 109)));
}

// liw, law, luw

#[test]
fn lit_parasmaipada_and_atmanepada() {
    let p = bhu(Lakara::Lit, Purusha::Prathama, Vacana::Eka, &[]);
    assert_eq!(p.terms[2].text, vec!['a']);
    assert!(p.terms[2].has_tag(Tag::Rit));
    let q = pac_atmane(Lakara::Lit, Purusha::Prathama, Vacana::Eka);
    assert_eq!(q.terms[2].text, vec!['e']);
    assert!(!q.terms[2].has_tag(Tag::Sit));
    let r = pac_atmane(Lakara::Lit, Purusha::Prathama, Vacana::Bahu);
    assert_eq!(r.terms[2].text, vec!['i', 'r', 'e']);
}

#[test]
fn lat_vid_and_bru() {
    let vid = derive(
        Term::make_dhatu("vida~", "ved", Gana::Adadi),
        None,
        Lakara::Lat,
        false,
        Purusha::Prathama,
        Vacana::Eka,
        &[],
    );
    assert_eq!(joined(&vid), "veda");
    let bru = derive(
        Term::make_dhatu("brUY", "brU", Gana::Adadi),
        None,
        Lakara::Lat,
        false,
        Purusha::Prathama,
        Vacana::Dvi,
        &[],
    );
    assert_eq!(joined(&bru), "Ahatus");
    let bru2 = derive(
        Term::make_dhatu("brUY", "brU", Gana::Adadi),
        None,
        Lakara::Lat,
        false,
        Purusha::Prathama,
        Vacana::Dvi,
        &[Rule::Sutra(3, 4, 84)],
    );
    assert_eq!(joined(&bru2), "brUtas");
}

#[test]
fn lat_atmanepada() {
    assert_eq!(joined(&pac_atmane(Lakara::Lat, Purusha::Prathama, Vacana::Eka)), "pacate");
    assert_eq!(joined(&pac_atmane(Lakara::Lat, Purusha::Madhyama, Vacana::Eka)), "pacase");
    assert_eq!(joined(&pac_atmane(Lakara::Lat, Purusha::Uttama, Vacana::Bahu)), "pacamahe");
}

#[test]
fn lut_prathama_endings() {
    let k = |v: Vacana| {
        derive(
            Term::make_dhatu("qukf\\Y", "kar", Gana::Tanadi),
            Some(Term::make_vikarana(Vikarana::tAsi, "tAsi~", "tAs")),
            Lakara::Lut,
            false,
            Purusha::Prathama,
            v,
            &[],
        )
    };
    assert_eq!(joined(&k(Vacana::Eka)), "kartAsA");
    assert!(k(Vacana::Eka).terms[2].has_tag(Tag::qit));
    assert_eq!(joined(&k(Vacana::Dvi)), "kartAsrO");
    assert_eq!(joined(&k(Vacana::Bahu)), "kartAsras");
}

// adesha

#[test]
fn adesha_tags_the_ending() {
    let mut p = Prakriya::new();
    p.push_term(Term::make_dhatu("BU", "Bav", Gana::Bhvadi));
    p.push_term(Term::make_lakara(Lakara::Lan));
    p.add_tag(PrakriyaTag::Atmanepada);
    adesha(&mut p, Purusha::Uttama, Vacana::Bahu);
    let t = &p.terms[1];
    assert_eq!(t.u, Some(vec!['m', 'a', 'h', 'i', 'N']));
    assert_eq!(t.text, vec!['m', 'a', 'h', 'i']);
    for tag in [Tag::Vibhakti, Tag::Tin, Tag::Uttama, Tag::Bahuvacana, Tag::Atmanepada] {
        assert!(t.has_tag(tag));
    }
    // Neither the N of laN nor the N of mahiN stays.
    assert!(!t.has_tag(Tag::Nit));
    assert_eq!(p.history[0], Rule::Sutra(3, 4, 78));
}

#[test]
fn adesha_without_pratyaya_changes_nothing() {
    let mut p = Prakriya::new();
    p.push_term(Term::make_dhatu("BU", "Bav", Gana::Bhvadi));
    p.add_tag(PrakriyaTag::Parasmaipada);
    adesha(&mut p, Purusha::Prathama, Vacana::Eka);
    assert_eq!(texts(&p), vec!["Bav"]);
    assert!(p.history.is_empty());
}

// The entry points

#[test]
fn entry_points_on_empty_prakriya() {
    let mut p = Prakriya::new();
    assert_eq!(try_general_siddhi(&mut p, Lakara::Lat), None);
    assert_eq!(try_siddhi_for_jhi(&mut p, Lakara::Lat), None);
}

#[test]
fn entry_points_split_on_jhi() {
    let mut p = Prakriya::new();
    p.push_term(Term::make_dhatu("BU", "Bav", Gana::Bhvadi));
    p.push_term(Term::make_vikarana(Vikarana::Sap, "Sap", "a"));
    p.push_term(Term::make_lakara(Lakara::Lan));
    p.add_tag(PrakriyaTag::Parasmaipada);
    adesha(&mut p, Purusha::Prathama, Vacana::Eka);
    let before = p.history.len();
    let history_before = p.history.clone();
    // tip: try_siddhi_for_jhi does nothing, try_general_siddhi runs.
    assert_eq!(try_siddhi_for_jhi(&mut p, Lakara::Lan), Some(()));
    assert_eq!(p.history.len(), before);
    assert_eq!(try_general_siddhi(&mut p, Lakara::Lan), Some(()));
    assert!(p.history.len() > before);
    assert_eq!(joined(&p), "Bavat");
    assert_eq!(p.history[..before], history_before[..]);
    assert_eq!(p.terms.len(), 3);
}

#[test]
fn siddhi_without_dhatu_changes_nothing() {
    let mut p = Prakriya::new();
    p.push_term(Term::make_lakara(Lakara::Lat));
    p.add_tag(PrakriyaTag::Parasmaipada);
    adesha(&mut p, Purusha::Prathama, Vacana::Eka);
    let before = texts(&p);
    assert_eq!(try_general_siddhi(&mut p, Lakara::Lat), Some(()));
    assert_eq!(texts(&p), before);
}

#[test]
fn decisions_follow_the_declined_rules() {
    let p = bhu(Lakara::Let, Purusha::Uttama, Vacana::Dvi, &[R98]);
    for (rule, taken) in &p.decisions {
        assert_eq!(*taken, !p.declined.contains(rule));
    }
    assert!(p.decisions.contains(&(R98, false)));
}

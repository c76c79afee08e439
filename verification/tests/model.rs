//! The model under the rules: it-samjna, substitutions and the prakriya.

use vidyut_prakriya::args::{Agama, Gana, Lakara, Morph};
use vidyut_prakriya::it_samjna::{run, ItError};
use vidyut_prakriya::operators::{adesha, optional_adesha, upadesha_yatha};
use vidyut_prakriya::prakriya::{Prakriya, Rule, TermOp};
use vidyut_prakriya::tag::Tag;
use vidyut_prakriya::term::Term;
use vidyut_prakriya::text::WordList;

fn s(v: &[char]) -> String {
    v.iter().collect()
}

fn pratyaya(u: &str, vibhakti: bool) -> Term {
    let mut t = Term::make_upadesha(u);
    t.add_tag(Tag::Pratyaya);
    if vibhakti {
        t.add_tag(Tag::Vibhakti);
    }
    t
}

fn it(u: &str, vibhakti: bool) -> Term {
    let mut p = Prakriya::new();
    p.push_term(pratyaya(u, vibhakti));
    assert_eq!(run(&mut p, 0), Ok(()));
    p.terms.remove(0)
}

#[test]
fn it_samjna_first_and_last_letters() {
    let t = it("Ral", true);
    assert_eq!(s(&t.text), "a");
    assert!(t.has_tag(Tag::Rit) && t.has_tag(Tag::lit));
    let t = it("jus", true);
    assert_eq!(s(&t.text), "us");
    assert!(t.has_tag(Tag::jit));
    let t = it("qA", true);
    assert_eq!(s(&t.text), "A");
    assert!(t.has_tag(Tag::qit));
}

#[test]
fn it_samjna_vibhakti_keeps_tusma() {
    assert_eq!(s(&it("tas", true).text), "tas");
    assert_eq!(s(&it("mas", true).text), "mas");
    assert_eq!(s(&it("Dvam", true).text), "Dvam");
    // Outside a vibhakti the last consonant is it.
    assert_eq!(s(&it("tas", false).text), "ta");
}

#[test]
fn it_samjna_jhi_keeps_its_j() {
    assert_eq!(s(&it("Ji", true).text), "Ji");
    assert_eq!(s(&it("Ja", true).text), "Ja");
}

#[test]
fn it_samjna_nasal_vowels() {
    let mut p = Prakriya::new();
    p.push_term(Term::make_agama(Agama::yAsuw));
    assert_eq!(run(&mut p, 0), Ok(()));
    assert_eq!(s(&p.terms[0].text), "yAs");
    assert!(p.terms[0].has_tag(Tag::udit) && p.terms[0].has_tag(Tag::wit));
    assert_eq!(
        p.history,
        vec![Rule::Sutra(1, 3, 3), Rule::Sutra(1, 3, 2), Rule::Sutra(1, 3, 9)]
    );
}

#[test]
fn it_samjna_errors() {
    let mut p = Prakriya::new();
    assert_eq!(run(&mut p, 0), Err(ItError::NoTerm));
    p.push_term(Term {
        u: None,
        text: vec!['a'],
        tags: Vec::new(),
        morph: Morph::Other,
        lakara: None,
        gana: None,
    });
    assert_eq!(run(&mut p, 0), Err(ItError::NoUpadesha));
    assert_eq!(s(&p.terms[0].text), "a");
}

#[test]
fn adesha_replaces_and_runs_it_samjna() {
    let mut p = Prakriya::new();
    p.push_term(pratyaya("Ji", true));
    adesha(Rule::Sutra(3, 4, 108), &mut p, 0, vec!['j', 'u', 's']);
    assert_eq!(s(&p.terms[0].text), "us");
    assert_eq!(p.terms[0].u, Some(vec!['j', 'u', 's']));
    assert!(p.terms[0].has_tag(Tag::Adesha));
    assert_eq!(p.history[0], Rule::Sutra(3, 4, 108));
}

#[test]
fn optional_adesha_declined() {
    let mut p = Prakriya::new();
    p.push_term(pratyaya("Ji", true));
    p.decline(Rule::Sutra(3, 4, 111));
    assert!(!optional_adesha(Rule::Sutra(3, 4, 111), &mut p, 0, vec!['j', 'u', 's']));
    assert_eq!(s(&p.terms[0].text), "Ji");
    assert_eq!(p.decisions, vec![(Rule::Sutra(3, 4, 111), false)]);
}

#[test]
fn yatha_substitutes_by_position() {
    let mut p = Prakriya::new();
    p.push_term(pratyaya("Ta", true));
    upadesha_yatha(&mut p, 0, WordList::TinPara, WordList::NalPara);
    assert_eq!(p.terms[0].u, Some(vec!['a']));
    let mut q = Prakriya::new();
    q.push_term(pratyaya("ta", true));
    upadesha_yatha(&mut q, 0, WordList::TinPara, WordList::NalPara);
    assert_eq!(q.terms[0].u, Some(vec!['t', 'a']));
    assert!(!q.terms[0].has_tag(Tag::Adesha));
}

#[test]
fn term_edits() {
    let mut t = Term::make_upadesha("Bavati");
    t.apply(TermOp::Ti(vec!['e']));
    assert_eq!(s(&t.text), "Bavate");
    t.apply(TermOp::Antya(vec!['A', 'm']));
    assert_eq!(s(&t.text), "BavatAm");
    t.apply(TermOp::Adi(vec!['p']));
    assert_eq!(s(&t.text), "pavatAm");
    t.apply(TermOp::Replace('t', vec!['s', 't']));
    assert_eq!(s(&t.text), "pavastAm");
    t.apply(TermOp::LastTwo(vec!['v', 'a', 'm']));
    assert_eq!(s(&t.text), "pavastvam");
    t.apply(TermOp::Lopa);
    assert_eq!(s(&t.text), "");
    t.apply(TermOp::AddTag(Tag::pit));
    assert!(t.has_tag(Tag::pit));
    t.apply(TermOp::RemoveTag(Tag::pit));
    assert!(!t.has_tag(Tag::pit));
}

#[test]
fn ti_without_vowel_is_unchanged() {
    let mut t = Term::make_upadesha("st");
    t.apply(TermOp::Ti(vec!['e']));
    assert_eq!(s(&t.text), "st");
}

#[test]
fn prakriya_lookups() {
    let mut p = Prakriya::new();
    p.push_term(Term::make_dhatu("BU", "Bav", Gana::Bhvadi));
    p.push_term(Term::make_upadesha(""));
    p.push_term(Term::make_lakara(Lakara::Lat));
    assert_eq!(p.find_last_with_tag(Tag::Dhatu), Some(0));
    assert_eq!(p.find_last_with_tag(Tag::Pratyaya), Some(2));
    assert_eq!(p.find_last_with_tag(Tag::Tin), None);
    assert_eq!(p.prev_not_empty(2), Some(0));
    assert_eq!(p.prev_not_empty(0), None);
    assert_eq!(s(&p.text()), "Bavla~w");
}

#[test]
fn optional_rules_follow_the_declined_list() {
    let mut p = Prakriya::new();
    p.decline(Rule::Sutra(3, 4, 97));
    assert!(!p.optional(Rule::Sutra(3, 4, 97)));
    assert!(p.optional(Rule::Sutra(3, 4, 98)));
    assert_eq!(
        p.decisions,
        vec![(Rule::Sutra(3, 4, 97), false), (Rule::Sutra(3, 4, 98), true)]
    );
}

//! Operators that the rules share: substitution (adesha) of a whole term,
//! and substitution by position in parallel lists (yathasankhya, 1.3.10).

use vstd::prelude::*;
use crate::it_samjna::{it_run, run as run_it_samjna};
use crate::prakriya::{Prakriya, PrakriyaView, Rule, TermOp};
use crate::tag::Tag;
use crate::text::{find_in_list, index_from, lemma_index_from, list_len, word, word_at, WordList};

verus! {

broadcast use crate::prakriya::lemma_terms_view_len;

/// The term at `i` replaced by `sub` (upadesha and text), tagged as an
/// adesha, the rule recorded, and it-samjna run on the new upadesha.
pub open spec fn adesha_spec(p: PrakriyaView, rule: Rule, i: int, sub: Seq<char>) -> PrakriyaView {
    if p.in_range(i) {
        it_run(p.set_term(i, p.terms[i].with_u_text(sub).add_tag(Tag::Adesha)).step(rule), i).0
    } else {
        p
    }
}

/// `adesha_spec` under an optional rule, where the derivation takes it.
pub open spec fn optional_adesha_spec(p: PrakriyaView, rule: Rule, i: int, sub: Seq<char>) -> PrakriyaView {
    if p.allows(rule) {
        adesha_spec(p.decide(rule), rule, i, sub)
    } else {
        p.decide(rule)
    }
}

/// The term at `i`, where its upadesha stands in `old`, replaced by the word
/// at the same position in `new` (upadesha and text), tagged as an adesha.
pub open spec fn yatha_spec(p: PrakriyaView, i: int, old: WordList, new: WordList) -> PrakriyaView {
    if p.in_range(i) && p.terms[i].u is Some && index_from(old, p.terms[i].u->0, 0) >= 0 {
        p.set_term(
            i,
            p.terms[i].with_u_text(word(new, index_from(old, p.terms[i].u->0, 0))).add_tag(
                Tag::Adesha,
            ),
        )
    } else {
        p
    }
}

/// Replaces the term at `i` with `sub` under `rule`.
pub fn adesha(rule: Rule, p: &mut Prakriya, i: usize, sub: Vec<char>)
    ensures
        final(p)@ == adesha_spec(old(p)@, rule, i as int, sub@),
        final(p).terms.len() == old(p).terms.len(),
{
    if i < p.terms.len() {
        p.apply_at(i, TermOp::SetUText(sub));
        p.apply_at(i, TermOp::AddTag(Tag::Adesha));
        assert(p@.terms =~= old(p)@.terms.update(
            i as int,
            old(p)@.terms[i as int].with_u_text(sub@).add_tag(Tag::Adesha),
        ));
        p.step(rule);
        let _ = run_it_samjna(p, i);
    }
}

/// Replaces the term at `i` with `sub` under the optional `rule`, where the
/// derivation takes it; says whether it did.
pub fn optional_adesha(rule: Rule, p: &mut Prakriya, i: usize, sub: Vec<char>) -> (r: bool)
    ensures
        r == old(p)@.allows(rule),
        final(p)@ == optional_adesha_spec(old(p)@, rule, i as int, sub@),
        final(p).terms.len() == old(p).terms.len(),
{
    if p.optional(rule) {
        adesha(rule, p, i, sub);
        true
    } else {
        false
    }
}

/// Replaces the term at `i`, where its upadesha stands in `from`, by the word
/// at the same position in `to`.
pub fn upadesha_yatha(p: &mut Prakriya, i: usize, from: WordList, to: WordList)
    requires
        list_len(from) == list_len(to),
    ensures
        final(p)@ == yatha_spec(old(p)@, i as int, from, to),
        final(p).terms.len() == old(p).terms.len(),
{
    if i < p.terms.len() {
        let found = match &p.terms[i].u {
            Some(u) => find_in_list(from, u),
            None => None,
        };
        match found {
            Some(k) => {
                proof {
                    lemma_index_from(from, old(p)@.terms[i as int].u->0, 0);
                }
                let w = word_at(to, k);
                p.apply_at(i, TermOp::SetUText(w));
                p.apply_at(i, TermOp::AddTag(Tag::Adesha));
                assert(p@ =~= yatha_spec(old(p)@, i as int, from, to));
            },
            None => {},
        }
    }
}

} // verus!

//! Conditions on a prakriya that several rules share.

use vstd::prelude::*;
use crate::args::Vikarana;
use crate::prakriya::{Prakriya, PrakriyaView};
use crate::text::WordList;

verus! {

broadcast use crate::prakriya::lemma_terms_view_len;

/// Whether some term of the prakriya is the vikarana `v`.
pub open spec fn has_vikarana_spec(p: PrakriyaView, v: Vikarana) -> bool {
    exists|j: int| 0 <= j < p.terms.len() && #[trigger] p.terms[j].is_vikarana(v)
}

/// Whether the dhatu at `i` is one of juzI~, tF, madi~ and takes the sip
/// vikarana (3.1.34): some term after it is sip.
pub open spec fn uses_sip_vikarana_spec(p: PrakriyaView, i: int) -> bool {
    &&& p.in_range(i)
    &&& p.terms[i].has_u_in(WordList::SipDhatus)
    &&& exists|j: int| i < j < p.terms.len() && #[trigger] p.terms[j].is_vikarana(Vikarana::sip)
}

/// Whether some term of the prakriya is the vikarana `v`.
pub fn has_vikarana(p: &Prakriya, v: Vikarana) -> (r: bool)
    ensures
        r == has_vikarana_spec(p@, v),
{
    let mut j: usize = 0;
    while j < p.terms.len()
        invariant
            j <= p.terms.len(),
            forall|k: int| 0 <= k < j ==> !(#[trigger] p@.terms[k]).is_vikarana(v),
        decreases p.terms.len() - j,
    {
        if p.terms[j].is_vikarana(v) {
            assert(p@.terms[j as int].is_vikarana(v));
            return true;
        }
        j = j + 1;
    }
    false
}

/// Whether the dhatu at `i` is one of juzI~, tF, madi~ and takes the sip
/// vikarana (3.1.34).
pub fn uses_sip_vikarana(p: &Prakriya, i: usize) -> (r: bool)
    ensures
        r == uses_sip_vikarana_spec(p@, i as int),
{
    if i >= p.terms.len() || !p.terms[i].has_u_in(WordList::SipDhatus) {
        return false;
    }
    let mut j: usize = i + 1;
    while j < p.terms.len()
        invariant
            i < j <= p.terms.len(),
            p@.terms[i as int].has_u_in(WordList::SipDhatus),
            forall|k: int| i < k < j ==> !(#[trigger] p@.terms[k]).is_vikarana(Vikarana::sip),
        decreases p.terms.len() - j,
    {
        if p.terms[j].is_vikarana(Vikarana::sip) {
            assert(p@.terms[j as int].is_vikarana(Vikarana::sip));
            return true;
        }
        j = j + 1;
    }
    false
}

} // verus!

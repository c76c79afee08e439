//! it-samjna (1.3.2 - 1.3.9): the marker letters of an upadesha, which tag
//! the term and drop out of its text.

use vstd::prelude::*;
use crate::prakriya::{Prakriya, PrakriyaView, Rule};
use crate::tag::Tag;
use crate::term::{Term, TermView};
use crate::text::{hal, is_hal, is_vowel, slice, vowel};

verus! {


broadcast use {vstd::seq_lib::group_seq_properties, crate::prakriya::lemma_terms_view_len};

/// Whether `c` is of the c-varga or the w-varga (1.3.7).
pub open spec fn is_cu_tu(c: char) -> bool {
    c == 'c' || c == 'C' || c == 'j' || c == 'J' || c == 'Y' || c == 'w' || c == 'W' || c == 'q'
        || c == 'Q' || c == 'R'
}

/// Whether `c` is of the k-varga (1.3.8).
pub open spec fn is_ku(c: char) -> bool {
    c == 'k' || c == 'K' || c == 'g' || c == 'G' || c == 'N'
}

/// Whether `c` is of the t-varga, s or m (1.3.4).
pub open spec fn is_tusma(c: char) -> bool {
    c == 't' || c == 'T' || c == 'd' || c == 'D' || c == 'n' || c == 's' || c == 'm'
}

/// The tag that an it letter gives its term, where the model names one.
pub open spec fn it_tag(c: char) -> Option<Tag> {
    if c == 'k' {
        Some(Tag::kit)
    } else if c == 'N' {
        Some(Tag::Nit)
    } else if c == 'c' {
        Some(Tag::cit)
    } else if c == 'j' {
        Some(Tag::jit)
    } else if c == 'Y' {
        Some(Tag::Yit)
    } else if c == 'w' {
        Some(Tag::wit)
    } else if c == 'q' {
        Some(Tag::qit)
    } else if c == 'R' {
        Some(Tag::Rit)
    } else if c == 'p' {
        Some(Tag::pit)
    } else if c == 'm' {
        Some(Tag::mit)
    } else if c == 'l' {
        Some(Tag::lit)
    } else if c == 'S' {
        Some(Tag::Sit)
    } else if c == 'z' {
        Some(Tag::zit)
    } else if c == 'a' {
        Some(Tag::adit)
    } else if c == 'i' {
        Some(Tag::idit)
    } else if c == 'u' {
        Some(Tag::udit)
    } else if c == 'f' {
        Some(Tag::fdit)
    } else {
        None
    }
}

/// `tags` with the tag of the it letter `c`, where it has one.
pub open spec fn with_it_tag(tags: Set<Tag>, c: char) -> Set<Tag> {
    match it_tag(c) {
        Some(x) => tags.insert(x),
        None => tags,
    }
}

/// Whether `s` starts with a nasalized vowel (a vowel followed by `~`, 1.3.2).
pub open spec fn starts_nasal(s: Seq<char>) -> bool {
    s.len() >= 2 && is_vowel(s[0]) && s[1] == '~'
}

/// `s` without its nasalized vowels.
pub open spec fn strip_nasal(s: Seq<char>) -> Seq<char>
    decreases s.len(),
{
    if s.len() == 0 {
        s
    } else if starts_nasal(s) {
        strip_nasal(s.skip(2))
    } else {
        seq![s[0]] + strip_nasal(s.skip(1))
    }
}

/// `tags` with the tags of the nasalized vowels of `s`.
pub open spec fn nasal_tags(s: Seq<char>, tags: Set<Tag>) -> Set<Tag>
    decreases s.len(),
{
    if s.len() == 0 {
        tags
    } else if starts_nasal(s) {
        nasal_tags(s.skip(2), with_it_tag(tags, s[0]))
    } else {
        nasal_tags(s.skip(1), tags)
    }
}

/// Whether `s` has a nasalized vowel.
pub open spec fn has_nasal(s: Seq<char>) -> bool
    decreases s.len(),
{
    if s.len() == 0 {
        false
    } else if starts_nasal(s) {
        true
    } else {
        has_nasal(s.skip(1))
    }
}

/// Whether `u` is the J-initial ending Ji or Ja, whose J 7.1.3 replaces
/// and which therefore is no it (1.3.7 does not reach it).
pub open spec fn is_jha_ending(u: Seq<char>) -> bool {
    u == seq!['J', 'i'] || u == seq!['J', 'a']
}

/// Whether the first letter of the upadesha `u` of `t` is it (1.3.6 - 1.3.8).
pub open spec fn adi_it(t: TermView, u: Seq<char>) -> bool {
    &&& t.has_tag(Tag::Pratyaya)
    &&& u.len() > 0
    &&& !is_jha_ending(u)
    &&& (u[0] == 'z' || is_cu_tu(u[0]) || (!t.has_tag(Tag::Taddhita) && (u[0] == 'l' || u[0]
        == 'S' || is_ku(u[0]))))
}

/// Where the upadesha's body starts, after an it first letter.
pub open spec fn body_start(t: TermView, u: Seq<char>) -> int {
    if adi_it(t, u) {
        1
    } else {
        0
    }
}

/// Whether the last letter of the upadesha `u` of `t` is it: a consonant
/// (1.3.3), except t-varga, s and m in a vibhakti (1.3.4).
pub open spec fn antya_it(t: TermView, u: Seq<char>) -> bool {
    &&& u.len() > body_start(t, u)
    &&& is_hal(u.last())
    &&& !(t.has_tag(Tag::Vibhakti) && is_tusma(u.last()))
}

/// The upadesha without its first and last letters where those are it.
pub open spec fn it_body(t: TermView, u: Seq<char>) -> Seq<char> {
    u.subrange(
        body_start(t, u),
        if antya_it(t, u) {
            u.len() - 1
        } else {
            u.len() as int
        },
    )
}

/// The rule that makes a first letter `c` it.
pub open spec fn adi_rule(c: char) -> Rule {
    if c == 'z' {
        Rule::Sutra(1, 3, 6)
    } else if is_cu_tu(c) {
        Rule::Sutra(1, 3, 7)
    } else {
        Rule::Sutra(1, 3, 8)
    }
}

/// The rules that it-samjna of `u` applies, in order.
pub open spec fn it_rules(t: TermView, u: Seq<char>) -> Seq<Rule> {
    let any = adi_it(t, u) || antya_it(t, u) || has_nasal(it_body(t, u));
    (if adi_it(t, u) {
        seq![adi_rule(u[0])]
    } else {
        Seq::empty()
    }) + (if antya_it(t, u) {
        seq![Rule::Sutra(1, 3, 3)]
    } else {
        Seq::empty()
    }) + (if has_nasal(it_body(t, u)) {
        seq![Rule::Sutra(1, 3, 2)]
    } else {
        Seq::empty()
    }) + (if any {
        seq![Rule::Sutra(1, 3, 9)]
    } else {
        Seq::empty()
    })
}

/// The tags of `t` with those of the it letters of `u`.
pub open spec fn it_tags(t: TermView, u: Seq<char>) -> Set<Tag> {
    let t1 = if adi_it(t, u) {
        with_it_tag(t.tags, u[0])
    } else {
        t.tags
    };
    let t2 = if antya_it(t, u) {
        with_it_tag(t1, u.last())
    } else {
        t1
    };
    nasal_tags(it_body(t, u), t2)
}

/// The term `t` after it-samjna of its upadesha `u`: the it letters leave
/// the text and tag the term.
pub open spec fn apply_it(t: TermView, u: Seq<char>) -> TermView {
    TermView { text: strip_nasal(it_body(t, u)), tags: it_tags(t, u), ..t }
}

/// it-samjna of the term at `i`: the new prakriya, and whether the term
/// exists and has an upadesha.
pub open spec fn it_run(p: PrakriyaView, i: int) -> (PrakriyaView, bool) {
    if p.in_range(i) && p.terms[i].u is Some {
        let t = p.terms[i];
        let u = t.u->0;
        (
            PrakriyaView {
                terms: p.terms.update(i, apply_it(t, u)),
                history: p.history + it_rules(t, u),
                ..p
            },
            true,
        )
    } else {
        (p, false)
    }
}

/// The tags of the nasalized vowels only add to `tags`.
pub proof fn lemma_nasal_tags_grow(s: Seq<char>, tags: Set<Tag>)
    ensures
        tags.subset_of(nasal_tags(s, tags)),
    decreases s.len(),
{
    if s.len() > 0 {
        if starts_nasal(s) {
            lemma_nasal_tags_grow(s.skip(2), with_it_tag(tags, s[0]));
        } else {
            lemma_nasal_tags_grow(s.skip(1), tags);
        }
    }
}

/// it-samjna only adds tags: the term keeps those it had.
pub proof fn lemma_it_tags_grow(t: TermView, u: Seq<char>)
    ensures
        t.tags.subset_of(it_tags(t, u)),
{
    let t1 = if adi_it(t, u) {
        with_it_tag(t.tags, u[0])
    } else {
        t.tags
    };
    let t2 = if antya_it(t, u) {
        with_it_tag(t1, u.last())
    } else {
        t1
    };
    lemma_nasal_tags_grow(it_body(t, u), t2);
}

/// Why it-samjna could not run.
#[derive(Clone, Copy, Debug, PartialEq, Eq, Structural)]
pub enum ItError {
    /// There is no term at the index.
    NoTerm,
    /// The term has no upadesha.
    NoUpadesha,
}

fn is_cu_tu_exec(c: char) -> (r: bool)
    ensures
        r == is_cu_tu(c),
{
    c == 'c' || c == 'C' || c == 'j' || c == 'J' || c == 'Y' || c == 'w' || c == 'W' || c == 'q'
        || c == 'Q' || c == 'R'
}

fn is_ku_exec(c: char) -> (r: bool)
    ensures
        r == is_ku(c),
{
    c == 'k' || c == 'K' || c == 'g' || c == 'G' || c == 'N'
}

fn is_tusma_exec(c: char) -> (r: bool)
    ensures
        r == is_tusma(c),
{
    c == 't' || c == 'T' || c == 'd' || c == 'D' || c == 'n' || c == 's' || c == 'm'
}

fn it_tag_exec(c: char) -> (r: Option<Tag>)
    ensures
        r == it_tag(c),
{
    if c == 'k' {
        Some(Tag::kit)
    } else if c == 'N' {
        Some(Tag::Nit)
    } else if c == 'c' {
        Some(Tag::cit)
    } else if c == 'j' {
        Some(Tag::jit)
    } else if c == 'Y' {
        Some(Tag::Yit)
    } else if c == 'w' {
        Some(Tag::wit)
    } else if c == 'q' {
        Some(Tag::qit)
    } else if c == 'R' {
        Some(Tag::Rit)
    } else if c == 'p' {
        Some(Tag::pit)
    } else if c == 'm' {
        Some(Tag::mit)
    } else if c == 'l' {
        Some(Tag::lit)
    } else if c == 'S' {
        Some(Tag::Sit)
    } else if c == 'z' {
        Some(Tag::zit)
    } else if c == 'a' {
        Some(Tag::adit)
    } else if c == 'i' {
        Some(Tag::idit)
    } else if c == 'u' {
        Some(Tag::udit)
    } else if c == 'f' {
        Some(Tag::fdit)
    } else {
        None
    }
}

fn add_it_tag(t: &mut Term, c: char)
    ensures
        final(t)@ == (TermView { tags: with_it_tag(old(t)@.tags, c), ..old(t)@ }),
{
    match it_tag_exec(c) {
        Some(x) => t.add_tag(x),
        None => {},
    }
}

fn adi_rule_exec(c: char) -> (r: Rule)
    ensures
        r == adi_rule(c),
{
    if c == 'z' {
        Rule::Sutra(1, 3, 6)
    } else if is_cu_tu_exec(c) {
        Rule::Sutra(1, 3, 7)
    } else {
        Rule::Sutra(1, 3, 8)
    }
}

/// Runs it-samjna on the term at `i` (1.3.2 - 1.3.9).
pub fn run(p: &mut Prakriya, i: usize) -> (r: Result<(), ItError>)
    ensures
        (final(p)@, r is Ok) == it_run(old(p)@, i as int),
        final(p).terms.len() == old(p).terms.len(),
{
    if i >= p.terms.len() {
        return Err(ItError::NoTerm);
    }
    let u = match &p.terms[i].u {
        Some(u) => slice(u, 0, u.len()),
        None => {
            return Err(ItError::NoUpadesha);
        },
    };
    proof {
        assert(u@ =~= old(p)@.terms[i as int].u->0);
    }
    let ghost t0 = old(p)@.terms[i as int];
    let mut t = p.terms.remove(i);
    let n = u.len();
    let is_pratyaya = t.has_tag(Tag::Pratyaya);
    let is_jha = n == 2 && u[0] == 'J' && (u[1] == 'i' || u[1] == 'a');
    proof {
        if n == 2 && u@[0] == 'J' && u@[1] == 'i' {
            assert(u@ =~= seq!['J', 'i']);
        }
        if n == 2 && u@[0] == 'J' && u@[1] == 'a' {
            assert(u@ =~= seq!['J', 'a']);
        }
    }
    let adi = is_pratyaya && n > 0 && !is_jha && (u[0] == 'z' || is_cu_tu_exec(u[0]) || (
    !t.has_tag(Tag::Taddhita) && (u[0] == 'l' || u[0] == 'S' || is_ku_exec(u[0]))));
    assert(adi == adi_it(t0, u@));
    let start: usize = if adi {
        1
    } else {
        0
    };
    let antya = n > start && hal(u[n - 1]) && !(t.has_tag(Tag::Vibhakti) && is_tusma_exec(
        u[n - 1],
    ));
    assert(antya == antya_it(t0, u@));
    let end: usize = if antya {
        n - 1
    } else {
        n
    };
    if adi {
        add_it_tag(&mut t, u[0]);
    }
    if antya {
        add_it_tag(&mut t, u[n - 1]);
    }
    let body = slice(&u, start, end);
    assert(body@ == it_body(t0, u@));
    let ghost tags1 = t@.tags;
    let mut text: Vec<char> = Vec::new();
    let mut nasal = false;
    let mut k: usize = 0;
    assert(body@.skip(0) =~= body@);
    while k < body.len()
        invariant
            k <= body.len(),
            text@ + strip_nasal(body@.skip(k as int)) == strip_nasal(body@),
            nasal_tags(body@.skip(k as int), t@.tags) == nasal_tags(body@, tags1),
            (nasal || has_nasal(body@.skip(k as int))) == has_nasal(body@),
            t@.text == t0.text,
            t@.u == t0.u,
            t@.morph == t0.morph,
            t@.lakara == t0.lakara,
            t@.gana == t0.gana,
        decreases body.len() - k,
    {
        let ghost rest = body@.skip(k as int);
        if k + 1 < body.len() && vowel(body[k]) && body[k + 1] == '~' {
            assert(rest.skip(2) =~= body@.skip(k + 2));
            add_it_tag(&mut t, body[k]);
            nasal = true;
            k = k + 2;
        } else {
            assert(rest.skip(1) =~= body@.skip(k + 1));
            assert(!starts_nasal(rest));
            text.push(body[k]);
            assert(text@ + strip_nasal(body@.skip(k + 1)) =~= text@.drop_last() + strip_nasal(
                rest,
            ));
            k = k + 1;
        }
    }
    assert(text@ =~= strip_nasal(body@));
    t.set_text(text);
    assert(t@ == apply_it(t0, u@));
    p.terms.insert(i, t);
    assert(p@.terms =~= old(p)@.terms.update(i as int, apply_it(t0, u@)));
    if adi {
        p.step(adi_rule_exec(u[0]));
    }
    if antya {
        p.step(Rule::Sutra(1, 3, 3));
    }
    if nasal {
        p.step(Rule::Sutra(1, 3, 2));
    }
    if adi || antya || nasal {
        p.step(Rule::Sutra(1, 3, 9));
    }
    assert(p@.history =~= old(p)@.history + it_rules(t0, u@));
    Ok(())
}

} // verus!

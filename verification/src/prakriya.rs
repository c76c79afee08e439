//! A prakriya: the terms of a derivation in progress, the rules applied so
//! far, and the choices that govern optional rules.

use vstd::prelude::*;
use crate::args::{Agama, Morph};
use crate::tag::{PrakriyaTag, Tag};
use crate::term::{agama_term, Term, TermView};
use crate::text::{
    replace_char, set_adi, set_antya, set_last_two, set_ti, with_adi, with_antya, with_last_two,
    with_replaced, with_ti,
};

verus! {

broadcast use vstd::seq_lib::group_seq_properties;

/// A source other than the Ashtadhyayi for a form that the rules produce.
#[derive(Clone, Copy, Debug, PartialEq, Eq, Structural)]
pub enum Source {
    /// leT 2sg parasmaipada with the sip vikarana and no aw/Aw agama: yakzi
    /// (yaj), vakzi (vah), Srozi (Sru). The RV tags these as subjunctive;
    /// Macdonell, Vedic Grammar 451 (p. 336), lists them as root-class present
    /// 2sg with imperative sense (RV 1.75.5, 1.188.3).
    LetSipWithoutAgama,
    /// leT uttama ekavacana with the bare -A (about 19 forms in the RV):
    /// kfRavA, hinavA, bravA, stavA, arcA. Macdonell, Vedic Grammar 471
    /// (p. 347); RV 10.95.2, 10.39.5, 2.11.6.
    LetBareA,
}

/// A rule: a sutra of the Ashtadhyayi by adhyaya, pada and number, or a
/// form cited from elsewhere.
#[derive(Clone, Copy, Debug, PartialEq, Eq, Structural)]
pub enum Rule {
    Sutra(u8, u8, u16),
    Anyatra(Source),
}

/// An edit of one term.
pub enum TermOp {
    /// Replace the ti (last vowel onwards) by the text.
    Ti(Vec<char>),
    /// Replace the last letter by the text (delete it, where the text is empty).
    Antya(Vec<char>),
    /// Replace the first letter by the text.
    Adi(Vec<char>),
    /// Replace the last two letters by the text.
    LastTwo(Vec<char>),
    /// Replace every occurrence of the letter by the text.
    Replace(char, Vec<char>),
    /// Delete the whole text (lopa).
    Lopa,
    /// Set the text.
    SetText(Vec<char>),
    /// Set the upadesha and the text.
    SetUText(Vec<char>),
    SetMorph(Morph),
    AddTag(Tag),
    RemoveTag(Tag),
}

/// What an edit makes of a term.
pub open spec fn apply_op(t: TermView, op: TermOp) -> TermView {
    match op {
        TermOp::Ti(s) => t.with_text(set_ti(t.text, s@)),
        TermOp::Antya(s) => t.with_text(set_antya(t.text, s@)),
        TermOp::Adi(s) => t.with_text(set_adi(t.text, s@)),
        TermOp::LastTwo(s) => t.with_text(set_last_two(t.text, s@)),
        TermOp::Replace(c, s) => t.with_text(replace_char(t.text, c, s@)),
        TermOp::Lopa => t.with_text(Seq::empty()),
        TermOp::SetText(s) => t.with_text(s@),
        TermOp::SetUText(s) => t.with_u_text(s@),
        TermOp::SetMorph(m) => TermView { morph: m, ..t },
        TermOp::AddTag(x) => t.add_tag(x),
        TermOp::RemoveTag(x) => t.remove_tag(x),
    }
}

impl Term {
    /// Applies an edit to this term.
    pub fn apply(&mut self, op: TermOp)
        ensures
            final(self)@ == apply_op(old(self)@, op),
    {
        match op {
            TermOp::Ti(s) => {
                let t = with_ti(&self.text, &s);
                self.set_text(t);
            },
            TermOp::Antya(s) => {
                let t = with_antya(&self.text, &s);
                self.set_text(t);
            },
            TermOp::Adi(s) => {
                let t = with_adi(&self.text, &s);
                self.set_text(t);
            },
            TermOp::LastTwo(s) => {
                let t = with_last_two(&self.text, &s);
                self.set_text(t);
            },
            TermOp::Replace(c, s) => {
                let t = with_replaced(&self.text, c, &s);
                self.set_text(t);
            },
            TermOp::Lopa => {
                self.set_text(Vec::new());
            },
            TermOp::SetText(s) => {
                self.set_text(s);
            },
            TermOp::SetUText(s) => {
                self.set_u_text(s);
            },
            TermOp::SetMorph(m) => {
                self.set_morph(m);
            },
            TermOp::AddTag(x) => {
                self.add_tag(x);
            },
            TermOp::RemoveTag(x) => {
                self.remove_tag(x);
            },
        }
    }
}

/// A derivation in progress.
pub struct Prakriya {
    pub terms: Vec<Term>,
    pub tags: Vec<PrakriyaTag>,
    /// The rules applied so far, in order.
    pub history: Vec<Rule>,
    /// The optional rules that this derivation declines.
    pub declined: Vec<Rule>,
    /// Whether the derivation follows Vedic usage (chandas).
    pub chandasi: bool,
    /// Each optional rule met so far, and whether it was taken.
    pub decisions: Vec<(Rule, bool)>,
}

/// The model of a prakriya.
#[verifier::ext_equal]
pub struct PrakriyaView {
    pub terms: Seq<TermView>,
    pub tags: Set<PrakriyaTag>,
    pub history: Seq<Rule>,
    pub declined: Set<Rule>,
    pub chandasi: bool,
    pub decisions: Seq<(Rule, bool)>,
}

/// The models of a sequence of terms.
pub open spec fn terms_view(s: Seq<Term>) -> Seq<TermView> {
    Seq::new(s.len(), |j: int| s[j]@)
}

/// The models of a sequence of terms are as many as the terms.
pub broadcast proof fn lemma_terms_view_len(s: Seq<Term>)
    ensures
        #[trigger] terms_view(s).len() == s.len(),
{
}

impl View for Prakriya {
    type V = PrakriyaView;

    open spec fn view(&self) -> PrakriyaView {
        PrakriyaView {
            terms: terms_view(self.terms@),
            tags: Set::new(|t: PrakriyaTag| self.tags@.contains(t)),
            history: self.history@,
            declined: Set::new(|r: Rule| self.declined@.contains(r)),
            chandasi: self.chandasi,
            decisions: self.decisions@,
        }
    }
}

/// The texts of the terms, one after another.
pub open spec fn joined_text(terms: Seq<TermView>) -> Seq<char>
    decreases terms.len(),
{
    if terms.len() == 0 {
        Seq::empty()
    } else {
        joined_text(terms.drop_last()) + terms.last().text
    }
}

/// The last index below `n` of a term with `tag`, or -1.
pub open spec fn last_with_tag_below(terms: Seq<TermView>, tag: Tag, n: int) -> int
    decreases n,
{
    if n <= 0 {
        -1
    } else if terms[n - 1].has_tag(tag) {
        n - 1
    } else {
        last_with_tag_below(terms, tag, n - 1)
    }
}

/// The last index below `n` of a term with nonempty text, or -1.
pub open spec fn last_nonempty_below(terms: Seq<TermView>, n: int) -> int
    decreases n,
{
    if n <= 0 {
        -1
    } else if terms[n - 1].text.len() > 0 {
        n - 1
    } else {
        last_nonempty_below(terms, n - 1)
    }
}

/// A found index is in range and carries the tag.
pub proof fn lemma_last_with_tag_below(terms: Seq<TermView>, tag: Tag, n: int)
    requires
        0 <= n <= terms.len(),
    ensures
        -1 <= last_with_tag_below(terms, tag, n) < n,
        last_with_tag_below(terms, tag, n) >= 0 ==> terms[last_with_tag_below(
            terms,
            tag,
            n,
        )].has_tag(tag),
    decreases n,
{
    if n > 0 && !terms[n - 1].has_tag(tag) {
        lemma_last_with_tag_below(terms, tag, n - 1);
    }
}

/// A found index is in range and its text is nonempty.
pub proof fn lemma_last_nonempty_below(terms: Seq<TermView>, n: int)
    requires
        0 <= n <= terms.len(),
    ensures
        -1 <= last_nonempty_below(terms, n) < n,
        last_nonempty_below(terms, n) >= 0 ==> terms[last_nonempty_below(terms, n)].text.len()
            > 0,
    decreases n,
{
    if n > 0 && terms[n - 1].text.len() == 0 {
        lemma_last_nonempty_below(terms, n - 1);
    }
}

impl PrakriyaView {
    pub open spec fn has_tag(self, tag: PrakriyaTag) -> bool {
        self.tags.contains(tag)
    }

    /// The index of the last term with `tag`, or -1.
    pub open spec fn find_last_with_tag(self, tag: Tag) -> int {
        last_with_tag_below(self.terms, tag, self.terms.len() as int)
    }

    /// The index of the last term before `i` whose text is nonempty, or -1.
    pub open spec fn prev_not_empty(self, i: int) -> int {
        last_nonempty_below(self.terms, i)
    }

    /// Whether the term at `i` exists and satisfies nothing more.
    pub open spec fn in_range(self, i: int) -> bool {
        0 <= i < self.terms.len()
    }

    pub open spec fn step(self, rule: Rule) -> PrakriyaView {
        PrakriyaView { history: self.history.push(rule), ..self }
    }

    pub open spec fn set_term(self, i: int, t: TermView) -> PrakriyaView {
        PrakriyaView { terms: self.terms.update(i, t), ..self }
    }

    pub open spec fn insert_term(self, i: int, t: TermView) -> PrakriyaView {
        PrakriyaView { terms: self.terms.insert(i, t), ..self }
    }

    /// Whether this derivation takes the optional rule `rule`.
    pub open spec fn allows(self, rule: Rule) -> bool {
        !self.declined.contains(rule)
    }

    /// Records whether the optional rule `rule` is taken.
    pub open spec fn decide(self, rule: Rule) -> PrakriyaView {
        PrakriyaView { decisions: self.decisions.push((rule, self.allows(rule))), ..self }
    }

    /// The term at `i` with text `s`, where there is such a term.
    pub open spec fn edit_text(self, i: int, s: Seq<char>) -> PrakriyaView {
        if self.in_range(i) {
            self.set_term(i, self.terms[i].with_text(s))
        } else {
            self
        }
    }

    /// The term at `i` with `tag` added, where there is such a term.
    pub open spec fn edit_tag(self, i: int, tag: Tag) -> PrakriyaView {
        if self.in_range(i) {
            self.set_term(i, self.terms[i].add_tag(tag))
        } else {
            self
        }
    }

    /// `edit_text` under `rule`, where there is such a term.
    pub open spec fn run_text(self, rule: Rule, i: int, s: Seq<char>) -> PrakriyaView {
        if self.in_range(i) {
            self.edit_text(i, s).step(rule)
        } else {
            self
        }
    }

    /// `edit_tag` under `rule`, where there is such a term.
    pub open spec fn run_tag(self, rule: Rule, i: int, tag: Tag) -> PrakriyaView {
        if self.in_range(i) {
            self.edit_tag(i, tag).step(rule)
        } else {
            self
        }
    }

    /// `run_text` under an optional rule, where the derivation takes it.
    pub open spec fn optional_run_text(self, rule: Rule, i: int, s: Seq<char>) -> PrakriyaView {
        if self.allows(rule) {
            self.decide(rule).run_text(rule, i, s)
        } else {
            self.decide(rule)
        }
    }

    /// `run_tag` under an optional rule, where the derivation takes it.
    pub open spec fn optional_run_tag(self, rule: Rule, i: int, tag: Tag) -> PrakriyaView {
        if self.allows(rule) {
            self.decide(rule).run_tag(rule, i, tag)
        } else {
            self.decide(rule)
        }
    }

    /// Applies an edit to the term at `i`, where there is one.
    pub open spec fn apply_at(self, i: int, op: TermOp) -> PrakriyaView {
        if self.in_range(i) {
            self.set_term(i, apply_op(self.terms[i], op))
        } else {
            self
        }
    }

    /// Applies an edit to the term at `i` under `rule`, where there is such a term.
    pub open spec fn run_at(self, rule: Rule, i: int, op: TermOp) -> PrakriyaView {
        if self.in_range(i) {
            self.apply_at(i, op).step(rule)
        } else {
            self
        }
    }

    /// Applies an edit to the term at `i` under the optional `rule`, where
    /// the derivation takes it.
    pub open spec fn optional_run_at(self, rule: Rule, i: int, op: TermOp) -> PrakriyaView {
        if self.allows(rule) {
            self.decide(rule).run_at(rule, i, op)
        } else {
            self.decide(rule)
        }
    }
}

impl Prakriya {
    /// An empty derivation that takes every optional rule.
    pub fn new() -> (r: Prakriya)
        ensures
            r@.terms == Seq::<TermView>::empty(),
            r@.tags == Set::<PrakriyaTag>::empty(),
            r@.history == Seq::<Rule>::empty(),
            r@.declined == Set::<Rule>::empty(),
            !r@.chandasi,
            r@.decisions == Seq::<(Rule, bool)>::empty(),
    {
        let p = Prakriya {
            terms: Vec::new(),
            tags: Vec::new(),
            history: Vec::new(),
            declined: Vec::new(),
            chandasi: false,
            decisions: Vec::new(),
        };
        assert(p@.terms =~= Seq::<TermView>::empty());
        assert(p@.tags =~= Set::<PrakriyaTag>::empty());
        assert(p@.declined =~= Set::<Rule>::empty());
        p
    }

    /// The texts of the terms, one after another.
    pub fn text(&self) -> (r: Vec<char>)
        ensures
            r@ == joined_text(self@.terms),
    {
        let mut r: Vec<char> = Vec::new();
        let mut i: usize = 0;
        while i < self.terms.len()
            invariant
                i <= self.terms.len(),
                r@ == joined_text(self@.terms.subrange(0, i as int)),
            decreases self.terms.len() - i,
        {
            assert(self@.terms.subrange(0, i + 1).drop_last() =~= self@.terms.subrange(0, i as int));
            r = crate::text::concat(&r, &self.terms[i].text);
            i = i + 1;
        }
        assert(self@.terms.subrange(0, i as int) =~= self@.terms);
        r
    }

    /// Appends a term.
    pub fn push_term(&mut self, t: Term)
        ensures
            final(self)@ == (PrakriyaView { terms: old(self)@.terms.push(t@), ..old(self)@ }),
    {
        self.terms.push(t);
        assert(self@.terms =~= old(self)@.terms.push(t@));
    }

    /// Adds a tag to the prakriya.
    pub fn add_tag(&mut self, tag: PrakriyaTag)
        ensures
            final(self).terms.len() == old(self).terms.len(),
            final(self)@ == (PrakriyaView { tags: old(self)@.tags.insert(tag), ..old(self)@ }),
    {
        self.tags.push(tag);
        assert(self@.tags =~= old(self)@.tags.insert(tag));
    }

    /// Makes the derivation decline the optional rule `rule`.
    pub fn decline(&mut self, rule: Rule)
        ensures
            final(self).terms.len() == old(self).terms.len(),
            final(self)@ == (PrakriyaView {
                declined: old(self)@.declined.insert(rule),
                ..old(self)@
            }),
    {
        self.declined.push(rule);
        assert(self@.declined =~= old(self)@.declined.insert(rule));
    }

    /// Sets whether the derivation follows Vedic usage.
    pub fn set_chandasi(&mut self, b: bool)
        ensures
            final(self).terms.len() == old(self).terms.len(),
            final(self)@ == (PrakriyaView { chandasi: b, ..old(self)@ }),
    {
        self.chandasi = b;
    }

    pub fn is_chandasi(&self) -> (r: bool)
        ensures
            r == self@.chandasi,
    {
        self.chandasi
    }

    pub fn has_tag(&self, tag: PrakriyaTag) -> (r: bool)
        ensures
            r == self@.has_tag(tag),
    {
        let mut i: usize = 0;
        while i < self.tags.len()
            invariant
                i <= self.tags.len(),
                forall|j: int| 0 <= j < i ==> self.tags@[j] != tag,
            decreases self.tags.len() - i,
        {
            if self.tags[i] == tag {
                return true;
            }
            i = i + 1;
        }
        false
    }

    /// Whether this derivation takes the optional rule `rule`.
    pub fn allows(&self, rule: Rule) -> (r: bool)
        ensures
            r == self@.allows(rule),
    {
        let mut i: usize = 0;
        while i < self.declined.len()
            invariant
                i <= self.declined.len(),
                forall|j: int| 0 <= j < i ==> self.declined@[j] != rule,
            decreases self.declined.len() - i,
        {
            if self.declined[i] == rule {
                return false;
            }
            i = i + 1;
        }
        true
    }

    /// Meets the optional rule `rule`: records whether it is taken, and says so.
    pub fn optional(&mut self, rule: Rule) -> (r: bool)
        ensures
            final(self).terms.len() == old(self).terms.len(),
            r == old(self)@.allows(rule),
            final(self)@ == old(self)@.decide(rule),
    {
        let taken = self.allows(rule);
        self.decisions.push((rule, taken));
        taken
    }

    /// Records that `rule` was applied.
    pub fn step(&mut self, rule: Rule)
        ensures
            final(self).terms.len() == old(self).terms.len(),
            final(self)@ == old(self)@.step(rule),
    {
        self.history.push(rule);
    }

    /// The index of the last term with `tag`.
    pub fn find_last_with_tag(&self, tag: Tag) -> (r: Option<usize>)
        ensures
            match r {
                Some(i) => i == self@.find_last_with_tag(tag),
                None => self@.find_last_with_tag(tag) < 0,
            },
    {
        let mut n: usize = self.terms.len();
        while n > 0
            invariant
                n <= self.terms.len(),
                self@.find_last_with_tag(tag) == last_with_tag_below(self@.terms, tag, n as int),
            decreases n,
        {
            if self.terms[n - 1].has_tag(tag) {
                return Some(n - 1);
            }
            n = n - 1;
        }
        None
    }

    /// The index of the last term before `i` whose text is nonempty.
    pub fn prev_not_empty(&self, i: usize) -> (r: Option<usize>)
        requires
            i <= self.terms.len(),
        ensures
            match r {
                Some(j) => j == self@.prev_not_empty(i as int),
                None => self@.prev_not_empty(i as int) < 0,
            },
    {
        let mut n: usize = i;
        while n > 0
            invariant
                n <= i <= self.terms.len(),
                self@.prev_not_empty(i as int) == last_nonempty_below(self@.terms, n as int),
            decreases n,
        {
            if !self.terms[n - 1].is_empty() {
                return Some(n - 1);
            }
            n = n - 1;
        }
        None
    }

    /// Applies an edit to the term at `i`, where there is one.
    pub fn apply_at(&mut self, i: usize, op: TermOp)
        ensures
            final(self).terms.len() == old(self).terms.len(),
            final(self)@ == old(self)@.apply_at(i as int, op),
    {
        if i < self.terms.len() {
            self.terms[i].apply(op);
            assert(self@.terms =~= old(self)@.terms.update(
                i as int,
                apply_op(old(self)@.terms[i as int], op),
            ));
        }
    }

    /// Applies an edit to the term at `i` under `rule`, where there is such a term.
    pub fn run_at(&mut self, rule: Rule, i: usize, op: TermOp) -> (r: bool)
        ensures
            final(self).terms.len() == old(self).terms.len(),
            r == old(self)@.in_range(i as int),
            final(self)@ == old(self)@.run_at(rule, i as int, op),
    {
        if i < self.terms.len() {
            self.apply_at(i, op);
            self.step(rule);
            true
        } else {
            false
        }
    }

    /// Applies an edit to the term at `i` under the optional `rule`, where
    /// the derivation takes it.
    pub fn optional_run_at(&mut self, rule: Rule, i: usize, op: TermOp) -> (r: bool)
        ensures
            final(self).terms.len() == old(self).terms.len(),
            r == old(self)@.allows(rule),
            final(self)@ == old(self)@.optional_run_at(rule, i as int, op),
    {
        if self.optional(rule) {
            self.run_at(rule, i, op);
            true
        } else {
            false
        }
    }

    /// Inserts a new agama before the term at `i`.
    pub fn insert_agama(&mut self, i: usize, a: Agama)
        requires
            i <= old(self).terms.len(),
        ensures
            final(self).terms.len() == old(self).terms.len() + 1,
            final(self)@ == old(self)@.insert_term(i as int, agama_term(a)),
    {
        let t = Term::make_agama(a);
        self.terms.insert(i, t);
        assert(self@.terms =~= old(self)@.terms.insert(i as int, agama_term(a)));
    }

    /// Replaces the ti of the term at `i` by `sub` under `rule`.
    pub fn run_ti(&mut self, rule: Rule, i: usize, sub: Vec<char>)
        ensures
            final(self).terms.len() == old(self).terms.len(),
            final(self)@ == old(self)@.run_text(rule, i as int, set_ti(old(self)@.terms[i as int].text, sub@)),
    {
        let ghost s = sub@;
        self.run_at(rule, i, TermOp::Ti(sub));
        assert(self@ =~= old(self)@.run_text(rule, i as int, set_ti(old(self)@.terms[i as int].text, s)));
    }

    /// Replaces the last letter of the term at `i` by `sub` under `rule`.
    pub fn run_antya(&mut self, rule: Rule, i: usize, sub: Vec<char>)
        ensures
            final(self).terms.len() == old(self).terms.len(),
            final(self)@ == old(self)@.run_text(rule, i as int, set_antya(old(self)@.terms[i as int].text, sub@)),
    {
        let ghost s = sub@;
        self.run_at(rule, i, TermOp::Antya(sub));
        assert(self@ =~= old(self)@.run_text(rule, i as int, set_antya(old(self)@.terms[i as int].text, s)));
    }

    /// Replaces the first letter of the term at `i` by `sub` under `rule`.
    pub fn run_adi(&mut self, rule: Rule, i: usize, sub: Vec<char>)
        ensures
            final(self).terms.len() == old(self).terms.len(),
            final(self)@ == old(self)@.run_text(rule, i as int, set_adi(old(self)@.terms[i as int].text, sub@)),
    {
        let ghost s = sub@;
        self.run_at(rule, i, TermOp::Adi(sub));
        assert(self@ =~= old(self)@.run_text(rule, i as int, set_adi(old(self)@.terms[i as int].text, s)));
    }

    /// Replaces the last two letters of the term at `i` by `sub` under `rule`.
    pub fn run_last_two(&mut self, rule: Rule, i: usize, sub: Vec<char>)
        ensures
            final(self).terms.len() == old(self).terms.len(),
            final(self)@ == old(self)@.run_text(rule, i as int, set_last_two(old(self)@.terms[i as int].text, sub@)),
    {
        let ghost s = sub@;
        self.run_at(rule, i, TermOp::LastTwo(sub));
        assert(self@ =~= old(self)@.run_text(rule, i as int, set_last_two(old(self)@.terms[i as int].text, s)));
    }

    /// Replaces the last letter of the term at `i` by `sub` under the optional
    /// `rule`, where the derivation takes it.
    pub fn optional_run_antya(&mut self, rule: Rule, i: usize, sub: Vec<char>) -> (r: bool)
        ensures
            final(self).terms.len() == old(self).terms.len(),
            r == old(self)@.allows(rule),
            final(self)@ == old(self)@.optional_run_text(rule, i as int, set_antya(old(self)@.terms[i as int].text, sub@)),
    {
        if self.optional(rule) {
            self.run_antya(rule, i, sub);
            true
        } else {
            false
        }
    }

    /// Deletes the text of the term at `i` under the optional `rule`, where
    /// the derivation takes it.
    pub fn optional_run_lopa(&mut self, rule: Rule, i: usize) -> (r: bool)
        ensures
            final(self).terms.len() == old(self).terms.len(),
            r == old(self)@.allows(rule),
            final(self)@ == old(self)@.optional_run_text(rule, i as int, Seq::empty()),
    {
        if self.optional(rule) {
            let ghost mid = self@;
            self.run_at(rule, i, TermOp::Lopa);
            assert(self@ =~= mid.run_text(rule, i as int, Seq::empty()));
            true
        } else {
            false
        }
    }

    /// Adds `tag` to the term at `i` under `rule`.
    pub fn run_add_tag(&mut self, rule: Rule, i: usize, tag: Tag)
        ensures
            final(self).terms.len() == old(self).terms.len(),
            final(self)@ == old(self)@.run_tag(rule, i as int, tag),
    {
        self.run_at(rule, i, TermOp::AddTag(tag));
        assert(self@ =~= old(self)@.run_tag(rule, i as int, tag));
    }

    /// Adds `tag` to the term at `i` under the optional `rule`, where the
    /// derivation takes it.
    pub fn optional_run_add_tag(&mut self, rule: Rule, i: usize, tag: Tag) -> (r: bool)
        ensures
            final(self).terms.len() == old(self).terms.len(),
            r == old(self)@.allows(rule),
            final(self)@ == old(self)@.optional_run_tag(rule, i as int, tag),
    {
        if self.optional(rule) {
            self.run_add_tag(rule, i, tag);
            true
        } else {
            false
        }
    }

    /// Adds `tag` to the term at `i`, where there is one.
    pub fn add_tag_to(&mut self, i: usize, tag: Tag)
        ensures
            final(self).terms.len() == old(self).terms.len(),
            final(self)@ == old(self)@.edit_tag(i as int, tag),
    {
        self.apply_at(i, TermOp::AddTag(tag));
        assert(self@ =~= old(self)@.edit_tag(i as int, tag));
    }
}

} // verus!

//! Text in SLP1 as sequences of characters: letter classes, the edits that
//! the rules make, and the fixed word lists that they name.

use vstd::prelude::*;

verus! {

broadcast use vstd::seq_lib::group_seq_properties;

/// Whether `c` is a vowel (ac) in SLP1.
pub open spec fn is_vowel(c: char) -> bool {
    c == 'a' || c == 'A' || c == 'i' || c == 'I' || c == 'u' || c == 'U' || c == 'f' || c == 'F'
        || c == 'x' || c == 'X' || c == 'e' || c == 'E' || c == 'o' || c == 'O'
}

/// Whether `c` is a vowel (ac) in SLP1.
pub fn vowel(c: char) -> (r: bool)
    ensures
        r == is_vowel(c),
{
    c == 'a' || c == 'A' || c == 'i' || c == 'I' || c == 'u' || c == 'U' || c == 'f' || c == 'F'
        || c == 'x' || c == 'X' || c == 'e' || c == 'E' || c == 'o' || c == 'O'
}

/// Whether `c` is a consonant (hal) in SLP1.
pub open spec fn is_hal(c: char) -> bool {
    c == 'k' || c == 'K' || c == 'g' || c == 'G' || c == 'N' || c == 'c' || c == 'C' || c == 'j'
        || c == 'J' || c == 'Y' || c == 'w' || c == 'W' || c == 'q' || c == 'Q' || c == 'R'
        || c == 't' || c == 'T' || c == 'd' || c == 'D' || c == 'n' || c == 'p' || c == 'P'
        || c == 'b' || c == 'B' || c == 'm' || c == 'y' || c == 'r' || c == 'l' || c == 'v'
        || c == 'S' || c == 'z' || c == 's' || c == 'h'
}

/// Whether `c` is a consonant (hal) in SLP1.
pub fn hal(c: char) -> (r: bool)
    ensures
        r == is_hal(c),
{
    c == 'k' || c == 'K' || c == 'g' || c == 'G' || c == 'N' || c == 'c' || c == 'C' || c == 'j'
        || c == 'J' || c == 'Y' || c == 'w' || c == 'W' || c == 'q' || c == 'Q' || c == 'R'
        || c == 't' || c == 'T' || c == 'd' || c == 'D' || c == 'n' || c == 'p' || c == 'P'
        || c == 'b' || c == 'B' || c == 'm' || c == 'y' || c == 'r' || c == 'l' || c == 'v'
        || c == 'S' || c == 'z' || c == 's' || c == 'h'
}

/// Whether `s` ends with `suffix`.
pub open spec fn ends_with(s: Seq<char>, suffix: Seq<char>) -> bool {
    suffix.len() <= s.len() && s.subrange(s.len() - suffix.len(), s.len() as int) == suffix
}

/// Whether the last letter (antya) of `s` is `c`.
pub open spec fn has_antya(s: Seq<char>, c: char) -> bool {
    s.len() > 0 && s.last() == c
}

/// Whether the first letter (adi) of `s` is `c`.
pub open spec fn has_adi(s: Seq<char>, c: char) -> bool {
    s.len() > 0 && s[0] == c
}

/// The index of the last vowel of `s`, or -1 where `s` has none.
pub open spec fn last_vowel(s: Seq<char>) -> int
    decreases s.len(),
{
    if s.len() == 0 {
        -1
    } else if is_vowel(s.last()) {
        s.len() - 1
    } else {
        last_vowel(s.drop_last())
    }
}

/// `s` with its ti (the last vowel and what follows it, 1.1.64) replaced by
/// `sub`; unchanged where `s` has no vowel.
pub open spec fn set_ti(s: Seq<char>, sub: Seq<char>) -> Seq<char> {
    if last_vowel(s) < 0 {
        s
    } else {
        s.subrange(0, last_vowel(s)) + sub
    }
}

/// `s` with its last letter replaced by `sub`; unchanged where `s` is empty.
pub open spec fn set_antya(s: Seq<char>, sub: Seq<char>) -> Seq<char> {
    if s.len() == 0 {
        s
    } else {
        s.drop_last() + sub
    }
}

/// `s` with its first letter replaced by `sub`; unchanged where `s` is empty.
pub open spec fn set_adi(s: Seq<char>, sub: Seq<char>) -> Seq<char> {
    if s.len() == 0 {
        s
    } else {
        sub + s.drop_first()
    }
}

/// `s` with its last two letters replaced by `sub`; unchanged where `s` is
/// shorter than two letters.
pub open spec fn set_last_two(s: Seq<char>, sub: Seq<char>) -> Seq<char> {
    if s.len() < 2 {
        s
    } else {
        s.subrange(0, s.len() - 2) + sub
    }
}

/// `s` with every `c` replaced by `sub`.
pub open spec fn replace_char(s: Seq<char>, c: char, sub: Seq<char>) -> Seq<char>
    decreases s.len(),
{
    if s.len() == 0 {
        s
    } else {
        (if s[0] == c { sub } else { seq![s[0]] }) + replace_char(s.drop_first(), c, sub)
    }
}

/// The last vowel's index is -1 or the index of a vowel in `s`, after which
/// no vowel follows.
pub proof fn lemma_last_vowel(s: Seq<char>)
    ensures
        -1 <= last_vowel(s) < s.len(),
        last_vowel(s) >= 0 ==> is_vowel(s[last_vowel(s)]),
        forall|j: int| last_vowel(s) < j < s.len() ==> !is_vowel(#[trigger] s[j]),
    decreases s.len(),
{
    if s.len() > 0 && !is_vowel(s.last()) {
        lemma_last_vowel(s.drop_last());
        assert forall|j: int| last_vowel(s) < j < s.len() implies !is_vowel(#[trigger] s[j]) by {
            if j < s.len() - 1 {
                assert(s[j] == s.drop_last()[j]);
            }
        }
    }
}

/// The characters of `s`.
pub fn chars_of(s: &str) -> (r: Vec<char>)
    ensures
        r@ == s@,
{
    let n = s.unicode_len();
    let mut r: Vec<char> = Vec::new();
    let mut i: usize = 0;
    while i < n
        invariant
            i <= n,
            n == s@.len(),
            r@ == s@.subrange(0, i as int),
        decreases n - i,
    {
        r.push(s.get_char(i));
        i = i + 1;
    }
    assert(s@.subrange(0, n as int) =~= s@);
    r
}

/// The characters of `a` followed by those of `b`.
pub fn concat(a: &Vec<char>, b: &Vec<char>) -> (r: Vec<char>)
    ensures
        r@ == a@ + b@,
{
    let mut r: Vec<char> = Vec::new();
    let mut i: usize = 0;
    while i < a.len()
        invariant
            i <= a.len(),
            r@ == a@.subrange(0, i as int),
        decreases a.len() - i,
    {
        r.push(a[i]);
        i = i + 1;
    }
    let mut j: usize = 0;
    while j < b.len()
        invariant
            j <= b.len(),
            r@ == a@ + b@.subrange(0, j as int),
        decreases b.len() - j,
    {
        r.push(b[j]);
        j = j + 1;
    }
    assert(a@.subrange(0, a.len() as int) =~= a@);
    assert(b@.subrange(0, b.len() as int) =~= b@);
    r
}

/// The characters of `s` from `from` up to `to`.
pub fn slice(s: &Vec<char>, from: usize, to: usize) -> (r: Vec<char>)
    requires
        from <= to <= s.len(),
    ensures
        r@ == s@.subrange(from as int, to as int),
{
    let mut r: Vec<char> = Vec::new();
    let mut i: usize = from;
    while i < to
        invariant
            from <= i <= to,
            to <= s.len(),
            r@ == s@.subrange(from as int, i as int),
        decreases to - i,
    {
        r.push(s[i]);
        i = i + 1;
    }
    r
}

/// Whether `a` and `b` hold the same characters.
pub fn eq_text(a: &Vec<char>, b: &Vec<char>) -> (r: bool)
    ensures
        r == (a@ == b@),
{
    if a.len() != b.len() {
        return false;
    }
    let mut i: usize = 0;
    while i < a.len()
        invariant
            i <= a.len(),
            a.len() == b.len(),
            forall|j: int| 0 <= j < i ==> a@[j] == b@[j],
        decreases a.len() - i,
    {
        if a[i] != b[i] {
            return false;
        }
        i = i + 1;
    }
    assert(a@ =~= b@);
    true
}

/// Whether `s` ends with `suffix`.
pub fn text_ends_with(s: &Vec<char>, suffix: &Vec<char>) -> (r: bool)
    ensures
        r == ends_with(s@, suffix@),
{
    if suffix.len() > s.len() {
        return false;
    }
    let start = s.len() - suffix.len();
    let mut i: usize = 0;
    while i < suffix.len()
        invariant
            i <= suffix.len(),
            start + suffix.len() == s.len(),
            forall|j: int| 0 <= j < i ==> s@[start + j] == suffix@[j],
        decreases suffix.len() - i,
    {
        if s[start + i] != suffix[i] {
            assert(s@.subrange(start as int, s.len() as int)[i as int] != suffix@[i as int]);
            return false;
        }
        i = i + 1;
    }
    assert(s@.subrange(start as int, s.len() as int) =~= suffix@);
    true
}

/// Whether `s` contains `c`.
pub fn text_contains(s: &Vec<char>, c: char) -> (r: bool)
    ensures
        r == s@.contains(c),
{
    let mut i: usize = 0;
    while i < s.len()
        invariant
            i <= s.len(),
            forall|j: int| 0 <= j < i ==> s@[j] != c,
        decreases s.len() - i,
    {
        if s[i] == c {
            return true;
        }
        i = i + 1;
    }
    false
}

/// Whether the last letter of `s` is `c`.
pub fn text_has_antya(s: &Vec<char>, c: char) -> (r: bool)
    ensures
        r == has_antya(s@, c),
{
    s.len() > 0 && s[s.len() - 1] == c
}

/// Whether the first letter of `s` is `c`.
pub fn text_has_adi(s: &Vec<char>, c: char) -> (r: bool)
    ensures
        r == has_adi(s@, c),
{
    s.len() > 0 && s[0] == c
}

/// The index of the last vowel of `s`, where it has one.
pub fn find_last_vowel(s: &Vec<char>) -> (r: Option<usize>)
    ensures
        match r {
            Some(k) => k == last_vowel(s@),
            None => last_vowel(s@) < 0,
        },
{
    let mut i: usize = s.len();
    assert(s@.subrange(0, i as int) =~= s@);
    while i > 0
        invariant
            i <= s.len(),
            last_vowel(s@) == last_vowel(s@.subrange(0, i as int)),
        decreases i,
    {
        if vowel(s[i - 1]) {
            return Some(i - 1);
        }
        assert(s@.subrange(0, i as int).drop_last() =~= s@.subrange(0, i - 1));
        i = i - 1;
    }
    None
}

/// `s` with its ti replaced by `sub`.
pub fn with_ti(s: &Vec<char>, sub: &Vec<char>) -> (r: Vec<char>)
    ensures
        r@ == set_ti(s@, sub@),
{
    proof {
        lemma_last_vowel(s@);
    }
    match find_last_vowel(s) {
        Some(k) => {
            let head = slice(s, 0, k);
            concat(&head, sub)
        },
        None => slice(s, 0, s.len()),
    }
}

/// `s` with its last letter replaced by `sub`.
pub fn with_antya(s: &Vec<char>, sub: &Vec<char>) -> (r: Vec<char>)
    ensures
        r@ == set_antya(s@, sub@),
{
    if s.len() == 0 {
        Vec::new()
    } else {
        let head = slice(s, 0, s.len() - 1);
        concat(&head, sub)
    }
}

/// `s` with its first letter replaced by `sub`.
pub fn with_adi(s: &Vec<char>, sub: &Vec<char>) -> (r: Vec<char>)
    ensures
        r@ == set_adi(s@, sub@),
{
    if s.len() == 0 {
        Vec::new()
    } else {
        let tail = slice(s, 1, s.len());
        concat(sub, &tail)
    }
}

/// `s` with its last two letters replaced by `sub`.
pub fn with_last_two(s: &Vec<char>, sub: &Vec<char>) -> (r: Vec<char>)
    ensures
        r@ == set_last_two(s@, sub@),
{
    if s.len() < 2 {
        slice(s, 0, s.len())
    } else {
        let head = slice(s, 0, s.len() - 2);
        concat(&head, sub)
    }
}

/// `s` with every `c` replaced by `sub`.
pub fn with_replaced(s: &Vec<char>, c: char, sub: &Vec<char>) -> (r: Vec<char>)
    ensures
        r@ == replace_char(s@, c, sub@),
{
    let mut r: Vec<char> = Vec::new();
    let mut i: usize = 0;
    assert(s@.skip(0) =~= s@);
    while i < s.len()
        invariant
            i <= s.len(),
            r@ + replace_char(s@.skip(i as int), c, sub@) == replace_char(s@, c, sub@),
        decreases s.len() - i,
    {
        assert(s@.skip(i as int).drop_first() =~= s@.skip(i + 1));
        if s[i] == c {
            r = concat(&r, sub);
        } else {
            r.push(s[i]);
        }
        i = i + 1;
    }
    assert(r@ + replace_char(s@.skip(i as int), c, sub@) == r@ + Seq::<char>::empty());
    r
}

/// A fixed list of upadeshas that a rule names.
#[derive(Clone, Copy, Debug, PartialEq, Eq, Structural)]
pub enum WordList {
    /// The nine parasmaipada tin endings
    TinPara,
    /// Their replacements in liT (3.4.82)
    NalPara,
    /// The first five parasmaipada tin endings
    TinParaFirstFive,
    /// Ta and Ja
    TaJha,
    /// Their replacements in liT (3.4.81)
    EsIrec,
    /// The endings that 3.4.101 replaces
    TasThas,
    /// Their replacements (3.4.101)
    TaamTam,
    /// The dhatus that take sip as vikarana in leT
    SipDhatus,
}

/// The number of words in a list.
pub open spec fn list_len(l: WordList) -> int {
    match l {
        WordList::TinPara => 9,
        WordList::NalPara => 9,
        WordList::TinParaFirstFive => 5,
        WordList::TaJha => 2,
        WordList::EsIrec => 2,
        WordList::TasThas => 4,
        WordList::TaamTam => 4,
        WordList::SipDhatus => 3,
    }
}

/// The word at position `k` of a list.
pub open spec fn word(l: WordList, k: int) -> Seq<char> {
    match l {
        WordList::TinPara => if k == 0 { seq!['t', 'i', 'p'] } else if k == 1 { seq!['t', 'a', 's'] } else if k == 2 { seq!['J', 'i'] } else if k == 3 { seq!['s', 'i', 'p'] } else if k == 4 { seq!['T', 'a', 's'] } else if k == 5 { seq!['T', 'a'] } else if k == 6 { seq!['m', 'i', 'p'] } else if k == 7 { seq!['v', 'a', 's'] } else { seq!['m', 'a', 's'] },
        WordList::NalPara => if k == 0 { seq!['R', 'a', 'l'] } else if k == 1 { seq!['a', 't', 'u', 's'] } else if k == 2 { seq!['u', 's'] } else if k == 3 { seq!['T', 'a', 'l'] } else if k == 4 { seq!['a', 'T', 'u', 's'] } else if k == 5 { seq!['a'] } else if k == 6 { seq!['R', 'a', 'l'] } else if k == 7 { seq!['v', 'a'] } else { seq!['m', 'a'] },
        WordList::TinParaFirstFive => if k == 0 { seq!['t', 'i', 'p'] } else if k == 1 { seq!['t', 'a', 's'] } else if k == 2 { seq!['J', 'i'] } else if k == 3 { seq!['s', 'i', 'p'] } else { seq!['T', 'a', 's'] },
        WordList::TaJha => if k == 0 { seq!['t', 'a'] } else { seq!['J', 'a'] },
        WordList::EsIrec => if k == 0 { seq!['e', 'S'] } else { seq!['i', 'r', 'e', 'c'] },
        WordList::TasThas => if k == 0 { seq!['t', 'a', 's'] } else if k == 1 { seq!['T', 'a', 's'] } else if k == 2 { seq!['T', 'a'] } else { seq!['m', 'i', 'p'] },
        WordList::TaamTam => if k == 0 { seq!['t', 'A', 'm'] } else if k == 1 { seq!['t', 'a', 'm'] } else if k == 2 { seq!['t', 'a'] } else { seq!['a', 'm'] },
        WordList::SipDhatus => if k == 0 { seq!['j', 'u', 'z', 'I', '~'] } else if k == 1 { seq!['t', 'F'] } else { seq!['m', 'a', 'd', 'i', '~'] },
        }
}

/// The number of words in a list.
pub fn list_size(l: WordList) -> (r: usize)
    ensures
        r == list_len(l),
{
    match l {
        WordList::TinPara => 9,
        WordList::NalPara => 9,
        WordList::TinParaFirstFive => 5,
        WordList::TaJha => 2,
        WordList::EsIrec => 2,
        WordList::TasThas => 4,
        WordList::TaamTam => 4,
        WordList::SipDhatus => 3,
    }
}

/// The word at position `k` of a list.
pub fn word_at(l: WordList, k: usize) -> (r: Vec<char>)
    requires
        k < list_len(l),
    ensures
        r@ == word(l, k as int),
{
    match l {
        WordList::TinPara => {
            if k == 0 {
                vec!['t', 'i', 'p']
            }
            else if k == 1 {
                vec!['t', 'a', 's']
            }
            else if k == 2 {
                vec!['J', 'i']
            }
            else if k == 3 {
                vec!['s', 'i', 'p']
            }
            else if k == 4 {
                vec!['T', 'a', 's']
            }
            else if k == 5 {
                vec!['T', 'a']
            }
            else if k == 6 {
                vec!['m', 'i', 'p']
            }
            else if k == 7 {
                vec!['v', 'a', 's']
            }
            else {
                vec!['m', 'a', 's']
            }
        },
        WordList::NalPara => {
            if k == 0 {
                vec!['R', 'a', 'l']
            }
            else if k == 1 {
                vec!['a', 't', 'u', 's']
            }
            else if k == 2 {
                vec!['u', 's']
            }
            else if k == 3 {
                vec!['T', 'a', 'l']
            }
            else if k == 4 {
                vec!['a', 'T', 'u', 's']
            }
            else if k == 5 {
                vec!['a']
            }
            else if k == 6 {
                vec!['R', 'a', 'l']
            }
            else if k == 7 {
                vec!['v', 'a']
            }
            else {
                vec!['m', 'a']
            }
        },
        WordList::TinParaFirstFive => {
            if k == 0 {
                vec!['t', 'i', 'p']
            }
            else if k == 1 {
                vec!['t', 'a', 's']
            }
            else if k == 2 {
                vec!['J', 'i']
            }
            else if k == 3 {
                vec!['s', 'i', 'p']
            }
            else {
                vec!['T', 'a', 's']
            }
        },
        WordList::TaJha => {
            if k == 0 {
                vec!['t', 'a']
            }
            else {
                vec!['J', 'a']
            }
        },
        WordList::EsIrec => {
            if k == 0 {
                vec!['e', 'S']
            }
            else {
                vec!['i', 'r', 'e', 'c']
            }
        },
        WordList::TasThas => {
            if k == 0 {
                vec!['t', 'a', 's']
            }
            else if k == 1 {
                vec!['T', 'a', 's']
            }
            else if k == 2 {
                vec!['T', 'a']
            }
            else {
                vec!['m', 'i', 'p']
            }
        },
        WordList::TaamTam => {
            if k == 0 {
                vec!['t', 'A', 'm']
            }
            else if k == 1 {
                vec!['t', 'a', 'm']
            }
            else if k == 2 {
                vec!['t', 'a']
            }
            else {
                vec!['a', 'm']
            }
        },
        WordList::SipDhatus => {
            if k == 0 {
                vec!['j', 'u', 'z', 'I', '~']
            }
            else if k == 1 {
                vec!['t', 'F']
            }
            else {
                vec!['m', 'a', 'd', 'i', '~']
            }
        },
    }
}


/// The first position at or after `k` where `s` stands in `l`, or -1.
pub open spec fn index_from(l: WordList, s: Seq<char>, k: int) -> int
    decreases list_len(l) - k,
{
    if k < 0 || k >= list_len(l) {
        -1
    } else if word(l, k) == s {
        k
    } else {
        index_from(l, s, k + 1)
    }
}

/// Whether `s` is one of the words of `l`.
pub open spec fn in_list(l: WordList, s: Seq<char>) -> bool {
    index_from(l, s, 0) >= 0
}

/// A found position holds the word, and no earlier position from `k` on does.
pub proof fn lemma_index_from(l: WordList, s: Seq<char>, k: int)
    requires
        0 <= k,
    ensures
        index_from(l, s, k) >= 0 ==> k <= index_from(l, s, k) < list_len(l) && word(
            l,
            index_from(l, s, k),
        ) == s,
        index_from(l, s, k) < 0 ==> forall|j: int| k <= j < list_len(l) ==> word(l, j) != s,
    decreases list_len(l) - k,
{
    if k < list_len(l) && word(l, k) != s {
        lemma_index_from(l, s, k + 1);
    }
}

/// The first position where `s` stands in `l`.
pub fn find_in_list(l: WordList, s: &Vec<char>) -> (r: Option<usize>)
    ensures
        match r {
            Some(k) => k == index_from(l, s@, 0),
            None => index_from(l, s@, 0) < 0,
        },
{
    let n = list_size(l);
    let mut k: usize = 0;
    while k < n
        invariant
            k <= n,
            n == list_len(l),
            index_from(l, s@, 0) == index_from(l, s@, k as int),
        decreases n - k,
    {
        let w = word_at(l, k);
        if eq_text(&w, s) {
            return Some(k);
        }
        k = k + 1;
    }
    None
}

} // verus!

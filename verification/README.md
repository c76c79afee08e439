# vidyut_prakriya (tin-pratyaya section)

A Verus library for the tin-pratyaya rules of the Ashtadhyayi (3.4.77 to the
end of 3.4): tin-adesha, which replaces a lakara with its verb ending, and
tin-siddhi, which completes that ending by lakara, pada, person and number.

The rules run over a verified model of a prakriya:

- `args`, `tag`: lakaras, persons, numbers, padas, the tin endings, agamas,
  vikaranas, and the tags of terms and of the prakriya.
- `text`: SLP1 text as characters, the edits the rules make (ti, antya, adi,
  replacement), and the fixed word lists that rules name.
- `term`, `prakriya`: a term and a prakriya with their models (`TermView`,
  `PrakriyaView`), the history of applied rules, and the declined optional
  rules that decide each optional step.
- `it_samjna`, `operators`, `misc`: it-samjna (1.3.2 - 1.3.9), adesha and
  substitution by position, and conditions that rules share.
- `tin_pratyaya`: `adesha`, `try_general_siddhi`, `try_siddhi_for_jhi`, each
  with a contract that states the resulting prakriya exactly.
- `tin_laws`: laws over all prakriyas, proved by Verus.

Texts are those at the end of section 3.4: sandhi and the later rules of a
full derivation are not part of this library.

//! The word synthesizer: a syllable-count-driven state machine over a
//! random source.
//!
//! Starting from an empty word, the machine repeatedly draws a syllable from
//! the table fitting its position (word-initial, post-nasal, or general),
//! and, between two syllables, may insert the nasal coda `'n'` with the given
//! probability. In `Suli` mode an inserted nasal consumes one unit of the
//! target budget, in `Ala` mode it does not. The machine stops as soon as the
//! budget is spent; the budget check runs before each nasal draw, so in `Ala`
//! mode a word never ends in the nasal.
//!
//! The spec model is two-fold. `spec_word` pins the whole word for a
//! deterministic source, as a function of the replayed raw draws.
//! `valid_decomposition` describes the shape of every output: a non-empty
//! interleaving of table syllables and nasal flags whose units spend exactly
//! the target budget.

use vstd::prelude::*;
use crate::mode::SuliAlaSuli;
use crate::probability::Probability;
use crate::random::RandomSource;
use crate::random::biased_draw;
use crate::random::index_draw;
use crate::tables::general_syllables;
use crate::tables::general_table;
use crate::tables::good_syllable;
use crate::tables::is_vowel;
use crate::tables::lemma_tables_good;
use crate::tables::post_nasal_syllables;
use crate::tables::post_nasal_table;
use crate::tables::table_matches;
use crate::tables::word_initial_syllables;
use crate::tables::word_initial_table;
use vstd::string::StringExecFns;

verus! {

/// The nasal coda, as a one-character sequence.
pub open spec fn nasal() -> Seq<char> {
    seq!['n']
}

/// The table a syllable is drawn from, by position: the word-initial table
/// for the very first syllable, the post-nasal table right after a nasal,
/// and the general table everywhere else.
pub open spec fn table_for(produced: nat, prev_nasal: bool) -> Seq<Seq<char>> {
    if produced == 0 {
        word_initial_syllables()
    } else if prev_nasal {
        post_nasal_syllables()
    } else {
        general_syllables()
    }
}

/// The rest of the word a deterministic source yields, from an intermediate
/// machine state: `produced` budget units spent so far, `prev_nasal` telling
/// whether a nasal was just inserted, and the next raw draw at `stream[pos]`.
pub open spec fn spec_word_from(
    target: nat,
    prob: Probability,
    mode: SuliAlaSuli,
    stream: Seq<u64>,
    pos: nat,
    produced: nat,
    prev_nasal: bool,
) -> Seq<char>
    decreases target - produced,
{
    if produced >= target {
        Seq::empty()
    } else {
        let table = table_for(produced, prev_nasal);
        let syl = table[index_draw(stream[pos as int], table.len()) as int];
        let pos1 = (pos + 1) % stream.len();
        if produced + 1 == target {
            syl
        } else {
            let b = biased_draw(stream[pos1 as int], prob);
            let pos2 = (pos1 + 1) % stream.len();
            if b {
                let spent = if mode == SuliAlaSuli::Suli {
                    produced + 2
                } else {
                    produced + 1
                };
                syl + nasal() + spec_word_from(target, prob, mode, stream, pos2, spent, true)
            } else {
                syl + spec_word_from(target, prob, mode, stream, pos2, produced + 1, false)
            }
        }
    }
}

/// The whole word a deterministic source yields from its starting state.
pub open spec fn spec_word(
    target: nat,
    prob: Probability,
    mode: SuliAlaSuli,
    stream: Seq<u64>,
    pos: nat,
) -> Seq<char> {
    spec_word_from(target, prob, mode, stream, pos, 0, false)
}

/// The word that syllables and nasal flags spell out: each syllable in turn,
/// followed by the nasal coda where its flag is set.
pub open spec fn interleave(syls: Seq<Seq<char>>, flags: Seq<bool>) -> Seq<char>
    decreases syls.len(),
{
    if syls.len() == 0 {
        Seq::empty()
    } else {
        (if flags[0] {
            syls[0] + nasal()
        } else {
            syls[0]
        }) + interleave(syls.drop_first(), flags.drop_first())
    }
}

/// How many nasal flags are set.
pub open spec fn count_nasals(flags: Seq<bool>) -> nat
    decreases flags.len(),
{
    if flags.len() == 0 {
        0
    } else {
        (if flags[0] {
            1 as nat
        } else {
            0 as nat
        }) + count_nasals(flags.drop_first())
    }
}

/// The budget units that syllables and nasal flags spend: every syllable
/// one unit, and in `Suli` mode every inserted nasal one more.
pub open spec fn units(syls: Seq<Seq<char>>, flags: Seq<bool>, mode: SuliAlaSuli) -> nat {
    syls.len() + if mode == SuliAlaSuli::Suli {
        count_nasals(flags)
    } else {
        0
    }
}

/// `word` is spelled out by the given syllables and nasal flags; the first
/// syllable is word-initial and each later one fits what precedes it; the
/// units spend exactly `target`; and in `Ala` mode the word does not end in
/// a nasal.
pub open spec fn valid_decomposition(
    word: Seq<char>,
    syls: Seq<Seq<char>>,
    flags: Seq<bool>,
    target: nat,
    mode: SuliAlaSuli,
) -> bool {
    &&& syls.len() == flags.len()
    &&& 1 <= syls.len()
    &&& word == interleave(syls, flags)
    &&& word_initial_syllables().contains(syls[0])
    &&& forall|i: int|
        1 <= i < syls.len() ==> (if flags[i - 1] {
            post_nasal_syllables()
        } else {
            general_syllables()
        }).contains(#[trigger] syls[i])
    &&& units(syls, flags, mode) == target
    &&& (mode == SuliAlaSuli::Ala ==> !flags[flags.len() - 1])
}

/// Appending one syllable and its flag extends the spelled-out word at the
/// right end.
proof fn lemma_interleave_push(syls: Seq<Seq<char>>, flags: Seq<bool>, s: Seq<char>, f: bool)
    requires
        syls.len() == flags.len(),
    ensures
        interleave(syls.push(s), flags.push(f)) == interleave(syls, flags) + (if f {
            s + nasal()
        } else {
            s
        }),
    decreases syls.len(),
{
    let head: Seq<char> = if flags.push(f)[0] {
        syls.push(s)[0] + nasal()
    } else {
        syls.push(s)[0]
    };
    if syls.len() == 0 {
        assert(syls.push(s).drop_first() =~= syls);
        assert(flags.push(f).drop_first() =~= flags);
        assert(interleave(syls, flags) == Seq::<char>::empty());
        assert(head + Seq::<char>::empty() =~= head);
        assert(Seq::<char>::empty() + head =~= head);
    } else {
        assert(syls.push(s).drop_first() =~= syls.drop_first().push(s));
        assert(flags.push(f).drop_first() =~= flags.drop_first().push(f));
        lemma_interleave_push(syls.drop_first(), flags.drop_first(), s, f);
        let tail_new: Seq<char> = if f {
            s + nasal()
        } else {
            s
        };
        assert(head + (interleave(syls.drop_first(), flags.drop_first()) + tail_new) =~= (head
            + interleave(syls.drop_first(), flags.drop_first())) + tail_new);
    }
}

/// Appending one flag adds its own contribution to the nasal count.
proof fn lemma_count_push(flags: Seq<bool>, f: bool)
    ensures
        count_nasals(flags.push(f)) == count_nasals(flags) + (if f {
            1 as nat
        } else {
            0 as nat
        }),
    decreases flags.len(),
{
    if flags.len() == 0 {
        assert(flags.push(f).drop_first() =~= flags);
    } else {
        assert(flags.push(f).drop_first() =~= flags.drop_first().push(f));
        lemma_count_push(flags.drop_first(), f);
    }
}




/// Synthesize one word: draw `target` budget units of syllables from the
/// tables, inserting the nasal coda between syllables with probability
/// `prob`, counting an inserted nasal toward the budget exactly in `Suli`
/// mode.
///
/// For every source the word decomposes into table syllables and nasal
/// flags spending exactly the target budget; with probability zero no nasal
/// is ever inserted, and with probability one a nasal follows every syllable
/// but the last. For a deterministic source the word is pinned completely:
/// it equals `spec_word` of the replayed draws, which is what makes
/// synthesis replayable.
pub fn synthesize<R: RandomSource>(
    target: usize,
    prob: Probability,
    mode: SuliAlaSuli,
    src: &mut R,
) -> (word: String)
    requires
        1 <= target,
        prob.wf(),
        old(src).wf(),
    ensures
        final(src).wf(),
        final(src).deterministic() == old(src).deterministic(),
        word@.len() > 0,
        exists|syls: Seq<Seq<char>>, flags: Seq<bool>|
            {
                &&& #[trigger] valid_decomposition(word@, syls, flags, target as nat, mode)
                &&& (prob.is_never() ==> forall|i: int| 0 <= i < flags.len() ==> !flags[i])
                &&& (prob.is_always() ==> forall|i: int|
                    0 <= i < flags.len() - 1 ==> flags[i])
            },
        target == 1 ==> word_initial_syllables().contains(word@),
        old(src).deterministic() ==> word@ == spec_word(
            target as nat,
            prob,
            mode,
            old(src).stream(),
            old(src).pos(),
        ),
        old(src).deterministic() ==> final(src).stream() == old(src).stream(),
{
    let t_initial = word_initial_table();
    let t_post = post_nasal_table();
    let t_general = general_table();
    let mut word = String::new();
    let mut produced: usize = 0;
    let mut prev_nasal: bool = false;
    let ghost mut syls: Seq<Seq<char>> = Seq::empty();
    let ghost mut flags: Seq<bool> = Seq::empty();
    proof {
        assert(word@ + spec_word_from(
            target as nat,
            prob,
            mode,
            old(src).stream(),
            old(src).pos(),
            0,
            false,
        ) =~= spec_word_from(
            target as nat,
            prob,
            mode,
            old(src).stream(),
            old(src).pos(),
            0,
            false,
        ));
    }
    while produced < target
        invariant
            1 <= target,
            prob.wf(),
            src.wf(),
            src.deterministic() == old(src).deterministic(),
            table_matches(t_initial@, word_initial_syllables()),
            table_matches(t_post@, post_nasal_syllables()),
            table_matches(t_general@, general_syllables()),
            t_initial@.len() == 46,
            t_post@.len() == 36,
            t_general@.len() == 41,
            produced <= target,
            syls.len() == flags.len(),
            (produced == 0) <==> (syls.len() == 0),
            produced == 0 ==> !prev_nasal,
            1 <= produced ==> 1 <= word@.len(),
            word@ == interleave(syls, flags),
            1 <= syls.len() ==> word_initial_syllables().contains(syls[0]),
            forall|i: int|
                1 <= i < syls.len() ==> (if flags[i - 1] {
                    post_nasal_syllables()
                } else {
                    general_syllables()
                }).contains(#[trigger] syls[i]),
            units(syls, flags, mode) == produced,
            1 <= flags.len() ==> prev_nasal == flags[flags.len() - 1],
            mode == SuliAlaSuli::Ala && produced == target && 1 <= flags.len()
                ==> !flags[flags.len() - 1],
            prob.is_never() ==> forall|i: int| 0 <= i < flags.len() ==> !flags[i],
            prob.is_always() ==> forall|i: int|
                0 <= i < flags.len() ==> (flags[i] || (i == flags.len() - 1 && produced
                    == target)),
            src.deterministic() ==> {
                &&& src.stream() == old(src).stream()
                &&& spec_word(target as nat, prob, mode, old(src).stream(), old(src).pos())
                    == word@ + spec_word_from(
                    target as nat,
                    prob,
                    mode,
                    src.stream(),
                    src.pos(),
                    produced as nat,
                    prev_nasal,
                )
            },
        decreases target - produced,
    {
        proof {
            lemma_tables_good();
        }
        let ghost src0 = *src;
        let ghost word0 = word@;
        let ghost produced0 = produced as nat;
        let ghost prev0 = prev_nasal;
        let ghost syls0 = syls;
        let ghost flags0 = flags;
        let table: &Vec<&'static str> = if produced == 0 {
            &t_initial
        } else if prev_nasal {
            &t_post
        } else {
            &t_general
        };
        let ghost stable = table_for(produced0, prev0);
        proof {
            assert(table_matches(table@, stable));
        }
        let idx = src.choose_index(table.len());
        let ghost src1 = *src;
        let syl: &'static str = table[idx];
        word.append(syl);
        produced = produced + 1;
        proof {
            syls = syls.push(syl@);
            assert(stable[idx as int] == syl@);
            assert(stable.contains(syl@));
            assert(good_syllable(syl@));
        }
        let mut f: bool = false;
        if produced < target {
            let b = src.biased(prob);
            if b {
                word.append("n");
                f = true;
                if mode == SuliAlaSuli::Suli {
                    produced = produced + 1;
                }
            }
        }
        prev_nasal = f;
        let ghost src2 = *src;
        proof {
            flags = flags.push(f);
            lemma_interleave_push(syls0, flags0, syl@, f);
            lemma_count_push(flags0, f);
            reveal_strlit("n");
            assert("n"@ =~= nasal());
            if f {
                assert(word@ =~= (word0 + syl@) + nasal());
                assert(word@ =~= word0 + (syl@ + nasal()));
            } else {
                assert(word@ =~= word0 + syl@);
            }
            assert(word@ == interleave(syls, flags));
            assert forall|i: int|
                1 <= i < syls.len() implies (if flags[i - 1] {
                    post_nasal_syllables()
                } else {
                    general_syllables()
                }).contains(#[trigger] syls[i]) by {
                if i < syls0.len() {
                    assert(syls[i] == syls0[i]);
                    assert(flags[i - 1] == flags0[i - 1]);
                } else {
                    assert(i == syls0.len());
                    assert(syls[i] == syl@);
                    assert(1 <= produced0);
                    assert(flags[i - 1] == flags0[i - 1]);
                    assert(flags0[i - 1] == prev0);
                    assert(stable == if prev0 {
                        post_nasal_syllables()
                    } else {
                        general_syllables()
                    });
                }
            }
            if src0.deterministic() {
                let stream = src0.stream();
                let pos0 = src0.pos();
                let rest0 = spec_word_from(
                    target as nat,
                    prob,
                    mode,
                    stream,
                    pos0,
                    produced0,
                    prev0,
                );
                assert(produced0 < target);
                assert(stable.len() == table@.len());
                assert(idx as nat == index_draw(stream[pos0 as int], stable.len()));
                let pos1 = (pos0 + 1) % stream.len();
                assert(src1.pos() == pos1);
                if produced0 + 1 == target {
                    assert(rest0 == syl@);
                    assert(word@ + spec_word_from(
                        target as nat,
                        prob,
                        mode,
                        stream,
                        src.pos(),
                        produced as nat,
                        prev_nasal,
                    ) =~= word0 + rest0);
                } else {
                    let bdrew = biased_draw(stream[pos1 as int], prob);
                    let pos2 = (pos1 + 1) % stream.len();
                    assert(src2.pos() == pos2);
                    if bdrew {
                        let spent: nat = if mode == SuliAlaSuli::Suli {
                            produced0 + 2
                        } else {
                            produced0 + 1
                        };
                        let rest2 = spec_word_from(
                            target as nat,
                            prob,
                            mode,
                            stream,
                            pos2,
                            spent,
                            true,
                        );
                        assert(rest0 == syl@ + nasal() + rest2);
                        assert(produced as nat == spent);
                        assert(word0 + (syl@ + nasal() + rest2) =~= (word0 + (syl@
                            + nasal())) + rest2);
                        assert(word@ + rest2 =~= word0 + rest0);
                    } else {
                        let rest2 = spec_word_from(
                            target as nat,
                            prob,
                            mode,
                            stream,
                            pos2,
                            produced0 + 1,
                            false,
                        );
                        assert(rest0 == syl@ + rest2);
                        assert(word0 + (syl@ + rest2) =~= (word0 + syl@) + rest2);
                        assert(word@ + rest2 =~= word0 + rest0);
                    }
                }
            }
        }
    }
    proof {
        lemma_tables_good();
        assert(produced == target);
        assert(valid_decomposition(word@, syls, flags, target as nat, mode));
        assert(exists|s: Seq<Seq<char>>, fl: Seq<bool>|
            {
                &&& #[trigger] valid_decomposition(word@, s, fl, target as nat, mode)
                &&& (prob.is_never() ==> forall|i: int| 0 <= i < fl.len() ==> !fl[i])
                &&& (prob.is_always() ==> forall|i: int| 0 <= i < fl.len() - 1 ==> fl[i])
            }) by {
            assert({
                &&& valid_decomposition(word@, syls, flags, target as nat, mode)
                &&& (prob.is_never() ==> forall|i: int| 0 <= i < flags.len() ==> !flags[i])
                &&& (prob.is_always() ==> forall|i: int| 0 <= i < flags.len() - 1 ==> flags[i])
            });
        }
        if target == 1 {
            assert(syls.len() == 1);
            assert(flags.len() == 1);
            if mode == SuliAlaSuli::Suli {
                assert(count_nasals(flags) == 0);
                if flags[0] {
                    assert(count_nasals(flags) >= 1);
                }
            }
            assert(!flags[0]);
            assert(syls.drop_first().len() == 0);
            assert(interleave(syls.drop_first(), flags.drop_first()) == Seq::<char>::empty());
            assert(word@ =~= syls[0]);
        }
        if src.deterministic() {
            assert(spec_word_from(
                target as nat,
                prob,
                mode,
                src.stream(),
                src.pos(),
                produced as nat,
                prev_nasal,
            ) == Seq::<char>::empty());
            assert(word@ + Seq::<char>::empty() =~= word@);
        }
    }
    word
}

/// A member of a table of good syllables is itself good.
proof fn lemma_member_good(table: Seq<Seq<char>>, s: Seq<char>)
    requires
        table.contains(s),
        forall|i: int| 0 <= i < table.len() ==> good_syllable(#[trigger] table[i]),
    ensures
        good_syllable(s),
{
    let i = choose|i: int| 0 <= i < table.len() && table[i] == s;
    assert(good_syllable(table[i]));
}

/// When the last nasal flag is clear, the spelled-out word ends exactly
/// where its last syllable ends.
proof fn lemma_interleave_last(syls: Seq<Seq<char>>, flags: Seq<bool>)
    requires
        syls.len() == flags.len(),
        1 <= syls.len(),
        !flags[flags.len() - 1],
        syls[syls.len() - 1].len() > 0,
    ensures
        interleave(syls, flags).len() > 0,
        interleave(syls, flags).last() == syls[syls.len() - 1].last(),
    decreases syls.len(),
{
    if syls.len() == 1 {
        assert(!flags[0]);
        assert(syls.drop_first().len() == 0);
        assert(interleave(syls.drop_first(), flags.drop_first()) == Seq::<char>::empty());
        assert(interleave(syls, flags) =~= syls[0]);
    } else {
        assert(syls.drop_first()[syls.len() - 2] == syls[syls.len() - 1]);
        assert(flags.drop_first()[flags.len() - 2] == flags[flags.len() - 1]);
        lemma_interleave_last(syls.drop_first(), flags.drop_first());
        let head: Seq<char> = if flags[0] {
            syls[0] + nasal()
        } else {
            syls[0]
        };
        let tail = interleave(syls.drop_first(), flags.drop_first());
        assert(interleave(syls, flags) == head + tail);
        assert((head + tail).last() == tail.last());
    }
}

/// With every nasal flag clear, the spelled-out word is the plain
/// concatenation of the syllables.
proof fn lemma_interleave_all_false(syls: Seq<Seq<char>>, flags: Seq<bool>)
    requires
        syls.len() == flags.len(),
        forall|i: int| 0 <= i < flags.len() ==> !flags[i],
    ensures
        interleave(syls, flags) == syls.flatten(),
    decreases syls.len(),
{
    if syls.len() == 0 {
        assert(interleave(syls, flags) == Seq::<char>::empty());
        assert(syls.flatten() == Seq::<char>::empty());
    } else {
        assert(!flags[0]);
        lemma_interleave_all_false(syls.drop_first(), flags.drop_first());
        assert(syls.first() == syls[0]);
    }
}

/// With every nasal flag clear, no nasal is counted.
proof fn lemma_count_all_false(flags: Seq<bool>)
    requires
        forall|i: int| 0 <= i < flags.len() ==> !flags[i],
    ensures
        count_nasals(flags) == 0,
    decreases flags.len(),
{
    if flags.len() > 0 {
        lemma_count_all_false(flags.drop_first());
    }
}

/// With every nasal flag but possibly the last set, the count is the length,
/// less one when the last flag is clear.
proof fn lemma_count_all_but_last(flags: Seq<bool>)
    requires
        1 <= flags.len(),
        forall|i: int| 0 <= i < flags.len() - 1 ==> flags[i],
    ensures
        flags[flags.len() - 1] ==> count_nasals(flags) == flags.len(),
        !flags[flags.len() - 1] ==> count_nasals(flags) == flags.len() - 1,
    decreases flags.len(),
{
    if flags.len() == 1 {
        assert(flags.drop_first().len() == 0);
        assert(count_nasals(flags.drop_first()) == 0);
    } else {
        assert(flags[0]);
        assert(flags.drop_first()[flags.len() - 2] == flags[flags.len() - 1]);
        lemma_count_all_but_last(flags.drop_first());
    }
}

/// In `Ala` mode a word never ends in the nasal coda: its last character is
/// the vowel that closes its final table-drawn syllable.
pub proof fn lemma_no_trailing_nasal(
    word: Seq<char>,
    syls: Seq<Seq<char>>,
    flags: Seq<bool>,
    target: nat,
)
    requires
        valid_decomposition(word, syls, flags, target, SuliAlaSuli::Ala),
    ensures
        word.len() > 0,
        is_vowel(word[word.len() - 1]),
        word[word.len() - 1] != 'n',
{
    lemma_tables_good();
    let n = syls.len();
    if n == 1 {
        lemma_member_good(word_initial_syllables(), syls[0]);
    } else {
        if flags[n - 2] {
            lemma_member_good(post_nasal_syllables(), syls[n - 1]);
        } else {
            lemma_member_good(general_syllables(), syls[n - 1]);
        }
    }
    lemma_interleave_last(syls, flags);
    assert(word.last() == syls[n - 1].last());
}

/// With nasal probability zero, the word is exactly the concatenation of
/// `target` table-drawn syllables: the first word-initial, the rest general,
/// with no nasal inserted anywhere.
pub proof fn lemma_never_nasal_concat(
    word: Seq<char>,
    syls: Seq<Seq<char>>,
    flags: Seq<bool>,
    target: nat,
    mode: SuliAlaSuli,
)
    requires
        valid_decomposition(word, syls, flags, target, mode),
        forall|i: int| 0 <= i < flags.len() ==> !flags[i],
    ensures
        syls.len() == target,
        count_nasals(flags) == 0,
        word == syls.flatten(),
        word_initial_syllables().contains(syls[0]),
        forall|i: int| 1 <= i < syls.len() ==> general_syllables().contains(#[trigger] syls[i]),
{
    lemma_count_all_false(flags);
    lemma_interleave_all_false(syls, flags);
    assert forall|i: int| 1 <= i < syls.len() implies general_syllables().contains(
        #[trigger] syls[i],
    ) by {
        assert(!flags[i - 1]);
    }
}

/// With nasal probability one and the nasal not counting, the word holds
/// exactly `target` table-drawn syllables and `target - 1` nasals: one after
/// every syllable but the last.
pub proof fn lemma_always_nasal_ala(
    word: Seq<char>,
    syls: Seq<Seq<char>>,
    flags: Seq<bool>,
    target: nat,
)
    requires
        valid_decomposition(word, syls, flags, target, SuliAlaSuli::Ala),
        forall|i: int| 0 <= i < flags.len() - 1 ==> flags[i],
    ensures
        syls.len() == target,
        count_nasals(flags) == target - 1,
{
    lemma_count_all_but_last(flags);
}

/// With nasal probability one and the nasal counting, table-drawn syllables
/// and inserted nasals alternate and together spend exactly the `target`
/// budget: the nasal is an honorary syllable.
pub proof fn lemma_always_nasal_suli(
    word: Seq<char>,
    syls: Seq<Seq<char>>,
    flags: Seq<bool>,
    target: nat,
)
    requires
        valid_decomposition(word, syls, flags, target, SuliAlaSuli::Suli),
        forall|i: int| 0 <= i < flags.len() - 1 ==> flags[i],
    ensures
        syls.len() + count_nasals(flags) == target,
        flags[flags.len() - 1] ==> target == 2 * syls.len(),
        !flags[flags.len() - 1] ==> target == 2 * syls.len() - 1,
{
    lemma_count_all_but_last(flags);
}

/// Synthesis is replayable: the word a deterministic source yields is a
/// function of the target, the probability, the mode and the replayed raw
/// draws alone, so identical scripted draws always yield identical words.
pub proof fn lemma_deterministic_replay(
    w1: Seq<char>,
    w2: Seq<char>,
    target: nat,
    prob: Probability,
    mode: SuliAlaSuli,
    stream: Seq<u64>,
    pos: nat,
)
    requires
        w1 == spec_word(target, prob, mode, stream, pos),
        w2 == spec_word(target, prob, mode, stream, pos),
    ensures
        w1 == w2,
{
}

} // verus!

//! The three fixed syllable tables of the constructed-language phonology.
//!
//! `word_initial_syllables` may open a word (it adds the five bare vowels),
//! `post_nasal_syllables` may follow an inserted nasal (it omits the
//! n-initial syllables), and `general_syllables` fits anywhere else. The
//! contents and their order are fixed data, not derived from any rule.

use vstd::prelude::*;

verus! {

/// An exec table agrees with its spec table, entry for entry.
pub open spec fn table_matches(t: Seq<&'static str>, s: Seq<Seq<char>>) -> bool {
    &&& t.len() == s.len()
    &&& forall|i: int| 0 <= i < t.len() ==> t[i]@ == s[i]
}

/// The five vowels that may end a syllable.
pub open spec fn is_vowel(c: char) -> bool {
    c == 'a' || c == 'e' || c == 'i' || c == 'o' || c == 'u'
}

/// Every table entry is non-empty and ends in a vowel.
pub open spec fn good_syllable(s: Seq<char>) -> bool {
    s.len() > 0 && is_vowel(s[s.len() - 1])
}

pub open spec fn general_syllables() -> Seq<Seq<char>> {
    seq![
        "ka"@, "ke"@, "ki"@, "ko"@, "ku"@, "sa"@, "se"@, "si"@,
        "so"@, "su"@, "ta"@, "te"@, "to"@, "tu"@, "na"@, "ne"@,
        "ni"@, "no"@, "nu"@, "pa"@, "pe"@, "pi"@, "po"@, "pu"@,
        "ma"@, "me"@, "mi"@, "mo"@, "mu"@, "ja"@, "je"@, "jo"@,
        "ju"@, "la"@, "le"@, "li"@, "lo"@, "lu"@, "wa"@, "we"@,
        "wi"@,
    ]
}

pub open spec fn post_nasal_syllables() -> Seq<Seq<char>> {
    seq![
        "ka"@, "ke"@, "ki"@, "ko"@, "ku"@, "sa"@, "se"@, "si"@,
        "so"@, "su"@, "ta"@, "te"@, "to"@, "tu"@, "pa"@, "pe"@,
        "pi"@, "po"@, "pu"@, "ma"@, "me"@, "mi"@, "mo"@, "mu"@,
        "ja"@, "je"@, "jo"@, "ju"@, "la"@, "le"@, "li"@, "lo"@,
        "lu"@, "wa"@, "we"@, "wi"@,
    ]
}

pub open spec fn word_initial_syllables() -> Seq<Seq<char>> {
    seq![
        "a"@, "e"@, "i"@, "o"@, "u"@, "ka"@, "ke"@, "ki"@,
        "ko"@, "ku"@, "sa"@, "se"@, "si"@, "so"@, "su"@, "ta"@,
        "te"@, "to"@, "tu"@, "na"@, "ne"@, "ni"@, "no"@, "nu"@,
        "pa"@, "pe"@, "pi"@, "po"@, "pu"@, "ma"@, "me"@, "mi"@,
        "mo"@, "mu"@, "ja"@, "je"@, "jo"@, "ju"@, "la"@, "le"@,
        "li"@, "lo"@, "lu"@, "wa"@, "we"@, "wi"@,
    ]
}

pub fn general_table() -> (t: Vec<&'static str>)
    ensures
        table_matches(t@, general_syllables()),
        t@.len() == 41,
{
    let mut t: Vec<&'static str> = Vec::new();
    t.push("ka");
    t.push("ke");
    t.push("ki");
    t.push("ko");
    t.push("ku");
    t.push("sa");
    t.push("se");
    t.push("si");
    t.push("so");
    t.push("su");
    t.push("ta");
    t.push("te");
    t.push("to");
    t.push("tu");
    t.push("na");
    t.push("ne");
    t.push("ni");
    t.push("no");
    t.push("nu");
    t.push("pa");
    t.push("pe");
    t.push("pi");
    t.push("po");
    t.push("pu");
    t.push("ma");
    t.push("me");
    t.push("mi");
    t.push("mo");
    t.push("mu");
    t.push("ja");
    t.push("je");
    t.push("jo");
    t.push("ju");
    t.push("la");
    t.push("le");
    t.push("li");
    t.push("lo");
    t.push("lu");
    t.push("wa");
    t.push("we");
    t.push("wi");
    proof {
        assert(table_matches(t@, general_syllables())) by {
            assert forall|i: int| 0 <= i < t@.len() implies t@[i]@ == general_syllables()[i] by {}
        }
    }
    t
}

pub fn post_nasal_table() -> (t: Vec<&'static str>)
    ensures
        table_matches(t@, post_nasal_syllables()),
        t@.len() == 36,
{
    let mut t: Vec<&'static str> = Vec::new();
    t.push("ka");
    t.push("ke");
    t.push("ki");
    t.push("ko");
    t.push("ku");
    t.push("sa");
    t.push("se");
    t.push("si");
    t.push("so");
    t.push("su");
    t.push("ta");
    t.push("te");
    t.push("to");
    t.push("tu");
    t.push("pa");
    t.push("pe");
    t.push("pi");
    t.push("po");
    t.push("pu");
    t.push("ma");
    t.push("me");
    t.push("mi");
    t.push("mo");
    t.push("mu");
    t.push("ja");
    t.push("je");
    t.push("jo");
    t.push("ju");
    t.push("la");
    t.push("le");
    t.push("li");
    t.push("lo");
    t.push("lu");
    t.push("wa");
    t.push("we");
    t.push("wi");
    proof {
        assert(table_matches(t@, post_nasal_syllables())) by {
            assert forall|i: int| 0 <= i < t@.len() implies t@[i]@ == post_nasal_syllables()[i] by {}
        }
    }
    t
}

pub fn word_initial_table() -> (t: Vec<&'static str>)
    ensures
        table_matches(t@, word_initial_syllables()),
        t@.len() == 46,
{
    let mut t: Vec<&'static str> = Vec::new();
    t.push("a");
    t.push("e");
    t.push("i");
    t.push("o");
    t.push("u");
    t.push("ka");
    t.push("ke");
    t.push("ki");
    t.push("ko");
    t.push("ku");
    t.push("sa");
    t.push("se");
    t.push("si");
    t.push("so");
    t.push("su");
    t.push("ta");
    t.push("te");
    t.push("to");
    t.push("tu");
    t.push("na");
    t.push("ne");
    t.push("ni");
    t.push("no");
    t.push("nu");
    t.push("pa");
    t.push("pe");
    t.push("pi");
    t.push("po");
    t.push("pu");
    t.push("ma");
    t.push("me");
    t.push("mi");
    t.push("mo");
    t.push("mu");
    t.push("ja");
    t.push("je");
    t.push("jo");
    t.push("ju");
    t.push("la");
    t.push("le");
    t.push("li");
    t.push("lo");
    t.push("lu");
    t.push("wa");
    t.push("we");
    t.push("wi");
    proof {
        assert(table_matches(t@, word_initial_syllables())) by {
            assert forall|i: int| 0 <= i < t@.len() implies t@[i]@ == word_initial_syllables()[i] by {}
        }
    }
    t
}

/// Every entry of every table is a non-empty syllable ending in a vowel.
pub proof fn lemma_tables_good()
    ensures
        forall|i: int| 0 <= i < general_syllables().len() ==> good_syllable(#[trigger] general_syllables()[i]),
        forall|i: int| 0 <= i < post_nasal_syllables().len() ==> good_syllable(#[trigger] post_nasal_syllables()[i]),
        forall|i: int| 0 <= i < word_initial_syllables().len() ==> good_syllable(#[trigger] word_initial_syllables()[i]),
{
    reveal_strlit("a");
    reveal_strlit("e");
    reveal_strlit("i");
    reveal_strlit("o");
    reveal_strlit("u");
    reveal_strlit("ka");
    reveal_strlit("ke");
    reveal_strlit("ki");
    reveal_strlit("ko");
    reveal_strlit("ku");
    reveal_strlit("sa");
    reveal_strlit("se");
    reveal_strlit("si");
    reveal_strlit("so");
    reveal_strlit("su");
    reveal_strlit("ta");
    reveal_strlit("te");
    reveal_strlit("to");
    reveal_strlit("tu");
    reveal_strlit("na");
    reveal_strlit("ne");
    reveal_strlit("ni");
    reveal_strlit("no");
    reveal_strlit("nu");
    reveal_strlit("pa");
    reveal_strlit("pe");
    reveal_strlit("pi");
    reveal_strlit("po");
    reveal_strlit("pu");
    reveal_strlit("ma");
    reveal_strlit("me");
    reveal_strlit("mi");
    reveal_strlit("mo");
    reveal_strlit("mu");
    reveal_strlit("ja");
    reveal_strlit("je");
    reveal_strlit("jo");
    reveal_strlit("ju");
    reveal_strlit("la");
    reveal_strlit("le");
    reveal_strlit("li");
    reveal_strlit("lo");
    reveal_strlit("lu");
    reveal_strlit("wa");
    reveal_strlit("we");
    reveal_strlit("wi");
    assert forall|i: int| 0 <= i < general_syllables().len() implies good_syllable(
        #[trigger] general_syllables()[i],
    ) by {}
    assert forall|i: int| 0 <= i < post_nasal_syllables().len() implies good_syllable(
        #[trigger] post_nasal_syllables()[i],
    ) by {}
    assert forall|i: int| 0 <= i < word_initial_syllables().len() implies good_syllable(
        #[trigger] word_initial_syllables()[i],
    ) by {}
}

} // verus!

//! The two-valued mode flag: does an inserted nasal consume one unit of the
//! target syllable budget?
//!
//! `Suli` means the nasal counts as a syllable, `Ala` that it does not. The
//! flag is parsed from exactly the two tokens `"suli"` and `"ala"`; any other
//! token is rejected with a descriptive message.

use vstd::prelude::*;
use vstd::string::StrSliceExecFns;
use vstd::string::StringExecFns;

verus! {

/// Whether an inserted nasal counts toward the target syllable count.
#[derive(Clone, Copy, Debug, PartialEq, Eq, Structural)]
pub enum SuliAlaSuli {
    /// The nasal counts: it consumes one budget unit.
    Suli,
    /// The nasal does not count: only table-drawn syllables consume budget.
    Ala,
}

/// Character-by-character string equality, decided from the views alone.
fn str_eq(a: &str, b: &str) -> (r: bool)
    ensures
        r == (a@ == b@),
{
    let a_len = a.unicode_len();
    let b_len = b.unicode_len();
    if a_len != b_len {
        return false;
    }
    let mut i: usize = 0;
    while i < a_len
        invariant
            a_len == a@.len(),
            b_len == b@.len(),
            a_len == b_len,
            i <= a_len,
            forall|j: int| 0 <= j < i ==> a@[j] == b@[j],
        decreases a_len - i,
    {
        if a.get_char(i) != b.get_char(i) {
            return false;
        }
        i = i + 1;
    }
    proof {
        assert(a@ =~= b@);
    }
    true
}

impl SuliAlaSuli {
    /// Parse a mode flag from its token, accepting exactly `"suli"` and `"ala"`.
    pub fn from_str(s: &str) -> (r: Result<SuliAlaSuli, String>)
        ensures
            s@ == "suli"@ ==> r == Ok::<SuliAlaSuli, String>(SuliAlaSuli::Suli),
            s@ == "ala"@ ==> r == Ok::<SuliAlaSuli, String>(SuliAlaSuli::Ala),
            s@ != "suli"@ && s@ != "ala"@ ==> (r matches Err(e)
                && e@ == "nimi ni li nimi 'suli' ala li nimi 'ala' ala"@),
    {
        proof {
            reveal_strlit("suli");
            reveal_strlit("ala");
            assert("suli"@.len() != "ala"@.len());
        }
        if str_eq(s, "suli") {
            Ok(SuliAlaSuli::Suli)
        } else if str_eq(s, "ala") {
            Ok(SuliAlaSuli::Ala)
        } else {
            Err(String::from_str("nimi ni li nimi 'suli' ala li nimi 'ala' ala"))
        }
    }

    /// The token that names this mode, the inverse of `from_str`.
    pub fn as_text(&self) -> (r: &'static str)
        ensures
            *self == SuliAlaSuli::Suli ==> r@ == "suli"@,
            *self == SuliAlaSuli::Ala ==> r@ == "ala"@,
    {
        match self {
            SuliAlaSuli::Suli => "suli",
            SuliAlaSuli::Ala => "ala",
        }
    }
}

} // verus!

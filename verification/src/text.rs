//! Text on its way to the host.
use vstd::prelude::*;

verus! {

/// `String::push` appends the character to the end of the string.
pub assume_specification[ std::string::String::push ](s: &mut std::string::String, c: char)
    ensures
        final(s)@ == old(s)@.push(c),
;

/// The characters of `s` that are not NUL, in their order.
pub open spec fn without_nuls(s: Seq<char>) -> Seq<char> {
    s.filter(|c: char| c != '\0')
}

/// Whether `s` holds no NUL.
pub open spec fn nul_free(s: Seq<char>) -> bool {
    forall|i: int| 0 <= i < s.len() ==> s[i] != '\0'
}

/// Stripping takes nothing from a text without NULs.
pub proof fn lemma_nul_free_kept(s: Seq<char>)
    requires
        nul_free(s),
    ensures
        without_nuls(s) == s,
    decreases s.len(),
{
    reveal(Seq::filter);
    if s.len() > 0 {
        lemma_nul_free_kept(s.drop_last());
        assert(s.drop_last().push(s.last()) =~= s);
    } else {
        assert(s =~= Seq::<char>::empty());
    }
}

/// What is left after stripping holds no NUL.
pub proof fn lemma_without_nuls_nul_free(s: Seq<char>)
    ensures
        nul_free(without_nuls(s)),
    decreases s.len(),
{
    reveal(Seq::filter);
    if s.len() > 0 {
        lemma_without_nuls_nul_free(s.drop_last());
    }
}

/// Text as a C string can carry it: a NUL would end it early, so every NUL is
/// dropped. Nothing else changes, and nothing is reported.
pub struct LossyCString;

impl LossyCString {
    /// Copies `t` without its NUL characters.
    pub fn new(t: &str) -> (r: String)
        ensures
            r@ == without_nuls(t@),
            nul_free(r@),
    {
        let n: usize = t.unicode_len();
        let mut out = String::new();
        let mut i: usize = 0;
        proof {
            reveal(Seq::filter);
            assert(t@.take(0) =~= Seq::<char>::empty());
        }
        while i < n
            invariant
                n == t@.len(),
                i <= n,
                out@ == without_nuls(t@.take(i as int)),
            decreases n - i,
        {
            let c = t.get_char(i);
            proof {
                reveal(Seq::filter);
                assert(t@.take(i as int + 1).drop_last() =~= t@.take(i as int));
            }
            if c != '\0' {
                out.push(c);
            }
            i = i + 1;
        }
        proof {
            assert(t@.take(n as int) =~= t@);
            lemma_without_nuls_nul_free(t@);
        }
        out
    }
}

} // verus!

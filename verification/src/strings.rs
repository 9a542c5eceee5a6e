//! Cleaning of text values read from stored documents.
use vstd::prelude::*;

verus! {

/// Keeps a character unless it is a double quote.
pub open spec fn is_not_quote(c: char) -> bool {
    c != '"'
}

/// The text `s` with every double quote removed, the other characters kept in order.
pub open spec fn without_quotes(s: Seq<char>) -> Seq<char> {
    s.filter(|c: char| is_not_quote(c))
}

/// Removes every double quote from `s`, as `str::replace(s, "\"", "")` does.
pub fn strip_quotes(s: &str) -> (res: String)
    ensures
        res@ == without_quotes(s@),
{
    let n = s.unicode_len();
    let mut res = String::new();
    let mut i: usize = 0;
    while i < n
        invariant
            n == s@.len(),
            i <= n,
            res@ == without_quotes(s@.subrange(0, i as int)),
        decreases n - i,
    {
        let c = s.get_char(i);
        proof {
            reveal(Seq::filter);
            assert(s@.subrange(0, i + 1).drop_last() =~= s@.subrange(0, i as int));
            assert(s@.subrange(0, i + 1).last() == c);
        }
        if c != '"' {
            let piece = s.substring_char(i, i + 1);
            assert(piece@ =~= seq![c]);
            res.append(piece);
        }
        i = i + 1;
    }
    assert(s@.subrange(0, n as int) =~= s@);
    res
}

/// No double quote is left in a stripped text.
pub proof fn lemma_stripped_has_no_quote(s: Seq<char>)
    ensures
        forall|i: int| 0 <= i < without_quotes(s).len() ==> without_quotes(s)[i] != '"',
{
    broadcast use Seq::lemma_filter_pred;
    assert forall|i: int| 0 <= i < without_quotes(s).len() implies without_quotes(s)[i] != '"' by {
        s.lemma_filter_pred(|c: char| is_not_quote(c), i);
    }
}

/// A text without double quotes is left as it is.
pub proof fn lemma_strip_keeps_quote_free(s: Seq<char>)
    requires
        forall|i: int| 0 <= i < s.len() ==> s[i] != '"',
    ensures
        without_quotes(s) == s,
    decreases s.len(),
{
    reveal(Seq::filter);
    if s.len() > 0 {
        lemma_strip_keeps_quote_free(s.drop_last());
        assert(s.drop_last().push(s.last()) =~= s);
    }
}

/// Stripping twice gives what stripping once gives.
pub proof fn lemma_strip_idempotent(s: Seq<char>)
    ensures
        without_quotes(without_quotes(s)) == without_quotes(s),
{
    lemma_stripped_has_no_quote(s);
    lemma_strip_keeps_quote_free(without_quotes(s));
}

} // verus!

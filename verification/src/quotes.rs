//! Byte-level rewrite of a file's XML declaration quote style.
//!
//! The transform never re-parses the declaration: within the first line of
//! the file (up to the first line feed, or the whole file when it has none)
//! the first four double-quote bytes — the pairs that delimit the `version`
//! and `encoding` attribute values — are each replaced by a single-quote
//! byte. Every other byte is left as it is.

use vstd::prelude::*;

verus! {

/// The double-quote byte `"`.
pub const DOUBLE_QUOTE: u8 = 34;

/// The single-quote byte `'`.
pub const SINGLE_QUOTE: u8 = 39;

/// The line-feed byte.
pub const LINE_FEED: u8 = 10;

/// Length of the first line of `s`: the index of the first line-feed byte,
/// or the length of `s` when it has none.
pub open spec fn first_line_len(s: Seq<u8>) -> int
    decreases s.len(),
{
    if s.len() == 0 {
        0
    } else if s[0] == LINE_FEED {
        0
    } else {
        1 + first_line_len(s.subrange(1, s.len() as int))
    }
}

pub proof fn lemma_first_line_len(s: Seq<u8>)
    ensures
        0 <= first_line_len(s) <= s.len(),
        forall|j: int| 0 <= j < first_line_len(s) ==> s[j] != LINE_FEED,
        first_line_len(s) < s.len() ==> s[first_line_len(s)] == LINE_FEED,
    decreases s.len(),
{
    if s.len() > 0 && s[0] != LINE_FEED {
        let tail = s.subrange(1, s.len() as int);
        lemma_first_line_len(tail);
        assert forall|j: int| 0 <= j < first_line_len(s) implies s[j] != LINE_FEED by {
            if j > 0 {
                assert(tail[j - 1] == s[j]);
            }
        }
        if first_line_len(s) < s.len() {
            assert(tail[first_line_len(s) - 1] == s[first_line_len(s)]);
        }
    }
}

/// `first_line_len` is the only index with its characteristic properties.
pub proof fn lemma_first_line_len_unique(s: Seq<u8>, k: int)
    requires
        0 <= k <= s.len(),
        forall|j: int| 0 <= j < k ==> s[j] != LINE_FEED,
        k < s.len() ==> s[k] == LINE_FEED,
    ensures
        first_line_len(s) == k,
{
    lemma_first_line_len(s);
    let f = first_line_len(s);
    if f < k {
        assert(s[f] != LINE_FEED);
    } else if k < f {
        assert(s[k] != LINE_FEED);
    }
}

/// How many double-quote bytes `s` holds.
pub open spec fn quote_count(s: Seq<u8>) -> int
    decreases s.len(),
{
    if s.len() == 0 {
        0
    } else {
        quote_count(s.drop_last()) + if s.last() == DOUBLE_QUOTE {
            1int
        } else {
            0int
        }
    }
}

/// Extending a prefix by one byte raises its quote count by at most one.
pub proof fn lemma_quote_count_step(s: Seq<u8>, i: int)
    requires
        0 <= i < s.len(),
    ensures
        quote_count(s.subrange(0, i + 1)) == quote_count(s.subrange(0, i)) + if s[i]
            == DOUBLE_QUOTE {
            1int
        } else {
            0int
        },
{
    let ext = s.subrange(0, i + 1);
    assert(ext.drop_last() =~= s.subrange(0, i));
}

/// Quote counts of prefixes grow with the prefix.
pub proof fn lemma_quote_count_monotone(s: Seq<u8>, i: int, j: int)
    requires
        0 <= i <= j <= s.len(),
    ensures
        quote_count(s.subrange(0, i)) <= quote_count(s.subrange(0, j)),
    decreases j - i,
{
    if i < j {
        lemma_quote_count_monotone(s, i, j - 1);
        lemma_quote_count_step(s, j - 1);
    }
}

/// The rewritten file: within the first line, the first four double-quote
/// bytes become single quotes; everything else is unchanged.
pub open spec fn rewrite_quote_spec(s: Seq<u8>) -> Seq<u8> {
    Seq::new(
        s.len(),
        |i: int|
            if i < first_line_len(s) && s[i] == DOUBLE_QUOTE && quote_count(s.subrange(0, i))
                < 4 {
                SINGLE_QUOTE
            } else {
                s[i]
            },
    )
}

/// Converts the double-quote XML declaration delimiters on the first line of
/// `file_bytes` to single quotes, leaving all other bytes unchanged.
pub fn rewrite_quote_char(file_bytes: &Vec<u8>) -> (r: Vec<u8>)
    ensures
        r@ == rewrite_quote_spec(file_bytes@),
{
    let ghost s = file_bytes@;
    let mut out: Vec<u8> = Vec::new();
    let mut quotes: usize = 0;
    let mut in_first_line = true;
    let mut i: usize = 0;
    proof {
        lemma_first_line_len(s);
    }
    while i < file_bytes.len()
        invariant
            i <= s.len(),
            s == file_bytes@,
            out@.len() == i,
            quotes <= i,
            in_first_line == (i <= first_line_len(s)),
            in_first_line ==> quotes == quote_count(s.subrange(0, i as int)),
            forall|j: int| 0 <= j < i ==> out@[j] == rewrite_quote_spec(s)[j],
        decreases s.len() - i,
    {
        proof {
            lemma_first_line_len(s);
            lemma_quote_count_step(s, i as int);
        }
        let b = file_bytes[i];
        if in_first_line && b == LINE_FEED {
            proof {
                assert(i == first_line_len(s));
            }
            in_first_line = false;
            out.push(b);
        } else if in_first_line && b == DOUBLE_QUOTE && quotes < 4 {
            out.push(SINGLE_QUOTE);
            quotes = quotes + 1;
        } else {
            out.push(b);
            if in_first_line && b == DOUBLE_QUOTE {
                quotes = quotes + 1;
            }
        }
        i = i + 1;
    }
    proof {
        assert(out@ =~= rewrite_quote_spec(s));
    }
    out
}

/// Law: the quote rewrite is idempotent. When the first line holds at most
/// four double quotes — as the reference XML declaration does — one pass
/// replaces them all, so a second pass finds nothing to change.
pub proof fn lemma_rewrite_quote_idempotent(s: Seq<u8>)
    requires
        quote_count(s.subrange(0, first_line_len(s))) <= 4,
    ensures
        rewrite_quote_spec(rewrite_quote_spec(s)) == rewrite_quote_spec(s),
{
    let t = rewrite_quote_spec(s);
    lemma_first_line_len(s);
    assert forall|j: int| 0 <= j < first_line_len(s) implies t[j] != LINE_FEED by {
        assert(s[j] != LINE_FEED);
    }
    lemma_first_line_len_unique(t, first_line_len(s));
    assert forall|i: int| 0 <= i < t.len() implies rewrite_quote_spec(t)[i] == t[i] by {
        if i < first_line_len(t) && t[i] == DOUBLE_QUOTE {
            assert(s[i] == DOUBLE_QUOTE);
            assert(quote_count(s.subrange(0, i)) >= 4);
            lemma_quote_count_step(s, i);
            lemma_quote_count_monotone(s, i + 1, first_line_len(s));
            assert(false);
        }
    }
    assert(rewrite_quote_spec(t) =~= t);
}

} // verus!

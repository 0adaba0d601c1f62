//! Splitting the host's query string into its parameters.
//!
//! A query string is an optional leading `?` followed by pieces separated
//! by `&`. Its parameters are the pieces that are not empty, each taken as
//! it stands, in the order in which they occur.

use vstd::prelude::*;
use vstd::string::StrSliceExecFns;

verus! {

/// The character between two parameters.
pub open spec fn separator() -> char {
    '&'
}

/// The character that may introduce a query string.
pub open spec fn marker() -> char {
    '?'
}

/// The length of the piece that `s` begins with: the position of the first
/// separator in `s`, or the length of `s` where it holds none.
pub open spec fn piece_len(s: Seq<char>) -> int
    decreases s.len(),
{
    if s.len() == 0 || s[0] == separator() {
        0
    } else {
        1 + piece_len(s.drop_first())
    }
}

/// The pieces of `s` that are not empty, in order.
pub open spec fn tokens(s: Seq<char>) -> Seq<Seq<char>>
    decreases s.len(),
{
    let n = piece_len(s);
    if s.len() == 0 {
        Seq::empty()
    } else if n >= s.len() {
        seq![s]
    } else if n <= 0 {
        tokens(s.skip(1))
    } else {
        seq![s.take(n)] + tokens(s.skip(n + 1))
    }
}

/// `query` without the marker that may introduce it.
pub open spec fn strip_marker(query: Seq<char>) -> Seq<char> {
    if query.len() > 0 && query[0] == marker() {
        query.skip(1)
    } else {
        query
    }
}

/// The parameters of `query`.
pub open spec fn params(query: Seq<char>) -> Seq<Seq<char>> {
    tokens(strip_marker(query))
}

/// `tokens` written out with one separator between neighbours.
pub open spec fn join(tokens: Seq<Seq<char>>) -> Seq<char>
    decreases tokens.len(),
{
    if tokens.len() == 0 {
        Seq::empty()
    } else if tokens.len() == 1 {
        tokens[0]
    } else {
        tokens[0] + seq![separator()] + join(tokens.drop_first())
    }
}

/// Whether `token` can stand as a parameter: it is not empty and holds no
/// separator.
pub open spec fn is_token(token: Seq<char>) -> bool {
    token.len() > 0 && forall|j: int| 0 <= j < token.len() ==> token[j] != separator()
}

/// The character values of `strings`, one for one.
pub open spec fn texts(strings: Seq<String>) -> Seq<Seq<char>> {
    Seq::new(strings.len(), |i: int| strings[i]@)
}

/// `piece_len(s)` lies within `s`, no separator stands before it, and one
/// stands at it unless it is the end of `s`.
pub proof fn lemma_piece_len(s: Seq<char>)
    ensures
        0 <= piece_len(s) <= s.len(),
        forall|j: int| 0 <= j < piece_len(s) ==> s[j] != separator(),
        piece_len(s) < s.len() ==> s[piece_len(s)] == separator(),
    decreases s.len(),
{
    if s.len() != 0 && s[0] != separator() {
        let rest = s.drop_first();
        lemma_piece_len(rest);
        assert forall|j: int| 0 <= j < piece_len(s) implies s[j] != separator() by {
            if j > 0 {
                assert(s[j] == rest[j - 1]);
            }
        }
        if piece_len(s) < s.len() {
            assert(s[piece_len(s)] == rest[piece_len(rest)]);
        }
    }
}

/// `piece_len(s)` is the only position with these properties.
pub proof fn lemma_piece_len_is(s: Seq<char>, n: int)
    requires
        0 <= n <= s.len(),
        forall|j: int| 0 <= j < n ==> s[j] != separator(),
        n < s.len() ==> s[n] == separator(),
    ensures
        piece_len(s) == n,
    decreases s.len(),
{
    if s.len() != 0 && s[0] != separator() {
        let rest = s.drop_first();
        assert forall|j: int| 0 <= j < n - 1 implies rest[j] != separator() by {
            assert(rest[j] == s[j + 1]);
        }
        if n < s.len() {
            assert(rest[n - 1] == s[n]);
        }
        lemma_piece_len_is(rest, n - 1);
    }
}

/// Every parameter is a token: none is empty and none holds a separator.
pub proof fn lemma_tokens_are_tokens(s: Seq<char>)
    ensures
        forall|k: int| 0 <= k < tokens(s).len() ==> is_token(#[trigger] tokens(s)[k]),
    decreases s.len(),
{
    let n = piece_len(s);
    lemma_piece_len(s);
    if s.len() == 0 {
    } else if n >= s.len() {
        assert(is_token(s));
    } else if n <= 0 {
        lemma_tokens_are_tokens(s.skip(1));
    } else {
        lemma_tokens_are_tokens(s.skip(n + 1));
        assert(is_token(s.take(n)));
        assert forall|k: int| 0 <= k < tokens(s).len() implies is_token(
            #[trigger] tokens(s)[k],
        ) by {
            if k > 0 {
                assert(tokens(s)[k] == tokens(s.skip(n + 1))[k - 1]);
            }
        }
    }
}

/// Splitting undoes joining: a query written from tokens with one separator
/// between neighbours has exactly those tokens as its parameters.
pub proof fn lemma_tokens_of_join(parts: Seq<Seq<char>>)
    requires
        forall|k: int| 0 <= k < parts.len() ==> is_token(#[trigger] parts[k]),
    ensures
        tokens(join(parts)) == parts,
    decreases parts.len(),
{
    if parts.len() == 0 {
    } else if parts.len() == 1 {
        let s = join(parts);
        assert(is_token(parts[0]));
        lemma_piece_len_is(s, s.len() as int);
        assert(tokens(s) =~= parts);
    } else {
        let head = parts[0];
        let rest = parts.drop_first();
        let s = join(parts);
        let n = head.len() as int;
        assert(is_token(head));
        assert forall|k: int| 0 <= k < rest.len() implies is_token(#[trigger] rest[k]) by {
            assert(rest[k] == parts[k + 1]);
        }
        lemma_tokens_of_join(rest);
        lemma_piece_len_is(s, n);
        assert(s.take(n) =~= head);
        assert(s.skip(n + 1) =~= join(rest));
        assert(tokens(s) =~= parts);
    }
}

/// The marker does not count: a query written as the marker followed by
/// joined tokens has exactly those tokens as its parameters.
pub proof fn lemma_params_of_marked_join(parts: Seq<Seq<char>>)
    requires
        forall|k: int| 0 <= k < parts.len() ==> is_token(#[trigger] parts[k]),
    ensures
        params(seq![marker()] + join(parts)) == parts,
{
    let query = seq![marker()] + join(parts);
    assert(strip_marker(query) =~= join(parts));
    lemma_tokens_of_join(parts);
}

/// A query written as joined tokens alone has exactly those tokens as its
/// parameters, unless the first of them begins with the marker, which
/// would be dropped.
pub proof fn lemma_params_of_join(parts: Seq<Seq<char>>)
    requires
        forall|k: int| 0 <= k < parts.len() ==> is_token(#[trigger] parts[k]),
        parts.len() > 0 ==> parts[0][0] != marker(),
    ensures
        params(join(parts)) == parts,
{
    if parts.len() > 0 {
        assert(is_token(parts[0]));
        assert(join(parts)[0] == parts[0][0]);
    }
    lemma_tokens_of_join(parts);
}

/// The pieces of `body` that are not empty, in order.
pub fn split_tokens(body: &str) -> (out: Vec<String>)
    ensures
        texts(out@) == tokens(body@),
{
    let total: usize = body.unicode_len();
    let mut out: Vec<String> = Vec::new();
    let mut start: usize = 0;
    let mut i: usize = 0;
    proof {
        assert(body@.skip(0) =~= body@);
        assert(texts(out@) =~= Seq::<Seq<char>>::empty());
    }
    for c in it: body.chars()
        invariant
            it.seq() == body@,
            i == it.index(),
            total == body@.len(),
            start <= i <= total,
            forall|j: int| start <= j < i ==> body@[j] != separator(),
            tokens(body@) == texts(out@) + tokens(body@.skip(start as int)),
    {
        if c == '&' {
            let ghost rest = body@.skip(start as int);
            let ghost n = i - start;
            proof {
                lemma_piece_len_is(rest, n);
                assert(rest.skip(n + 1) =~= body@.skip(i + 1));
            }
            if start < i {
                let token: &str = body.substring_char(start, i);
                let ghost before = out@;
                out.push(token.to_owned());
                proof {
                    assert(rest.take(n) =~= body@.subrange(start as int, i as int));
                    assert(texts(out@) =~= texts(before) + seq![token@]);
                    assert(texts(out@) + tokens(body@.skip(i + 1)) =~= texts(before) + (
                    seq![token@] + tokens(body@.skip(i + 1))));
                }
            } else {
                proof {
                    assert(rest.skip(1) =~= body@.skip(i + 1));
                }
            }
            start = i + 1;
        }
        i = i + 1;
    }
    let ghost rest = body@.skip(start as int);
    if start < total {
        let token: &str = body.substring_char(start, total);
        let ghost before = out@;
        out.push(token.to_owned());
        proof {
            lemma_piece_len_is(rest, rest.len() as int);
            assert(rest =~= body@.subrange(start as int, total as int));
            assert(texts(out@) =~= texts(before) + seq![token@]);
        }
    } else {
        proof {
            assert(texts(out@) + Seq::<Seq<char>>::empty() =~= texts(out@));
        }
    }
    out
}

/// The parameters of `query`: its marker dropped, its non-empty pieces
/// returned in order.
pub fn parse_query(query: &str) -> (out: Vec<String>)
    ensures
        texts(out@) == params(query@),
{
    let total: usize = query.unicode_len();
    if total > 0 && query.get_char(0) == '?' {
        let body: &str = query.substring_char(1, total);
        proof {
            assert(body@ =~= query@.skip(1));
        }
        split_tokens(body)
    } else {
        split_tokens(query)
    }
}

} // verus!

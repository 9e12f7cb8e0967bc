use crate::text::{chars_of, is_whitespace, is_ws, string_of, words, words_acc};
use vstd::prelude::*;

verus! {

/// The index of the first whitespace character of `s`, or its length.
pub open spec fn first_ws(s: Seq<char>) -> nat
    decreases s.len(),
{
    if s.len() == 0 || is_ws(s[0]) {
        0
    } else {
        1 + first_ws(s.drop_first())
    }
}

/// The index of the first `c` in `s`.
pub open spec fn find_char(s: Seq<char>, c: char) -> Option<nat>
    decreases s.len(),
{
    if s.len() == 0 {
        None
    } else if s[0] == c {
        Some(0)
    } else {
        match find_char(s.drop_first(), c) {
            Some(i) => Some(i + 1),
            None => None,
        }
    }
}

/// `s` without its leading whitespace.
pub open spec fn skip_ws(s: Seq<char>) -> Seq<char>
    decreases s.len(),
{
    if s.len() > 0 && is_ws(s[0]) {
        skip_ws(s.drop_first())
    } else {
        s
    }
}

pub proof fn lemma_skip_ws_len(s: Seq<char>)
    ensures
        skip_ws(s).len() <= s.len(),
        skip_ws(s).len() == 0 || !is_ws(skip_ws(s)[0]),
    decreases s.len(),
{
    if s.len() > 0 && is_ws(s[0]) {
        lemma_skip_ws_len(s.drop_first());
    }
}

pub proof fn lemma_first_ws_len(s: Seq<char>)
    ensures
        first_ws(s) <= s.len(),
    decreases s.len(),
{
    if s.len() > 0 && !is_ws(s[0]) {
        lemma_first_ws_len(s.drop_first());
    }
}

pub proof fn lemma_find_char_len(s: Seq<char>, c: char)
    ensures
        find_char(s, c) matches Some(i) ==> i < s.len() && s[i as int] == c,
    decreases s.len(),
{
    if s.len() > 0 && s[0] != c {
        lemma_find_char_len(s.drop_first(), c);
    }
}

/// The tokens of a command line: whitespace separates tokens, and a token
/// that starts with `"` runs to the next `"` (neither quote belongs to it,
/// and the next token may start right after the closing quote). `None` when
/// a quote is not closed.
pub open spec fn tokens(s: Seq<char>) -> Option<Seq<Seq<char>>>
    decreases s.len(),
{
    let t = skip_ws(s);
    proof {
        lemma_skip_ws_len(s);
    }
    if t.len() == 0 {
        Some(Seq::empty())
    } else if t[0] == '"' {
        let body = t.drop_first();
        match find_char(body, '"') {
            None => None,
            Some(i) => {
                proof {
                    lemma_find_char_len(body, '"');
                }
                match tokens(body.skip(i + 1 as int)) {
                    None => None,
                    Some(rest) => Some(seq![body.take(i as int)] + rest),
                }
            },
        }
    } else {
        let j = first_ws(t);
        proof {
            lemma_first_ws_len(t);
        }
        if j == 0 {
            Some(Seq::empty())
        } else {
            match tokens(t.skip(j as int)) {
                None => None,
                Some(rest) => Some(seq![t.take(j as int)] + rest),
            }
        }
    }
}

/// Whether `s` holds no quote.
pub open spec fn no_quote(s: Seq<char>) -> bool {
    forall|i: int| 0 <= i < s.len() ==> s[i] != '"'
}

proof fn lemma_words_skip_ws(s: Seq<char>)
    ensures
        words_acc(s, Seq::empty()) == words_acc(skip_ws(s), Seq::empty()),
        no_quote(s) ==> no_quote(skip_ws(s)),
    decreases s.len(),
{
    if s.len() > 0 && is_ws(s[0]) {
        lemma_words_skip_ws(s.drop_first());
        assert(Seq::<Seq<char>>::empty() + words_acc(s.drop_first(), Seq::empty()) =~= words_acc(
            s.drop_first(),
            Seq::empty(),
        ));
        if no_quote(s) {
            assert(no_quote(s.drop_first()));
        }
    }
}

proof fn lemma_words_run(t: Seq<char>, cur: Seq<char>)
    requires
        (cur + t.take(first_ws(t) as int)).len() > 0,
    ensures
        words_acc(t, cur) == seq![cur + t.take(first_ws(t) as int)] + words_acc(
            t.skip(first_ws(t) as int),
            Seq::empty(),
        ),
    decreases t.len(),
{
    lemma_first_ws_len(t);
    if t.len() == 0 {
        assert(cur + t.take(0) =~= cur);
        assert(seq![cur] + Seq::<Seq<char>>::empty() =~= seq![cur]);
    } else if is_ws(t[0]) {
        assert(cur + t.take(0) =~= cur);
        assert(t.skip(0) =~= t);
        assert(words_acc(t, Seq::empty()) =~= Seq::<Seq<char>>::empty() + words_acc(
            t.drop_first(),
            Seq::empty(),
        ));
    } else {
        let t2 = t.drop_first();
        let c2 = cur.push(t[0]);
        lemma_first_ws_len(t2);
        assert(c2 + t2.take(first_ws(t2) as int) =~= cur + t.take(first_ws(t) as int));
        lemma_words_run(t2, c2);
        assert(t2.skip(first_ws(t2) as int) =~= t.skip(first_ws(t) as int));
    }
}

/// A command line without quotes splits into the same tokens as a split at
/// whitespace.
pub proof fn lemma_tokens_without_quotes(s: Seq<char>)
    requires
        no_quote(s),
    ensures
        tokens(s) == Some(words(s)),
    decreases s.len(),
{
    let t = skip_ws(s);
    lemma_words_skip_ws(s);
    lemma_skip_ws_len(s);
    if t.len() > 0 {
        let j = first_ws(t);
        lemma_first_ws_len(t);
        assert(t[0] != '"');
        assert(j > 0);
        assert(Seq::<char>::empty() + t.take(j as int) =~= t.take(j as int));
        lemma_words_run(t, Seq::empty());
        assert(no_quote(t.skip(j as int)));
        lemma_tokens_without_quotes(t.skip(j as int));
    }
}

/// Why a command line could not be split into tokens.
#[derive(Debug, PartialEq, Eq)]
pub enum CommandLineError {
    /// A quoted token is not closed; the command line is kept for the message.
    UnterminatedQuote { input: String },
}

impl CommandLineError {
    /// The message for the error: `syntax error in ` and the command line.
    pub fn message(&self) -> (r: String)
        ensures
            r@ == "syntax error in "@ + match self {
                CommandLineError::UnterminatedQuote { input } => input@,
            },
    {
        match self {
            CommandLineError::UnterminatedQuote { input } => {
                let mut m = String::new();
                m.append("syntax error in ");
                m.append(input.as_str());
                m
            },
        }
    }
}

/// Splits a command line into tokens (see `tokens`).
pub fn parse_command_line(s: &str) -> (r: Result<Vec<String>, CommandLineError>)
    ensures
        r is Ok <==> tokens(s@) is Some,
        r matches Ok(v) ==> v@.map_values(|t: String| t@) == tokens(s@)->Some_0,
        r matches Err(CommandLineError::UnterminatedQuote { input }) ==> input@ == s@,
{
    let v = chars_of(s);
    let n = v.len();
    let mut out: Vec<String> = Vec::new();
    let mut i: usize = 0;
    assert(v@.skip(0) =~= v@);
    loop
        invariant
            n == v@.len(),
            i <= n,
            tokens(s@) == (match tokens(v@.skip(i as int)) {
                None => None,
                Some(rest) => Some(out@.map_values(|t: String| t@) + rest),
            }),
        decreases n - i,
    {
        let ghost start = i;
        proof {
            lemma_skip_ws_len(v@.skip(i as int));
        }
        while i < n && is_whitespace(v[i])
            invariant
                n == v@.len(),
                start <= i <= n,
                skip_ws(v@.skip(start as int)) == skip_ws(v@.skip(i as int)),
            decreases n - i,
        {
            assert(v@.skip(i as int).drop_first() =~= v@.skip(i + 1));
            i += 1;
        }
        assert(skip_ws(v@.skip(i as int)) == v@.skip(i as int));
        let ghost t = v@.skip(i as int);
        if i == n {
            assert(out@.map_values(|t: String| t@) + Seq::<Seq<char>>::empty() =~= out@.map_values(
                |t: String| t@,
            ));
            return Ok(out);
        }
        if v[i] == '"' {
            let mut j = i + 1;
            let ghost body = t.drop_first();
            assert(body =~= v@.skip(i + 1));
            while j < n && v[j] != '"'
                invariant
                    n == v@.len(),
                    i < j <= n,
                    body == v@.skip(i + 1),
                    find_char(body, '"') == (match find_char(v@.skip(j as int), '"') {
                        Some(k) => Some((k + (j - i - 1)) as nat),
                        None => None,
                    }),
                decreases n - j,
            {
                assert(v@.skip(j as int).drop_first() =~= v@.skip(j + 1));
                j += 1;
            }
            if j == n {
                assert(v@.skip(j as int) =~= Seq::<char>::empty());
                return Err(CommandLineError::UnterminatedQuote { input: s.to_owned() });
            }
            let token = string_of(&v, i + 1, j);
            assert(v@.subrange(i + 1, j as int) =~= body.take(j - i - 1));
            assert(body.skip(j - i - 1 + 1) =~= v@.skip(j + 1));
            let ghost before = out@.map_values(|t: String| t@);
            out.push(token);
            assert(out@.map_values(|t: String| t@) =~= before.push(body.take(j - i - 1)));
            proof {
                match tokens(v@.skip(j + 1)) {
                    Some(rest) => {
                        assert(before + (seq![body.take(j - i - 1)] + rest) =~= out@.map_values(
                            |t: String| t@,
                        ) + rest);
                    },
                    None => {},
                }
            }
            i = j + 1;
        } else {
            let mut j = i;
            while j < n && !is_whitespace(v[j])
                invariant
                    n == v@.len(),
                    i <= j <= n,
                    first_ws(t) == first_ws(v@.skip(j as int)) + (j - i),
                decreases n - j,
            {
                assert(v@.skip(j as int).drop_first() =~= v@.skip(j + 1));
                j += 1;
            }
            assert(first_ws(v@.skip(j as int)) == 0);
            let token = string_of(&v, i, j);
            assert(v@.subrange(i as int, j as int) =~= t.take(j - i));
            assert(t.skip(j - i) =~= v@.skip(j as int));
            let ghost before = out@.map_values(|t: String| t@);
            out.push(token);
            assert(out@.map_values(|t: String| t@) =~= before.push(t.take(j - i)));
            proof {
                match tokens(v@.skip(j as int)) {
                    Some(rest) => {
                        assert(before + (seq![t.take(j - i)] + rest) =~= out@.map_values(
                            |t: String| t@,
                        ) + rest);
                    },
                    None => {},
                }
            }
            i = j;
        }
    }
}

} // verus!

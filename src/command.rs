use vstd::prelude::*;

use crate::text::push_char;

verus! {

/// `s` with every occurrence of `%f`, taken from left to right without
/// overlap, replaced by `path`.
pub open spec fn substitute(s: Seq<char>, path: Seq<char>) -> Seq<char>
    decreases s.len(),
{
    if s.len() == 0 {
        Seq::empty()
    } else if s.len() >= 2 && s[0] == '%' && s[1] == 'f' {
        path + substitute(s.skip(2), path)
    } else {
        seq![s[0]] + substitute(s.skip(1), path)
    }
}

/// Space and tab separate tokens outside quotes.
pub open spec fn is_separator(c: char) -> bool {
    c == ' ' || c == '\t'
}

/// Where a left-to-right reading of a command line stands: the tokens
/// finished so far, the token being built, and which quote is open.
pub ghost struct ScanState {
    pub tokens: Seq<Seq<char>>,
    pub current: Seq<char>,
    pub in_double: bool,
    pub in_single: bool,
}

pub open spec fn scan_start() -> ScanState {
    ScanState { tokens: Seq::empty(), current: Seq::empty(), in_double: false, in_single: false }
}

/// Reading one more character. A quote toggles its region unless the other
/// quote is open, and is not kept; a separator outside quotes ends a
/// non-empty token; any other character joins the current token.
pub open spec fn scan_step(st: ScanState, c: char) -> ScanState {
    if c == '"' && !st.in_single {
        ScanState { in_double: !st.in_double, ..st }
    } else if c == '\'' && !st.in_double {
        ScanState { in_single: !st.in_single, ..st }
    } else if is_separator(c) && !st.in_double && !st.in_single {
        if st.current.len() > 0 {
            ScanState { tokens: st.tokens.push(st.current), current: Seq::empty(), ..st }
        } else {
            st
        }
    } else {
        ScanState { current: st.current.push(c), ..st }
    }
}

pub open spec fn scan(s: Seq<char>) -> ScanState
    decreases s.len(),
{
    if s.len() == 0 {
        scan_start()
    } else {
        scan_step(scan(s.drop_last()), s.last())
    }
}

/// The tokens of a command line: those finished by the scan, then the one
/// still being built if it is not empty. An unterminated quote runs to the
/// end of the line.
pub open spec fn tokens(s: Seq<char>) -> Seq<Seq<char>> {
    let st = scan(s);
    if st.current.len() > 0 {
        st.tokens.push(st.current)
    } else {
        st.tokens
    }
}

/// The characters of `s`, in order.
pub fn chars_of(s: &str) -> (r: Vec<char>)
    ensures
        r@ == s@,
{
    let mut out: Vec<char> = Vec::new();
    for c in it: s.chars()
        invariant
            it.seq() == s@,
            out@ == it.seq().take(it.index() as int),
    {
        out.push(c);
    }
    out
}

/// `cmd` with each `%f` replaced by `path`. The path is inserted as it is,
/// with no quoting.
pub fn substitute_placeholder(cmd: &str, path: &str) -> (r: String)
    ensures
        r@ == substitute(cmd@, path@),
{
    let cs = chars_of(cmd);
    let n = cs.len();
    let mut out = String::new();
    let mut i: usize = 0;
    assert(cmd@.skip(0) =~= cmd@);
    assert(out@ + substitute(cmd@, path@) =~= substitute(cmd@, path@));
    while i < n
        invariant
            n == cs@.len(),
            cs@ == cmd@,
            i <= n,
            substitute(cmd@, path@) == out@ + substitute(cmd@.skip(i as int), path@),
        decreases n - i,
    {
        let ghost rest = cmd@.skip(i as int);
        if i + 1 < n && cs[i] == '%' && cs[i + 1] == 'f' {
            assert(rest.skip(2) =~= cmd@.skip(i + 2));
            out.append(path);
            i = i + 2;
        } else {
            assert(rest.skip(1) =~= cmd@.skip(i + 1));
            push_char(&mut out, cs[i]);
            i = i + 1;
        }
    }
    assert(cmd@.skip(n as int) =~= Seq::<char>::empty());
    out
}

/// The tokens of `line`, split and unquoted as `tokens` says.
pub fn tokenize(line: &str) -> (r: Vec<String>)
    ensures
        r.deep_view() == tokens(line@),
{
    let cs = chars_of(line);
    let n = cs.len();
    let mut found: Vec<String> = Vec::new();
    let mut current = String::new();
    let mut in_double = false;
    let mut in_single = false;
    let mut i: usize = 0;
    while i < n
        invariant
            n == cs@.len(),
            cs@ == line@,
            i <= n,
            ({
                let st = scan(line@.take(i as int));
                &&& found.deep_view() == st.tokens
                &&& current@ == st.current
                &&& in_double == st.in_double
                &&& in_single == st.in_single
            }),
        decreases n - i,
    {
        let c = cs[i];
        assert(line@.take(i + 1).drop_last() =~= line@.take(i as int));
        if c == '"' && !in_single {
            in_double = !in_double;
        } else if c == '\'' && !in_double {
            in_single = !in_single;
        } else if (c == ' ' || c == '\t') && !in_double && !in_single {
            if !current.as_str().is_empty() {
                let ghost before = found.deep_view();
                found.push(current);
                assert(found.deep_view() =~= before.push(scan(line@.take(i as int)).current));
                current = String::new();
            }
        } else {
            push_char(&mut current, c);
        }
        i = i + 1;
    }
    assert(line@.take(n as int) =~= line@);
    if !current.as_str().is_empty() {
        let ghost before = found.deep_view();
        let ghost last = current@;
        found.push(current);
        assert(found.deep_view() =~= before.push(last));
    }
    found
}

/// The program of a command template once `path` is put in: its first
/// token, or the empty string when it has none.
pub open spec fn program_of(cmd: Seq<char>, path: Seq<char>) -> Seq<char> {
    let t = tokens(substitute(cmd, path));
    if t.len() == 0 {
        Seq::empty()
    } else {
        t[0]
    }
}

/// The arguments of a command template once `path` is put in: its tokens
/// after the first.
pub open spec fn args_of(cmd: Seq<char>, path: Seq<char>) -> Seq<Seq<char>> {
    let t = tokens(substitute(cmd, path));
    if t.len() == 0 {
        Seq::empty()
    } else {
        t.drop_first()
    }
}

/// No scan ever finishes an empty token.
pub proof fn lemma_scan_tokens_nonempty(s: Seq<char>)
    ensures
        forall|i: int| 0 <= i < scan(s).tokens.len() ==> #[trigger] scan(s).tokens[i].len() > 0,
    decreases s.len(),
{
    if s.len() > 0 {
        let prev = scan(s.drop_last());
        lemma_scan_tokens_nonempty(s.drop_last());
        assert forall|i: int| 0 <= i < scan(s).tokens.len() implies #[trigger] scan(
            s,
        ).tokens[i].len() > 0 by {
            if i < prev.tokens.len() {
                assert(scan(s).tokens[i] == prev.tokens[i]);
            }
        }
    }
}

/// Every token of a command line holds at least one character.
pub proof fn lemma_tokens_nonempty(s: Seq<char>)
    ensures
        forall|i: int| 0 <= i < tokens(s).len() ==> #[trigger] tokens(s)[i].len() > 0,
{
    lemma_scan_tokens_nonempty(s);
}

/// A template names no program exactly when it has no token.
pub proof fn lemma_program_empty_iff_no_tokens(cmd: Seq<char>, path: Seq<char>)
    ensures
        (program_of(cmd, path).len() == 0) <==> (tokens(substitute(cmd, path)).len() == 0),
{
    lemma_tokens_nonempty(substitute(cmd, path));
}

/// `s` holds no `%f`.
pub open spec fn has_no_placeholder(s: Seq<char>) -> bool {
    forall|i: int| 0 <= i < s.len() - 1 ==> !(#[trigger] s[i] == '%' && s[i + 1] == 'f')
}

/// `s` holds no separator and no quote character.
pub open spec fn is_plain_word(s: Seq<char>) -> bool {
    forall|i: int|
        0 <= i < s.len() ==> !is_separator(#[trigger] s[i]) && s[i] != '"' && s[i] != '\''
}

/// A template without `%f` is left as it is, whatever the path.
pub proof fn lemma_substitute_without_placeholder(s: Seq<char>, path: Seq<char>)
    requires
        has_no_placeholder(s),
    ensures
        substitute(s, path) == s,
    decreases s.len(),
{
    if s.len() > 0 {
        let rest = s.skip(1);
        assert(has_no_placeholder(rest)) by {
            assert forall|i: int| 0 <= i < rest.len() - 1 implies !(#[trigger] rest[i] == '%'
                && rest[i + 1] == 'f') by {
                assert(rest[i] == s[i + 1] && rest[i + 1] == s[i + 2]);
            }
        }
        lemma_substitute_without_placeholder(rest, path);
        assert(seq![s[0]] + rest =~= s);
    }
}

/// Scanning a plain word builds it up as one unfinished token.
pub proof fn lemma_scan_plain_word(s: Seq<char>)
    requires
        is_plain_word(s),
    ensures
        scan(s) == (ScanState { tokens: Seq::empty(), current: s, in_double: false, in_single: false }),
    decreases s.len(),
{
    if s.len() > 0 {
        let prefix = s.drop_last();
        assert(is_plain_word(prefix)) by {
            assert forall|i: int| 0 <= i < prefix.len() implies !is_separator(#[trigger] prefix[i])
                && prefix[i] != '"' && prefix[i] != '\'' by {
                assert(prefix[i] == s[i]);
            }
        }
        lemma_scan_plain_word(prefix);
        let c = s[s.len() - 1];
        assert(!is_separator(c) && c != '"' && c != '\'');
        assert(prefix.push(c) =~= s);
    } else {
        assert(s =~= Seq::<char>::empty());
    }
}

/// A template that is one plain word without `%f` parses, for every path,
/// to that word as the program and no arguments.
pub proof fn lemma_plain_word_parses_to_itself(s: Seq<char>, path: Seq<char>)
    requires
        s.len() > 0,
        is_plain_word(s),
        has_no_placeholder(s),
    ensures
        program_of(s, path) == s,
        args_of(s, path) == Seq::<Seq<char>>::empty(),
{
    lemma_substitute_without_placeholder(s, path);
    lemma_scan_plain_word(s);
    assert(tokens(s) =~= seq![s]);
    assert(tokens(s).drop_first() =~= Seq::<Seq<char>>::empty());
}

/// Scanning spaces and tabs finishes no token and starts none.
pub proof fn lemma_blank_scan(s: Seq<char>)
    requires
        forall|i: int| 0 <= i < s.len() ==> #[trigger] is_separator(s[i]),
    ensures
        has_no_placeholder(s),
        tokens(s).len() == 0,
        scan(s) == scan_start(),
    decreases s.len(),
{
    if s.len() > 0 {
        let prefix = s.drop_last();
        assert forall|i: int| 0 <= i < prefix.len() implies #[trigger] is_separator(
            prefix[i],
        ) by {
            assert(prefix[i] == s[i]);
        }
        lemma_blank_scan(prefix);
        assert(is_separator(s[s.len() - 1]));
    }
    assert forall|i: int| 0 <= i < s.len() - 1 implies !(#[trigger] s[i] == '%' && s[i + 1]
        == 'f') by {
        assert(is_separator(s[i]));
    }
}

} // verus!

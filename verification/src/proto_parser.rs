//! Command protocol codec: tokenizes one inbound text line into a command
//! name and argument list, and formats the textual replies sent back on the
//! command channel.

use vstd::prelude::*;

verus! {

/// Longest command name accepted, in characters.
pub const CMD_MAX: usize = 32;

/// Longest single argument accepted, in characters.
pub const ARG_MAX: usize = 16;

/// Largest number of arguments accepted.
pub const ARGS_MAX: usize = 10;

/// The whitespace characters that separate tokens on the command channel.
pub open spec fn is_ws(c: char) -> bool {
    c == ' ' || c == '\t' || c == '\n' || c == '\r'
}

fn is_ws_char(c: char) -> (r: bool)
    ensures
        r == is_ws(c),
{
    c == ' ' || c == '\t' || c == '\n' || c == '\r'
}

/// Position of the first non-whitespace character at or after `i`,
/// or the end of the line.
pub open spec fn skip_ws(s: Seq<char>, i: int) -> int
    decreases s.len() - i,
{
    if i < 0 || i >= s.len() {
        s.len() as int
    } else if is_ws(s[i]) {
        skip_ws(s, i + 1)
    } else {
        i
    }
}

/// Position of the first whitespace character at or after `i`,
/// or the end of the line.
pub open spec fn token_end(s: Seq<char>, i: int) -> int
    decreases s.len() - i,
{
    if i < 0 || i >= s.len() {
        s.len() as int
    } else if is_ws(s[i]) {
        i
    } else {
        token_end(s, i + 1)
    }
}

proof fn lemma_skip_ws_bounds(s: Seq<char>, i: int)
    requires
        0 <= i <= s.len(),
    ensures
        i <= skip_ws(s, i) <= s.len(),
        skip_ws(s, i) < s.len() ==> !is_ws(s[skip_ws(s, i)]),
    decreases s.len() - i,
{
    if i < s.len() && is_ws(s[i]) {
        lemma_skip_ws_bounds(s, i + 1);
    }
}

proof fn lemma_token_end_bounds(s: Seq<char>, i: int)
    requires
        0 <= i <= s.len(),
    ensures
        i <= token_end(s, i) <= s.len(),
        i < s.len() && !is_ws(s[i]) ==> token_end(s, i) > i,
    decreases s.len() - i,
{
    if i < s.len() && !is_ws(s[i]) {
        lemma_token_end_bounds(s, i + 1);
    }
}

/// The whitespace-delimited tokens of `s`, reading from position `i` on.
pub open spec fn tokens_from(s: Seq<char>, i: int) -> Seq<Seq<char>>
    decreases s.len() - i,
        when 0 <= i <= s.len()
        via tokens_from_dec
{
    let j = skip_ws(s, i);
    if j == s.len() {
        seq![]
    } else {
        seq![s.subrange(j, token_end(s, j))] + tokens_from(s, token_end(s, j))
    }
}

#[via_fn]
proof fn tokens_from_dec(s: Seq<char>, i: int) {
    lemma_skip_ws_bounds(s, i);
    let j = skip_ws(s, i);
    if j < s.len() {
        lemma_token_end_bounds(s, j);
    }
}

/// The whitespace-delimited tokens of one inbound line.
pub open spec fn tokens(s: Seq<char>) -> Seq<Seq<char>> {
    tokens_from(s, 0)
}

proof fn lemma_tokens_from_ws(s: Seq<char>, i: int)
    requires
        0 <= i < s.len(),
        is_ws(s[i]),
    ensures
        tokens_from(s, i) == tokens_from(s, i + 1),
{
    assert(skip_ws(s, i) == skip_ws(s, i + 1));
}

proof fn lemma_tokens_from_token(s: Seq<char>, i: int)
    requires
        0 <= i < s.len(),
        !is_ws(s[i]),
    ensures
        tokens_from(s, i) == seq![s.subrange(i, token_end(s, i))] + tokens_from(
            s,
            token_end(s, i),
        ),
{
    lemma_token_end_bounds(s, i);
    assert(skip_ws(s, i) == i);
}

proof fn lemma_token_end_scan(s: Seq<char>, start: int, i: int)
    requires
        0 <= start <= i <= s.len(),
        forall|k: int| start <= k < i ==> !is_ws(s[k]),
        i == s.len() || is_ws(s[i]),
    ensures
        token_end(s, start) == i,
    decreases i - start,
{
    if start < i {
        lemma_token_end_scan(s, start + 1, i);
    }
}

/// Every character of `s` is whitespace (a blank line).
pub open spec fn all_ws(s: Seq<char>) -> bool {
    forall|k: int| 0 <= k < s.len() ==> is_ws(#[trigger] s[k])
}

proof fn lemma_skip_ws_all(s: Seq<char>, i: int)
    requires
        0 <= i <= s.len(),
    ensures
        skip_ws(s, i) == s.len() <==> (forall|k: int| i <= k < s.len() ==> is_ws(#[trigger] s[k])),
    decreases s.len() - i,
{
    if i < s.len() && is_ws(s[i]) {
        lemma_skip_ws_all(s, i + 1);
    }
}

/// A line tokenizes to nothing exactly when it is blank or all whitespace,
/// and a token is never the empty string; so the parsed command name is
/// empty exactly on blank input.
pub proof fn lemma_tokens_blank(s: Seq<char>)
    ensures
        tokens(s).len() == 0 <==> all_ws(s),
        tokens(s).len() > 0 ==> tokens(s)[0].len() > 0,
{
    lemma_skip_ws_all(s, 0);
    lemma_skip_ws_bounds(s, 0);
    let j = skip_ws(s, 0);
    if j < s.len() {
        lemma_token_end_bounds(s, j);
    }
}

/// Error of the codec: a token or the argument list does not fit within
/// the protocol's bounds.
#[derive(Clone, Copy, Debug, PartialEq, Eq, Structural)]
pub enum ParseError {
    CapacityExceeded,
}

/// A parsed command line: the command name and its ordered arguments.
pub struct ParserMgr {
    pub cmd: String,
    pub args: Vec<String>,
}

/// The tokens of a line fit the protocol's bounds: the name has at most
/// `CMD_MAX` characters, there are at most `ARGS_MAX` arguments, and each
/// argument has at most `ARG_MAX` characters.
pub open spec fn within_bounds(toks: Seq<Seq<char>>) -> bool {
    &&& toks.len() > 0 ==> toks[0].len() <= CMD_MAX
    &&& toks.len() <= ARGS_MAX + 1
    &&& forall|k: int| 1 <= k < toks.len() ==> (#[trigger] toks[k]).len() <= ARG_MAX
}

impl ParserMgr {
    /// Tokenizes one inbound line. The first whitespace-delimited token
    /// becomes the command name (empty if the line is blank); every further
    /// token is an argument, in order. Fails with `CapacityExceeded` exactly
    /// when a token or the argument count exceeds the protocol's bounds.
    pub fn new(msg: &str) -> (r: Result<ParserMgr, ParseError>)
        ensures
            r is Ok <==> within_bounds(tokens(msg@)),
            r matches Ok(p) ==> {
                let toks = tokens(msg@);
                &&& p.cmd@ == if toks.len() == 0 {
                    Seq::<char>::empty()
                } else {
                    toks[0]
                }
                &&& p.args.deep_view() == if toks.len() == 0 {
                    Seq::<Seq<char>>::empty()
                } else {
                    toks.subrange(1, toks.len() as int)
                }
            },
    {
        let ghost s = msg@;
        let n = msg.unicode_len();
        let mut toks: Vec<String> = Vec::new();
        let mut i: usize = 0;
        while i < n
            invariant
                i <= n,
                n == s.len(),
                s == msg@,
                toks.deep_view() + tokens_from(s, i as int) == tokens(s),
            decreases n - i,
        {
            let c = msg.get_char(i);
            if is_ws_char(c) {
                proof {
                    lemma_tokens_from_ws(s, i as int);
                }
                i = i + 1;
            } else {
                let start = i;
                i = i + 1;
                while i < n && !is_ws_char(msg.get_char(i))
                    invariant
                        start < i <= n,
                        n == s.len(),
                        s == msg@,
                        forall|k: int| start <= k < i ==> !is_ws(#[trigger] s[k]),
                    decreases n - i,
                {
                    i = i + 1;
                }
                proof {
                    lemma_token_end_scan(s, start as int, i as int);
                    lemma_tokens_from_token(s, start as int);
                }
                let tok = msg.substring_char(start, i);
                let ghost old_toks = toks.deep_view();
                toks.push(String::from_str(tok));
                proof {
                    assert(toks.deep_view() =~= old_toks + seq![s.subrange(start as int, i as int)]);
                    assert(old_toks + seq![s.subrange(start as int, i as int)] + tokens_from(s, i as int)
                        =~= old_toks + (seq![s.subrange(start as int, i as int)] + tokens_from(s, i as int)));
                }
            }
        }
        proof {
            assert(tokens_from(s, n as int) =~= Seq::<Seq<char>>::empty());
            assert(toks.deep_view() =~= tokens(s));
            assert(tokens(s).len() == toks@.len());
            assert(forall|j: int| 0 <= j < toks@.len() ==> (#[trigger] toks@[j])@ == tokens(s)[j]);
        }
        // hold each token to the protocol's bounds
        if toks.len() > 0 {
            if toks[0].as_str().unicode_len() > CMD_MAX {
                return Err(ParseError::CapacityExceeded);
            }
        }
        if toks.len() > ARGS_MAX + 1 {
            return Err(ParseError::CapacityExceeded);
        }
        let mut k: usize = 1;
        while k < toks.len()
            invariant
                1 <= k,
                s == msg@,
                toks.deep_view() == tokens(s),
                toks@.len() == tokens(s).len(),
                forall|j: int| 1 <= j < k ==> (#[trigger] tokens(s)[j]).len() <= ARG_MAX,
            decreases toks@.len() - k,
        {
            proof {
                assert(tokens(s)[k as int] == toks@[k as int].deep_view());
            }
            if toks[k].as_str().unicode_len() > ARG_MAX {
                return Err(ParseError::CapacityExceeded);
            }
            k = k + 1;
        }
        if toks.len() == 0 {
            Ok(ParserMgr { cmd: String::new(), args: toks })
        } else {
            let mut rest = toks;
            let cmd = rest.remove(0);
            proof {
                assert(rest.deep_view() =~= tokens(s).subrange(1, tokens(s).len() as int));
            }
            Ok(ParserMgr { cmd, args: rest })
        }
    }
}

/// Character-wise string comparison, used to match command and argument
/// tokens against the protocol's vocabulary.
pub fn str_eq(a: &str, b: &str) -> (r: bool)
    ensures
        r == (a@ == b@),
{
    let n = a.unicode_len();
    let m = b.unicode_len();
    if n != m {
        return false;
    }
    let mut i: usize = 0;
    while i < n
        invariant
            i <= n,
            n == a@.len(),
            n == b@.len(),
            forall|k: int| 0 <= k < i ==> a@[k] == b@[k],
        decreases n - i,
    {
        if a.get_char(i) != b.get_char(i) {
            return false;
        }
        i = i + 1;
    }
    proof {
        assert(a@ =~= b@);
    }
    true
}

/// Suffix appended to a successful reply.
pub open spec fn ok_suffix() -> Seq<char> {
    "\nOK\n"@
}

/// Suffix appended to a failed reply.
pub open spec fn err_suffix() -> Seq<char> {
    "\nErr\n"@
}

/// A reply never exceeds this many characters.
pub const REPLY_MAX: usize = 64;

/// Formats a success reply: the payload followed by `"\nOK\n"`.
///
/// The payload must be short enough that the reply stays within
/// `REPLY_MAX`; a longer payload is a programming error, not a runtime
/// condition.
pub fn reply_ok(payload: &str) -> (r: String)
    requires
        payload@.len() + 4 <= REPLY_MAX,
    ensures
        r@ == payload@ + ok_suffix(),
        r@.len() <= REPLY_MAX,
{
    proof {
        reveal_strlit("\nOK\n");
    }
    let mut r = String::from_str(payload);
    r.append("\nOK\n");
    r
}

/// Formats a failure reply: the payload followed by `"\nErr\n"`.
///
/// The payload must be short enough that the reply stays within
/// `REPLY_MAX`.
pub fn reply_err(payload: &str) -> (r: String)
    requires
        payload@.len() + 5 <= REPLY_MAX,
    ensures
        r@ == payload@ + err_suffix(),
        r@.len() <= REPLY_MAX,
{
    proof {
        reveal_strlit("\nErr\n");
    }
    let mut r = String::from_str(payload);
    r.append("\nErr\n");
    r
}

/// A success reply carries its payload verbatim and ends with `"OK\n"`.
pub proof fn lemma_reply_ok_shape(p: Seq<char>, r: Seq<char>)
    requires
        r == p + ok_suffix(),
    ensures
        r.subrange(0, p.len() as int) == p,
        r.len() == p.len() + 4,
        r.subrange(r.len() - 3, r.len() as int) == "OK\n"@,
{
    reveal_strlit("\nOK\n");
    reveal_strlit("OK\n");
    assert(r.subrange(0, p.len() as int) =~= p);
    assert(r.subrange(r.len() - 3, r.len() as int) =~= "OK\n"@);
}

/// A failure reply carries its payload verbatim and ends with `"Err\n"`.
pub proof fn lemma_reply_err_shape(p: Seq<char>, r: Seq<char>)
    requires
        r == p + err_suffix(),
    ensures
        r.subrange(0, p.len() as int) == p,
        r.len() == p.len() + 5,
        r.subrange(r.len() - 4, r.len() as int) == "Err\n"@,
{
    reveal_strlit("\nErr\n");
    reveal_strlit("Err\n");
    assert(r.subrange(0, p.len() as int) =~= p);
    assert(r.subrange(r.len() - 4, r.len() as int) =~= "Err\n"@);
}

} // verus!

//! Quoting of user-supplied text for YAML and POSIX shells.
//!
//! The specifications of this module say, character by character, what
//! each quoting function produces, and prove that the quoting can be undone
//! by the usual decoding rules of the target language.

use vstd::prelude::*;

verus! {

/// Calls `String::push`. The contract claims that the character is appended
/// at the end.
#[verifier::external_body]
pub(crate) fn push_char(s: &mut String, c: char)
    ensures
        final(s)@ == old(s)@.push(c),
{
    s.push(c);
}

/// What a single character becomes inside a quoted string: a single quote
/// is replaced by `quote_rep`, every other character stands for itself.
pub open spec fn escaped_char(c: char, quote_rep: Seq<char>) -> Seq<char> {
    if c == '\'' {
        quote_rep
    } else {
        seq![c]
    }
}

/// `s` with every single quote replaced by `quote_rep`.
pub open spec fn escape_quotes(s: Seq<char>, quote_rep: Seq<char>) -> Seq<char>
    decreases s.len(),
{
    if s.len() == 0 {
        Seq::empty()
    } else {
        escaped_char(s[0], quote_rep) + escape_quotes(s.drop_first(), quote_rep)
    }
}

/// Characters that may appear in an unquoted YAML scalar written by this
/// crate: ASCII letters and digits and `- _ . / * + = ~`.
pub open spec fn yaml_plain_char(c: char) -> bool {
    ||| ('a' <= c && c <= 'z')
    ||| ('A' <= c && c <= 'Z')
    ||| ('0' <= c && c <= '9')
    ||| c == '-'
    ||| c == '_'
    ||| c == '.'
    ||| c == '/'
    ||| c == '*'
    ||| c == '+'
    ||| c == '='
    ||| c == '~'
}

/// YAML indicator characters that may not start a plain scalar.
pub open spec fn yaml_indicator(c: char) -> bool {
    ||| c == '-'
    ||| c == '?'
    ||| c == ':'
    ||| c == ','
    ||| c == '['
    ||| c == ']'
    ||| c == '{'
    ||| c == '}'
    ||| c == '#'
    ||| c == '&'
    ||| c == '*'
    ||| c == '!'
    ||| c == '|'
    ||| c == '>'
    ||| c == '%'
    ||| c == '@'
    ||| c == '`'
}

/// `s` can be written as a plain YAML scalar: it is non-empty, made of
/// plain characters only, and does not start with an indicator.
pub open spec fn yaml_plain_ok(s: Seq<char>) -> bool {
    &&& s.len() > 0
    &&& forall|i: int| 0 <= i < s.len() ==> yaml_plain_char(#[trigger] s[i])
    &&& !yaml_indicator(s[0])
}

/// The YAML scalar written for `s`: `s` itself when it is plain, otherwise
/// `s` in single quotes with every embedded single quote doubled.
pub open spec fn yaml_scalar_of(s: Seq<char>) -> Seq<char> {
    if yaml_plain_ok(s) {
        s
    } else {
        seq!['\''] + escape_quotes(s, seq!['\'', '\'']) + seq!['\'']
    }
}

/// The POSIX shell word written for `s`: `s` in single quotes, with every
/// embedded single quote written as `'\''`.
pub open spec fn shell_quoted(s: Seq<char>) -> Seq<char> {
    seq!['\''] + escape_quotes(s, seq!['\'', '\\', '\'', '\'']) + seq!['\'']
}

/// `items` joined by `sep`.
pub open spec fn join_with(items: Seq<Seq<char>>, sep: Seq<char>) -> Seq<char>
    decreases items.len(),
{
    if items.len() == 0 {
        Seq::empty()
    } else if items.len() == 1 {
        items[0]
    } else {
        join_with(items.drop_last(), sep) + sep + items.last()
    }
}

/// Escaping a sequence with one more character appends that character's
/// escape.
pub proof fn lemma_escape_push(s: Seq<char>, c: char, quote_rep: Seq<char>)
    ensures
        escape_quotes(s.push(c), quote_rep) == escape_quotes(s, quote_rep) + escaped_char(
            c,
            quote_rep,
        ),
    decreases s.len(),
{
    if s.len() == 0 {
        assert(s.push(c).drop_first() =~= Seq::<char>::empty());
        assert(escape_quotes(s.push(c).drop_first(), quote_rep) =~= Seq::<char>::empty());
        assert(escape_quotes(s.push(c), quote_rep) =~= escaped_char(c, quote_rep));
    } else {
        lemma_escape_push(s.drop_first(), c, quote_rep);
        assert(s.push(c).drop_first() =~= s.drop_first().push(c));
        assert(escape_quotes(s.push(c), quote_rep) == escaped_char(s[0], quote_rep)
            + escape_quotes(s.drop_first().push(c), quote_rep));
        assert(escape_quotes(s.push(c), quote_rep) =~= escape_quotes(s, quote_rep)
            + escaped_char(c, quote_rep));
    }
}

/// Appends `s` with every single quote replaced by `quote_rep`.
fn push_escaped(out: &mut String, s: &str, quote_rep: &str)
    ensures
        final(out)@ == old(out)@ + escape_quotes(s@, quote_rep@),
{
    broadcast use vstd::string::group_string_axioms;

    let ghost start = out@;
    for c in it: s.chars()
        invariant
            it.seq() == s@,
            out@ == start + escape_quotes(s@.take(it.index() as int), quote_rep@),
    {
        let ghost prefix = s@.take(it.index() as int);
        proof {
            assert(s@.take(it.index() + 1) =~= prefix.push(c));
            lemma_escape_push(prefix, c, quote_rep@);
        }
        if c == '\'' {
            out.append(quote_rep);
        } else {
            push_char(out, c);
        }
    }
    proof {
        assert(s@.take(s@.len() as int) =~= s@);
    }
}

fn is_yaml_plain_char(c: char) -> (b: bool)
    ensures
        b == yaml_plain_char(c),
{
    ('a' <= c && c <= 'z') || ('A' <= c && c <= 'Z') || ('0' <= c && c <= '9') || c == '-' || c
        == '_' || c == '.' || c == '/' || c == '*' || c == '+' || c == '=' || c == '~'
}

fn is_yaml_indicator(c: char) -> (b: bool)
    ensures
        b == yaml_indicator(c),
{
    c == '-' || c == '?' || c == ':' || c == ',' || c == '[' || c == ']' || c == '{' || c == '}'
        || c == '#' || c == '&' || c == '*' || c == '!' || c == '|' || c == '>' || c == '%' || c
        == '@' || c == '`'
}

/// Whether `s` can be written as a plain YAML scalar.
fn is_yaml_plain(s: &str) -> (b: bool)
    ensures
        b == yaml_plain_ok(s@),
{
    broadcast use vstd::string::group_string_axioms;

    let mut all_plain = true;
    let mut first_is_indicator = false;
    let mut seen_first = false;
    for c in it: s.chars()
        invariant
            it.seq() == s@,
            seen_first == (it.index() > 0),
            all_plain == (forall|j: int| 0 <= j < it.index() ==> yaml_plain_char(#[trigger] s@[j])),
            it.index() > 0 ==> first_is_indicator == yaml_indicator(s@[0]),
            it.index() == 0 ==> !first_is_indicator,
    {
        if !seen_first {
            first_is_indicator = is_yaml_indicator(c);
            seen_first = true;
        }
        if !is_yaml_plain_char(c) {
            all_plain = false;
        }
    }
    seen_first && all_plain && !first_is_indicator
}

/// The YAML scalar for `s`: plain when unambiguous, otherwise single-quoted
/// with embedded single quotes doubled.
pub fn yaml_scalar(s: &str) -> (r: String)
    ensures
        r@ == yaml_scalar_of(s@),
{
    if is_yaml_plain(s) {
        s.to_owned()
    } else {
        let mut out = String::new();
        push_char(&mut out, '\'');
        push_escaped(&mut out, s, "''");
        push_char(&mut out, '\'');
        proof {
            reveal_strlit("''");
            assert("''"@ =~= seq!['\'', '\'']);
            assert(out@ =~= seq!['\''] + escape_quotes(s@, seq!['\'', '\'']) + seq!['\'']);
        }
        out
    }
}

/// `s` single-quoted for a POSIX shell, with embedded single quotes
/// written as `'\''`.
pub fn shell_arg(s: &str) -> (r: String)
    ensures
        r@ == shell_quoted(s@),
{
    let mut out = String::new();
    push_char(&mut out, '\'');
    push_escaped(&mut out, s, "'\\''");
    push_char(&mut out, '\'');
    proof {
        reveal_strlit("'\\''");
        assert("'\\''"@ =~= seq!['\'', '\\', '\'', '\'']);
        assert(out@ =~= seq!['\''] + escape_quotes(s@, seq!['\'', '\\', '\'', '\'']) + seq!['\'']);
    }
    out
}

/// How YAML reads the body of a single-quoted scalar: `''` stands for one
/// single quote, every other character stands for itself.
pub open spec fn yaml_single_quoted_body(t: Seq<char>) -> Seq<char>
    decreases t.len(),
{
    if t.len() == 0 {
        Seq::empty()
    } else if t.len() >= 2 && t[0] == '\'' && t[1] == '\'' {
        seq!['\''] + yaml_single_quoted_body(t.skip(2))
    } else {
        seq![t[0]] + yaml_single_quoted_body(t.drop_first())
    }
}

/// How YAML reads a scalar that is either plain or single-quoted.
pub open spec fn yaml_read_scalar(t: Seq<char>) -> Seq<char> {
    if t.len() >= 2 && t[0] == '\'' && t.last() == '\'' {
        yaml_single_quoted_body(t.subrange(1, t.len() - 1))
    } else {
        t
    }
}

/// How a POSIX shell reads the characters of a word outside quotes:
/// `'` opens a quoted part, `\` takes the next character literally.
pub open spec fn shell_read_unquoted(t: Seq<char>) -> Seq<char>
    decreases t.len(), 0int,
{
    if t.len() == 0 {
        Seq::empty()
    } else if t[0] == '\'' {
        shell_read_quoted(t.drop_first())
    } else if t[0] == '\\' && t.len() >= 2 {
        seq![t[1]] + shell_read_unquoted(t.skip(2))
    } else {
        seq![t[0]] + shell_read_unquoted(t.drop_first())
    }
}

/// How a POSIX shell reads the characters of a word inside single quotes:
/// everything is literal up to the closing `'`.
pub open spec fn shell_read_quoted(t: Seq<char>) -> Seq<char>
    decreases t.len(), 1int,
{
    if t.len() == 0 {
        Seq::empty()
    } else if t[0] == '\'' {
        shell_read_unquoted(t.drop_first())
    } else {
        seq![t[0]] + shell_read_quoted(t.drop_first())
    }
}

proof fn lemma_yaml_body_of_escape(s: Seq<char>)
    ensures
        yaml_single_quoted_body(escape_quotes(s, seq!['\'', '\''])) == s,
    decreases s.len(),
{
    let q = seq!['\'', '\''];
    if s.len() == 0 {
        assert(escape_quotes(s, q) =~= Seq::<char>::empty());
        assert(s =~= Seq::<char>::empty());
    } else {
        let rest = escape_quotes(s.drop_first(), q);
        let t = escape_quotes(s, q);
        lemma_yaml_body_of_escape(s.drop_first());
        assert(t == escaped_char(s[0], q) + rest);
        if s[0] == '\'' {
            assert(t.skip(2) =~= rest);
            assert(t[0] == '\'' && t[1] == '\'');
        } else {
            assert(t.drop_first() =~= rest);
            assert(t[0] == s[0]);
        }
        assert(s =~= seq![s[0]] + s.drop_first());
    }
}

/// Reading back the YAML scalar written for `s` gives `s`: a plain scalar
/// never starts with a quote, and a quoted one decodes to the given
/// text.
pub proof fn yaml_scalar_round_trip(s: Seq<char>)
    ensures
        yaml_read_scalar(yaml_scalar_of(s)) == s,
{
    let t = yaml_scalar_of(s);
    if yaml_plain_ok(s) {
        assert(yaml_plain_char(s[0]));
    } else {
        let e = escape_quotes(s, seq!['\'', '\'']);
        assert(t.subrange(1, t.len() - 1) =~= e);
        lemma_yaml_body_of_escape(s);
    }
}

proof fn lemma_escape_not_shorter(s: Seq<char>, quote_rep: Seq<char>)
    requires
        quote_rep.len() >= 1,
    ensures
        escape_quotes(s, quote_rep).len() >= s.len(),
    decreases s.len(),
{
    if s.len() > 0 {
        lemma_escape_not_shorter(s.drop_first(), quote_rep);
    }
}

/// The scalar is written plain (as `s` itself) exactly when `s` is non-empty
/// text of plain characters that does not start with an indicator; anything
/// else is single-quoted.
pub proof fn yaml_scalar_plain_or_quoted(s: Seq<char>)
    ensures
        yaml_scalar_of(s) == s <==> yaml_plain_ok(s),
        !yaml_plain_ok(s) ==> yaml_scalar_of(s)[0] == '\'' && yaml_scalar_of(s).last() == '\''
            && yaml_scalar_of(s).len() >= 2,
{
    if !yaml_plain_ok(s) {
        let t = yaml_scalar_of(s);
        let e = escape_quotes(s, seq!['\'', '\'']);
        lemma_escape_not_shorter(s, seq!['\'', '\'']);
        assert(t.len() == e.len() + 2);
        assert(t[0] == '\'');
        assert(t.last() == '\'');
        assert(t.len() != s.len());
    }
}

proof fn lemma_shell_quoted_body(s: Seq<char>, rest: Seq<char>)
    ensures
        shell_read_quoted(escape_quotes(s, seq!['\'', '\\', '\'', '\'']) + seq!['\''] + rest) == s
            + shell_read_unquoted(rest),
    decreases s.len(),
{
    let q = seq!['\'', '\\', '\'', '\''];
    let t = escape_quotes(s, q) + seq!['\''] + rest;
    if s.len() == 0 {
        assert(escape_quotes(s, q) =~= Seq::<char>::empty());
        assert(t[0] == '\'');
        assert(t.drop_first() =~= rest);
        assert(s + shell_read_unquoted(rest) =~= shell_read_unquoted(rest));
    } else {
        let tail = escape_quotes(s.drop_first(), q) + seq!['\''] + rest;
        lemma_shell_quoted_body(s.drop_first(), rest);
        assert(escape_quotes(s, q) == escaped_char(s[0], q) + escape_quotes(s.drop_first(), q));
        if s[0] == '\'' {
            assert(t =~= q + tail);
            let t1 = t.drop_first();
            assert(t1 =~= seq!['\\', '\'', '\''] + tail);
            assert(t1.skip(2) =~= seq!['\''] + tail);
            assert(t1.skip(2).drop_first() =~= tail);
            assert(shell_read_unquoted(t1) == seq!['\''] + shell_read_unquoted(t1.skip(2)));
            assert(shell_read_unquoted(t1.skip(2)) == shell_read_quoted(tail));
            assert(s =~= seq!['\''] + s.drop_first());
            assert(s + shell_read_unquoted(rest) =~= seq!['\''] + (s.drop_first()
                + shell_read_unquoted(rest)));
        } else {
            assert(t =~= seq![s[0]] + tail);
            assert(t.drop_first() =~= tail);
            assert(s + shell_read_unquoted(rest) =~= seq![s[0]] + (s.drop_first()
                + shell_read_unquoted(rest)));
        }
    }
}

/// A shell reads the word written for `s` back as exactly `s`.
pub proof fn shell_arg_round_trip(s: Seq<char>)
    ensures
        shell_read_unquoted(shell_quoted(s)) == s,
{
    let q = seq!['\'', '\\', '\'', '\''];
    let t = shell_quoted(s);
    let empty = Seq::<char>::empty();
    assert(t.drop_first() =~= escape_quotes(s, q) + seq!['\''] + empty);
    lemma_shell_quoted_body(s, empty);
    assert(shell_read_unquoted(empty) =~= empty);
    assert(s + empty =~= s);
}

} // verus!

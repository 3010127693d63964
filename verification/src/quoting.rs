//! Quoting text for `/bin/sh` and for AppleScript string literals, with the
//! readers that say what the shell and AppleScript make of the quoted text.

use vstd::prelude::*;
use crate::text::{chars_of, push_char};

verus! {

/// Each character of `s` replaced by `f` of it, in order.
pub open spec fn expand(s: Seq<char>, f: spec_fn(char) -> Seq<char>) -> Seq<char>
    decreases s.len(),
{
    if s.len() == 0 {
        Seq::empty()
    } else {
        expand(s.drop_last(), f) + f(s.last())
    }
}

/// Expanding a concatenation expands each part.
pub proof fn lemma_expand_concat(a: Seq<char>, b: Seq<char>, f: spec_fn(char) -> Seq<char>)
    ensures
        expand(a + b, f) == expand(a, f) + expand(b, f),
    decreases b.len(),
{
    if b.len() == 0 {
        assert(a + b =~= a);
        assert(expand(a, f) + expand(b, f) =~= expand(a, f));
    } else {
        assert((a + b).drop_last() =~= a + b.drop_last());
        assert((a + b).last() == b.last());
        lemma_expand_concat(a, b.drop_last(), f);
        assert(expand(a, f) + expand(b.drop_last(), f) + f(b.last()) =~= expand(a, f) + (
        expand(b.drop_last(), f) + f(b.last())));
    }
}

/// Expanding a text that starts with `c` starts with `f(c)`.
pub proof fn lemma_expand_first(s: Seq<char>, f: spec_fn(char) -> Seq<char>)
    requires
        s.len() > 0,
    ensures
        expand(s, f) == f(s[0]) + expand(s.drop_first(), f),
{
    assert(s =~= seq![s[0]] + s.drop_first());
    lemma_expand_concat(seq![s[0]], s.drop_first(), f);
    assert(seq![s[0]].drop_last() =~= Seq::<char>::empty());
    assert(expand(Seq::<char>::empty(), f) =~= Seq::<char>::empty());
    assert(seq![s[0]].last() == s[0]);
    assert(expand(seq![s[0]], f) =~= f(s[0]));
}

/// Expanding one character more appends that character's expansion.
pub proof fn lemma_expand_take(s: Seq<char>, f: spec_fn(char) -> Seq<char>, i: int)
    requires
        0 <= i < s.len(),
    ensures
        expand(s.take(i + 1), f) == expand(s.take(i), f) + f(s[i]),
{
    assert(s.take(i + 1).drop_last() =~= s.take(i));
}

// ---------------------------------------------------------------- the shell

/// How a single quote is written inside a single-quoted shell word: close
/// the quotes, write an escaped quote, and open them again.
pub open spec fn shell_piece(c: char) -> Seq<char> {
    if c == '\'' {
        seq!['\'', '\\', '\'', '\'']
    } else {
        seq![c]
    }
}

/// The shell escape as a function value.
pub open spec fn shell_pieces() -> spec_fn(char) -> Seq<char> {
    |c: char| shell_piece(c)
}

/// `s` written as one single-quoted `/bin/sh` word.
pub open spec fn shell_quoted(s: Seq<char>) -> Seq<char> {
    seq!['\''] + expand(s, shell_pieces()) + seq!['\'']
}

/// Quotes `path` for `/bin/sh`: the result is one word whose value is `path`.
pub fn shell_quote(path: &str) -> (r: String)
    ensures
        r@ == shell_quoted(path@),
{
    let ghost f = shell_pieces();
    let chars = chars_of(path);
    let n = chars.len();
    let mut out = String::new();
    push_char(&mut out, '\'');
    for i in 0..n
        invariant
            n == chars@.len(),
            chars@ == path@,
            f == shell_pieces(),
            out@ == seq!['\''] + expand(path@.take(i as int), f),
    {
        proof {
            lemma_expand_take(path@, f, i as int);
        }
        let c = chars[i];
        assert(f(c) == shell_piece(c));
        if c == '\'' {
            push_char(&mut out, '\'');
            push_char(&mut out, '\\');
            push_char(&mut out, '\'');
            push_char(&mut out, '\'');
        } else {
            push_char(&mut out, c);
        }
        assert(out@ =~= seq!['\''] + expand(path@.take(i + 1), f));
    }
    push_char(&mut out, '\'');
    assert(path@.take(n as int) =~= path@);
    out
}

/// Characters that end an unquoted shell word: blanks, newline and the
/// control and redirection operators.
pub open spec fn is_word_break(c: char) -> bool {
    c == ' ' || c == '\t' || c == '\n' || c == ';' || c == '&' || c == '|' || c == '<' || c
        == '>' || c == '(' || c == ')'
}

/// How `/bin/sh` reads a word from the start of `w`, as far as quoting goes:
/// single quotes keep everything up to the next single quote, a backslash
/// keeps the next character, other characters stand for themselves, and an
/// unquoted break ends the word. Gives the word's value and the text after it.
pub open spec fn read_shell_word(w: Seq<char>) -> (Seq<char>, Seq<char>)
    decreases w.len(), 1int,
{
    if w.len() == 0 {
        (Seq::empty(), Seq::empty())
    } else if is_word_break(w[0]) {
        (Seq::empty(), w)
    } else if w[0] == '\'' {
        read_single_quoted(w.drop_first())
    } else if w[0] == '\\' && w.len() >= 2 {
        let (v, r) = read_shell_word(w.skip(2));
        (seq![w[1]] + v, r)
    } else {
        let (v, r) = read_shell_word(w.drop_first());
        (seq![w[0]] + v, r)
    }
}

/// How `/bin/sh` reads the rest of a word after an opening single quote.
pub open spec fn read_single_quoted(w: Seq<char>) -> (Seq<char>, Seq<char>)
    decreases w.len(), 0int,
{
    if w.len() == 0 {
        (Seq::empty(), Seq::empty())
    } else if w[0] == '\'' {
        read_shell_word(w.drop_first())
    } else {
        let (v, r) = read_single_quoted(w.drop_first());
        (seq![w[0]] + v, r)
    }
}

proof fn lemma_read_quoted_body(s: Seq<char>, rest: Seq<char>)
    ensures
        read_single_quoted(expand(s, shell_pieces()) + seq!['\''] + rest) == (
            s + read_shell_word(rest).0,
            read_shell_word(rest).1,
        ),
    decreases s.len(),
{
    let f = shell_pieces();
    let w = expand(s, f) + seq!['\''] + rest;
    if s.len() == 0 {
        assert(w =~= seq!['\''] + rest);
        assert(w.drop_first() =~= rest);
        assert(s + read_shell_word(rest).0 =~= read_shell_word(rest).0);
    } else {
        let c = s[0];
        let t = s.drop_first();
        let x = expand(t, f) + seq!['\''] + rest;
        lemma_expand_first(s, f);
        assert(f(c) == shell_piece(c));
        lemma_read_quoted_body(t, rest);
        if c == '\'' {
            assert(w =~= seq!['\'', '\\', '\'', '\''] + x);
            let w1 = w.drop_first();
            assert(w1 =~= seq!['\\', '\'', '\''] + x);
            let w2 = w1.skip(2);
            assert(w2 =~= seq!['\''] + x);
            assert(w2.drop_first() =~= x);
            assert(read_single_quoted(w2.drop_first()) == read_shell_word(w2));
            assert(read_shell_word(w2) == read_single_quoted(x));
            assert(read_shell_word(w1) == (seq!['\''] + read_shell_word(w2).0, read_shell_word(w2).1));
            assert(read_single_quoted(w) == read_shell_word(w1));
            assert(s =~= seq!['\''] + t);
            assert(s + read_shell_word(rest).0 =~= seq!['\''] + (t + read_shell_word(rest).0));
        } else {
            assert(w =~= seq![c] + x);
            assert(w.drop_first() =~= x);
            assert(read_single_quoted(w) == (seq![c] + read_single_quoted(x).0, read_single_quoted(x).1));
            assert(s =~= seq![c] + t);
            assert(s + read_shell_word(rest).0 =~= seq![c] + (t + read_shell_word(rest).0));
        }
    }
}

/// The shell reads a quoted path back as exactly that path, as one word,
/// whatever follows it, as long as a break or the end of the text follows.
pub proof fn shell_quote_reads_back(s: Seq<char>, rest: Seq<char>)
    requires
        rest.len() == 0 || is_word_break(rest[0]),
    ensures
        read_shell_word(shell_quoted(s) + rest) == (s, rest),
{
    let f = shell_pieces();
    let w = shell_quoted(s) + rest;
    assert(w[0] == '\'');
    assert(w.drop_first() =~= expand(s, f) + seq!['\''] + rest);
    lemma_read_quoted_body(s, rest);
    if rest.len() == 0 {
        assert(read_shell_word(rest) == (Seq::<char>::empty(), Seq::<char>::empty()));
    }
    assert(s + read_shell_word(rest).0 =~= s);
}

// ----------------------------------------------------------- AppleScript

/// How a character is written inside an AppleScript string literal:
/// backslash and double quote take a backslash before them.
pub open spec fn applescript_piece(c: char) -> Seq<char> {
    if c == '\\' {
        seq!['\\', '\\']
    } else if c == '"' {
        seq!['\\', '"']
    } else {
        seq![c]
    }
}

/// The AppleScript escape as a function value.
pub open spec fn applescript_pieces() -> spec_fn(char) -> Seq<char> {
    |c: char| applescript_piece(c)
}

/// `s` escaped for the inside of an AppleScript string literal.
pub open spec fn applescript_escaped(s: Seq<char>) -> Seq<char> {
    expand(s, applescript_pieces())
}

/// Escapes `value` for use between double quotes in AppleScript.
pub fn applescript_escape(value: &str) -> (r: String)
    ensures
        r@ == applescript_escaped(value@),
{
    let ghost f = applescript_pieces();
    let chars = chars_of(value);
    let n = chars.len();
    let mut out = String::new();
    for i in 0..n
        invariant
            n == chars@.len(),
            chars@ == value@,
            f == applescript_pieces(),
            out@ == expand(value@.take(i as int), f),
    {
        proof {
            lemma_expand_take(value@, f, i as int);
        }
        let c = chars[i];
        assert(f(c) == applescript_piece(c));
        if c == '\\' {
            push_char(&mut out, '\\');
            push_char(&mut out, '\\');
        } else if c == '"' {
            push_char(&mut out, '\\');
            push_char(&mut out, '"');
        } else {
            push_char(&mut out, c);
        }
        assert(out@ =~= expand(value@.take(i + 1), f));
    }
    assert(value@.take(n as int) =~= value@);
    out
}

/// The character that AppleScript reads for a backslash followed by `c`.
pub open spec fn applescript_unescape(c: char) -> char {
    if c == 'n' {
        '\n'
    } else if c == 't' {
        '\t'
    } else if c == 'r' {
        '\r'
    } else {
        c
    }
}

/// Whether AppleScript knows the escape of a backslash followed by `c`:
/// `\\`, `\"`, `\n`, `\t` and `\r`; any other escape does not compile.
pub open spec fn is_known_escape(c: char) -> bool {
    c == '\\' || c == '"' || c == 'n' || c == 't' || c == 'r'
}

/// How AppleScript reads a string literal after its opening double quote:
/// gives the literal's text and what follows the closing quote, or `None`
/// when no closing quote comes or an unknown escape stops the script from
/// compiling.
pub open spec fn read_string_body(w: Seq<char>) -> Option<(Seq<char>, Seq<char>)>
    decreases w.len(),
{
    if w.len() == 0 {
        None
    } else if w[0] == '"' {
        Some((Seq::empty(), w.drop_first()))
    } else if w[0] == '\\' {
        if w.len() >= 2 && is_known_escape(w[1]) {
            match read_string_body(w.skip(2)) {
                Some((v, r)) => Some((seq![applescript_unescape(w[1])] + v, r)),
                None => None,
            }
        } else {
            None
        }
    } else {
        match read_string_body(w.drop_first()) {
            Some((v, r)) => Some((seq![w[0]] + v, r)),
            None => None,
        }
    }
}

/// Escaping leaves every character but backslash and double quote as it
/// is: text without either comes back unchanged.
pub proof fn applescript_escape_keeps_plain_text(s: Seq<char>)
    requires
        forall|i: int| 0 <= i < s.len() ==> s[i] != '\\' && s[i] != '"',
    ensures
        applescript_escaped(s) == s,
    decreases s.len(),
{
    if s.len() > 0 {
        let t = s.drop_last();
        assert forall|i: int| 0 <= i < t.len() implies t[i] != '\\' && t[i] != '"' by {
            assert(t[i] == s[i]);
        }
        applescript_escape_keeps_plain_text(t);
        assert(applescript_pieces()(s.last()) == seq![s.last()]);
        assert(t + seq![s.last()] =~= s);
    }
}

/// The number of backslashes and double quotes in `s`.
pub open spec fn count_special(s: Seq<char>) -> nat
    decreases s.len(),
{
    if s.len() == 0 {
        0
    } else {
        count_special(s.drop_last()) + (if s.last() == '\\' || s.last() == '"' {
            1nat
        } else {
            0nat
        })
    }
}

/// The escaped text is the text plus one character per backslash or
/// double quote in it.
pub proof fn applescript_escape_length(s: Seq<char>)
    ensures
        applescript_escaped(s).len() == s.len() + count_special(s),
    decreases s.len(),
{
    if s.len() > 0 {
        applescript_escape_length(s.drop_last());
        assert(applescript_pieces()(s.last()) == applescript_piece(s.last()));
    }
}

/// AppleScript reads escaped text followed by a double quote as a
/// literal holding exactly the unescaped text, ending at that quote.
pub proof fn applescript_escape_reads_back(s: Seq<char>, rest: Seq<char>)
    ensures
        read_string_body(applescript_escaped(s) + seq!['"'] + rest) == Some((s, rest)),
    decreases s.len(),
{
    let f = applescript_pieces();
    let w = applescript_escaped(s) + seq!['"'] + rest;
    if s.len() == 0 {
        assert(w =~= seq!['"'] + rest);
        assert(w.drop_first() =~= rest);
    } else {
        let c = s[0];
        let t = s.drop_first();
        let x = applescript_escaped(t) + seq!['"'] + rest;
        lemma_expand_first(s, f);
        assert(f(c) == applescript_piece(c));
        applescript_escape_reads_back(t, rest);
        assert(s =~= seq![c] + t);
        if c == '\\' || c == '"' {
            assert(w =~= seq!['\\', c] + x);
            assert(w.skip(2) =~= x);
            assert(is_known_escape(w[1]));
        } else {
            assert(w =~= seq![c] + x);
            assert(w.drop_first() =~= x);
        }
    }
}

} // verus!

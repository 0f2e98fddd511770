//! Building the command line handed to the shell.
//!
//! The caller's text is escaped with POSIX single-quote rules and embedded as
//! the `-c` argument of an invoked shell, so that the shell treats the whole
//! text as one opaque script.

use vstd::prelude::*;
use vstd::utf8::encode_utf8;

use crate::error::RashError;

verus! {

/// Characters that a POSIX shell treats specially in an unquoted word.
/// A text made only of other characters needs no quoting at all.
pub open spec fn is_special_char(c: char) -> bool {
    ||| c == '\n'
    ||| c == '\''
    ||| c == '|'
    ||| c == '&'
    ||| c == ';'
    ||| c == '<'
    ||| c == '>'
    ||| c == '('
    ||| c == ')'
    ||| c == '$'
    ||| c == '`'
    ||| c == '\\'
    ||| c == '"'
    ||| c == ' '
    ||| c == '\t'
    ||| c == '*'
    ||| c == '?'
    ||| c == '['
    ||| c == '#'
    ||| c == '~'
    ||| c == '='
    ||| c == '%'
}

pub open spec fn has_special_char(s: Seq<char>) -> bool {
    exists|i: int| 0 <= i < s.len() && is_special_char(#[trigger] s[i])
}

/// How one character of the original text reads inside a single-quoted span:
/// an embedded quote closes the span, appears backslash-escaped, and reopens
/// the span; every other character stands for itself.
pub open spec fn quoted_char(c: char) -> Seq<char> {
    if c == '\'' {
        seq!['\'', '\\', '\'', '\'']
    } else {
        seq![c]
    }
}

pub open spec fn quoted_body(s: Seq<char>) -> Seq<char>
    decreases s.len(),
{
    if s.len() == 0 {
        Seq::empty()
    } else {
        quoted_char(s[0]) + quoted_body(s.drop_first())
    }
}

/// The escaped form of the caller's text: empty text becomes a pair of
/// quotes, text without special characters is kept as it is, and any other
/// text is wrapped in single quotes with embedded quotes escaped.
pub open spec fn quote_spec(s: Seq<char>) -> Seq<char> {
    if s.len() == 0 {
        seq!['\'', '\'']
    } else if has_special_char(s) {
        seq!['\''] + quoted_body(s) + seq!['\'']
    } else {
        s
    }
}

/// Relies on shell_words::quote: empty input becomes `''`, input made only of
/// characters it does not consider special is returned unchanged, and any
/// other input is wrapped in single quotes with each embedded single quote
/// written as `'\''`.
#[verifier::external_body]
fn shell_quote(s: &str) -> (r: String)
    ensures
        r@ == quote_spec(s@),
{
    shell_words::quote(s).into_owned()
}

pub open spec fn bash_prefix() -> Seq<char> {
    "/usr/bin/env bash -c "@
}

/// The full command line: the escaped text addressed to an invoked shell.
pub open spec fn into_bash_command_spec(s: Seq<char>) -> Seq<char> {
    bash_prefix() + quote_spec(s)
}

pub fn into_bash_command(s: &str) -> (r: String)
    ensures
        r@ == into_bash_command_spec(s@),
{
    let quoted = shell_quote(s);
    let mut r = String::from_str("/usr/bin/env bash -c ");
    r.append(quoted.as_str());
    r
}

/// How a POSIX shell reads one word: an unquoted backslash makes the next
/// character literal, a single quote opens a span in which every character up
/// to the closing quote is literal, and any other special character would end
/// or alter the word, so the parse is refused.  `None` also stands for the
/// unterminated forms (and for a backslash-newline continuation, which this
/// model does not need).
pub open spec fn parse_word(s: Seq<char>) -> Option<Seq<char>>
    decreases s.len(),
{
    if s.len() == 0 {
        Some(Seq::empty())
    } else if s[0] == '\\' {
        if s.len() >= 2 && s[1] != '\n' {
            opt_prepend(seq![s[1]], parse_word(s.skip(2)))
        } else {
            None
        }
    } else if s[0] == '\'' {
        parse_quoted(s.drop_first())
    } else if is_special_char(s[0]) {
        None
    } else {
        opt_prepend(seq![s[0]], parse_word(s.drop_first()))
    }
}

/// The rest of a word after an opening single quote.
pub open spec fn parse_quoted(s: Seq<char>) -> Option<Seq<char>>
    decreases s.len(),
{
    if s.len() == 0 {
        None
    } else if s[0] == '\'' {
        parse_word(s.drop_first())
    } else {
        opt_prepend(seq![s[0]], parse_quoted(s.drop_first()))
    }
}

pub open spec fn opt_prepend(s: Seq<char>, o: Option<Seq<char>>) -> Option<Seq<char>> {
    match o {
        Some(t) => Some(s + t),
        None => None,
    }
}

proof fn lemma_parse_plain(s: Seq<char>, rest: Seq<char>)
    requires
        !has_special_char(s),
    ensures
        parse_word(s + rest) == opt_prepend(s, parse_word(rest)),
    decreases s.len(),
{
    if s.len() == 0 {
        assert(s + rest =~= rest);
        if parse_word(rest) is Some {
            assert(s + parse_word(rest)->Some_0 =~= parse_word(rest)->Some_0);
        }
    } else {
        let c = s[0];
        assert(!is_special_char(c));
        assert((s + rest)[0] == c);
        assert((s + rest).drop_first() =~= s.drop_first() + rest);
        assert(!has_special_char(s.drop_first())) by {
            assert(forall|i: int|
                0 <= i < s.drop_first().len() ==> #[trigger] s.drop_first()[i] == s[i + 1]);
        }
        lemma_parse_plain(s.drop_first(), rest);
        if parse_word(rest) is Some {
            let t = parse_word(rest)->Some_0;
            assert(seq![c] + (s.drop_first() + t) =~= s + t);
        }
    }
}

proof fn lemma_parse_quoted_body(s: Seq<char>, rest: Seq<char>)
    ensures
        parse_quoted(quoted_body(s) + rest) == opt_prepend(s, parse_quoted(rest)),
    decreases s.len(),
{
    if s.len() == 0 {
        assert(quoted_body(s) + rest =~= rest);
        if parse_quoted(rest) is Some {
            assert(s + parse_quoted(rest)->Some_0 =~= parse_quoted(rest)->Some_0);
        }
    } else {
        let c = s[0];
        let tail = s.drop_first();
        lemma_parse_quoted_body(tail, rest);
        assert(quoted_body(s) =~= quoted_char(c) + quoted_body(tail));
        if c == '\'' {
            // The body reads: close the span, a backslash-escaped quote, open
            // the span again, then the body of the rest.
            let t0 = quoted_body(s) + rest;
            assert(t0 =~= seq!['\'', '\\', '\'', '\''] + (quoted_body(tail) + rest));
            assert(t0.len() >= 4 && t0[0] == '\'');
            let t1 = t0.drop_first();
            assert(t1 =~= seq!['\\', '\'', '\''] + (quoted_body(tail) + rest));
            assert(t1[0] == '\\' && t1.len() >= 3 && t1[1] == '\'');
            let t2 = t1.skip(2);
            assert(t2 =~= seq!['\''] + (quoted_body(tail) + rest));
            assert(t2.len() >= 1 && t2[0] == '\'' && t2[0] != '\\');
            assert(t2.drop_first() =~= quoted_body(tail) + rest);
            assert(parse_quoted(t0) == parse_word(t1));
            assert(parse_word(t1) == opt_prepend(seq![t1[1]], parse_word(t1.skip(2))));
            assert(parse_word(t2) == parse_quoted(t2.drop_first()));
            assert(parse_quoted(t2.drop_first()) == opt_prepend(tail, parse_quoted(rest)));
            if parse_quoted(rest) is Some {
                let t = parse_quoted(rest)->Some_0;
                assert(parse_word(t2) == Some(tail + t));
                assert(seq!['\''] + (tail + t) =~= s + t);
                assert(parse_quoted(t0) == Some(s + t));
            } else {
                assert(parse_word(t2) == None::<Seq<char>>);
                assert(parse_quoted(t0) == None::<Seq<char>>);
            }
        } else {
            let t0 = quoted_body(s) + rest;
            assert(quoted_char(c) =~= seq![c]);
            assert(t0 =~= seq![c] + (quoted_body(tail) + rest));
            assert(t0.len() >= 1 && t0[0] == c && t0[0] != '\'');
            assert(t0.drop_first() =~= quoted_body(tail) + rest);
            assert(parse_quoted(t0) == opt_prepend(seq![c], parse_quoted(t0.drop_first())));
            if parse_quoted(rest) is Some {
                let t = parse_quoted(rest)->Some_0;
                assert(seq![c] + (tail + t) =~= s + t);
            }
        }
    }
}

/// The law of the escaping: for every text, the shell reads the quoted form
/// back as one single word whose value is exactly the original text.
pub proof fn lemma_quote_round_trip(s: Seq<char>)
    ensures
        parse_word(quote_spec(s)) == Some(s),
{
    if s.len() == 0 {
        let q = quote_spec(s);
        assert(q[0] == '\'');
        assert(q.drop_first() =~= seq!['\'']);
        assert(q.drop_first()[0] == '\'');
        assert(q.drop_first().drop_first() =~= Seq::<char>::empty());
        assert(Some(Seq::<char>::empty()) == Some(s));
    } else if has_special_char(s) {
        let q = quote_spec(s);
        assert(q =~= seq!['\''] + (quoted_body(s) + seq!['\'']));
        assert(q[0] == '\'');
        assert(q.drop_first() =~= quoted_body(s) + seq!['\'']);
        lemma_parse_quoted_body(s, seq!['\'']);
        assert(parse_quoted(seq!['\'']) == parse_word(Seq::<char>::empty())) by {
            assert(seq!['\''][0] == '\'');
            assert(seq!['\''].drop_first() =~= Seq::<char>::empty());
        }
        assert(s + Seq::<char>::empty() =~= s);
    } else {
        lemma_parse_plain(s, Seq::empty());
        assert(s + Seq::<char>::empty() =~= s);
    }
}

pub open spec fn has_nul_byte(b: Seq<u8>) -> bool {
    exists|i: int| 0 <= i < b.len() && #[trigger] b[i] == 0
}

pub open spec fn is_first_nul_byte(b: Seq<u8>, pos: int) -> bool {
    &&& 0 <= pos < b.len()
    &&& b[pos] == 0
    &&& forall|j: int| 0 <= j < pos ==> #[trigger] b[j] != 0
}

pub open spec fn has_nul_char(s: Seq<char>) -> bool {
    exists|i: int| 0 <= i < s.len() && #[trigger] s[i] == '\0'
}

proof fn lemma_encode_scalar_zero(c: char)
    ensures
        has_nul_byte(vstd::utf8::encode_scalar(c as u32)) <==> c == '\0',
{
    vstd::utf8::char_is_scalar(c);
    let u = c as u32;
    let bytes = vstd::utf8::encode_scalar(u);
    vstd::utf8::char_u32_cast(c, u);
    if vstd::utf8::has_width_1_encoding(u) {
        assert(bytes =~= seq![vstd::utf8::leading_byte_width_1(u)]);
        assert(((u & 0x7F) as u8 == 0) <==> u == 0) by (bit_vector)
            requires
                u <= 0x7F,
        ;
        if u == 0 {
            assert(bytes[0] == 0);
        }
    } else if vstd::utf8::has_width_2_encoding(u) {
        assert(bytes =~= seq![
            vstd::utf8::leading_byte_width_2(u),
            vstd::utf8::last_continuation_byte(u),
        ]);
        assert((0xC0 | ((u >> 6) & 0x1F) as u8) != 0) by (bit_vector);
        assert((0x80 | (u & 0x3F) as u8) != 0) by (bit_vector);
    } else if vstd::utf8::has_width_3_encoding(u) {
        assert(bytes =~= seq![
            vstd::utf8::leading_byte_width_3(u),
            vstd::utf8::second_last_continuation_byte(u),
            vstd::utf8::last_continuation_byte(u),
        ]);
        assert((0xE0 | ((u >> 12) & 0x0F) as u8) != 0) by (bit_vector);
        assert((0x80 | ((u >> 6) & 0x3F) as u8) != 0) by (bit_vector);
        assert((0x80 | (u & 0x3F) as u8) != 0) by (bit_vector);
    } else {
        assert(bytes =~= seq![
            vstd::utf8::leading_byte_width_4(u),
            vstd::utf8::third_last_continuation_byte(u),
            vstd::utf8::second_last_continuation_byte(u),
            vstd::utf8::last_continuation_byte(u),
        ]);
        assert((0xF0 | ((u >> 18) & 0x7) as u8) != 0) by (bit_vector);
        assert((0x80 | ((u >> 12) & 0x3F) as u8) != 0) by (bit_vector);
        assert((0x80 | ((u >> 6) & 0x3F) as u8) != 0) by (bit_vector);
        assert((0x80 | (u & 0x3F) as u8) != 0) by (bit_vector);
    }
}

proof fn lemma_has_nul_byte_concat(a: Seq<u8>, b: Seq<u8>)
    ensures
        has_nul_byte(a + b) <==> has_nul_byte(a) || has_nul_byte(b),
{
    if has_nul_byte(a) {
        let i = choose|i: int| 0 <= i < a.len() && a[i] == 0;
        assert((a + b)[i] == 0);
    }
    if has_nul_byte(b) {
        let i = choose|i: int| 0 <= i < b.len() && b[i] == 0;
        assert((a + b)[a.len() + i] == 0);
    }
    if has_nul_byte(a + b) {
        let i = choose|i: int| 0 <= i < (a + b).len() && (a + b)[i] == 0;
        if i < a.len() {
            assert(a[i] == 0);
        } else {
            assert(b[i - a.len()] == 0);
        }
    }
}

proof fn lemma_has_nul_char_concat(a: Seq<char>, b: Seq<char>)
    ensures
        has_nul_char(a + b) <==> has_nul_char(a) || has_nul_char(b),
{
    if has_nul_char(a) {
        let i = choose|i: int| 0 <= i < a.len() && a[i] == '\0';
        assert((a + b)[i] == '\0');
    }
    if has_nul_char(b) {
        let i = choose|i: int| 0 <= i < b.len() && b[i] == '\0';
        assert((a + b)[a.len() + i] == '\0');
    }
    if has_nul_char(a + b) {
        let i = choose|i: int| 0 <= i < (a + b).len() && (a + b)[i] == '\0';
        if i < a.len() {
            assert(a[i] == '\0');
        } else {
            assert(b[i - a.len()] == '\0');
        }
    }
}

/// A text's UTF-8 encoding holds a zero byte exactly when the text holds the
/// NUL character: no multi-byte encoding has a zero byte in it.
pub proof fn lemma_nul_byte_iff_nul_char(s: Seq<char>)
    ensures
        has_nul_byte(encode_utf8(s)) <==> has_nul_char(s),
    decreases s.len(),
{
    if s.len() == 0 {
    } else {
        let head = vstd::utf8::encode_scalar(s[0] as u32);
        let rest = encode_utf8(s.drop_first());
        assert(encode_utf8(s) =~= head + rest);
        lemma_encode_scalar_zero(s[0]);
        lemma_has_nul_byte_concat(head, rest);
        lemma_nul_byte_iff_nul_char(s.drop_first());
        assert(s =~= seq![s[0]] + s.drop_first());
        lemma_has_nul_char_concat(seq![s[0]], s.drop_first());
        assert(has_nul_char(seq![s[0]]) <==> s[0] == '\0') by {
            if s[0] == '\0' {
                assert(seq![s[0]][0] == '\0');
            }
        }
    }
}

proof fn lemma_quoted_body_nul(s: Seq<char>)
    ensures
        has_nul_char(quoted_body(s)) <==> has_nul_char(s),
    decreases s.len(),
{
    if s.len() == 0 {
    } else {
        let c = s[0];
        let tail = s.drop_first();
        lemma_quoted_body_nul(tail);
        lemma_has_nul_char_concat(quoted_char(c), quoted_body(tail));
        assert(has_nul_char(quoted_char(c)) <==> c == '\0') by {
            if c == '\0' {
                assert(quoted_char(c)[0] == '\0');
            }
        }
        assert(s =~= seq![c] + tail);
        lemma_has_nul_char_concat(seq![c], tail);
        assert(has_nul_char(seq![c]) <==> c == '\0') by {
            if c == '\0' {
                assert(seq![c][0] == '\0');
            }
        }
    }
}

proof fn lemma_quote_preserves_nul(s: Seq<char>)
    ensures
        has_nul_char(quote_spec(s)) <==> has_nul_char(s),
{
    if s.len() == 0 {
        assert(!has_nul_char(quote_spec(s))) by {
            assert(forall|i: int|
                0 <= i < quote_spec(s).len() ==> #[trigger] quote_spec(s)[i] == '\'');
        }
    } else if has_special_char(s) {
        lemma_quoted_body_nul(s);
        lemma_has_nul_char_concat(seq!['\''] + quoted_body(s), seq!['\'']);
        lemma_has_nul_char_concat(seq!['\''], quoted_body(s));
        assert(!has_nul_char(seq!['\'']));
        assert(!has_nul_char(seq!['\''] + quoted_body(s)) ==> !has_nul_char(quoted_body(s)));
    } else {
    }
}

proof fn lemma_bash_prefix_no_nul()
    ensures
        !has_nul_char(bash_prefix()),
{
    reveal_strlit("/usr/bin/env bash -c ");
    assert(forall|i: int| 0 <= i < bash_prefix().len() ==> #[trigger] bash_prefix()[i] != '\0');
}

/// The law of the NUL check: the built command line holds a NUL byte exactly
/// when the caller's text holds the NUL character, so `BashCommand::new`
/// accepts exactly the texts with no embedded NUL.
pub proof fn lemma_command_line_nul(s: Seq<char>)
    ensures
        has_nul_byte(encode_utf8(into_bash_command_spec(s))) <==> has_nul_char(s),
{
    lemma_nul_byte_iff_nul_char(into_bash_command_spec(s));
    lemma_bash_prefix_no_nul();
    lemma_has_nul_char_concat(bash_prefix(), quote_spec(s));
    lemma_quote_preserves_nul(s);
}

/// A full command line addressed to the shell: the caller's text, escaped and
/// embedded as the `-c` argument of an invoked shell.  Holds no NUL byte, so
/// it can be handed to the OS as a C-style string.
#[derive(Debug)]
pub struct BashCommand {
    text: String,
}

impl View for BashCommand {
    type V = Seq<char>;

    closed spec fn view(&self) -> Seq<char> {
        self.text@
    }
}

impl BashCommand {
    /// Escapes the caller's text and builds the command line, or fails with
    /// the byte offset of the first embedded NUL.
    pub fn new(s: &str) -> (r: Result<BashCommand, RashError>)
        ensures
            r is Ok <==> !has_nul_char(s@),
            r is Ok <==> !has_nul_byte(encode_utf8(into_bash_command_spec(s@))),
            r matches Ok(c) ==> c@ == into_bash_command_spec(s@),
            r matches Err(e) ==> (e matches RashError::NullByteInCommand { pos }
                && is_first_nul_byte(encode_utf8(into_bash_command_spec(s@)), pos as int)),
    {
        proof {
            lemma_command_line_nul(s@);
        }
        let text = into_bash_command(s);
        let bytes = text.as_str().as_bytes();
        let n: usize = bytes.len();
        let mut i: usize = 0;
        while i < n
            invariant
                n == bytes@.len(),
                bytes@ == encode_utf8(into_bash_command_spec(s@)),
                i <= n,
                forall|j: int| 0 <= j < i ==> #[trigger] bytes@[j] != 0,
            decreases n - i,
        {
            if bytes[i] == 0 {
                proof {
                    lemma_command_line_nul(s@);
                    assert(has_nul_byte(bytes@));
                }
                return Err(RashError::NullByteInCommand { pos: i });
            }
            i += 1;
        }
        Ok(BashCommand { text })
    }

    /// The full command line.
    pub fn command(&self) -> (r: String)
        ensures
            r@ == self@,
    {
        self.text.clone()
    }

    /// Addresses an already escaped text to the invoked shell.
    pub fn format(s: String) -> (r: String)
        ensures
            r@ == bash_prefix() + s@,
    {
        let mut r = String::from_str("/usr/bin/env bash -c ");
        r.append(s.as_str());
        r
    }

    /// The escaped form of the caller's text.
    pub fn quote(s: &str) -> (r: String)
        ensures
            r@ == quote_spec(s@),
    {
        shell_quote(s)
    }
}

} // verus!

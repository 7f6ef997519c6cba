use vstd::prelude::*;

verus! {

/// `String::push` appends one character.
pub assume_specification[ String::push ](s: &mut String, ch: char)
    ensures
        final(s)@ == old(s)@.push(ch),
;

/// How one character is written inside a JSON string.
pub open spec fn escaped_char(c: char) -> Seq<char> {
    if c == '"' {
        seq!['\\', '"']
    } else if c == '\\' {
        seq!['\\', '\\']
    } else if c == '\n' {
        seq!['\\', 'n']
    } else {
        seq![c]
    }
}

/// A text written inside a JSON string: quotes, backslashes and newlines are
/// escaped, everything else is kept.
pub open spec fn escaped(s: Seq<char>) -> Seq<char>
    decreases s.len(),
{
    if s.len() == 0 {
        seq![]
    } else {
        escaped(s.drop_last()) + escaped_char(s.last())
    }
}

/// The character a JSON string escape `\\c` stands for: the short escapes
/// of JSON (`\\"`, `\\\\`, `\\/`, `\\b`, `\\f`, `\\n`, `\\r`, `\\t`); after a
/// backslash any other character is read as itself.
pub open spec fn json_escape_value(c: char) -> char {
    if c == 'b' {
        '\u{8}'
    } else if c == 'f' {
        '\u{c}'
    } else if c == 'n' {
        '\n'
    } else if c == 'r' {
        '\r'
    } else if c == 't' {
        '\t'
    } else {
        c
    }
}

/// Reads the content of a JSON string back by the JSON escape rules.
pub open spec fn unescaped(t: Seq<char>) -> Seq<char>
    decreases t.len(),
{
    if t.len() == 0 {
        seq![]
    } else if t[0] == '\\' && t.len() >= 2 {
        seq![json_escape_value(t[1])] + unescaped(t.skip(2))
    } else {
        seq![t[0]] + unescaped(t.skip(1))
    }
}

/// Escaping works character by character.
pub proof fn lemma_escaped_concat(a: Seq<char>, b: Seq<char>)
    ensures
        escaped(a + b) == escaped(a) + escaped(b),
    decreases b.len(),
{
    if b.len() == 0 {
    } else {
        lemma_escaped_concat(a, b.drop_last());
        assert((a + b).drop_last() == a + b.drop_last());
    }
}

/// Escaping loses nothing: a JSON reader decoding the escaped text gives
/// back the input.
pub proof fn law_escape_round_trip(s: Seq<char>)
    ensures
        unescaped(escaped(s)) == s,
    decreases s.len(),
{
    if s.len() > 0 {
        let c = s[0];
        let rest = s.skip(1);
        assert(s == seq![c] + rest);
        lemma_escaped_concat(seq![c], rest);
        assert(seq![c].drop_last() == Seq::<char>::empty());
        assert(escaped(Seq::<char>::empty()) == Seq::<char>::empty());
        law_escape_round_trip(rest);
        let t = escaped(s);
        if c == '"' || c == '\\' || c == '\n' {
            assert(t.skip(2) == escaped(rest));
        } else {
            assert(t.skip(1) == escaped(rest));
        }
    }
}

/// Escaping touches only quotes, backslashes and newlines: any other
/// character is written as itself, so a text without those three characters
/// is written unchanged.
pub proof fn law_escape_keeps_plain_text(s: Seq<char>)
    requires
        forall|i: int| 0 <= i < s.len() ==> s[i] != '"' && s[i] != '\\' && s[i] != '\n',
    ensures
        escaped(s) == s,
    decreases s.len(),
{
    if s.len() > 0 {
        law_escape_keeps_plain_text(s.drop_last());
        assert(s.drop_last() + seq![s.last()] == s);
    }
}

/// An escaped text has no bare quote or newline: every quote and every
/// backslash in it is escaped, so it can stand between JSON quotes.
pub proof fn law_escape_has_no_bare_quote(s: Seq<char>)
    ensures
        forall|i: int| 0 <= i < escaped(s).len() ==> escaped(s)[i] != '\n',
        forall|i: int| #![trigger escaped(s)[i]] 0 <= i < escaped(s).len() && escaped(s)[i] == '"' ==> i > 0
            && escaped(s)[i - 1] == '\\',
    decreases s.len(),
{
    if s.len() > 0 {
        law_escape_has_no_bare_quote(s.drop_last());
        let e = escaped(s.drop_last());
        assert(escaped(s) == e + escaped_char(s.last()));
        assert forall|i: int| 0 <= i < escaped(s).len() implies escaped(s)[i] != '\n' by {
            if i >= e.len() {
                assert(escaped(s)[i] == escaped_char(s.last())[i - e.len()]);
            } else {
                assert(escaped(s)[i] == e[i]);
            }
        }
        assert forall|i: int| #![trigger escaped(s)[i]] 0 <= i < escaped(s).len() && escaped(s)[i] == '"'
            implies i > 0 && escaped(s)[i - 1] == '\\' by {
            if i >= e.len() {
                assert(escaped(s)[i] == escaped_char(s.last())[i - e.len()]);
                if i > e.len() {
                    assert(escaped(s)[i - 1] == escaped_char(s.last())[i - 1 - e.len()]);
                }
            } else {
                assert(escaped(s)[i] == e[i]);
                assert(escaped(s)[i - 1] == e[i - 1]);
            }
        }
    }
}

/// The characters of a string, in a vector.
pub fn chars_of(s: &str) -> (v: Vec<char>)
    ensures
        v@ == s@,
{
    broadcast use vstd::string::group_string_axioms;
    let mut v: Vec<char> = Vec::new();
    for c in it: s.chars()
        invariant
            v@ == it.seq().take(it.index()),
            it.seq() == s@,
    {
        v.push(c);
    }
    v
}

/// Minimal JSON string escaper (the only JSON the pet writes is widget text).
pub fn esc(s: &str) -> (out: String)
    ensures
        out@ == escaped(s@),
{
    let cs = chars_of(s);
    let mut out = String::new();
    let mut i: usize = 0;
    while i < cs.len()
        invariant
            i <= cs@.len(),
            out@ == escaped(cs@.subrange(0, i as int)),
        decreases cs.len() - i,
    {
        let c = cs[i];
        if c == '"' {
            out.push('\\');
            out.push('"');
        } else if c == '\\' {
            out.push('\\');
            out.push('\\');
        } else if c == '\n' {
            out.push('\\');
            out.push('n');
        } else {
            out.push(c);
        }
        assert(cs@.subrange(0, i + 1).drop_last() == cs@.subrange(0, i as int));
        i = i + 1;
    }
    assert(cs@.subrange(0, cs@.len() as int) == cs@);
    out
}

/// The decimal digit `d` (below ten) as a character.
pub open spec fn digit_char(d: nat) -> char {
    (d + 48) as char
}

/// `n` written in decimal, without leading zeros.
pub open spec fn decimal(n: nat) -> Seq<char>
    decreases n,
{
    if n < 10 {
        seq![digit_char(n)]
    } else {
        decimal(n / 10).push(digit_char(n % 10))
    }
}

/// A value in ten-thousandths written with exactly four decimals, as
/// `{:.4}` writes it: `850` is `0.0850`, `12345` is `1.2345`.
pub open spec fn fixed4(v: nat) -> Seq<char> {
    let r = v % 10000;
    decimal(v / 10000) + seq!['.', digit_char(r / 1000), digit_char((r / 100) % 10),
        digit_char((r / 10) % 10), digit_char(r % 10)]
}

fn digit(d: u32) -> (c: char)
    requires
        d < 10,
    ensures
        c == digit_char(d as nat),
{
    ((d + 48) as u8) as char
}

/// Appends `n` in decimal.
pub fn push_decimal(out: &mut String, n: u32)
    ensures
        final(out)@ == old(out)@ + decimal(n as nat),
    decreases n,
{
    if n >= 10 {
        push_decimal(out, n / 10);
    }
    out.push(digit(n % 10));
}

/// Appends a value in ten-thousandths with four decimals.
pub fn push_fixed4(out: &mut String, v: u32)
    ensures
        final(out)@ == old(out)@ + fixed4(v as nat),
{
    push_decimal(out, v / 10000);
    let r = v % 10000;
    out.push('.');
    out.push(digit(r / 1000));
    out.push(digit((r / 100) % 10));
    out.push(digit((r / 10) % 10));
    out.push(digit(r % 10));
}

} // verus!

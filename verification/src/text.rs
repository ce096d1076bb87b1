//! Verified text transformations used by the message rendering engine:
//! the default character escaping applied to messages before template
//! substitution, and the substitution of the `$(message)` placeholder.

use vstd::prelude::*;
use vstd::string::StrSliceExecFns;
use vstd::string::StringExecFns;

verus! {

/// Relies on `String::push`: appends exactly the given character.
pub assume_specification[ String::push ](s: &mut String, c: char)
    ensures
        final(s)@ == old(s)@.push(c),
;

/// The lowercase hexadecimal digit for `d < 16`.
pub open spec fn hex_digit(d: nat) -> char {
    if d == 0 {
        '0'
    } else if d == 1 {
        '1'
    } else if d == 2 {
        '2'
    } else if d == 3 {
        '3'
    } else if d == 4 {
        '4'
    } else if d == 5 {
        '5'
    } else if d == 6 {
        '6'
    } else if d == 7 {
        '7'
    } else if d == 8 {
        '8'
    } else if d == 9 {
        '9'
    } else if d == 10 {
        'a'
    } else if d == 11 {
        'b'
    } else if d == 12 {
        'c'
    } else if d == 13 {
        'd'
    } else if d == 14 {
        'e'
    } else {
        'f'
    }
}

/// The lowercase hexadecimal rendering of `n`, most significant digit first,
/// without leading zeros (`0` renders as "0").
pub open spec fn hex_digits(n: nat) -> Seq<char>
    decreases n,
{
    if n < 16 {
        seq![hex_digit(n)]
    } else {
        hex_digits(n / 16) + seq![hex_digit(n % 16)]
    }
}

/// Every character of a hexadecimal rendering is a digit or a lowercase
/// letter, hence printable and distinct from quote and control characters.
pub proof fn lemma_hex_digits_printable(n: nat)
    ensures
        forall|i: int|
            0 <= i < hex_digits(n).len() ==> 48 <= (#[trigger] hex_digits(n)[i]) as u32 <= 102,
    decreases n,
{
    if n < 16 {
        assert(hex_digits(n) == seq![hex_digit(n)]);
        assert(48 <= hex_digit(n) as u32 <= 102);
    } else {
        lemma_hex_digits_printable(n / 16);
        let head = hex_digits(n / 16);
        assert(hex_digits(n) == head + seq![hex_digit(n % 16)]);
        assert forall|i: int| 0 <= i < hex_digits(n).len() implies 48 <= (
        #[trigger] hex_digits(n)[i]) as u32 <= 102 by {
            if i < head.len() {
                assert(hex_digits(n)[i] == head[i]);
            } else {
                assert(hex_digits(n)[i] == hex_digit(n % 16));
            }
        }
    }
}

fn hex_char(d: u8) -> (c: char)
    requires
        d < 16,
    ensures
        c == hex_digit(d as nat),
{
    if d == 0 {
        '0'
    } else if d == 1 {
        '1'
    } else if d == 2 {
        '2'
    } else if d == 3 {
        '3'
    } else if d == 4 {
        '4'
    } else if d == 5 {
        '5'
    } else if d == 6 {
        '6'
    } else if d == 7 {
        '7'
    } else if d == 8 {
        '8'
    } else if d == 9 {
        '9'
    } else if d == 10 {
        'a'
    } else if d == 11 {
        'b'
    } else if d == 12 {
        'c'
    } else if d == 13 {
        'd'
    } else if d == 14 {
        'e'
    } else {
        'f'
    }
}

/// Append the hexadecimal rendering of `n` to `out`.
fn push_hex(out: &mut String, n: u32)
    ensures
        final(out)@ == old(out)@ + hex_digits(n as nat),
    decreases n,
{
    if n >= 16 {
        push_hex(out, n / 16);
    }
    out.push(hex_char((n % 16) as u8));
    proof {
        assert(final(out)@ =~= old(out)@ + hex_digits(n as nat));
    }
}

/// The escape of one character, as the default Rust character escape:
/// tab, carriage return, line feed, backslash and both quotes get a
/// backslash form; other printable ASCII stands for itself; everything
/// else becomes `\u{...}` with lowercase hexadecimal digits.
pub open spec fn escape_char(c: char) -> Seq<char> {
    if c == '\t' {
        seq!['\\', 't']
    } else if c == '\r' {
        seq!['\\', 'r']
    } else if c == '\n' {
        seq!['\\', 'n']
    } else if c == '\\' {
        seq!['\\', '\\']
    } else if c == '\'' {
        seq!['\\', '\'']
    } else if c == '"' {
        seq!['\\', '"']
    } else if 32 <= c as u32 && c as u32 <= 126 {
        seq![c]
    } else {
        seq!['\\', 'u', '{'] + hex_digits(c as nat) + seq!['}']
    }
}

/// The escape of a whole message: each character escaped in turn.
pub open spec fn escape_default_seq(s: Seq<char>) -> Seq<char>
    decreases s.len(),
{
    if s.len() == 0 {
        Seq::empty()
    } else {
        escape_char(s[0]) + escape_default_seq(s.drop_first())
    }
}

/// Append the escape of one character to `out`.
fn push_escaped_char(out: &mut String, c: char)
    ensures
        final(out)@ == old(out)@ + escape_char(c),
{
    let u = c as u32;
    if c == '\t' {
        out.push('\\');
        out.push('t');
    } else if c == '\r' {
        out.push('\\');
        out.push('r');
    } else if c == '\n' {
        out.push('\\');
        out.push('n');
    } else if c == '\\' {
        out.push('\\');
        out.push('\\');
    } else if c == '\'' {
        out.push('\\');
        out.push('\'');
    } else if c == '"' {
        out.push('\\');
        out.push('"');
    } else if 32 <= u && u <= 126 {
        out.push(c);
    } else {
        out.push('\\');
        out.push('u');
        out.push('{');
        push_hex(out, u);
        out.push('}');
        proof {
            assert(u as nat == c as nat);
        }
    }
    proof {
        assert(final(out)@ =~= old(out)@ + escape_char(c));
    }
}

/// Escape a message with the default Rust character escapes, so that its
/// control and quote characters appear only in escaped form.
pub fn escape_default(s: &str) -> (r: String)
    ensures
        r@ == escape_default_seq(s@),
{
    let n = s.unicode_len();
    let mut out = String::new();
    let mut i: usize = 0;
    proof {
        assert(s@.skip(0) =~= s@);
    }
    while i < n
        invariant
            n == s@.len(),
            i <= n,
            out@ + escape_default_seq(s@.skip(i as int)) =~= escape_default_seq(s@),
        decreases n - i,
    {
        let c = s.get_char(i);
        push_escaped_char(&mut out, c);
        proof {
            assert(s@.skip(i as int).drop_first() =~= s@.skip(i as int + 1));
            assert(out@ + escape_default_seq(s@.skip(i as int + 1)) =~= escape_default_seq(s@));
        }
        i += 1;
    }
    proof {
        assert(s@.skip(n as int) =~= Seq::<char>::empty());
    }
    out
}

/// The escape of one character: no control characters, it never starts with
/// a quote, and a quote inside it is always preceded by a backslash.
proof fn lemma_escape_char_specials(c: char)
    ensures
        forall|j: int|
            0 <= j < escape_char(c).len() ==> (#[trigger] escape_char(c)[j]) as u32 >= 32,
        escape_char(c)[0] != '"',
        forall|j: int|
            0 < j < escape_char(c).len() && (#[trigger] escape_char(c)[j]) == '"' ==> escape_char(
                c,
            )[j - 1] == '\\',
{
    if c == '\t' || c == '\r' || c == '\n' || c == '\\' || c == '\'' || c == '"' {
        assert(escape_char(c)[0] == '\\');
        assert(escape_char(c).len() == 2);
    } else if 32 <= c as u32 && c as u32 <= 126 {
        assert(escape_char(c) == seq![c]);
        assert(escape_char(c)[0] == c);
    } else {
        lemma_hex_digits_printable(c as nat);
        let pre = seq!['\\', 'u', '{'];
        let digits = hex_digits(c as nat);
        assert(escape_char(c) == pre + digits + seq!['}']);
        assert forall|j: int| 0 <= j < escape_char(c).len() implies (#[trigger] escape_char(c)[j])
            as u32 >= 32 && escape_char(c)[j] != '"' by {
            if j < 3 {
                assert(escape_char(c)[j] == pre[j]);
            } else if j < 3 + digits.len() {
                assert(escape_char(c)[j] == digits[j - 3]);
            } else {
                assert(escape_char(c)[j] == '}');
            }
        }
    }
}

/// An escaped message contains no raw control character at all, and no raw
/// quote character: every quote in it is part of an escape sequence,
/// immediately preceded by a backslash. It also never starts with a quote.
pub proof fn lemma_escape_no_raw_specials(s: Seq<char>)
    ensures
        forall|i: int|
            0 <= i < escape_default_seq(s).len() ==> (#[trigger] escape_default_seq(s)[i]) as u32
                >= 32,
        forall|i: int|
            0 <= i < escape_default_seq(s).len() && (#[trigger] escape_default_seq(s)[i]) == '"'
                ==> i > 0 && escape_default_seq(s)[i - 1] == '\\',
    decreases s.len(),
{
    if s.len() > 0 {
        lemma_escape_no_raw_specials(s.drop_first());
        lemma_escape_char_specials(s[0]);
        let head = escape_char(s[0]);
        let tail = escape_default_seq(s.drop_first());
        let whole = escape_default_seq(s);
        assert(whole == head + tail);
        assert forall|i: int| 0 <= i < whole.len() implies (#[trigger] whole[i]) as u32 >= 32 by {
            if i < head.len() {
                assert(whole[i] == head[i]);
            } else {
                assert(whole[i] == tail[i - head.len()]);
            }
        }
        assert forall|i: int| 0 <= i < whole.len() && (#[trigger] whole[i]) == '"' implies i > 0
            && whole[i - 1] == '\\' by {
            if i < head.len() {
                assert(whole[i] == head[i]);
                assert(i > 0);
                assert(whole[i - 1] == head[i - 1]);
            } else {
                assert(whole[i] == tail[i - head.len()]);
                assert(i - head.len() > 0);
                assert(whole[i - 1] == tail[i - head.len() - 1]);
            }
        }
    }
}

/// The placeholder that custom templates embed: the literal text
/// `$(message)`.
pub open spec fn marker() -> Seq<char> {
    seq!['$', '(', 'm', 'e', 's', 's', 'a', 'g', 'e', ')']
}

/// Replacement of every literal occurrence of a non-empty `needle` in `t` by
/// `r`, scanning left to right without overlap and without rescanning the
/// replacement text. An empty needle leaves the text unchanged.
pub open spec fn replace_seq(t: Seq<char>, needle: Seq<char>, r: Seq<char>) -> Seq<char>
    decreases t.len(),
{
    if needle.len() == 0 || t.len() < needle.len() {
        t
    } else if t.take(needle.len() as int) == needle {
        r + replace_seq(t.skip(needle.len() as int), needle, r)
    } else {
        seq![t[0]] + replace_seq(t.drop_first(), needle, r)
    }
}

/// Whether the placeholder occurs in `t` at position `i`.
fn marker_at(t: &str, i: usize, n: usize) -> (r: bool)
    requires
        i < n,
        n == t@.len(),
    ensures
        r == (i + marker().len() <= t@.len() && t@.skip(i as int).take(marker().len() as int)
            == marker()),
{
    if n - i < 10 {
        proof {
            assert(i + marker().len() > t@.len());
        }
        return false;
    }
    let found = t.get_char(i) == '$' && t.get_char(i + 1) == '(' && t.get_char(i + 2) == 'm'
        && t.get_char(i + 3) == 'e' && t.get_char(i + 4) == 's' && t.get_char(i + 5) == 's'
        && t.get_char(i + 6) == 'a' && t.get_char(i + 7) == 'g' && t.get_char(i + 8) == 'e'
        && t.get_char(i + 9) == ')';
    proof {
        let window = t@.skip(i as int).take(marker().len() as int);
        assert(forall|k: int| 0 <= k < 10 ==> #[trigger] window[k] == t@[i + k]);
        if found {
            assert(window =~= marker());
        } else {
            assert(window != marker());
        }
    }
    found
}

/// Replace every literal occurrence of the `$(message)` placeholder in
/// `template` by `replacement`.
pub fn replace_marker(template: &str, replacement: &str) -> (r: String)
    ensures
        r@ == replace_seq(template@, marker(), replacement@),
{
    let n = template.unicode_len();
    let mut out = String::new();
    let mut i: usize = 0;
    proof {
        assert(template@.skip(0) =~= template@);
    }
    while i < n
        invariant
            n == template@.len(),
            i <= n,
            out@ + replace_seq(template@.skip(i as int), marker(), replacement@) =~= replace_seq(
                template@,
                marker(),
                replacement@,
            ),
        decreases n - i,
    {
        let ghost rest = template@.skip(i as int);
        if marker_at(template, i, n) {
            out.append(replacement);
            proof {
                assert(rest.skip(marker().len() as int) =~= template@.skip(i as int + 10));
                assert(replace_seq(rest, marker(), replacement@) == replacement@ + replace_seq(
                    template@.skip(i as int + 10),
                    marker(),
                    replacement@,
                ));
                assert(out@ + replace_seq(template@.skip(i as int + 10), marker(), replacement@)
                    =~= replace_seq(template@, marker(), replacement@));
            }
            i += 10;
        } else {
            let c = template.get_char(i);
            out.push(c);
            proof {
                assert(rest.drop_first() =~= template@.skip(i as int + 1));
                if rest.len() < marker().len() {
                    assert(replace_seq(rest, marker(), replacement@) == rest);
                    assert(replace_seq(template@.skip(i as int + 1), marker(), replacement@)
                        == template@.skip(i as int + 1));
                    assert(rest =~= seq![rest[0]] + template@.skip(i as int + 1));
                } else {
                    assert(replace_seq(rest, marker(), replacement@) == seq![rest[0]]
                        + replace_seq(rest.drop_first(), marker(), replacement@));
                }
                assert(rest[0] == c);
                assert(out@ + replace_seq(template@.skip(i as int + 1), marker(), replacement@)
                    =~= replace_seq(template@, marker(), replacement@));
            }
            i += 1;
        }
    }
    proof {
        assert(template@.skip(n as int) =~= Seq::<char>::empty());
    }
    out
}

/// A template that contains no occurrence of the placeholder is left
/// unchanged by the substitution.
pub proof fn lemma_replace_no_marker(t: Seq<char>, r: Seq<char>)
    requires
        forall|i: int|
            0 <= i <= t.len() - marker().len() ==> #[trigger] t.skip(i).take(marker().len() as int)
                != marker(),
    ensures
        replace_seq(t, marker(), r) == t,
    decreases t.len(),
{
    if t.len() >= marker().len() {
        assert(t.skip(0).take(marker().len() as int) != marker());
        assert(t.skip(0) =~= t);
        assert(t.take(marker().len() as int) != marker());
        assert forall|i: int| 0 <= i <= t.drop_first().len() - marker().len() implies
            #[trigger] t.drop_first().skip(i).take(marker().len() as int) != marker() by {
            assert(t.drop_first().skip(i) =~= t.skip(i + 1));
        }
        lemma_replace_no_marker(t.drop_first(), r);
        assert(replace_seq(t, marker(), r) == seq![t[0]] + t.drop_first());
        assert(seq![t[0]] + t.drop_first() =~= t);
    }
}

/// Substitution replaces every literal occurrence of the placeholder and
/// no other text: where the template is a prefix without an occurrence,
/// then the placeholder, then a rest, the result is that prefix verbatim,
/// the replacement text, and the substituted rest.
pub proof fn lemma_replace_at_first_occurrence(a: Seq<char>, b: Seq<char>, r: Seq<char>)
    requires
        forall|i: int|
            0 <= i < a.len() ==> #[trigger] (a + marker() + b).skip(i).take(marker().len() as int)
                != marker(),
    ensures
        replace_seq(a + marker() + b, marker(), r) == a + r + replace_seq(b, marker(), r),
    decreases a.len(),
{
    let t = a + marker() + b;
    if a.len() == 0 {
        assert(t.take(marker().len() as int) =~= marker());
        assert(t.skip(marker().len() as int) =~= b);
        assert(replace_seq(t, marker(), r) == r + replace_seq(b, marker(), r));
        assert(a + r + replace_seq(b, marker(), r) =~= r + replace_seq(b, marker(), r));
    } else {
        assert(t.skip(0) =~= t);
        assert(t.take(marker().len() as int) != marker());
        assert(t.len() >= marker().len());
        assert(replace_seq(t, marker(), r) == seq![t[0]] + replace_seq(
            t.drop_first(),
            marker(),
            r,
        ));
        let a2 = a.drop_first();
        assert(t.drop_first() =~= a2 + marker() + b);
        assert forall|i: int| 0 <= i < a2.len() implies #[trigger] (a2 + marker() + b).skip(
            i,
        ).take(marker().len() as int) != marker() by {
            assert((a2 + marker() + b).skip(i) =~= t.skip(i + 1));
        }
        lemma_replace_at_first_occurrence(a2, b, r);
        assert(t[0] == a[0]);
        assert(seq![a[0]] + (a2 + r + replace_seq(b, marker(), r)) =~= a + r + replace_seq(
            b,
            marker(),
            r,
        ));
    }
}

/// Whether the character `c` occurs anywhere in `s`.
pub open spec fn contains_char(s: Seq<char>, c: char) -> bool {
    exists|j: int| 0 <= j < s.len() && s[j] == c
}

/// Every character of a substitution result occurs in the template or in the
/// replacement text: the substitution invents no characters of its own.
pub proof fn lemma_replace_chars_from_parts(t: Seq<char>, needle: Seq<char>, r: Seq<char>)
    ensures
        forall|i: int|
            0 <= i < replace_seq(t, needle, r).len() ==> contains_char(
                t,
                #[trigger] replace_seq(t, needle, r)[i],
            ) || contains_char(r, replace_seq(t, needle, r)[i]),
    decreases t.len(),
{
    let res = replace_seq(t, needle, r);
    if needle.len() == 0 || t.len() < needle.len() {
        assert forall|i: int| 0 <= i < res.len() implies contains_char(t, #[trigger] res[i])
            || contains_char(r, res[i]) by {
            assert(t[i] == res[i]);
        }
    } else if t.take(needle.len() as int) == needle {
        let rest = t.skip(needle.len() as int);
        lemma_replace_chars_from_parts(rest, needle, r);
        assert(res == r + replace_seq(rest, needle, r));
        assert forall|i: int| 0 <= i < res.len() implies contains_char(t, #[trigger] res[i])
            || contains_char(r, res[i]) by {
            if i < r.len() {
                assert(res[i] == r[i]);
            } else {
                let c = replace_seq(rest, needle, r)[i - r.len()];
                assert(res[i] == c);
                if contains_char(rest, c) {
                    let j = choose|j: int| 0 <= j < rest.len() && rest[j] == c;
                    assert(t[j + needle.len()] == c);
                }
            }
        }
    } else {
        let rest = t.drop_first();
        lemma_replace_chars_from_parts(rest, needle, r);
        assert(res == seq![t[0]] + replace_seq(rest, needle, r));
        assert forall|i: int| 0 <= i < res.len() implies contains_char(t, #[trigger] res[i])
            || contains_char(r, res[i]) by {
            if i == 0 {
                assert(res[0] == t[0]);
            } else {
                let c = replace_seq(rest, needle, r)[i - 1];
                assert(res[i] == c);
                if contains_char(rest, c) {
                    let j = choose|j: int| 0 <= j < rest.len() && rest[j] == c;
                    assert(t[j + 1] == c);
                }
            }
        }
    }
}

/// With escaping enabled, a raw control character can stand in a rendered
/// custom body only where the template text itself contains that character:
/// the escaped message contributes none.
pub proof fn lemma_escaped_body_controls_from_template(t: Seq<char>, msg: Seq<char>)
    ensures
        forall|i: int|
            0 <= i < replace_seq(t, marker(), escape_default_seq(msg)).len() && ((
            #[trigger] replace_seq(t, marker(), escape_default_seq(msg))[i]) as u32) < 32
                ==> contains_char(t, replace_seq(t, marker(), escape_default_seq(msg))[i]),
{
    let body = replace_seq(t, marker(), escape_default_seq(msg));
    let escaped = escape_default_seq(msg);
    lemma_replace_chars_from_parts(t, marker(), escaped);
    lemma_escape_no_raw_specials(msg);
    assert forall|i: int| 0 <= i < body.len() && ((#[trigger] body[i]) as u32) < 32 implies
        contains_char(t, body[i]) by {
        if contains_char(escaped, body[i]) {
            let k = choose|k: int| 0 <= k < escaped.len() && escaped[k] == body[i];
            assert(escaped[k] as u32 >= 32);
        }
    }
}

} // verus!

//! Escaping of interpolated content values.
//!
//! Every content value that a renderer interpolates into markup is treated as
//! data: HTML-escaped in element text and attributes, JSON-escaped inside the
//! JSON-LD script block. The JSON escape covers every control character below
//! U+0020 and `<`, so an escaped value is valid inside a JSON string and can
//! never terminate the enclosing script element. Both escapes are proved
//! invertible, so each encoding of the document still determines the original
//! value exactly.

use vstd::prelude::*;

verus! {

pub open spec fn amp_entity() -> Seq<char> {
    seq!['&', 'a', 'm', 'p', ';']
}

pub open spec fn lt_entity() -> Seq<char> {
    seq!['&', 'l', 't', ';']
}

pub open spec fn gt_entity() -> Seq<char> {
    seq!['&', 'g', 't', ';']
}

pub open spec fn quot_entity() -> Seq<char> {
    seq!['&', 'q', 'u', 'o', 't', ';']
}

/// The HTML escape of one character.
pub open spec fn escape_html_char(c: char) -> Seq<char> {
    if c == '&' {
        amp_entity()
    } else if c == '<' {
        lt_entity()
    } else if c == '>' {
        gt_entity()
    } else if c == '"' {
        quot_entity()
    } else {
        seq![c]
    }
}

/// The HTML escape of a text: `&`, `<`, `>` and `"` become character entities.
pub open spec fn escape_html(s: Seq<char>) -> Seq<char>
    decreases s.len(),
{
    if s.len() == 0 {
        Seq::empty()
    } else {
        escape_html_char(s[0]) + escape_html(s.drop_first())
    }
}

/// Reads an HTML-escaped text back: the left inverse of `escape_html`.
pub open spec fn unescape_html(s: Seq<char>) -> Seq<char>
    decreases s.len(),
{
    if s.len() == 0 {
        Seq::empty()
    } else if super::substring::has_prefix(s, amp_entity()) {
        seq!['&'] + unescape_html(s.skip(5))
    } else if super::substring::has_prefix(s, lt_entity()) {
        seq!['<'] + unescape_html(s.skip(4))
    } else if super::substring::has_prefix(s, gt_entity()) {
        seq!['>'] + unescape_html(s.skip(4))
    } else if super::substring::has_prefix(s, quot_entity()) {
        seq!['"'] + unescape_html(s.skip(6))
    } else {
        seq![s[0]] + unescape_html(s.drop_first())
    }
}

/// The sixteen hexadecimal digits, lower case; any value outside 0..16 maps
/// to `f`.
pub open spec fn hex_digit(n: int) -> char {
    if n == 0 {
        '0'
    } else if n == 1 {
        '1'
    } else if n == 2 {
        '2'
    } else if n == 3 {
        '3'
    } else if n == 4 {
        '4'
    } else if n == 5 {
        '5'
    } else if n == 6 {
        '6'
    } else if n == 7 {
        '7'
    } else if n == 8 {
        '8'
    } else if n == 9 {
        '9'
    } else if n == 10 {
        'a'
    } else if n == 11 {
        'b'
    } else if n == 12 {
        'c'
    } else if n == 13 {
        'd'
    } else if n == 14 {
        'e'
    } else {
        'f'
    }
}

/// The value of a lower-case hexadecimal digit; any other character maps to 0.
pub open spec fn hex_val(c: char) -> int {
    if c == '0' {
        0
    } else if c == '1' {
        1
    } else if c == '2' {
        2
    } else if c == '3' {
        3
    } else if c == '4' {
        4
    } else if c == '5' {
        5
    } else if c == '6' {
        6
    } else if c == '7' {
        7
    } else if c == '8' {
        8
    } else if c == '9' {
        9
    } else if c == 'a' {
        10
    } else if c == 'b' {
        11
    } else if c == 'c' {
        12
    } else if c == 'd' {
        13
    } else if c == 'e' {
        14
    } else if c == 'f' {
        15
    } else {
        0
    }
}

/// The six-character `\u00XX` escape of a code point below 0x100.
pub open spec fn u_escape(n: int) -> Seq<char> {
    seq!['\\', 'u', '0', '0', hex_digit(n / 16), hex_digit(n % 16)]
}

/// The JSON string escape of one character. Backslash, quote and the three
/// named control characters take their two-character escapes; every other
/// control character below U+0020 takes its `\u00XX` escape, as JSON
/// requires; `<` takes its own `\u003c` escape, so that no escaped value can open or close
/// a tag inside the script element that embeds the JSON-LD block.
pub open spec fn escape_json_char(c: char) -> Seq<char> {
    if c == '\\' {
        seq!['\\', '\\']
    } else if c == '"' {
        seq!['\\', '"']
    } else if c == '\n' {
        seq!['\\', 'n']
    } else if c == '\r' {
        seq!['\\', 'r']
    } else if c == '\t' {
        seq!['\\', 't']
    } else if (c as u32) < 0x20 {
        u_escape(c as int)
    } else if c == '<' {
        u_escape(0x3c)
    } else {
        seq![c]
    }
}

/// The JSON string escape of a text: backslash, quote and all control
/// characters become escapes, and `<` becomes its `\u003c` escape.
pub open spec fn escape_json(s: Seq<char>) -> Seq<char>
    decreases s.len(),
{
    if s.len() == 0 {
        Seq::empty()
    } else {
        escape_json_char(s[0]) + escape_json(s.drop_first())
    }
}

/// Reads a JSON-escaped text back: the left inverse of `escape_json`.
pub open spec fn unescape_json(s: Seq<char>) -> Seq<char>
    decreases s.len(),
{
    if s.len() == 0 {
        Seq::empty()
    } else if super::substring::has_prefix(s, seq!['\\', '\\']) {
        seq!['\\'] + unescape_json(s.skip(2))
    } else if super::substring::has_prefix(s, seq!['\\', '"']) {
        seq!['"'] + unescape_json(s.skip(2))
    } else if super::substring::has_prefix(s, seq!['\\', 'n']) {
        seq!['\n'] + unescape_json(s.skip(2))
    } else if super::substring::has_prefix(s, seq!['\\', 'r']) {
        seq!['\r'] + unescape_json(s.skip(2))
    } else if super::substring::has_prefix(s, seq!['\\', 't']) {
        seq!['\t'] + unescape_json(s.skip(2))
    } else if s.len() >= 6 && s[0] == '\\' && s[1] == 'u' && s[2] == '0' && s[3] == '0' {
        seq![(((16 * hex_val(s[4]) + hex_val(s[5])) as u32) as char)] + unescape_json(s.skip(6))
    } else {
        seq![s[0]] + unescape_json(s.drop_first())
    }
}

/// Escaping distributes over appending one character.
pub proof fn lemma_escape_html_push(t: Seq<char>, c: char)
    ensures
        escape_html(t.push(c)) == escape_html(t) + escape_html_char(c),
    decreases t.len(),
{
    if t.len() == 0 {
        assert(t.push(c).drop_first() =~= Seq::<char>::empty());
        assert(t.push(c)[0] == c);
        assert(escape_html(Seq::<char>::empty()) == Seq::<char>::empty());
        assert(escape_html(t.push(c)) == escape_html_char(c) + escape_html(
            t.push(c).drop_first(),
        ));
        assert(escape_html(t.push(c)) =~= escape_html(t) + escape_html_char(c));
    } else {
        lemma_escape_html_push(t.drop_first(), c);
        assert(t.push(c).drop_first() =~= t.drop_first().push(c));
        assert(t.push(c)[0] == t[0]);
        assert(escape_html(t.push(c)) == escape_html_char(t[0]) + (escape_html(t.drop_first())
            + escape_html_char(c)));
        assert(escape_html_char(t[0]) + (escape_html(t.drop_first()) + escape_html_char(c))
            =~= (escape_html_char(t[0]) + escape_html(t.drop_first())) + escape_html_char(c));
    }
}

/// Escaping distributes over appending one character.
pub proof fn lemma_escape_json_push(t: Seq<char>, c: char)
    ensures
        escape_json(t.push(c)) == escape_json(t) + escape_json_char(c),
    decreases t.len(),
{
    if t.len() == 0 {
        assert(t.push(c).drop_first() =~= Seq::<char>::empty());
        assert(t.push(c)[0] == c);
        assert(escape_json(Seq::<char>::empty()) == Seq::<char>::empty());
        assert(escape_json(t.push(c)) == escape_json_char(c) + escape_json(
            t.push(c).drop_first(),
        ));
        assert(escape_json(t.push(c)) =~= escape_json(t) + escape_json_char(c));
    } else {
        lemma_escape_json_push(t.drop_first(), c);
        assert(t.push(c).drop_first() =~= t.drop_first().push(c));
        assert(t.push(c)[0] == t[0]);
        assert(escape_json(t.push(c)) == escape_json_char(t[0]) + (escape_json(t.drop_first())
            + escape_json_char(c)));
        assert(escape_json_char(t[0]) + (escape_json(t.drop_first()) + escape_json_char(c))
            =~= (escape_json_char(t[0]) + escape_json(t.drop_first())) + escape_json_char(c));
    }
}

proof fn lemma_unescape_html_step(c: char, e: Seq<char>)
    ensures
        unescape_html(escape_html_char(c) + e) == seq![c] + unescape_html(e),
{
    let s = escape_html_char(c) + e;
    if c == '&' {
        assert(s.subrange(0, 5) =~= amp_entity());
        assert(s.skip(5) =~= e);
    } else if c == '<' {
        assert(s.subrange(0, 4) =~= lt_entity());
        assert(s.skip(4) =~= e);
        assert(!super::substring::has_prefix(s, amp_entity()));
    } else if c == '>' {
        assert(s.subrange(0, 4) =~= gt_entity());
        assert(s.skip(4) =~= e);
        assert(!super::substring::has_prefix(s, amp_entity()));
        assert(!super::substring::has_prefix(s, lt_entity()));
    } else if c == '"' {
        assert(s.subrange(0, 6) =~= quot_entity());
        assert(s.skip(6) =~= e);
        assert(!super::substring::has_prefix(s, amp_entity()));
        assert(!super::substring::has_prefix(s, lt_entity()));
        assert(!super::substring::has_prefix(s, gt_entity()));
    } else {
        assert(s[0] == c);
        assert(!super::substring::has_prefix(s, amp_entity()));
        assert(!super::substring::has_prefix(s, lt_entity()));
        assert(!super::substring::has_prefix(s, gt_entity()));
        assert(!super::substring::has_prefix(s, quot_entity()));
        assert(s.drop_first() =~= e);
    }
}

/// Reading a hexadecimal digit back gives the value it was written from.
proof fn lemma_hex_digit_val(n: int)
    requires
        0 <= n < 16,
    ensures
        hex_val(hex_digit(n)) == n,
{
}

/// Hexadecimal digits are neither `<` nor control characters.
proof fn lemma_hex_digit_safe(n: int)
    ensures
        hex_digit(n) != '<',
        hex_digit(n) as u32 >= 0x20,
{
}

proof fn lemma_unescape_json_step(c: char, e: Seq<char>)
    ensures
        unescape_json(escape_json_char(c) + e) == seq![c] + unescape_json(e),
{
    broadcast use vstd::utf8::char_u32_cast;

    let s = escape_json_char(c) + e;
    if c == '\\' {
        assert(s.subrange(0, 2) =~= seq!['\\', '\\']);
        assert(s.skip(2) =~= e);
    } else if c == '"' {
        assert(s.subrange(0, 2) =~= seq!['\\', '"']);
        assert(s.skip(2) =~= e);
        assert(!super::substring::has_prefix(s, seq!['\\', '\\']));
    } else if c == '\n' {
        assert(s.subrange(0, 2) =~= seq!['\\', 'n']);
        assert(s.skip(2) =~= e);
        assert(!super::substring::has_prefix(s, seq!['\\', '\\']));
        assert(!super::substring::has_prefix(s, seq!['\\', '"']));
    } else if c == '\r' {
        assert(s.subrange(0, 2) =~= seq!['\\', 'r']);
        assert(s.skip(2) =~= e);
        assert(!super::substring::has_prefix(s, seq!['\\', '\\']));
        assert(!super::substring::has_prefix(s, seq!['\\', '"']));
        assert(!super::substring::has_prefix(s, seq!['\\', 'n']));
    } else if c == '\t' {
        assert(s.subrange(0, 2) =~= seq!['\\', 't']);
        assert(s.skip(2) =~= e);
        assert(!super::substring::has_prefix(s, seq!['\\', '\\']));
        assert(!super::substring::has_prefix(s, seq!['\\', '"']));
        assert(!super::substring::has_prefix(s, seq!['\\', 'n']));
        assert(!super::substring::has_prefix(s, seq!['\\', 'r']));
    } else if (c as u32) < 0x20 {
        let n = c as int;
        assert(n == (c as u32) as int);
        assert(0 <= n < 0x20);
        assert(s == u_escape(n) + e);
        assert(s[0] == '\\' && s[1] == 'u' && s[2] == '0' && s[3] == '0');
        assert(!super::substring::has_prefix(s, seq!['\\', '\\']));
        assert(!super::substring::has_prefix(s, seq!['\\', '"']));
        assert(!super::substring::has_prefix(s, seq!['\\', 'n']));
        assert(!super::substring::has_prefix(s, seq!['\\', 'r']));
        assert(!super::substring::has_prefix(s, seq!['\\', 't']));
        assert(s[4] == hex_digit(n / 16) && s[5] == hex_digit(n % 16));
        lemma_hex_digit_val(n / 16);
        lemma_hex_digit_val(n % 16);
        assert(16 * hex_val(s[4]) + hex_val(s[5]) == n);
        assert((((16 * hex_val(s[4]) + hex_val(s[5])) as u32) as char) == c) by {
            assert((16 * hex_val(s[4]) + hex_val(s[5])) as u32 == c as u32);
        }
        assert(s.skip(6) =~= e);
    } else if c == '<' {
        assert(s == u_escape(0x3c) + e);
        assert(s[0] == '\\' && s[1] == 'u' && s[2] == '0' && s[3] == '0');
        assert(!super::substring::has_prefix(s, seq!['\\', '\\']));
        assert(!super::substring::has_prefix(s, seq!['\\', '"']));
        assert(!super::substring::has_prefix(s, seq!['\\', 'n']));
        assert(!super::substring::has_prefix(s, seq!['\\', 'r']));
        assert(!super::substring::has_prefix(s, seq!['\\', 't']));
        assert(s[4] == hex_digit(3) && s[5] == hex_digit(12));
        assert(16 * hex_val(s[4]) + hex_val(s[5]) == 0x3c);
        assert((((16 * hex_val(s[4]) + hex_val(s[5])) as u32) as char) == c) by {
            assert(c as u32 == 0x3c);
            assert((16 * hex_val(s[4]) + hex_val(s[5])) as u32 == c as u32);
        }
        assert(s.skip(6) =~= e);
    } else {
        assert(s[0] == c);
        assert(!super::substring::has_prefix(s, seq!['\\', '\\']));
        assert(!super::substring::has_prefix(s, seq!['\\', '"']));
        assert(!super::substring::has_prefix(s, seq!['\\', 'n']));
        assert(!super::substring::has_prefix(s, seq!['\\', 'r']));
        assert(!super::substring::has_prefix(s, seq!['\\', 't']));
        assert(s.drop_first() =~= e);
    }
}

/// HTML escaping loses nothing: reading the escape back gives the text again.
pub proof fn lemma_escape_html_round_trip(t: Seq<char>)
    ensures
        unescape_html(escape_html(t)) == t,
    decreases t.len(),
{
    if t.len() == 0 {
    } else {
        lemma_escape_html_round_trip(t.drop_first());
        lemma_unescape_html_step(t[0], escape_html(t.drop_first()));
        assert(seq![t[0]] + t.drop_first() =~= t);
    }
}

/// JSON escaping loses nothing: reading the escape back gives the text again.
pub proof fn lemma_escape_json_round_trip(t: Seq<char>)
    ensures
        unescape_json(escape_json(t)) == t,
    decreases t.len(),
{
    if t.len() == 0 {
    } else {
        lemma_escape_json_round_trip(t.drop_first());
        lemma_unescape_json_step(t[0], escape_json(t.drop_first()));
        assert(seq![t[0]] + t.drop_first() =~= t);
    }
}

/// The escape of one character holds no `<` and no control character.
proof fn lemma_escape_json_char_safe(c: char)
    ensures
        forall|i: int|
            0 <= i < escape_json_char(c).len() ==> (#[trigger] escape_json_char(c)[i]) != '<'
                && escape_json_char(c)[i] as u32 >= 0x20,
{
    lemma_hex_digit_safe((c as int) / 16);
    lemma_hex_digit_safe((c as int) % 16);
    lemma_hex_digit_safe(3);
    lemma_hex_digit_safe(12);
}

/// No character of a JSON-escaped value is `<` or a control character: an
/// escaped value can neither break the JSON string syntax nor open or close
/// a tag inside the script element that embeds it.
pub proof fn lemma_escape_json_script_safe(s: Seq<char>)
    ensures
        forall|i: int|
            0 <= i < escape_json(s).len() ==> (#[trigger] escape_json(s)[i]) != '<'
                && escape_json(s)[i] as u32 >= 0x20,
    decreases s.len(),
{
    if s.len() == 0 {
    } else {
        lemma_escape_json_script_safe(s.drop_first());
        lemma_escape_json_char_safe(s[0]);
        assert forall|i: int|
            0 <= i < escape_json(s).len() implies (#[trigger] escape_json(s)[i]) != '<'
            && escape_json(s)[i] as u32 >= 0x20 by {
            if i < escape_json_char(s[0]).len() {
                assert(escape_json(s)[i] == escape_json_char(s[0])[i]);
            } else {
                assert(escape_json(s)[i] == escape_json(s.drop_first())[i - escape_json_char(
                    s[0],
                ).len()]);
            }
        }
    }
}

/// Escaping never erases content: a non-empty text escapes to a non-empty text.
pub proof fn lemma_escape_json_nonempty(s: Seq<char>)
    requires
        s.len() > 0,
    ensures
        escape_json(s).len() > 0,
{
    assert(escape_json_char(s[0]).len() >= 1);
}

/// HTML-escapes a text for interpolation into element content or an attribute.
pub fn escape_html_text(s: &str) -> (r: String)
    ensures
        r@ == escape_html(s@),
{
    let n = s.unicode_len();
    let mut r = String::new();
    let mut i: usize = 0;
    while i < n
        invariant
            n == s@.len(),
            i <= n,
            r@ == escape_html(s@.take(i as int)),
        decreases n - i,
    {
        let c = s.get_char(i);
        proof {
            lemma_escape_html_push(s@.take(i as int), c);
            assert(s@.take(i as int).push(c) =~= s@.take(i + 1 as int));
        }
        if c == '&' {
            r.append("&amp;");
            proof {
                reveal_strlit("&amp;");
                assert("&amp;"@ =~= amp_entity());
            }
        } else if c == '<' {
            r.append("&lt;");
            proof {
                reveal_strlit("&lt;");
                assert("&lt;"@ =~= lt_entity());
            }
        } else if c == '>' {
            r.append("&gt;");
            proof {
                reveal_strlit("&gt;");
                assert("&gt;"@ =~= gt_entity());
            }
        } else if c == '"' {
            r.append("&quot;");
            proof {
                reveal_strlit("&quot;");
                assert("&quot;"@ =~= quot_entity());
            }
        } else {
            let one = s.substring_char(i, i + 1);
            r.append(one);
            proof {
                assert(one@ =~= seq![c]);
            }
        }
        i += 1;
    }
    proof {
        assert(s@.take(n as int) =~= s@);
    }
    r
}

/// JSON-escapes a text for interpolation into a JSON string value.
/// One lower-case hexadecimal digit as a string slice.
fn hex_digit_str(n: u8) -> (d: &'static str)
    requires
        n < 16,
    ensures
        d@ == seq![hex_digit(n as int)],
{
    proof {
        reveal_strlit("0");
        reveal_strlit("1");
        reveal_strlit("2");
        reveal_strlit("3");
        reveal_strlit("4");
        reveal_strlit("5");
        reveal_strlit("6");
        reveal_strlit("7");
        reveal_strlit("8");
        reveal_strlit("9");
        reveal_strlit("a");
        reveal_strlit("b");
        reveal_strlit("c");
        reveal_strlit("d");
        reveal_strlit("e");
        reveal_strlit("f");
    }
    if n == 0 {
        "0"
    } else if n == 1 {
        "1"
    } else if n == 2 {
        "2"
    } else if n == 3 {
        "3"
    } else if n == 4 {
        "4"
    } else if n == 5 {
        "5"
    } else if n == 6 {
        "6"
    } else if n == 7 {
        "7"
    } else if n == 8 {
        "8"
    } else if n == 9 {
        "9"
    } else if n == 10 {
        "a"
    } else if n == 11 {
        "b"
    } else if n == 12 {
        "c"
    } else if n == 13 {
        "d"
    } else if n == 14 {
        "e"
    } else {
        "f"
    }
}

pub fn escape_json_text(s: &str) -> (r: String)
    ensures
        r@ == escape_json(s@),
{
    let n = s.unicode_len();
    let mut r = String::new();
    let mut i: usize = 0;
    while i < n
        invariant
            n == s@.len(),
            i <= n,
            r@ == escape_json(s@.take(i as int)),
        decreases n - i,
    {
        let c = s.get_char(i);
        proof {
            lemma_escape_json_push(s@.take(i as int), c);
            assert(s@.take(i as int).push(c) =~= s@.take(i + 1 as int));
        }
        if c == '\\' {
            r.append("\\\\");
            proof {
                reveal_strlit("\\\\");
                assert("\\\\"@ =~= seq!['\\', '\\']);
            }
        } else if c == '"' {
            r.append("\\\"");
            proof {
                reveal_strlit("\\\"");
                assert("\\\""@ =~= seq!['\\', '"']);
            }
        } else if c == '\n' {
            r.append("\\n");
            proof {
                reveal_strlit("\\n");
                assert("\\n"@ =~= seq!['\\', 'n']);
            }
        } else if c == '\r' {
            r.append("\\r");
            proof {
                reveal_strlit("\\r");
                assert("\\r"@ =~= seq!['\\', 'r']);
            }
        } else if c == '\t' {
            r.append("\\t");
            proof {
                reveal_strlit("\\t");
                assert("\\t"@ =~= seq!['\\', 't']);
            }
        } else if (c as u32) < 0x20 {
            let c32 = c as u32;
            r.append("\\u00");
            let hi = hex_digit_str((c32 / 16) as u8);
            r.append(hi);
            let lo = hex_digit_str((c32 % 16) as u8);
            r.append(lo);
            proof {
                reveal_strlit("\\u00");
                assert("\\u00"@ =~= seq!['\\', 'u', '0', '0']);
                assert((c32 / 16) as int == (c as int) / 16);
                assert((c32 % 16) as int == (c as int) % 16);
                assert(("\\u00"@ + hi@) + lo@ =~= u_escape(c as int));
                assert(r@ =~= escape_json(s@.take(i as int)) + escape_json_char(c));
            }
        } else if c == '<' {
            r.append("\\u003c");
            proof {
                reveal_strlit("\\u003c");
                assert("\\u003c"@ =~= seq!['\\', 'u', '0', '0', '3', 'c']);
                assert(u_escape(0x3c) =~= seq!['\\', 'u', '0', '0', '3', 'c']);
            }
        } else {
            let one = s.substring_char(i, i + 1);
            r.append(one);
            proof {
                assert(one@ =~= seq![c]);
            }
        }
        i += 1;
    }
    proof {
        assert(s@.take(n as int) =~= s@);
    }
    r
}

} // verus!

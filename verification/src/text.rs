//! Text building blocks shared by the generators: decimal numbers, separated
//! lists, and the executable routines that append them to a `String`.

use vstd::prelude::*;
use vstd::string::*;

verus! {

/// The character that writes the single decimal digit `d`.
pub open spec fn digit_char(d: nat) -> char {
    if d == 0 {
        '0'
    } else if d == 1 {
        '1'
    } else if d == 2 {
        '2'
    } else if d == 3 {
        '3'
    } else if d == 4 {
        '4'
    } else if d == 5 {
        '5'
    } else if d == 6 {
        '6'
    } else if d == 7 {
        '7'
    } else if d == 8 {
        '8'
    } else {
        '9'
    }
}

/// `n` written in base ten, most significant digit first, without padding.
pub open spec fn decimal_text(n: nat) -> Seq<char>
    decreases n,
{
    if n < 10 {
        seq![digit_char(n)]
    } else {
        decimal_text(n / 10).push(digit_char(n % 10))
    }
}

/// `n` written in base ten, with a leading minus sign when it is negative.
pub open spec fn signed_decimal_text(n: int) -> Seq<char> {
    if n < 0 {
        seq!['-'] + decimal_text((-n) as nat)
    } else {
        decimal_text(n as nat)
    }
}

/// The items of a list written one after the other, with `sep` between each
/// two neighbours and nothing before the first or after the last.
pub open spec fn joined(items: Seq<Seq<char>>, sep: Seq<char>) -> Seq<char>
    decreases items.len(),
{
    if items.len() == 0 {
        Seq::empty()
    } else if items.len() == 1 {
        items[0]
    } else {
        joined(items.drop_last(), sep) + sep + items.last()
    }
}

/// The items of a list written one after the other with nothing between them.
pub open spec fn concatenated(items: Seq<Seq<char>>) -> Seq<char>
    decreases items.len(),
{
    if items.len() == 0 {
        Seq::empty()
    } else {
        concatenated(items.drop_last()) + items.last()
    }
}

/// Appending one more item to a separated list writes the separator first,
/// unless the list was empty.
pub proof fn lemma_joined_push(items: Seq<Seq<char>>, item: Seq<char>, sep: Seq<char>)
    ensures
        joined(items.push(item), sep) == if items.len() == 0 {
            item
        } else {
            joined(items, sep) + sep + item
        },
{
    let longer = items.push(item);
    assert(longer.drop_last() =~= items);
    assert(longer.last() == item);
}

/// A separated list of two items, written out.
pub proof fn lemma_joined_two(a: Seq<char>, b: Seq<char>, sep: Seq<char>)
    ensures
        joined(seq![a, b], sep) == a + sep + b,
{
    assert(seq![a, b] =~= seq![a].push(b));
    lemma_joined_push(seq![a], b, sep);
}

/// A separated list of three items, written out.
pub proof fn lemma_joined_three(a: Seq<char>, b: Seq<char>, c: Seq<char>, sep: Seq<char>)
    ensures
        joined(seq![a, b, c], sep) == a + sep + b + sep + c,
{
    assert(seq![a, b, c] =~= seq![a, b].push(c));
    lemma_joined_two(a, b, sep);
    lemma_joined_push(seq![a, b], c, sep);
}

/// A separated list of four items, written out.
pub proof fn lemma_joined_four(
    a: Seq<char>,
    b: Seq<char>,
    c: Seq<char>,
    d: Seq<char>,
    sep: Seq<char>,
)
    ensures
        joined(seq![a, b, c, d], sep) == a + sep + b + sep + c + sep + d,
{
    assert(seq![a, b, c, d] =~= seq![a, b, c].push(d));
    lemma_joined_three(a, b, c, sep);
    lemma_joined_push(seq![a, b, c], d, sep);
}

/// A separated list of five items, written out.
pub proof fn lemma_joined_five(
    a: Seq<char>,
    b: Seq<char>,
    c: Seq<char>,
    d: Seq<char>,
    e: Seq<char>,
    sep: Seq<char>,
)
    ensures
        joined(seq![a, b, c, d, e], sep) == a + sep + b + sep + c + sep + d + sep + e,
{
    assert(seq![a, b, c, d, e] =~= seq![a, b, c, d].push(e));
    lemma_joined_four(a, b, c, d, sep);
    lemma_joined_push(seq![a, b, c, d], e, sep);
}

/// Appending one more item to a concatenation appends its text.
pub proof fn lemma_concatenated_push(items: Seq<Seq<char>>, item: Seq<char>)
    ensures
        concatenated(items.push(item)) == concatenated(items) + item,
{
    let longer = items.push(item);
    assert(longer.drop_last() =~= items);
    assert(longer.last() == item);
}

/// The concatenation of two lists, one after the other, is the
/// concatenation of the first followed by that of the second.
pub proof fn lemma_concatenated_add(a: Seq<Seq<char>>, b: Seq<Seq<char>>)
    ensures
        concatenated(a + b) == concatenated(a) + concatenated(b),
    decreases b.len(),
{
    if b.len() == 0 {
        assert(a + b =~= a);
        assert(concatenated(a) + concatenated(b) =~= concatenated(a));
    } else {
        let front = b.drop_last();
        lemma_concatenated_add(a, front);
        assert((a + b).drop_last() =~= a + front);
        assert((a + b).last() == b.last());
        lemma_append_two(concatenated(a), concatenated(front), b.last());
    }
}

/// Writing one more item after a separated list that follows `base`: the
/// separator comes first, unless the list was empty.
pub proof fn lemma_joined_append(
    base: Seq<char>,
    items: Seq<Seq<char>>,
    sep: Seq<char>,
    item: Seq<char>,
)
    ensures
        base + joined(items.push(item), sep) == if items.len() == 0 {
            (base + joined(items, sep)) + item
        } else {
            ((base + joined(items, sep)) + sep) + item
        },
{
    lemma_joined_push(items, item, sep);
    if items.len() == 0 {
        assert(base + joined(items, sep) =~= base);
    } else {
        lemma_append_three(base, joined(items, sep), sep, item);
    }
}

/// Writing one more item after a concatenation that follows `base`.
pub proof fn lemma_concatenated_append(base: Seq<char>, items: Seq<Seq<char>>, item: Seq<char>)
    ensures
        base + concatenated(items.push(item)) == (base + concatenated(items)) + item,
{
    lemma_concatenated_push(items, item);
    lemma_append_two(base, concatenated(items), item);
}

/// Writing a second concatenation after a first that follows `base`.
pub proof fn lemma_concatenated_append_all(
    base: Seq<char>,
    items: Seq<Seq<char>>,
    more: Seq<Seq<char>>,
)
    ensures
        base + concatenated(items + more) == (base + concatenated(items)) + concatenated(more),
{
    lemma_concatenated_add(items, more);
    lemma_append_two(base, concatenated(items), concatenated(more));
}

/// Where the writing of a list after `base` begins and ends: before the
/// first item nothing is written, and the items up to the last are the
/// whole list.
pub proof fn lemma_written_by_items(base: Seq<char>, items: Seq<Seq<char>>, sep: Seq<char>)
    ensures
        base + concatenated(items.take(0)) == base,
        base + joined(items.take(0), sep) == base,
        items.take(items.len() as int) == items,
{
    assert(items.take(0) =~= Seq::empty());
    lemma_nothing_to_write(base, sep);
    assert(items.take(items.len() as int) =~= items);
}

/// Writing the next item of a concatenation after `base`: it is appended to
/// what the items before it have given.
pub proof fn lemma_concatenated_next(base: Seq<char>, items: Seq<Seq<char>>, n: int)
    requires
        0 <= n < items.len(),
    ensures
        base + concatenated(items.take(n + 1)) == (base + concatenated(items.take(n))) + items[n],
{
    assert(items.take(n + 1) =~= items.take(n).push(items[n]));
    lemma_concatenated_append(base, items.take(n), items[n]);
}

/// Writing the next item of a separated list after `base`: the first item
/// is appended as it is, every later item after a separator.
pub proof fn lemma_joined_next(base: Seq<char>, items: Seq<Seq<char>>, sep: Seq<char>, n: int)
    requires
        0 <= n < items.len(),
    ensures
        base + joined(items.take(n + 1), sep) == if n == 0 {
            (base + joined(items.take(n), sep)) + items[n]
        } else {
            ((base + joined(items.take(n), sep)) + sep) + items[n]
        },
{
    assert(items.take(n + 1) =~= items.take(n).push(items[n]));
    lemma_joined_append(base, items.take(n), sep, items[n]);
}

/// Nothing is written for an empty list, separated or not.
pub proof fn lemma_nothing_to_write(base: Seq<char>, sep: Seq<char>)
    ensures
        base + joined(Seq::empty(), sep) == base,
        base + concatenated(Seq::empty()) == base,
{
    assert(base + Seq::<char>::empty() =~= base);
}

/// Two texts that end alike and differ before the end are different.
pub proof fn lemma_same_ending(a: Seq<char>, b: Seq<char>, ending: Seq<char>)
    requires
        a != b,
    ensures
        a + ending != b + ending,
{
    if a + ending == b + ending {
        assert(a.len() == b.len()) by {
            assert((a + ending).len() == a.len() + ending.len());
            assert((b + ending).len() == b.len() + ending.len());
        }
        assert forall|i: int| 0 <= i < a.len() implies a[i] == b[i] by {
            assert((a + ending)[i] == a[i]);
            assert((b + ending)[i] == b[i]);
        }
        assert(a =~= b);
    }
}

/// A text written into nothing is the text itself.
pub proof fn lemma_empty_append(text: Seq<char>)
    ensures
        Seq::<char>::empty() + text == text,
{
    assert(Seq::<char>::empty() + text =~= text);
}

/// Appending two texts one after the other appends their concatenation.
pub proof fn lemma_append_two(s: Seq<char>, a: Seq<char>, b: Seq<char>)
    ensures
        (s + a) + b == s + (a + b),
{
    assert((s + a) + b =~= s + (a + b));
}

/// Appending three texts one after the other appends their concatenation.
pub proof fn lemma_append_three(s: Seq<char>, a: Seq<char>, b: Seq<char>, c: Seq<char>)
    ensures
        ((s + a) + b) + c == s + (a + b + c),
{
    lemma_append_two(s, a, b);
    lemma_append_two(s, a + b, c);
}

/// Appending four texts one after the other appends their concatenation.
pub proof fn lemma_append_four(s: Seq<char>, a: Seq<char>, b: Seq<char>, c: Seq<char>, d: Seq<char>)
    ensures
        (((s + a) + b) + c) + d == s + (a + b + c + d),
{
    lemma_append_three(s, a, b, c);
    lemma_append_two(s, a + b + c, d);
}

/// Appending five texts one after the other appends their concatenation.
pub proof fn lemma_append_five(
    s: Seq<char>,
    a: Seq<char>,
    b: Seq<char>,
    c: Seq<char>,
    d: Seq<char>,
    e: Seq<char>,
)
    ensures
        ((((s + a) + b) + c) + d) + e == s + (a + b + c + d + e),
{
    lemma_append_four(s, a, b, c, d);
    lemma_append_two(s, a + b + c + d, e);
}

/// Appending six texts one after the other appends their concatenation.
pub proof fn lemma_append_six(
    s: Seq<char>,
    a: Seq<char>,
    b: Seq<char>,
    c: Seq<char>,
    d: Seq<char>,
    e: Seq<char>,
    f: Seq<char>,
)
    ensures
        (((((s + a) + b) + c) + d) + e) + f == s + (a + b + c + d + e + f),
{
    lemma_append_five(s, a, b, c, d, e);
    lemma_append_two(s, a + b + c + d + e, f);
}

/// Appending seven texts one after the other appends their concatenation.
pub proof fn lemma_append_seven(
    s: Seq<char>,
    a: Seq<char>,
    b: Seq<char>,
    c: Seq<char>,
    d: Seq<char>,
    e: Seq<char>,
    f: Seq<char>,
    g: Seq<char>,
)
    ensures
        ((((((s + a) + b) + c) + d) + e) + f) + g == s + (a + b + c + d + e + f + g),
{
    lemma_append_six(s, a, b, c, d, e, f);
    lemma_append_two(s, a + b + c + d + e + f, g);
}

/// Appending eight texts one after the other appends their concatenation.
pub proof fn lemma_append_eight(
    s: Seq<char>,
    a: Seq<char>,
    b: Seq<char>,
    c: Seq<char>,
    d: Seq<char>,
    e: Seq<char>,
    f: Seq<char>,
    g: Seq<char>,
    h: Seq<char>,
)
    ensures
        (((((((s + a) + b) + c) + d) + e) + f) + g) + h == s + (a + b + c + d + e + f + g + h),
{
    lemma_append_seven(s, a, b, c, d, e, f, g);
    lemma_append_two(s, a + b + c + d + e + f + g, h);
}

/// Appending nine texts one after the other appends their concatenation.
pub proof fn lemma_append_nine(
    s: Seq<char>,
    a: Seq<char>,
    b: Seq<char>,
    c: Seq<char>,
    d: Seq<char>,
    e: Seq<char>,
    f: Seq<char>,
    g: Seq<char>,
    h: Seq<char>,
    i: Seq<char>,
)
    ensures
        ((((((((s + a) + b) + c) + d) + e) + f) + g) + h) + i == s + (
        a + b + c + d + e + f + g + h + i),
{
    lemma_append_eight(s, a, b, c, d, e, f, g, h);
    lemma_append_two(s, a + b + c + d + e + f + g + h, i);
}

/// Appending ten texts one after the other appends their concatenation.
pub proof fn lemma_append_ten(
    s: Seq<char>,
    a: Seq<char>,
    b: Seq<char>,
    c: Seq<char>,
    d: Seq<char>,
    e: Seq<char>,
    f: Seq<char>,
    g: Seq<char>,
    h: Seq<char>,
    i: Seq<char>,
    j: Seq<char>,
)
    ensures
        (((((((((s + a) + b) + c) + d) + e) + f) + g) + h) + i) + j == s + (
        a + b + c + d + e + f + g + h + i + j),
{
    lemma_append_nine(s, a, b, c, d, e, f, g, h, i);
    lemma_append_two(s, a + b + c + d + e + f + g + h + i, j);
}

/// The one-character string that writes the digit `d`.
fn digit_str(d: u64) -> (r: &'static str)
    requires
        d < 10,
    ensures
        r@ == seq![digit_char(d as nat)],
{
    proof {
        reveal_strlit("0");
        reveal_strlit("1");
        reveal_strlit("2");
        reveal_strlit("3");
        reveal_strlit("4");
        reveal_strlit("5");
        reveal_strlit("6");
        reveal_strlit("7");
        reveal_strlit("8");
        reveal_strlit("9");
    }
    let r = if d == 0 {
        "0"
    } else if d == 1 {
        "1"
    } else if d == 2 {
        "2"
    } else if d == 3 {
        "3"
    } else if d == 4 {
        "4"
    } else if d == 5 {
        "5"
    } else if d == 6 {
        "6"
    } else if d == 7 {
        "7"
    } else if d == 8 {
        "8"
    } else {
        "9"
    };
    assert(r@ =~= seq![digit_char(d as nat)]);
    r
}

/// Appends `n` in base ten to `out`.
pub fn write_decimal(out: &mut String, n: u64)
    ensures
        final(out)@ == old(out)@ + decimal_text(n as nat),
    decreases n,
{
    if n >= 10 {
        write_decimal(out, n / 10);
    }
    out.append(digit_str(n % 10));
    proof {
        if n >= 10 {
            let front = decimal_text((n / 10) as nat);
            let digit = digit_char((n % 10) as nat);
            lemma_append_two(old(out)@, front, seq![digit]);
            assert(front + seq![digit] =~= front.push(digit));
        }
    }
}

/// Appends `n` in base ten to `out`, with a minus sign when it is negative.
pub fn write_signed_decimal(out: &mut String, n: i32)
    ensures
        final(out)@ == old(out)@ + signed_decimal_text(n as int),
{
    let wide: i64 = n as i64;
    if wide < 0 {
        out.append("-");
        write_decimal(out, (-wide) as u64);
        proof {
            reveal_strlit("-");
            assert("-"@ =~= seq!['-']);
            lemma_append_two(old(out)@, seq!['-'], decimal_text((-n) as nat));
        }
    } else {
        write_decimal(out, wide as u64);
    }
}

} // verus!

//! Text forms: numbers in decimal and hexadecimal, IPv4 and IPv6 addresses,
//! and byte strings read as UTF-8.

use vstd::prelude::*;
use vstd::utf8::{decode_utf8, valid_utf8};

verus! {

/// The character that stands for one digit below sixteen: `0` to `9`, then
/// `a` to `f`.
pub open spec fn digit_char(digit: nat) -> char {
    if digit < 10 {
        (0x30 + digit) as char
    } else {
        (0x57 + digit) as char
    }
}

/// `value` in decimal: most significant digit first, no leading zeros.
pub open spec fn decimal(value: nat) -> Seq<char>
    decreases value,
{
    if value < 10 {
        seq![digit_char(value)]
    } else {
        decimal(value / 10).push(digit_char(value % 10))
    }
}

/// `value` in lower-case hexadecimal: most significant digit first, no leading
/// zeros.
pub open spec fn hexadecimal(value: nat) -> Seq<char>
    decreases value,
{
    if value < 16 {
        seq![digit_char(value)]
    } else {
        hexadecimal(value / 16).push(digit_char(value % 16))
    }
}

/// Appends one character to a string: `String::push` of the standard library,
/// which adds `c` at the end and changes nothing else.
#[verifier::external_body]
pub(crate) fn push_char(text: &mut String, c: char)
    ensures
        final(text)@ == old(text)@.push(c),
{
    text.push(c)
}

/// Reads bytes as UTF-8: `std::str::from_utf8`, which yields a string exactly
/// when the bytes are well-formed UTF-8, and then the string that they encode.
#[verifier::external_body]
pub(crate) fn utf8_text(bytes: &[u8]) -> (text: Option<&str>)
    ensures
        text is Some <==> valid_utf8(bytes@),
        text matches Some(s) ==> s@ == decode_utf8(bytes@),
{
    match std::str::from_utf8(bytes) {
        Ok(text) => Some(text),
        Err(_) => None,
    }
}

fn digit(value: u16) -> (c: char)
    requires
        value < 16,
    ensures
        c == digit_char(value as nat),
{
    if value < 10 {
        (0x30u8 + value as u8) as char
    } else {
        (0x57u8 + value as u8) as char
    }
}

/// Appends `value` in decimal to `text`.
pub fn push_decimal(text: &mut String, value: u16)
    ensures
        final(text)@ == old(text)@ + decimal(value as nat),
    decreases value,
{
    if value >= 10 {
        push_decimal(text, value / 10);
    }
    push_char(text, digit(value % 10));
}

/// Appends `value` in lower-case hexadecimal to `text`.
pub fn push_hexadecimal(text: &mut String, value: u16)
    ensures
        final(text)@ == old(text)@ + hexadecimal(value as nat),
    decreases value,
{
    if value >= 16 {
        push_hexadecimal(text, value / 16);
    }
    push_char(text, digit(value % 16));
}

/// An IPv4 address in dotted decimal; `address` holds its four bytes.
pub open spec fn ipv4_text(address: Seq<u8>) -> Seq<char> {
    decimal(address[0] as nat) + seq!['.'] + decimal(address[1] as nat) + seq!['.'] + decimal(
        address[2] as nat,
    ) + seq!['.'] + decimal(address[3] as nat)
}

/// The eight 16-bit groups of an IPv6 address of sixteen bytes, each group
/// big-endian.
pub open spec fn ipv6_groups(address: Seq<u8>) -> Seq<u16> {
    Seq::new(8, |i: int| (address[2 * i] * 256 + address[2 * i + 1]) as u16)
}

/// The groups in hexadecimal, separated by colons.
pub open spec fn groups_text(groups: Seq<u16>) -> Seq<char>
    decreases groups.len(),
{
    if groups.len() == 0 {
        Seq::empty()
    } else if groups.len() == 1 {
        hexadecimal(groups[0] as nat)
    } else {
        groups_text(groups.drop_last()) + seq![':'] + hexadecimal(groups.last() as nat)
    }
}

/// How many groups in a row are zero, counted from position `from`.
pub open spec fn zero_run(groups: Seq<u16>, from: int) -> nat
    decreases groups.len() - from,
{
    if 0 <= from < groups.len() && groups[from] == 0 {
        1 + zero_run(groups, from + 1)
    } else {
        0
    }
}

/// Where, at or after `from`, the longest run of zero groups starts: the
/// leftmost such position if several runs are equally long.
pub open spec fn longest_zero_run(groups: Seq<u16>, from: int) -> int
    decreases groups.len() - from,
{
    if from >= groups.len() {
        from
    } else {
        let later = longest_zero_run(groups, from + 1);
        if zero_run(groups, from) >= zero_run(groups, later) {
            from
        } else {
            later
        }
    }
}

/// Whether the groups are those of an IPv4-mapped address, `::ffff:a.b.c.d`.
pub open spec fn is_ipv4_mapped(groups: Seq<u16>) -> bool {
    groups[0] == 0 && groups[1] == 0 && groups[2] == 0 && groups[3] == 0 && groups[4] == 0
        && groups[5] == 0xffff
}

/// The text form of an IPv6 address of sixteen bytes: groups in hexadecimal
/// without leading zeros; the longest run of two or more zero groups, the
/// leftmost of equals, shortened to `::`; an IPv4-mapped address with its last
/// four bytes in dotted decimal.
pub open spec fn ipv6_text(address: Seq<u8>) -> Seq<char> {
    let groups = ipv6_groups(address);
    let start = longest_zero_run(groups, 0);
    let length = zero_run(groups, start);
    if is_ipv4_mapped(groups) {
        seq![':', ':', 'f', 'f', 'f', 'f', ':'] + ipv4_text(address.subrange(12, 16))
    } else if length >= 2 {
        groups_text(groups.take(start)) + seq![':', ':'] + groups_text(
            groups.skip(start + length),
        )
    } else {
        groups_text(groups)
    }
}

/// Appends the dotted-decimal form of the four bytes at `address[at..at + 4]`.
fn push_dotted(text: &mut String, address: &[u8], at: usize)
    requires
        at + 4 <= address@.len(),
    ensures
        final(text)@ == old(text)@ + ipv4_text(address@.subrange(at as int, at + 4)),
{
    push_decimal(text, address[at] as u16);
    push_char(text, '.');
    push_decimal(text, address[at + 1] as u16);
    push_char(text, '.');
    push_decimal(text, address[at + 2] as u16);
    push_char(text, '.');
    push_decimal(text, address[at + 3] as u16);
}

/// Appends an IPv4 address of four bytes in dotted decimal.
pub fn push_ipv4(text: &mut String, address: &[u8])
    requires
        address@.len() == 4,
    ensures
        final(text)@ == old(text)@ + ipv4_text(address@),
{
    push_dotted(text, address, 0)
}

fn groups_of(address: &[u8]) -> (groups: Vec<u16>)
    requires
        address@.len() == 16,
    ensures
        groups@ == ipv6_groups(address@),
{
    let mut groups: Vec<u16> = Vec::new();
    let mut i: usize = 0;
    while i < 8
        invariant
            i <= 8,
            address@.len() == 16,
            groups@.len() == i,
            forall|k: int| 0 <= k < i ==> groups@[k] == ipv6_groups(address@)[k],
        decreases 8 - i,
    {
        groups.push(address[2 * i] as u16 * 256 + address[2 * i + 1] as u16);
        i += 1;
    }
    groups
}

/// Finds the leftmost longest run of zero groups: where it starts and how long
/// it is.
fn find_zero_run(groups: &Vec<u16>) -> (run: (usize, usize))
    ensures
        run.0 == longest_zero_run(groups@, 0),
        run.1 == zero_run(groups@, run.0 as int),
        run.0 + run.1 <= groups@.len(),
{
    let mut i: usize = groups.len();
    let mut current: usize = 0;
    let mut start: usize = i;
    let mut length: usize = 0;
    while i > 0
        invariant
            i <= groups@.len() <= usize::MAX,
            current == zero_run(groups@, i as int),
            current <= groups@.len() - i,
            start + length <= groups@.len(),
            start == longest_zero_run(groups@, i as int),
            length == zero_run(groups@, start as int),
        decreases i,
    {
        i -= 1;
        current = if groups[i] == 0 {
            current + 1
        } else {
            0
        };
        if current >= length {
            start = i;
            length = current;
        }
    }
    (start, length)
}

/// Appends the groups at `groups[from..to]` in hexadecimal, separated by colons.
fn push_groups(text: &mut String, groups: &Vec<u16>, from: usize, to: usize)
    requires
        from <= to <= groups@.len(),
    ensures
        final(text)@ == old(text)@ + groups_text(groups@.subrange(from as int, to as int)),
{
    let mut i: usize = from;
    while i < to
        invariant
            from <= i <= to <= groups@.len(),
            text@ == old(text)@ + groups_text(groups@.subrange(from as int, i as int)),
        decreases to - i,
    {
        if i > from {
            push_char(text, ':');
        }
        push_hexadecimal(text, groups[i]);
        proof {
            let next = groups@.subrange(from as int, i + 1);
            assert(next.drop_last() =~= groups@.subrange(from as int, i as int));
        }
        i += 1;
    }
}

/// Appends an IPv6 address of sixteen bytes in its text form.
pub fn push_ipv6(text: &mut String, address: &[u8])
    requires
        address@.len() == 16,
    ensures
        final(text)@ == old(text)@ + ipv6_text(address@),
{
    let groups = groups_of(address);
    if groups[0] == 0 && groups[1] == 0 && groups[2] == 0 && groups[3] == 0 && groups[4] == 0
        && groups[5] == 0xffff {
        push_char(text, ':');
        push_char(text, ':');
        push_char(text, 'f');
        push_char(text, 'f');
        push_char(text, 'f');
        push_char(text, 'f');
        push_char(text, ':');
        push_dotted(text, address, 12);
        return ;
    }
    let (start, length) = find_zero_run(&groups);
    if length >= 2 {
        push_groups(text, &groups, 0, start);
        push_char(text, ':');
        push_char(text, ':');
        push_groups(text, &groups, start + length, 8);
    } else {
        assert(groups@.subrange(0, 8) =~= groups@);
        push_groups(text, &groups, 0, 8);
    }
}

/// The pieces that `separator` cuts `text` into, in order. There is always
/// one piece more than there are separators, and a piece may be empty.
pub open spec fn fields(text: Seq<char>, separator: char) -> Seq<Seq<char>>
    decreases text.len(),
{
    if text.len() == 0 {
        seq![Seq::empty()]
    } else {
        let before = fields(text.drop_last(), separator);
        if text.last() == separator {
            before.push(Seq::empty())
        } else {
            before.drop_last().push(before.last().push(text.last()))
        }
    }
}

/// What each of the strings holds.
pub open spec fn texts(strings: Seq<String>) -> Seq<Seq<char>> {
    strings.map_values(|string: String| string@)
}

/// Cuts `text` at each `separator`.
pub fn split(text: &str, separator: char) -> (pieces: Vec<String>)
    ensures
        texts(pieces@) == fields(text@, separator),
{
    let mut pieces: Vec<String> = Vec::new();
    let mut current = String::new();
    for c in it: text.chars()
        invariant
            it.seq() == text@,
            texts(pieces@).push(current@) == fields(text@.take(it.index() as int), separator),
    {
        proof {
            assert(text@.take(it.index() + 1).drop_last() =~= text@.take(it.index() as int));
        }
        if c == separator {
            pieces.push(current);
            current = String::new();
        } else {
            push_char(&mut current, c);
        }
    }
    proof {
        assert(text@.take(text@.len() as int) =~= text@);
    }
    pieces.push(current);
    pieces
}

/// The value of a digit character, the other way round from [`digit_char`].
pub open spec fn digit_value(c: char) -> nat {
    if c as nat <= 0x39 {
        (c as nat - 0x30) as nat
    } else {
        (c as nat - 0x57) as nat
    }
}

/// The number that `digits` stand for in `base`, most significant digit first.
pub open spec fn number(digits: Seq<char>, base: nat) -> nat
    decreases digits.len(),
{
    if digits.len() == 0 {
        0
    } else {
        number(digits.drop_last(), base) * base + digit_value(digits.last())
    }
}

/// The decimal form of a number reads back as that number. It is made of the
/// digits `0` to `9` and starts with `0` only where the number is zero.
pub proof fn law_decimal_reads_back(value: nat)
    ensures
        number(decimal(value), 10) == value,
        decimal(value).len() >= 1,
        forall|i: int| 0 <= i < decimal(value).len() ==> '0' <= #[trigger] decimal(value)[i] <= '9',
        decimal(value)[0] == '0' <==> value == 0,
    decreases value,
{
    if value < 10 {
        assert(decimal(value).drop_last() =~= Seq::<char>::empty());
        assert(number(Seq::<char>::empty(), 10) == 0);
    } else {
        law_decimal_reads_back(value / 10);
        assert(decimal(value).drop_last() =~= decimal(value / 10));
    }
}

/// The hexadecimal form of a number reads back as that number. It is made of
/// the digits `0` to `9` and `a` to `f` and starts with `0` only where the
/// number is zero.
pub proof fn law_hexadecimal_reads_back(value: nat)
    ensures
        number(hexadecimal(value), 16) == value,
        hexadecimal(value).len() >= 1,
        forall|i: int|
            0 <= i < hexadecimal(value).len() ==> {
                let c = #[trigger] hexadecimal(value)[i];
                '0' <= c <= '9' || 'a' <= c <= 'f'
            },
        hexadecimal(value)[0] == '0' <==> value == 0,
    decreases value,
{
    if value < 16 {
        assert(hexadecimal(value).drop_last() =~= Seq::<char>::empty());
        assert(number(Seq::<char>::empty(), 16) == 0);
    } else {
        law_hexadecimal_reads_back(value / 16);
        assert(hexadecimal(value).drop_last() =~= hexadecimal(value / 16));
    }
}

/// No run of zero groups is longer than the one that [`longest_zero_run`]
/// finds, and every run that starts to the left of it is shorter.
pub proof fn law_longest_zero_run(groups: Seq<u16>, from: int, at: int)
    requires
        0 <= from <= at < groups.len(),
    ensures
        from <= longest_zero_run(groups, from) < groups.len(),
        zero_run(groups, at) <= zero_run(groups, longest_zero_run(groups, from)),
        at < longest_zero_run(groups, from) ==> zero_run(groups, at) < zero_run(
            groups,
            longest_zero_run(groups, from),
        ),
    decreases groups.len() - from,
{
    if from + 1 < groups.len() {
        law_longest_zero_run(groups, from + 1, if at == from { from + 1 } else { at });
    } else {
        assert(longest_zero_run(groups, from + 1) == from + 1);
    }
}

/// The pieces put together again, with `separator` between them.
pub open spec fn joined(pieces: Seq<Seq<char>>, separator: char) -> Seq<char>
    decreases pieces.len(),
{
    if pieces.len() == 0 {
        Seq::empty()
    } else if pieces.len() == 1 {
        pieces[0]
    } else {
        joined(pieces.drop_last(), separator).push(separator) + pieces.last()
    }
}

/// [`fields`] cuts a text at its separators and nowhere else: no piece holds
/// the separator, and the pieces joined by the separator are the text.
pub proof fn law_fields_rejoin(text: Seq<char>, separator: char)
    ensures
        fields(text, separator).len() >= 1,
        joined(fields(text, separator), separator) == text,
        forall|i: int, j: int|
            0 <= i < fields(text, separator).len() && 0 <= j < fields(text, separator)[i].len()
                ==> fields(text, separator)[i][j] != separator,
    decreases text.len(),
{
    if text.len() > 0 {
        let before = fields(text.drop_last(), separator);
        law_fields_rejoin(text.drop_last(), separator);
        if text.last() == separator {
            let pieces = before.push(Seq::empty());
            assert(pieces.drop_last() =~= before);
        } else {
            let pieces = before.drop_last().push(before.last().push(text.last()));
            assert(pieces.drop_last() =~= before.drop_last());
            assert(joined(pieces, separator) =~= joined(before, separator).push(text.last()));
        }
    }
}

} // verus!

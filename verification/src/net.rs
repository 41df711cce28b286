use crate::text::{
    chars_of, decimal, decimal_of, decimal_text, is_digits, join, joined, parts_view,
    push_decimal, split, split_chars, texts,
};
use vstd::prelude::*;
use vstd::string::*;

pub mod proofs;

verus! {

/// An IPv4 address: its four octets, the first one first.
#[derive(Debug, Clone, Copy, PartialEq, Eq, Structural)]
pub struct Ipv4Addr {
    pub a: u8,
    pub b: u8,
    pub c: u8,
    pub d: u8,
}

/// An IPv6 address: its eight groups of sixteen bits, the first one first.
#[derive(Debug, Clone, Copy, PartialEq, Eq, Structural)]
pub struct Ipv6Addr {
    pub a: u16,
    pub b: u16,
    pub c: u16,
    pub d: u16,
    pub e: u16,
    pub f: u16,
    pub g: u16,
    pub h: u16,
}

/// An address of either family.
#[derive(Debug, Clone, Copy, PartialEq, Eq, Structural)]
pub enum IpAddr {
    V4(Ipv4Addr),
    V6(Ipv6Addr),
}

/// The octet that `s` writes: one to three ASCII digits, without a zero in
/// front of another digit, that make a number up to 255.
pub open spec fn octet(s: Seq<char>) -> Option<u8> {
    if 1 <= s.len() <= 3 && is_digits(s) && (s.len() == 1 || s[0] != '0') && decimal(s) <= 255 {
        Some(decimal(s) as u8)
    } else {
        None
    }
}

/// The address that `text` writes in dotted form: four octets that three dots part.
pub open spec fn ipv4_of(text: Seq<char>) -> Option<Ipv4Addr> {
    let parts = split(text, '.');
    if parts.len() == 4 && octet(parts[0]) is Some && octet(parts[1]) is Some && octet(
        parts[2],
    ) is Some && octet(parts[3]) is Some {
        Some(
            Ipv4Addr {
                a: octet(parts[0])->0,
                b: octet(parts[1])->0,
                c: octet(parts[2])->0,
                d: octet(parts[3])->0,
            },
        )
    } else {
        None
    }
}

/// `c` is a digit of base sixteen, in either case.
pub open spec fn is_hex_digit(c: char) -> bool {
    ('0' <= c && c <= '9') || ('a' <= c && c <= 'f') || ('A' <= c && c <= 'F')
}

/// The number that the digit `c` of base sixteen stands for.
pub open spec fn hex_digit_value(c: char) -> nat {
    if '0' <= c && c <= '9' {
        (c as int - 48) as nat
    } else if 'a' <= c && c <= 'f' {
        (c as int - 87) as nat
    } else {
        (c as int - 55) as nat
    }
}

/// Every character of `s` is a digit of base sixteen.
pub open spec fn is_hex_digits(s: Seq<char>) -> bool {
    forall|i: int| 0 <= i < s.len() ==> is_hex_digit(#[trigger] s[i])
}

/// The number that the digits of `s` write in base sixteen.
pub open spec fn hex_value(s: Seq<char>) -> nat
    decreases s.len(),
{
    if s.len() == 0 {
        0
    } else {
        hex_value(s.drop_last()) * 16 + hex_digit_value(s.last())
    }
}

/// The group that `s` writes: one to four digits of base sixteen.
pub open spec fn hex_group(s: Seq<char>) -> Option<u16> {
    if 1 <= s.len() <= 4 && is_hex_digits(s) {
        Some(hex_value(s) as u16)
    } else {
        None
    }
}

/// Every part writes a group.
pub open spec fn all_hex_groups(parts: Seq<Seq<char>>) -> bool {
    forall|i: int| 0 <= i < parts.len() ==> hex_group(#[trigger] parts[i]) is Some
}

/// The group that each part writes.
pub open spec fn hex_values(parts: Seq<Seq<char>>) -> Seq<u16> {
    Seq::new(parts.len(), |i: int| hex_group(parts[i])->0)
}

/// The groups that `text` writes with colons between them; none for the empty
/// text.
pub open spec fn hex_groups(text: Seq<char>) -> Option<Seq<u16>> {
    if text.len() == 0 {
        Some(Seq::<u16>::empty())
    } else {
        let parts = split(text, ':');
        if all_hex_groups(parts) {
            Some(hex_values(parts))
        } else {
            None
        }
    }
}

/// The two groups that hold the four octets of an address in dotted form.
pub open spec fn dotted_groups(ip: Ipv4Addr) -> Seq<u16> {
    seq![(ip.a * 256 + ip.b) as u16, (ip.c * 256 + ip.d) as u16]
}

/// The groups that `text` writes at the end of an address: groups with colons
/// between them, where the last part may be an address in dotted form, which
/// stands for two groups; none for the empty text.
pub open spec fn last_groups(text: Seq<char>) -> Option<Seq<u16>> {
    if text.len() == 0 {
        Some(Seq::<u16>::empty())
    } else {
        let parts = split(text, ':');
        let dotted = ipv4_of(parts.last());
        if dotted is Some {
            if all_hex_groups(parts.drop_last()) {
                Some(hex_values(parts.drop_last()) + dotted_groups(dotted->0))
            } else {
                None
            }
        } else if all_hex_groups(parts) {
            Some(hex_values(parts))
        } else {
            None
        }
    }
}

/// Where the first two colons in a row stand in `s`; the length of `s` where
/// there are none.
pub open spec fn first_double_colon(s: Seq<char>) -> int
    decreases s.len(),
{
    if s.len() < 2 {
        s.len() as int
    } else if s[0] == ':' && s[1] == ':' {
        0
    } else {
        1 + first_double_colon(s.drop_first())
    }
}

/// `count` groups of zero.
pub open spec fn zero_groups(count: int) -> Seq<u16> {
    Seq::new(count as nat, |i: int| 0u16)
}

/// The eight groups that `text` writes in colon form: eight groups with colons
/// between them, or, once, two colons in a row that stand for as many groups of
/// zero as are missing, at least one. The last two groups may be written as
/// an address in dotted form.
pub open spec fn ipv6_groups(text: Seq<char>) -> Option<Seq<u16>> {
    let at = first_double_colon(text);
    if at < text.len() {
        let head = hex_groups(text.take(at));
        let tail = last_groups(text.skip(at + 2));
        if head is Some && tail is Some && head->0.len() + tail->0.len() <= 7 {
            Some(head->0 + zero_groups(8 - head->0.len() - tail->0.len()) + tail->0)
        } else {
            None
        }
    } else {
        let all = last_groups(text);
        if all is Some && all->0.len() == 8 {
            all
        } else {
            None
        }
    }
}

/// The address that `text` writes in colon form.
pub open spec fn ipv6_of(text: Seq<char>) -> Option<Ipv6Addr> {
    match ipv6_groups(text) {
        Some(groups) => Some(
            Ipv6Addr {
                a: groups[0],
                b: groups[1],
                c: groups[2],
                d: groups[3],
                e: groups[4],
                f: groups[5],
                g: groups[6],
                h: groups[7],
            },
        ),
        None => None,
    }
}

/// The address that `text` writes, in dotted or in colon form.
pub open spec fn ip_addr_of(text: Seq<char>) -> Option<IpAddr> {
    match ipv4_of(text) {
        Some(v4) => Some(IpAddr::V4(v4)),
        None => match ipv6_of(text) {
            Some(v6) => Some(IpAddr::V6(v6)),
            None => None,
        },
    }
}

fn parse_octet(part: &Vec<char>) -> (r: Option<u8>)
    ensures
        r == octet(part@),
{
    if part.len() == 0 || part.len() > 3 {
        return None;
    }
    if part.len() > 1 && part[0] == '0' {
        return None;
    }
    match decimal_of(part) {
        Some(n) => if n <= 255 {
            Some(n as u8)
        } else {
            None
        },
        None => None,
    }
}

fn parse_hex_group(part: &Vec<char>) -> (r: Option<u16>)
    ensures
        r == hex_group(part@),
{
    if part.len() == 0 || part.len() > 4 {
        return None;
    }
    let mut acc: u32 = 0;
    let mut i: usize = 0;
    while i < part.len()
        invariant
            i <= part.len() <= 4,
            is_hex_digits(part@.take(i as int)),
            acc == hex_value(part@.take(i as int)),
            i == 0 ==> acc == 0,
            i == 1 ==> acc <= 0xf,
            i == 2 ==> acc <= 0xff,
            i == 3 ==> acc <= 0xfff,
            i == 4 ==> acc <= 0xffff,
        decreases part.len() - i,
    {
        let c = part[i];
        let d: u32 = if '0' <= c && c <= '9' {
            c as u32 - 48
        } else if 'a' <= c && c <= 'f' {
            c as u32 - 87
        } else if 'A' <= c && c <= 'F' {
            c as u32 - 55
        } else {
            assert(!is_hex_digit(part@[i as int]));
            return None;
        };
        proof {
            let next = part@.take(i + 1);
            assert(next.drop_last() == part@.take(i as int));
            assert(next.last() == c);
            assert(is_hex_digits(next)) by {
                assert forall|k: int| 0 <= k < next.len() implies is_hex_digit(
                    #[trigger] next[k],
                ) by {
                    if k < i {
                        assert(next[k] == part@.take(i as int)[k]);
                    }
                }
            }
        }
        acc = acc * 16 + d;
        i += 1;
    }
    assert(part@.take(part.len() as int) == part@);
    Some(acc as u16)
}

/// The view of a run of groups that may be missing.
pub open spec fn groups_view(groups: Option<Vec<u16>>) -> Option<Seq<u16>> {
    match groups {
        Some(g) => Some(g@),
        None => None,
    }
}

fn parse_hex_parts(parts: &Vec<Vec<char>>, count: usize) -> (r: Option<Vec<u16>>)
    requires
        count <= parts.len(),
    ensures
        r is Some <==> all_hex_groups(parts_view(parts@).take(count as int)),
        r matches Some(groups) ==> groups@ == hex_values(parts_view(parts@).take(count as int)),
{
    let ghost texts = parts_view(parts@).take(count as int);
    let mut groups: Vec<u16> = Vec::new();
    let mut i: usize = 0;
    while i < count
        invariant
            i <= count <= parts.len(),
            texts == parts_view(parts@).take(count as int),
            groups.len() == i,
            forall|k: int| 0 <= k < i ==> hex_group(#[trigger] texts[k]) == Some(groups@[k]),
        decreases count - i,
    {
        assert(texts[i as int] == parts@[i as int]@);
        match parse_hex_group(&parts[i]) {
            Some(group) => {
                groups.push(group);
            },
            None => {
                assert(hex_group(texts[i as int]) is None);
                return None;
            },
        }
        i += 1;
    }
    assert(groups@ =~= hex_values(texts));
    Some(groups)
}

fn parse_hex_groups(v: &Vec<char>, from: usize, to: usize) -> (r: Option<Vec<u16>>)
    requires
        from <= to <= v.len(),
    ensures
        groups_view(r) == hex_groups(v@.subrange(from as int, to as int)),
{
    if from == to {
        return Some(Vec::new());
    }
    let parts = split_chars(v, from, to, ':');
    assert(parts_view(parts@).take(parts.len() as int) == parts_view(parts@));
    parse_hex_parts(&parts, parts.len())
}

fn parse_last_groups(v: &Vec<char>, from: usize, to: usize) -> (r: Option<Vec<u16>>)
    requires
        from <= to <= v.len(),
    ensures
        groups_view(r) == last_groups(v@.subrange(from as int, to as int)),
{
    if from == to {
        return Some(Vec::new());
    }
    let parts = split_chars(v, from, to, ':');
    let ghost texts = parts_view(parts@);
    let last = parts.len() - 1;
    assert(texts.last() == parts@[last as int]@);
    assert(texts.drop_last() == texts.take(last as int));
    assert(texts.take(parts.len() as int) == texts);
    match parse_ipv4(&parts[last]) {
        Some(dotted) => match parse_hex_parts(&parts, last) {
            Some(mut groups) => {
                let ghost front = groups@;
                groups.push(dotted.a as u16 * 256 + dotted.b as u16);
                groups.push(dotted.c as u16 * 256 + dotted.d as u16);
                assert(groups@ =~= front + dotted_groups(dotted));
                Some(groups)
            },
            None => None,
        },
        None => parse_hex_parts(&parts, parts.len()),
    }
}

fn find_double_colon(v: &Vec<char>) -> (at: usize)
    ensures
        at == first_double_colon(v@),
        at <= v.len(),
        at < v.len() ==> at + 2 <= v.len(),
{
    if v.len() < 2 {
        return v.len();
    }
    let mut i: usize = 0;
    assert(v@.skip(0) == v@);
    while i < v.len() - 1
        invariant
            i <= v.len() - 1,
            first_double_colon(v@) == i + first_double_colon(v@.skip(i as int)),
        decreases v.len() - i,
    {
        if v[i] == ':' && v[i + 1] == ':' {
            return i;
        }
        assert(v@.skip(i as int).drop_first() == v@.skip(i + 1));
        i += 1;
    }
    v.len()
}

fn parse_ipv4(v: &Vec<char>) -> (r: Option<Ipv4Addr>)
    ensures
        r == ipv4_of(v@),
{
    let parts = split_chars(v, 0, v.len(), '.');
    assert(v@.subrange(0, v.len() as int) == v@);
    if parts.len() != 4 {
        return None;
    }
    let ghost texts = parts_view(parts@);
    assert(texts[0] == parts@[0]@ && texts[1] == parts@[1]@ && texts[2] == parts@[2]@ && texts[3]
        == parts@[3]@);
    let a = parse_octet(&parts[0]);
    let b = parse_octet(&parts[1]);
    let c = parse_octet(&parts[2]);
    let d = parse_octet(&parts[3]);
    match (a, b, c, d) {
        (Some(a), Some(b), Some(c), Some(d)) => Some(Ipv4Addr { a, b, c, d }),
        _ => None,
    }
}

fn parse_ipv6(v: &Vec<char>) -> (r: Option<Ipv6Addr>)
    ensures
        r == ipv6_of(v@),
{
    let at = find_double_colon(v);
    let mut groups: Vec<u16> = Vec::new();
    if at < v.len() {
        assert(v@.subrange(0, at as int) == v@.take(at as int));
        assert(v@.subrange(at + 2, v.len() as int) == v@.skip(at + 2));
        let head = match parse_hex_groups(v, 0, at) {
            Some(head) => head,
            None => {
                return None;
            },
        };
        let tail = match parse_last_groups(v, at + 2, v.len()) {
            Some(tail) => tail,
            None => {
                return None;
            },
        };
        if head.len() > 7 || tail.len() > 7 - head.len() {
            return None;
        }
        let zeros = 8 - head.len() - tail.len();
        let mut i: usize = 0;
        while i < head.len()
            invariant
                i <= head.len(),
                groups@ == head@.take(i as int),
            decreases head.len() - i,
        {
            groups.push(head[i]);
            assert(head@.take(i + 1) == head@.take(i as int).push(head@[i as int]));
            i += 1;
        }
        assert(head@.take(head.len() as int) == head@);
        let mut i: usize = 0;
        while i < zeros
            invariant
                i <= zeros,
                groups@ == head@ + zero_groups(i as int),
            decreases zeros - i,
        {
            groups.push(0);
            assert(groups@ =~= head@ + zero_groups(i + 1));
            i += 1;
        }
        let mut i: usize = 0;
        while i < tail.len()
            invariant
                i <= tail.len(),
                groups@ == head@ + zero_groups(zeros as int) + tail@.take(i as int),
            decreases tail.len() - i,
        {
            groups.push(tail[i]);
            assert(tail@.take(i + 1) == tail@.take(i as int).push(tail@[i as int]));
            assert(groups@ =~= head@ + zero_groups(zeros as int) + tail@.take(i + 1));
            i += 1;
        }
        assert(tail@.take(tail.len() as int) == tail@);
    } else {
        assert(v@.subrange(0, v.len() as int) == v@);
        groups = match parse_last_groups(v, 0, v.len()) {
            Some(all) => all,
            None => {
                return None;
            },
        };
        if groups.len() != 8 {
            return None;
        }
    }
    Some(
        Ipv6Addr {
            a: groups[0],
            b: groups[1],
            c: groups[2],
            d: groups[3],
            e: groups[4],
            f: groups[5],
            g: groups[6],
            h: groups[7],
        },
    )
}

impl IpAddr {
    /// Reads an address in dotted form (four octets) or in colon form (eight
    /// groups of base sixteen, where two colons in a row may stand for groups
    /// of zero, and the last two groups may be written in dotted form).
    /// `None` for any other text.
    pub fn parse(text: &str) -> (r: Option<IpAddr>)
        ensures
            r == ip_addr_of(text@),
    {
        let v = chars_of(text);
        match parse_ipv4(&v) {
            Some(v4) => Some(IpAddr::V4(v4)),
            None => match parse_ipv6(&v) {
                Some(v6) => Some(IpAddr::V6(v6)),
                None => None,
            },
        }
    }
}

/// The digit of base sixteen, in lower case, that stands for `d`, a number
/// below sixteen.
pub open spec fn hex_char(d: nat) -> char {
    if d < 10 {
        (48 + d) as char
    } else {
        (87 + d) as char
    }
}

/// The digits that write `n` in base sixteen, in lower case and without a zero
/// in front.
pub open spec fn hex_text(n: nat) -> Seq<char>
    decreases n,
{
    if n < 16 {
        seq![hex_char(n)]
    } else {
        hex_text(n / 16).push(hex_char(n % 16))
    }
}

fn push_hex(text: &mut String, n: u16)
    ensures
        final(text)@ == old(text)@ + hex_text(n as nat),
    decreases n,
{
    if n >= 16 {
        push_hex(text, n / 16);
    }
    let digit: u8 = (n % 16) as u8;
    if digit < 10 {
        text.push((48 + digit) as char);
    } else {
        text.push((87 + digit) as char);
    }
    assert(final(text)@ =~= old(text)@ + hex_text(n as nat));
}

/// The four octets in dotted form.
pub open spec fn ipv4_text(ip: Ipv4Addr) -> Seq<char> {
    decimal_text(ip.a as nat) + "."@ + decimal_text(ip.b as nat) + "."@ + decimal_text(ip.c as nat)
        + "."@ + decimal_text(ip.d as nat)
}

/// How many groups of zero stand in a row from `from` on.
pub open spec fn zero_run(groups: Seq<u16>, from: int) -> int
    decreases groups.len() - from,
{
    if 0 <= from < groups.len() && groups[from] == 0 {
        1 + zero_run(groups, from + 1)
    } else {
        0
    }
}

/// Where the longest run of at least two groups of zero starts, among the
/// places before `upto`: the first of them where several are as long; -1
/// where there is none.
pub open spec fn longest_run(groups: Seq<u16>, upto: int) -> int
    decreases upto,
{
    if upto <= 0 {
        -1
    } else {
        let before = longest_run(groups, upto - 1);
        let here = upto - 1;
        if zero_run(groups, here) >= 2 && (before < 0 || zero_run(groups, here) > zero_run(
            groups,
            before,
        )) {
            here
        } else {
            before
        }
    }
}

/// Each group in base sixteen.
pub open spec fn hex_texts(groups: Seq<u16>) -> Seq<Seq<char>> {
    Seq::new(groups.len(), |i: int| hex_text(groups[i] as nat))
}

/// The address in dotted form that eight groups hold in their last two,
/// where the five first are zero and the sixth is `ffff`.
pub open spec fn mapped(groups: Seq<u16>) -> Option<Ipv4Addr> {
    if groups.len() == 8 && groups[0] == 0 && groups[1] == 0 && groups[2] == 0 && groups[3] == 0
        && groups[4] == 0 && groups[5] == 0xffff {
        Some(
            Ipv4Addr {
                a: (groups[6] / 256) as u8,
                b: (groups[6] % 256) as u8,
                c: (groups[7] / 256) as u8,
                d: (groups[7] % 256) as u8,
            },
        )
    } else {
        None
    }
}

/// What stands in front of an address in dotted form that eight groups hold.
pub const MAPPED: &'static str = "::ffff:";

/// The groups in colon form: each in base sixteen, in lower case and without
/// zeros in front, with colons between them; the longest run of two or more
/// groups of zero, the first such where several are as long, is written as two
/// colons. Groups that hold an address in dotted form are written with that
/// form at their end.
pub open spec fn groups_text(groups: Seq<u16>) -> Seq<char> {
    let start = longest_run(groups, groups.len() as int);
    if mapped(groups) is Some {
        MAPPED@ + ipv4_text(mapped(groups)->0)
    } else if start < 0 {
        joined(hex_texts(groups), ":"@)
    } else {
        joined(hex_texts(groups.take(start)), ":"@) + "::"@ + joined(
            hex_texts(groups.skip(start + zero_run(groups, start))),
            ":"@,
        )
    }
}

impl Ipv6Addr {
    /// The eight groups, the first one first.
    pub open spec fn groups(self) -> Seq<u16> {
        seq![self.a, self.b, self.c, self.d, self.e, self.f, self.g, self.h]
    }

    /// The eight groups, the first one first.
    pub fn segments(&self) -> (groups: Vec<u16>)
        ensures
            groups@ == self.groups(),
    {
        let mut groups: Vec<u16> = Vec::new();
        groups.push(self.a);
        groups.push(self.b);
        groups.push(self.c);
        groups.push(self.d);
        groups.push(self.e);
        groups.push(self.f);
        groups.push(self.g);
        groups.push(self.h);
        assert(groups@ =~= self.groups());
        groups
    }
}

/// The address as a text.
pub open spec fn ip_text(ip: IpAddr) -> Seq<char> {
    match ip {
        IpAddr::V4(v4) => ipv4_text(v4),
        IpAddr::V6(v6) => groups_text(v6.groups()),
    }
}

proof fn lemma_zero_run(groups: Seq<u16>, from: int, end: int)
    requires
        0 <= from <= end <= groups.len(),
        forall|k: int| from <= k < end ==> groups[k] == 0,
        end == groups.len() || groups[end] != 0,
    ensures
        zero_run(groups, from) == end - from,
    decreases end - from,
{
    if from < end {
        lemma_zero_run(groups, from + 1, end);
    }
}

fn run_length(groups: &Vec<u16>, from: usize) -> (len: usize)
    requires
        from <= groups.len(),
    ensures
        len == zero_run(groups@, from as int),
        from + len <= groups.len(),
{
    let mut end: usize = from;
    while end < groups.len() && groups[end] == 0
        invariant
            from <= end <= groups.len(),
            forall|k: int| from <= k < end ==> groups@[k] == 0,
        decreases groups.len() - end,
    {
        end += 1;
    }
    proof {
        lemma_zero_run(groups@, from as int, end as int);
    }
    end - from
}

fn hex_strings(groups: &Vec<u16>, from: usize, to: usize) -> (items: Vec<String>)
    requires
        from <= to <= groups.len(),
    ensures
        texts(items@) == hex_texts(groups@.subrange(from as int, to as int)),
{
    let mut items: Vec<String> = Vec::new();
    let mut i: usize = from;
    while i < to
        invariant
            from <= i <= to <= groups.len(),
            items.len() == i - from,
            forall|k: int| 0 <= k < items.len() ==> (#[trigger] items@[k])@ == hex_text(
                groups@[from + k] as nat,
            ),
        decreases to - i,
    {
        let mut item = String::new();
        push_hex(&mut item, groups[i]);
        assert(item@ =~= hex_text(groups@[i as int] as nat));
        items.push(item);
        i += 1;
    }
    assert(texts(items@) =~= hex_texts(groups@.subrange(from as int, to as int)));
    items
}

fn groups_string(groups: &Vec<u16>) -> (text: String)
    ensures
        text@ == groups_text(groups@),
{
    if groups.len() == 8 && groups[0] == 0 && groups[1] == 0 && groups[2] == 0 && groups[3] == 0
        && groups[4] == 0 && groups[5] == 0xffff {
        let dotted = Ipv4Addr {
            a: (groups[6] / 256) as u8,
            b: (groups[6] % 256) as u8,
            c: (groups[7] / 256) as u8,
            d: (groups[7] % 256) as u8,
        };
        let mut text = String::from_str(MAPPED);
        text.append(dotted.to_string().as_str());
        return text;
    }
    let mut best: usize = 0;
    let mut best_len: usize = 0;
    let mut i: usize = 0;
    while i < groups.len()
        invariant
            i <= groups.len(),
            best_len == 0 ==> longest_run(groups@, i as int) == -1,
            best_len != 0 ==> longest_run(groups@, i as int) == best && best_len == zero_run(
                groups@,
                best as int,
            ) && best + best_len <= groups.len(),
        decreases groups.len() - i,
    {
        let len = run_length(groups, i);
        if len >= 2 && (best_len == 0 || len > best_len) {
            best = i;
            best_len = len;
        }
        i += 1;
    }
    if best_len == 0 {
        assert(groups@.subrange(0, groups.len() as int) == groups@);
        let items = hex_strings(groups, 0, groups.len());
        join(&items, ":")
    } else {
        assert(groups@.subrange(0, best as int) == groups@.take(best as int));
        assert(groups@.subrange(best + best_len, groups.len() as int) == groups@.skip(
            best + best_len,
        ));
        let head = hex_strings(groups, 0, best);
        let tail = hex_strings(groups, best + best_len, groups.len());
        let mut text = join(&head, ":");
        text.append("::");
        text.append(join(&tail, ":").as_str());
        text
    }
}

impl Ipv4Addr {
    /// The address with these four octets.
    pub fn new(a: u8, b: u8, c: u8, d: u8) -> (ip: Ipv4Addr)
        ensures
            ip == (Ipv4Addr { a, b, c, d }),
    {
        Ipv4Addr { a, b, c, d }
    }

    /// The address in dotted form.
    pub fn to_string(&self) -> (text: String)
        ensures
            text@ == ipv4_text(*self),
    {
        let mut text = String::new();
        push_decimal(&mut text, self.a as u64);
        text.push('.');
        push_decimal(&mut text, self.b as u64);
        text.push('.');
        push_decimal(&mut text, self.c as u64);
        text.push('.');
        push_decimal(&mut text, self.d as u64);
        proof {
            reveal_strlit(".");
            assert("."@ =~= seq!['.']);
            assert(text@ =~= ipv4_text(*self));
        }
        text
    }
}

impl Ipv6Addr {
    /// The address in colon form.
    pub fn to_string(&self) -> (text: String)
        ensures
            text@ == groups_text(self.groups()),
    {
        let groups = self.segments();
        groups_string(&groups)
    }
}

impl IpAddr {
    /// The address as a text: dotted for the one family, with colons for the
    /// other.
    pub fn to_string(&self) -> (text: String)
        ensures
            text@ == ip_text(*self),
    {
        match self {
            IpAddr::V4(v4) => v4.to_string(),
            IpAddr::V6(v6) => v6.to_string(),
        }
    }
}

} // verus!

use super::{
    dotted_groups, first_double_colon, groups_text, hex_char, hex_group, hex_groups, hex_text,
    hex_texts, hex_value, hex_values, ip_addr_of, ip_text, ipv4_of, ipv4_text, ipv6_groups,
    ipv6_of, is_hex_digit, is_hex_digits, last_groups, longest_run, mapped, octet, zero_groups,
    zero_run, IpAddr, Ipv4Addr, Ipv6Addr, MAPPED,
};
use crate::text::{
    decimal_text, free_of, is_digit, joined, lemma_decimal_text, lemma_split_concat,
    lemma_split_joined, lemma_split_whole, split,
};
use vstd::prelude::*;

verus! {

/// The digits that write a number in base sixteen are such digits, and are
/// read back as the number.
pub proof fn lemma_hex_text(n: nat)
    ensures
        is_hex_digits(hex_text(n)),
        hex_value(hex_text(n)) == n,
        hex_text(n).len() >= 1,
        n < 0x10 ==> hex_text(n).len() == 1,
        n < 0x100 ==> hex_text(n).len() <= 2,
        n < 0x1000 ==> hex_text(n).len() <= 3,
        n < 0x10000 ==> hex_text(n).len() <= 4,
    decreases n,
{
    let s = hex_text(n);
    if n < 16 {
        assert(s.drop_last() =~= Seq::<char>::empty());
        assert(s.last() == hex_char(n));
        assert(hex_value(s.drop_last()) == 0);
        assert(hex_char(n) as int == if n < 10 {
            48 + n
        } else {
            87 + n
        });
    } else {
        lemma_hex_text(n / 16);
        let d = n % 16;
        assert(s.drop_last() =~= hex_text(n / 16));
        assert(s.last() == hex_char(d));
        assert(hex_char(d) as int == if d < 10 {
            48 + d
        } else {
            87 + d
        });
        assert forall|i: int| 0 <= i < s.len() implies is_hex_digit(#[trigger] s[i]) by {
            if i < s.len() - 1 {
                assert(s[i] == hex_text(n / 16)[i]);
            }
        }
    }
}

/// A text looks like a group: it is not empty and holds neither a colon nor
/// a dot.
pub open spec fn group_like(s: Seq<char>) -> bool {
    s.len() >= 1 && free_of(s, ':') && free_of(s, '.')
}

/// A group is read back from the digits that write it.
pub proof fn lemma_hex_group_text(n: u16)
    ensures
        hex_group(hex_text(n as nat)) == Some(n),
        group_like(hex_text(n as nat)),
{
    lemma_hex_text(n as nat);
    let s = hex_text(n as nat);
    assert forall|i: int| 0 <= i < s.len() implies s[i] != ':' && s[i] != '.' by {
        assert(is_hex_digit(s[i]));
    }
}

/// An octet is read back from the digits that write it.
pub proof fn lemma_octet_text(n: u8)
    ensures
        octet(decimal_text(n as nat)) == Some(n),
        free_of(decimal_text(n as nat), '.'),
{
    lemma_decimal_text(n as nat);
    let s = decimal_text(n as nat);
    assert forall|i: int| 0 <= i < s.len() implies s[i] != '.' by {
        assert(is_digit(s[i]));
    }
}

/// An address in dotted form is read back as it was written.
pub proof fn lemma_ipv4_round_trip(ip: Ipv4Addr)
    ensures
        ipv4_of(ipv4_text(ip)) == Some(ip),
{
    reveal_strlit(".");
    let dot = seq!['.'];
    assert("."@ =~= dot);
    let a = decimal_text(ip.a as nat);
    let b = decimal_text(ip.b as nat);
    let c = decimal_text(ip.c as nat);
    let d = decimal_text(ip.d as nat);
    lemma_octet_text(ip.a);
    lemma_octet_text(ip.b);
    lemma_octet_text(ip.c);
    lemma_octet_text(ip.d);
    lemma_split_whole(a, '.');
    lemma_split_whole(b, '.');
    lemma_split_whole(c, '.');
    lemma_split_whole(d, '.');
    lemma_split_concat(a, b, '.');
    lemma_split_concat(a + dot + b, c, '.');
    lemma_split_concat(a + dot + b + dot + c, d, '.');
    assert(ipv4_text(ip) == a + dot + b + dot + c + dot + d);
    assert(split(ipv4_text(ip), '.') =~= seq![a, b, c, d]);
}

/// No two colons stand in a row in `s`.
pub open spec fn no_double_colon(s: Seq<char>) -> bool {
    forall|i: int| 0 <= i < s.len() - 1 ==> !(#[trigger] s[i] == ':' && s[i + 1] == ':')
}

/// Every part looks like a group.
pub open spec fn all_group_like(parts: Seq<Seq<char>>) -> bool {
    forall|i: int| 0 <= i < parts.len() ==> group_like(#[trigger] parts[i])
}

/// Groups with colons between them: no two colons stand in a row, none
/// stands at an end, and there is no dot.
pub proof fn lemma_joined_groups(parts: Seq<Seq<char>>)
    requires
        all_group_like(parts),
    ensures
        no_double_colon(joined(parts, seq![':'])),
        free_of(joined(parts, seq![':']), '.'),
        parts.len() == 0 ==> joined(parts, seq![':']).len() == 0,
        parts.len() >= 1 ==> joined(parts, seq![':']).len() >= 1 && joined(parts, seq![':'])[0]
            != ':' && joined(parts, seq![':']).last() != ':',
    decreases parts.len(),
{
    let text = joined(parts, seq![':']);
    if parts.len() == 0 {
    } else if parts.len() == 1 {
        assert(group_like(parts[0]));
    } else {
        let init = parts.drop_last();
        let last = parts.last();
        let before = joined(init, seq![':']);
        assert forall|i: int| 0 <= i < init.len() implies group_like(#[trigger] init[i]) by {
            assert(init[i] == parts[i]);
        }
        lemma_joined_groups(init);
        assert(group_like(last));
        assert(text == before + seq![':'] + last);
        assert forall|i: int| 0 <= i < text.len() - 1 implies !(#[trigger] text[i] == ':' && text[i
            + 1] == ':') by {
            if i + 1 < before.len() {
                assert(text[i] == before[i] && text[i + 1] == before[i + 1]);
            } else if i + 1 == before.len() {
                assert(text[i] == before.last());
            } else if i == before.len() {
                assert(text[i + 1] == last[0]);
            } else {
                assert(text[i] == last[i - before.len() - 1]);
            }
        }
        assert forall|i: int| 0 <= i < text.len() implies text[i] != '.' by {
            if i < before.len() {
                assert(text[i] == before[i]);
            } else if i > before.len() {
                assert(text[i] == last[i - before.len() - 1]);
            }
        }
        assert(text[0] == before[0]);
        assert(text.last() == last.last());
    }
}

/// Without two colons in a row, the first such place is the end.
pub proof fn lemma_first_double_none(s: Seq<char>)
    requires
        no_double_colon(s),
    ensures
        first_double_colon(s) == s.len(),
    decreases s.len(),
{
    if s.len() >= 2 {
        let rest = s.drop_first();
        assert forall|i: int| 0 <= i < rest.len() - 1 implies !(#[trigger] rest[i] == ':' && rest[i
            + 1] == ':') by {
            assert(rest[i] == s[i + 1] && rest[i + 1] == s[i + 2]);
            assert(!(s[i + 1] == ':' && s[i + 1 + 1] == ':'));
        }
        lemma_first_double_none(rest);
        assert(!(s[0int] == ':' && s[0int + 1] == ':'));
    }
}

/// Two colons in a row after a text that has none, and does not end in one,
/// are the first in the whole.
pub proof fn lemma_first_double_at(head: Seq<char>, tail: Seq<char>)
    requires
        no_double_colon(head),
        head.len() == 0 || head.last() != ':',
    ensures
        first_double_colon(head + seq![':', ':'] + tail) == head.len(),
    decreases head.len(),
{
    let whole = head + seq![':', ':'] + tail;
    if head.len() == 0 {
        assert(whole[0] == ':' && whole[1] == ':');
    } else {
        let rest = head.drop_first();
        assert forall|i: int| 0 <= i < rest.len() - 1 implies !(#[trigger] rest[i] == ':' && rest[i
            + 1] == ':') by {
            assert(rest[i] == head[i + 1] && rest[i + 1] == head[i + 2]);
            assert(!(head[i + 1] == ':' && head[i + 1 + 1] == ':'));
        }
        if rest.len() > 0 {
            assert(rest.last() == head.last());
        }
        lemma_first_double_at(rest, tail);
        assert(whole.drop_first() =~= rest + seq![':', ':'] + tail);
        assert(whole[0] == head[0]);
        if head.len() == 1 {
            assert(head[0] == head.last());
        } else {
            assert(whole[1] == head[1]);
            assert(!(head[0int] == ':' && head[0int + 1] == ':'));
        }
    }
}

/// A run of groups of zero holds groups of zero only, and ends within the
/// groups.
pub proof fn lemma_zero_run_zeros(groups: Seq<u16>, from: int)
    requires
        0 <= from <= groups.len(),
    ensures
        0 <= zero_run(groups, from),
        from + zero_run(groups, from) <= groups.len(),
        forall|k: int| from <= k < from + zero_run(groups, from) ==> groups[k] == 0,
    decreases groups.len() - from,
{
    if from < groups.len() && groups[from] == 0 {
        lemma_zero_run_zeros(groups, from + 1);
    }
}

/// The longest run, where there is one, starts before `upto` and holds two
/// groups at least.
pub proof fn lemma_longest_run(groups: Seq<u16>, upto: int)
    requires
        0 <= upto <= groups.len(),
    ensures
        longest_run(groups, upto) == -1 || (0 <= longest_run(groups, upto) < upto && zero_run(
            groups,
            longest_run(groups, upto),
        ) >= 2),
    decreases upto,
{
    if upto > 0 {
        lemma_longest_run(groups, upto - 1);
    }
}

/// Groups are read back from their digits with colons between them.
pub proof fn lemma_hex_groups_joined(groups: Seq<u16>)
    ensures
        hex_groups(joined(hex_texts(groups), seq![':'])) == Some(groups),
        last_groups(joined(hex_texts(groups), seq![':'])) == Some(groups),
        all_group_like(hex_texts(groups)),
{
    let parts = hex_texts(groups);
    let text = joined(parts, seq![':']);
    assert forall|i: int| 0 <= i < parts.len() implies group_like(#[trigger] parts[i]) && hex_group(
        parts[i],
    ) == Some(groups[i]) by {
        lemma_hex_group_text(groups[i]);
    }
    lemma_joined_groups(parts);
    if groups.len() == 0 {
        assert(hex_groups(text)->0 =~= groups);
    } else {
        assert forall|i: int| 0 <= i < parts.len() implies free_of(#[trigger] parts[i], ':') by {
            assert(group_like(parts[i]));
        }
        lemma_split_joined(parts, ':');
        assert(hex_values(parts) =~= groups);
        assert(group_like(parts.last()));
        lemma_split_whole(parts.last(), '.');
    }
}

/// Eight groups that are written without two colons in a row are read back
/// as they were written.
proof fn lemma_plain_round_trip(groups: Seq<u16>)
    requires
        groups.len() == 8,
    ensures
        ipv6_groups(joined(hex_texts(groups), seq![':'])) == Some(groups),
        ipv4_of(joined(hex_texts(groups), seq![':'])) is None,
{
    let text = joined(hex_texts(groups), seq![':']);
    lemma_hex_groups_joined(groups);
    lemma_joined_groups(hex_texts(groups));
    lemma_first_double_none(text);
    lemma_split_whole(text, '.');
}

/// Eight groups that are written with two colons for the run of `run` groups
/// of zero from `start` on are read back as they were written.
proof fn lemma_compressed_round_trip(groups: Seq<u16>, start: int, run: int)
    requires
        groups.len() == 8,
        0 <= start,
        2 <= run,
        start + run <= 8,
        forall|k: int| start <= k < start + run ==> groups[k] == 0,
    ensures
        ipv6_groups(
            joined(hex_texts(groups.take(start)), seq![':']) + seq![':', ':'] + joined(
                hex_texts(groups.skip(start + run)),
                seq![':'],
            ),
        ) == Some(groups),
        ipv4_of(
            joined(hex_texts(groups.take(start)), seq![':']) + seq![':', ':'] + joined(
                hex_texts(groups.skip(start + run)),
                seq![':'],
            ),
        ) is None,
{
    let front = groups.take(start);
    let back = groups.skip(start + run);
    let head = joined(hex_texts(front), seq![':']);
    let tail = joined(hex_texts(back), seq![':']);
    let text = head + seq![':', ':'] + tail;
    lemma_hex_groups_joined(front);
    lemma_hex_groups_joined(back);
    lemma_joined_groups(hex_texts(front));
    lemma_joined_groups(hex_texts(back));
    lemma_first_double_at(head, tail);
    assert(text.take(head.len() as int) =~= head);
    assert(text.skip(head.len() as int + 2) =~= tail);
    assert(front + zero_groups(8 - front.len() - back.len()) + back =~= groups);
    assert forall|i: int| 0 <= i < text.len() implies text[i] != '.' by {
        if i < head.len() {
            assert(text[i] == head[i]);
        } else if i >= head.len() + 2 {
            assert(text[i] == tail[i - head.len() - 2]);
        }
    }
    lemma_split_whole(text, '.');
}

/// The group `ffff` is read as the largest group.
proof fn lemma_all_ones()
    ensures
        hex_group(seq!['f', 'f', 'f', 'f']) == Some(0xffffu16),
        free_of(seq!['f', 'f', 'f', 'f'], ':'),
{
    let four = seq!['f', 'f', 'f', 'f'];
    let three = seq!['f', 'f', 'f'];
    let two = seq!['f', 'f'];
    let one = seq!['f'];
    assert(four.drop_last() =~= three);
    assert(three.drop_last() =~= two);
    assert(two.drop_last() =~= one);
    assert(one.drop_last() =~= Seq::<char>::empty());
    assert(hex_value(one.drop_last()) == 0);
    assert(hex_value(one) == 15);
    assert(hex_value(two) == 255);
    assert(hex_value(three) == 4095);
    assert(hex_value(four) == 65535);
}

/// The digits and dots of an address in dotted form hold no colon.
proof fn lemma_dotted_no_colon(ip: Ipv4Addr)
    ensures
        free_of(ipv4_text(ip), ':'),
{
    reveal_strlit(".");
    assert("."@ =~= seq!['.']);
    let a = decimal_text(ip.a as nat);
    let b = decimal_text(ip.b as nat);
    let c = decimal_text(ip.c as nat);
    let d = decimal_text(ip.d as nat);
    lemma_decimal_text(ip.a as nat);
    lemma_decimal_text(ip.b as nat);
    lemma_decimal_text(ip.c as nat);
    lemma_decimal_text(ip.d as nat);
    let text = ipv4_text(ip);
    assert forall|i: int| 0 <= i < text.len() implies text[i] != ':' by {
        if i < a.len() {
            assert(text[i] == a[i] && is_digit(a[i]));
        } else if i == a.len() {
        } else if i < a.len() + 1 + b.len() {
            assert(text[i] == b[i - a.len() - 1] && is_digit(b[i - a.len() - 1]));
        } else if i == a.len() + 1 + b.len() {
        } else if i < a.len() + 1 + b.len() + 1 + c.len() {
            assert(text[i] == c[i - a.len() - b.len() - 2] && is_digit(c[i - a.len() - b.len() - 2]));
        } else if i == a.len() + 1 + b.len() + 1 + c.len() {
        } else {
            assert(text[i] == d[i - a.len() - b.len() - c.len() - 3] && is_digit(
                d[i - a.len() - b.len() - c.len() - 3],
            ));
        }
    }
}

/// Eight groups that hold an address in dotted form are read back as they
/// were written.
proof fn lemma_mapped_round_trip(groups: Seq<u16>)
    requires
        mapped(groups) is Some,
    ensures
        ipv6_groups(MAPPED@ + ipv4_text(mapped(groups)->0)) == Some(groups),
        ipv4_of(MAPPED@ + ipv4_text(mapped(groups)->0)) is None,
{
    reveal_strlit("::ffff:");
    reveal_strlit(".");
    let dot = seq!['.'];
    assert("."@ =~= dot);
    let ip = mapped(groups)->0;
    let dotted = ipv4_text(ip);
    let ones = seq!['f', 'f', 'f', 'f'];
    let text = MAPPED@ + dotted;
    assert(MAPPED@ =~= seq![':', ':'] + ones + seq![':']);
    assert(text[0] == ':' && text[1] == ':');
    assert(text.take(0) =~= Seq::<char>::empty());
    let tail = text.skip(2);
    assert(tail =~= ones + seq![':'] + dotted);
    lemma_all_ones();
    lemma_dotted_no_colon(ip);
    lemma_ipv4_round_trip(ip);
    lemma_split_concat(ones, dotted, ':');
    lemma_split_whole(ones, ':');
    lemma_split_whole(dotted, ':');
    let parts = split(tail, ':');
    assert(parts =~= seq![ones, dotted]);
    assert(parts.last() == dotted);
    assert(parts.drop_last() =~= seq![ones]);
    assert(hex_values(parts.drop_last()) =~= seq![0xffffu16]);
    assert(dotted_groups(ip) =~= seq![groups[6], groups[7]]);
    assert(last_groups(tail) == Some(seq![0xffffu16] + dotted_groups(ip)));
    assert(Seq::<u16>::empty() + zero_groups(5) + (seq![0xffffu16] + dotted_groups(ip)) =~= groups);
    let a = decimal_text(ip.a as nat);
    let b = decimal_text(ip.b as nat);
    let c = decimal_text(ip.c as nat);
    let d = decimal_text(ip.d as nat);
    let first = MAPPED@ + a;
    lemma_octet_text(ip.a);
    lemma_octet_text(ip.b);
    lemma_octet_text(ip.c);
    lemma_octet_text(ip.d);
    assert(text =~= first + dot + b + dot + c + dot + d);
    assert forall|i: int| 0 <= i < first.len() implies first[i] != '.' by {
        if i >= 7 {
            assert(first[i] == a[i - 7]);
        }
    }
    lemma_split_whole(first, '.');
    lemma_split_whole(b, '.');
    lemma_split_whole(c, '.');
    lemma_split_whole(d, '.');
    lemma_split_concat(first, b, '.');
    lemma_split_concat(first + dot + b, c, '.');
    lemma_split_concat(first + dot + b + dot + c, d, '.');
    assert(split(text, '.') =~= seq![first, b, c, d]);
    assert(!is_digit(first[0]));
}

/// Eight groups in colon form are read back as they were written, and are
/// not taken for an address in dotted form.
pub proof fn lemma_groups_round_trip(groups: Seq<u16>)
    requires
        groups.len() == 8,
    ensures
        ipv6_groups(groups_text(groups)) == Some(groups),
        ipv4_of(groups_text(groups)) is None,
{
    reveal_strlit(":");
    reveal_strlit("::");
    assert(":"@ =~= seq![':']);
    assert("::"@ =~= seq![':', ':']);
    let start = longest_run(groups, 8);
    if mapped(groups) is Some {
        lemma_mapped_round_trip(groups);
    } else if start < 0 {
        lemma_plain_round_trip(groups);
    } else {
        lemma_longest_run(groups, 8);
        lemma_zero_run_zeros(groups, start);
        lemma_compressed_round_trip(groups, start, zero_run(groups, start));
    }
}

/// An address in colon form is read back as it was written.
pub proof fn lemma_ipv6_round_trip(ip: Ipv6Addr)
    ensures
        ipv6_of(groups_text(ip.groups())) == Some(ip),
{
    lemma_groups_round_trip(ip.groups());
}

/// An address is read back as it was written: the text of an address stands
/// for that address and for no other.
pub proof fn lemma_ip_round_trip(ip: IpAddr)
    ensures
        ip_addr_of(ip_text(ip)) == Some(ip),
{
    match ip {
        IpAddr::V4(v4) => {
            lemma_ipv4_round_trip(v4);
        },
        IpAddr::V6(v6) => {
            lemma_groups_round_trip(v6.groups());
        },
    }
}

} // verus!

use vstd::prelude::*;

verus! {

/// The characters of `s`, in order.
pub fn chars_of(s: &str) -> (r: Vec<char>)
    ensures
        r@ == s@,
{
    let mut r: Vec<char> = Vec::new();
    for c in it: s.chars()
        invariant
            r@ == it.seq().take(it.index() as int),
    {
        r.push(c);
    }
    r
}

/// Whether `c` is one of the ASCII hexadecimal digits, in either case.
pub open spec fn is_hex_digit(c: char) -> bool {
    ('0' <= c && c <= '9') || ('a' <= c && c <= 'f') || ('A' <= c && c <= 'F')
}

/// The value of a hexadecimal digit; zero for any other character.
pub open spec fn hex_digit_value(c: char) -> nat {
    if '0' <= c && c <= '9' {
        (c as nat - '0' as nat) as nat
    } else if 'a' <= c && c <= 'f' {
        (c as nat - 'a' as nat + 10) as nat
    } else if 'A' <= c && c <= 'F' {
        (c as nat - 'A' as nat + 10) as nat
    } else {
        0
    }
}

/// The number that a run of hexadecimal digits denotes, most significant first.
pub open spec fn hex_digits_value(ds: Seq<char>) -> nat
    decreases ds.len(),
{
    if ds.len() == 0 {
        0
    } else {
        hex_digits_value(ds.drop_last()) * 16 + hex_digit_value(ds.last())
    }
}

/// Whether every character of `ds` is a hexadecimal digit.
pub open spec fn all_hex_digits(ds: Seq<char>) -> bool {
    forall|i: int| 0 <= i < ds.len() ==> is_hex_digit(#[trigger] ds[i])
}

/// Checks one character for being a hexadecimal digit and gives its value.
pub fn hex_digit(c: char) -> (r: Option<u8>)
    ensures
        r is Some <==> is_hex_digit(c),
        r is Some ==> r->Some_0 as nat == hex_digit_value(c),
        r is Some ==> r->Some_0 < 16,
{
    if '0' <= c && c <= '9' {
        Some(((c as u32) - ('0' as u32)) as u8)
    } else if 'a' <= c && c <= 'f' {
        Some(((c as u32) - ('a' as u32) + 10) as u8)
    } else if 'A' <= c && c <= 'F' {
        Some(((c as u32) - ('A' as u32) + 10) as u8)
    } else {
        None
    }
}

/// A prefix of a digit run never denotes more than the whole run.
pub proof fn lemma_prefix_value_le(ds: Seq<char>, k: int)
    requires
        0 <= k <= ds.len(),
    ensures
        hex_digits_value(ds.take(k)) <= hex_digits_value(ds),
    decreases ds.len(),
{
    if k == ds.len() {
        assert(ds.take(k) =~= ds);
    } else {
        assert(ds.drop_last().take(k) =~= ds.take(k));
        lemma_prefix_value_le(ds.drop_last(), k);
    }
}

/// The characters that follow an optional leading `+`.
pub open spec fn unsigned_digits(s: Seq<char>) -> Seq<char> {
    if s.len() > 0 && s[0] == '+' {
        s.drop_first()
    } else {
        s
    }
}

/// A base-16 unsigned number in `[0, 255]`: an optional `+`, then one or more
/// hexadecimal digits of either case; no other character, whitespace included.
pub open spec fn parse_hex_byte(s: Seq<char>) -> Option<u8> {
    let ds = unsigned_digits(s);
    if ds.len() > 0 && all_hex_digits(ds) && hex_digits_value(ds) <= 255 {
        Some(hex_digits_value(ds) as u8)
    } else {
        None
    }
}

/// Reads `text` as a base-16 number that fits a byte.
pub fn parse_hex_byte_text(text: &str) -> (r: Option<u8>)
    ensures
        r == parse_hex_byte(text@),
{
    let cs = chars_of(text);
    let start: usize = if cs.len() > 0 && cs[0] == '+' { 1 } else { 0 };
    let ghost ds = unsigned_digits(cs@);
    assert(ds =~= cs@.subrange(start as int, cs@.len() as int));
    if start >= cs.len() {
        return None;
    }
    let mut acc: u32 = 0;
    let mut i: usize = start;
    while i < cs.len()
        invariant
            start <= i <= cs.len(),
            ds =~= cs@.subrange(start as int, cs@.len() as int),
            acc as nat == hex_digits_value(ds.take(i - start)),
            acc <= 255,
            all_hex_digits(ds.take(i - start)),
            cs@ == text@,
            ds == unsigned_digits(text@),
        decreases cs.len() - i,
    {
        let k: usize = i - start;
        assert(ds.take(k + 1).drop_last() =~= ds.take(k as int));
        assert(ds.take(k + 1).last() == ds[k as int]);
        assert(ds[k as int] == cs@[i as int]);
        match hex_digit(cs[i]) {
            None => {
                assert(!all_hex_digits(ds));
                return None;
            },
            Some(d) => {
                let next: u32 = acc * 16 + d as u32;
                if next > 255 {
                    assert(hex_digits_value(ds.take(k + 1)) == next as nat);
                    proof {
                        lemma_prefix_value_le(ds, k + 1);
                    }
                    return None;
                }
                acc = next;
                assert(all_hex_digits(ds.take(k + 1))) by {
                    assert forall|j: int| 0 <= j < k + 1 implies is_hex_digit(
                        #[trigger] ds.take(k + 1)[j],
                    ) by {
                        if j < k {
                            assert(ds.take(k + 1)[j] == ds.take(k as int)[j]);
                        }
                    }
                }
            },
        }
        i = i + 1;
    }
    assert(ds.take(i - start) =~= ds);
    Some(acc as u8)
}

} // verus!

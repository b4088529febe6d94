//! Byte orders and the text forms of numbers and byte strings.

use vstd::prelude::*;
use vstd::string::StringExecFns;

verus! {

/// What is left of `v` once its `i` lowest bytes are dropped.
pub open spec fn drop_low_bytes(v: nat, i: nat) -> nat
    decreases i,
{
    if i == 0 {
        v
    } else {
        drop_low_bytes(v, (i - 1) as nat) / 256
    }
}

/// Byte `i` of `v`, counted from the least significant one.
pub open spec fn le_byte(v: nat, i: nat) -> u8 {
    (drop_low_bytes(v, i) % 256) as u8
}

/// The `n` lowest bytes of `v`, least significant first.
pub open spec fn le_bytes(v: nat, n: nat) -> Seq<u8> {
    Seq::new(n, |i: int| le_byte(v, i as nat))
}

/// The `n` lowest bytes of `v`, most significant first.
pub open spec fn be_bytes(v: nat, n: nat) -> Seq<u8> {
    Seq::new(n, |i: int| le_byte(v, (n - 1 - i) as nat))
}

/// The character for a digit below sixteen, in lower case.
pub open spec fn digit_char(d: int) -> char {
    if d == 0 {
        '0'
    } else if d == 1 {
        '1'
    } else if d == 2 {
        '2'
    } else if d == 3 {
        '3'
    } else if d == 4 {
        '4'
    } else if d == 5 {
        '5'
    } else if d == 6 {
        '6'
    } else if d == 7 {
        '7'
    } else if d == 8 {
        '8'
    } else if d == 9 {
        '9'
    } else if d == 10 {
        'a'
    } else if d == 11 {
        'b'
    } else if d == 12 {
        'c'
    } else if d == 13 {
        'd'
    } else if d == 14 {
        'e'
    } else {
        'f'
    }
}

/// Two hexadecimal digits for each byte, high digit first.
pub open spec fn hex_spec(bytes: Seq<u8>) -> Seq<char>
    decreases bytes.len(),
{
    if bytes.len() == 0 {
        Seq::empty()
    } else {
        hex_spec(bytes.drop_last()).push(digit_char(bytes.last() as int / 16)).push(
            digit_char(bytes.last() as int % 16),
        )
    }
}

/// The decimal numeral of `n`, without leading zeros.
pub open spec fn decimal_spec(n: nat) -> Seq<char>
    decreases n,
{
    if n < 10 {
        seq![digit_char(n as int)]
    } else {
        decimal_spec(n / 10).push(digit_char((n % 10) as int))
    }
}

/// The one-character text of a digit below sixteen.
pub fn digit_str(d: u8) -> (r: &'static str)
    requires
        d < 16,
    ensures
        r@ == seq![digit_char(d as int)],
{
    proof {
        reveal_strlit("0");
        reveal_strlit("1");
        reveal_strlit("2");
        reveal_strlit("3");
        reveal_strlit("4");
        reveal_strlit("5");
        reveal_strlit("6");
        reveal_strlit("7");
        reveal_strlit("8");
        reveal_strlit("9");
        reveal_strlit("a");
        reveal_strlit("b");
        reveal_strlit("c");
        reveal_strlit("d");
        reveal_strlit("e");
        reveal_strlit("f");
    }
    let r = match d {
        0 => "0",
        1 => "1",
        2 => "2",
        3 => "3",
        4 => "4",
        5 => "5",
        6 => "6",
        7 => "7",
        8 => "8",
        9 => "9",
        10 => "a",
        11 => "b",
        12 => "c",
        13 => "d",
        14 => "e",
        _ => "f",
    };
    assert(r@ =~= seq![digit_char(d as int)]);
    r
}

/// Appends the hexadecimal form of `bytes` to `out`.
pub fn push_hex(out: &mut String, bytes: &[u8])
    ensures
        final(out)@ == old(out)@ + hex_spec(bytes@),
{
    let ghost start = out@;
    let mut i: usize = 0;
    assert(bytes@.subrange(0, 0) =~= Seq::<u8>::empty());
    while i < bytes.len()
        invariant
            i <= bytes.len(),
            out@ == start + hex_spec(bytes@.subrange(0, i as int)),
        decreases bytes.len() - i,
    {
        let b: u8 = bytes[i];
        let ghost before = bytes@.subrange(0, i as int);
        let ghost after = bytes@.subrange(0, i + 1);
        assert(after.drop_last() =~= before);
        assert(after.last() == b);
        out.append(digit_str(b / 16));
        out.append(digit_str(b % 16));
        assert(out@ =~= start + hex_spec(after));
        i = i + 1;
    }
    assert(bytes@.subrange(0, bytes.len() as int) =~= bytes@);
}

/// Appends the decimal numeral of `n` to `out`.
pub fn push_decimal(out: &mut String, n: u64)
    ensures
        final(out)@ == old(out)@ + decimal_spec(n as nat),
    decreases n,
{
    if n >= 10 {
        push_decimal(out, n / 10);
    }
    out.append(digit_str((n % 10) as u8));
    assert(out@ =~= old(out)@ + decimal_spec(n as nat));
}

/// The 32 lowest bytes of `v`, least significant first: eight that carry
/// the number, then zeros.
pub fn le_bytes_32(v: u64) -> (r: [u8; 32])
    ensures
        r@ == le_bytes(v as nat, 32),
{
    let mut out = [0u8; 32];
    let mut rest: u64 = v;
    let mut i: usize = 0;
    while i < 32
        invariant
            i <= 32,
            rest == drop_low_bytes(v as nat, i as nat),
            forall|j: int| 0 <= j < i ==> out@[j] == le_byte(v as nat, j as nat),
        decreases 32 - i,
    {
        out[i] = (rest % 256) as u8;
        rest = rest / 256;
        i = i + 1;
    }
    assert(out@ =~= le_bytes(v as nat, 32));
    out
}

/// The four bytes of `v`, least significant first.
pub fn le_bytes_4(v: u32) -> (r: [u8; 4])
    ensures
        r@ == le_bytes(v as nat, 4),
{
    let mut out = [0u8; 4];
    let mut rest: u32 = v;
    let mut i: usize = 0;
    while i < 4
        invariant
            i <= 4,
            rest == drop_low_bytes(v as nat, i as nat),
            forall|j: int| 0 <= j < i ==> out@[j] == le_byte(v as nat, j as nat),
        decreases 4 - i,
    {
        out[i] = (rest % 256) as u8;
        rest = rest / 256;
        i = i + 1;
    }
    assert(out@ =~= le_bytes(v as nat, 4));
    out
}

/// The 32 lowest bytes of `v`, most significant first: zeros, then the
/// eight that carry the number.
pub fn be_bytes_32(v: u64) -> (r: [u8; 32])
    ensures
        r@ == be_bytes(v as nat, 32),
{
    let mut out = [0u8; 32];
    let mut rest: u64 = v;
    let mut i: usize = 0;
    while i < 32
        invariant
            i <= 32,
            rest == drop_low_bytes(v as nat, i as nat),
            forall|j: int| 32 - i <= j < 32 ==> out@[j] == le_byte(v as nat, (31 - j) as nat),
        decreases 32 - i,
    {
        out[31 - i] = (rest % 256) as u8;
        rest = rest / 256;
        i = i + 1;
    }
    assert(out@ =~= be_bytes(v as nat, 32));
    out
}

} // verus!

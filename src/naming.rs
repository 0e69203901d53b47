//! Deterministic names for the per-segment temporary files.

use vstd::prelude::*;

verus! {

/// The character of the decimal digit `d` (for `d < 10`).
pub open spec fn digit_char(d: nat) -> char {
    seq!['0', '1', '2', '3', '4', '5', '6', '7', '8', '9'][d as int]
}

/// The decimal digits of `n`, most significant first, without leading zeros.
pub open spec fn decimal(n: nat) -> Seq<char>
    decreases n,
{
    if n < 10 {
        seq![digit_char(n)]
    } else {
        decimal(n / 10).push(digit_char(n % 10))
    }
}

/// `k` zero characters.
pub open spec fn zeros(k: nat) -> Seq<char> {
    Seq::new(k, |i: int| '0')
}

/// The decimal digits of `n`, with leading zeros added up to `width` characters.
pub open spec fn padded(n: nat, width: nat) -> Seq<char> {
    let d = decimal(n);
    if d.len() < width {
        zeros((width - d.len()) as nat) + d
    } else {
        d
    }
}

/// The width to which segment indices are padded.
pub const INDEX_WIDTH: usize = 5;

/// The temporary file name of the segment at `index`: `seg_`, the index padded
/// to five digits, and `.ts`.
pub open spec fn segment_name(index: nat) -> Seq<char> {
    "seg_"@ + padded(index, INDEX_WIDTH as nat) + ".ts"@
}

proof fn lemma_decimal_shape(n: nat)
    ensures
        decimal(n).len() >= 1,
        n >= 10 ==> decimal(n).len() >= 2 && decimal(n)[0] != '0',
    decreases n,
{
    if n >= 10 {
        lemma_decimal_shape(n / 10);
        if n / 10 >= 10 {
        } else {
            assert(decimal(n / 10) == seq![digit_char(n / 10)]);
            assert(n / 10 != 0);
        }
        assert(decimal(n)[0] == decimal(n / 10)[0]);
    }
}

proof fn lemma_digit_char_injective(a: nat, b: nat)
    requires
        a < 10,
        b < 10,
        digit_char(a) == digit_char(b),
    ensures
        a == b,
{
}

/// Distinct numbers have distinct decimal representations.
proof fn lemma_decimal_injective(a: nat, b: nat)
    requires
        decimal(a) == decimal(b),
    ensures
        a == b,
    decreases a,
{
    lemma_decimal_shape(a);
    lemma_decimal_shape(b);
    if a < 10 && b < 10 {
        assert(decimal(a) == seq![digit_char(a)]);
        assert(decimal(b) == seq![digit_char(b)]);
        assert(decimal(a)[0] == digit_char(a));
        assert(decimal(b)[0] == digit_char(b));
        lemma_digit_char_injective(a, b);
    } else if a >= 10 && b >= 10 {
        let da = decimal(a);
        let db = decimal(b);
        assert(da.last() == digit_char(a % 10));
        assert(db.last() == digit_char(b % 10));
        lemma_digit_char_injective(a % 10, b % 10);
        assert(da.drop_last() == decimal(a / 10));
        assert(db.drop_last() == decimal(b / 10));
        lemma_decimal_injective(a / 10, b / 10);
    }
}

/// Padding to a common width keeps distinct numbers apart.
pub proof fn lemma_padded_injective(a: nat, b: nat, width: nat)
    requires
        padded(a, width) == padded(b, width),
    ensures
        a == b,
{
    let da = decimal(a);
    let db = decimal(b);
    lemma_decimal_shape(a);
    lemma_decimal_shape(b);
    let p = padded(a, width);
    let l = p.len() as int;
    if da.len() == db.len() {
        assert(da == p.subrange(l - da.len(), l));
        assert(db == p.subrange(l - db.len(), l));
        lemma_decimal_injective(a, b);
    } else if da.len() < db.len() {
        // the leading digit of `b` faces a padding zero of `a`
        assert(b >= 10);
        assert(padded(b, width)[l - db.len()] == db[0]);
        assert(p[l - db.len()] == '0');
    } else {
        assert(a >= 10);
        assert(p[l - da.len()] == da[0]);
        assert(padded(b, width)[l - da.len()] == '0');
    }
}

/// Two segments with different indices never share a temporary file name, so
/// each file can be located from its index alone.
pub proof fn lemma_segment_names_distinct(i: nat, j: nat)
    requires
        i != j,
    ensures
        segment_name(i) != segment_name(j),
{
    reveal_strlit("seg_");
    reveal_strlit(".ts");
    if segment_name(i) == segment_name(j) {
        let s = segment_name(i);
        let pi = padded(i, INDEX_WIDTH as nat);
        let pj = padded(j, INDEX_WIDTH as nat);
        assert(pi == s.subrange(4, s.len() - 3));
        assert(pj == segment_name(j).subrange(4, s.len() - 3));
        lemma_padded_injective(i, j, INDEX_WIDTH as nat);
    }
}

fn digit_str(d: u64) -> (r: &'static str)
    requires
        d < 10,
    ensures
        r@ == seq![digit_char(d as nat)],
{
    let r = if d == 0 {
        "0"
    } else if d == 1 {
        "1"
    } else if d == 2 {
        "2"
    } else if d == 3 {
        "3"
    } else if d == 4 {
        "4"
    } else if d == 5 {
        "5"
    } else if d == 6 {
        "6"
    } else if d == 7 {
        "7"
    } else if d == 8 {
        "8"
    } else {
        "9"
    };
    proof {
        reveal_strlit("0");
        reveal_strlit("1");
        reveal_strlit("2");
        reveal_strlit("3");
        reveal_strlit("4");
        reveal_strlit("5");
        reveal_strlit("6");
        reveal_strlit("7");
        reveal_strlit("8");
        reveal_strlit("9");
    }
    r
}

/// The decimal representation of `n`.
pub fn decimal_string(n: u64) -> (r: String)
    ensures
        r@ == decimal(n as nat),
    decreases n,
{
    if n < 10 {
        String::from_str(digit_str(n))
    } else {
        let head = decimal_string(n / 10);
        head.concat(digit_str(n % 10))
    }
}

/// The decimal representation of `n`, padded with leading zeros to `width`.
pub fn zero_padded(n: u64, width: usize) -> (r: String)
    ensures
        r@ == padded(n as nat, width as nat),
{
    let digits = decimal_string(n);
    let len = digits.as_str().unicode_len();
    if len >= width {
        return digits;
    }
    let mut out = String::new();
    let mut i: usize = 0;
    while i < width - len
        invariant
            i <= width - len,
            out@ == zeros(i as nat),
        decreases width - len - i,
    {
        proof {
            reveal_strlit("0");
        }
        out.append("0");
        i = i + 1;
        assert(out@ =~= zeros(i as nat));
    }
    out.append(digits.as_str());
    out
}

/// The temporary file name of the segment at `index`.
pub fn segment_file_name(index: usize) -> (r: String)
    ensures
        r@ == segment_name(index as nat),
{
    let mut name = String::from_str("seg_");
    let digits = zero_padded(index as u64, INDEX_WIDTH);
    name.append(digits.as_str());
    name.append(".ts");
    name
}

} // verus!

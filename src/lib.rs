use vstd::prelude::*;

pub mod color;
pub mod path;
pub mod raster;
pub mod scene;

verus! {

/// The character that writes the decimal digit `d` (for `d < 10`).
pub open spec fn digit_char(d: nat) -> char {
    if d == 0 {
        '0'
    } else if d == 1 {
        '1'
    } else if d == 2 {
        '2'
    } else if d == 3 {
        '3'
    } else if d == 4 {
        '4'
    } else if d == 5 {
        '5'
    } else if d == 6 {
        '6'
    } else if d == 7 {
        '7'
    } else if d == 8 {
        '8'
    } else {
        '9'
    }
}

/// The decimal form of `n`: most significant digit first, no leading zeros.
pub open spec fn decimal(n: nat) -> Seq<char>
    decreases n,
{
    if n < 10 {
        seq![digit_char(n)]
    } else {
        decimal(n / 10).push(digit_char(n % 10))
    }
}

/// `s` with `delim` put between its groups of three characters, counted from the right.
pub open spec fn grouped(s: Seq<char>, delim: char) -> Seq<char>
    decreases s.len(),
{
    if s.len() <= 3 {
        s
    } else {
        grouped(s.subrange(0, s.len() - 3), delim).push(delim) + s.subrange(
            s.len() - 3,
            s.len() as int,
        )
    }
}

/// Relies on `String::push`: the character is appended at the end.
pub assume_specification[ String::push ](s: &mut String, ch: char)
    ensures
        final(s)@ == old(s)@.push(ch),
;

fn digit_of(d: u64) -> (c: char)
    requires
        d < 10,
    ensures
        c == digit_char(d as nat),
{
    match d {
        0 => '0',
        1 => '1',
        2 => '2',
        3 => '3',
        4 => '4',
        5 => '5',
        6 => '6',
        7 => '7',
        8 => '8',
        _ => '9',
    }
}

/// The decimal digits of `value`, most significant first.
fn decimal_digits(value: u64) -> (ds: Vec<char>)
    ensures
        ds@ == decimal(value as nat),
{
    let mut n: u64 = value;
    let mut ds: Vec<char> = Vec::new();
    while n >= 10
        invariant
            decimal(value as nat) == decimal(n as nat) + ds@,
        decreases n,
    {
        let d = digit_of(n % 10);
        let ghost tail = ds@;
        ds.insert(0, d);
        assert(decimal(n as nat) == decimal((n / 10) as nat).push(d));
        assert(decimal(n as nat) + tail =~= decimal((n / 10) as nat) + ds@);
        n = n / 10;
    }
    let ghost tail = ds@;
    ds.insert(0, digit_of(n));
    assert(decimal(n as nat) + tail =~= ds@);
    ds
}

/// Appends `chars[start..end]` to `out`.
fn push_range(chars: &Vec<char>, start: usize, end: usize, out: &mut String)
    requires
        start <= end <= chars@.len(),
    ensures
        final(out)@ == old(out)@ + chars@.subrange(start as int, end as int),
{
    let ghost init = out@;
    let mut i: usize = start;
    while i < end
        invariant
            start <= i <= end <= chars@.len(),
            out@ == init + chars@.subrange(start as int, i as int),
        decreases end - i,
    {
        out.push(chars[i]);
        assert(init + chars@.subrange(start as int, i + 1) =~= (init + chars@.subrange(
            start as int,
            i as int,
        )).push(chars@[i as int]));
        i = i + 1;
    }
}

/// Appends `chars[..end]` to `out`, grouped in threes from the right by `delim`.
fn push_grouped(chars: &Vec<char>, end: usize, delim: char, out: &mut String)
    requires
        end <= chars@.len(),
    ensures
        final(out)@ == old(out)@ + grouped(chars@.subrange(0, end as int), delim),
    decreases end,
{
    let ghost s = chars@.subrange(0, end as int);
    if end <= 3 {
        push_range(chars, 0, end, out);
    } else {
        let ghost init = out@;
        push_grouped(chars, end - 3, delim, out);
        out.push(delim);
        push_range(chars, end - 3, end, out);
        assert(s.subrange(0, s.len() - 3) =~= chars@.subrange(0, end - 3));
        assert(s.subrange(s.len() - 3, s.len() as int) =~= chars@.subrange(
            end - 3,
            end as int,
        ));
        assert(out@ =~= init + grouped(s, delim));
    }
}

/// `value` in decimal, with `delim` between each group of three digits counted
/// from the right (`1234567` with `','` gives `"1,234,567"`).
pub fn delimited_int(delim: char, value: u64) -> (r: String)
    ensures
        r@ == grouped(decimal(value as nat), delim),
{
    let digits = decimal_digits(value);
    let mut r = String::new();
    push_grouped(&digits, digits.len(), delim, &mut r);
    assert(digits@.subrange(0, digits@.len() as int) =~= digits@);
    r
}

} // verus!

use vstd::prelude::*;
use vstd::string::*;

verus! {

/// The character of a decimal digit.
pub open spec fn digit_char(d: nat) -> char {
    if d == 0 { '0' }
    else if d == 1 { '1' }
    else if d == 2 { '2' }
    else if d == 3 { '3' }
    else if d == 4 { '4' }
    else if d == 5 { '5' }
    else if d == 6 { '6' }
    else if d == 7 { '7' }
    else if d == 8 { '8' }
    else { '9' }
}

/// `n` in decimal, without leading zeros.
pub open spec fn decimal(n: nat) -> Seq<char>
    decreases n,
{
    if n < 10 {
        seq![digit_char(n)]
    } else {
        decimal(n / 10).push(digit_char(n % 10))
    }
}

/// Octet `k` of an IPv4 address held as a `u32`, from the most significant.
pub open spec fn octet(a: u32, k: int) -> nat {
    if k == 0 {
        (a / 16777216) as nat
    } else if k == 1 {
        ((a / 65536) % 256) as nat
    } else if k == 2 {
        ((a / 256) % 256) as nat
    } else {
        (a % 256) as nat
    }
}

/// An IPv4 address in dotted decimal notation.
pub open spec fn ipv4_text(a: u32) -> Seq<char> {
    decimal(octet(a, 0)) + seq!['.'] + decimal(octet(a, 1)) + seq!['.'] + decimal(octet(a, 2))
        + seq!['.'] + decimal(octet(a, 3))
}

fn digit_str(d: u64) -> (r: &'static str)
    requires
        d < 10,
    ensures
        r@ == seq![digit_char(d as nat)],
{
    proof {
        reveal_strlit("0");
        reveal_strlit("1");
        reveal_strlit("2");
        reveal_strlit("3");
        reveal_strlit("4");
        reveal_strlit("5");
        reveal_strlit("6");
        reveal_strlit("7");
        reveal_strlit("8");
        reveal_strlit("9");
    }
    if d == 0 { "0" }
    else if d == 1 { "1" }
    else if d == 2 { "2" }
    else if d == 3 { "3" }
    else if d == 4 { "4" }
    else if d == 5 { "5" }
    else if d == 6 { "6" }
    else if d == 7 { "7" }
    else if d == 8 { "8" }
    else {
        assert(seq!['9'] =~= "9"@);
        "9"
    }
}

fn push_decimal(out: &mut String, n: u64)
    ensures
        final(out)@ == old(out)@ + decimal(n as nat),
    decreases n,
{
    if n >= 10 {
        push_decimal(out, n / 10);
    }
    out.append(digit_str(n % 10));
    proof {
        if n < 10 {
            assert(decimal(n as nat) == seq![digit_char(n as nat)]);
        }
    }
    assert(final(out)@ =~= old(out)@ + decimal(n as nat));
}

/// Renders an IPv4 address, held as a `u32`, in dotted decimal notation.
pub fn render_ipv4(a: u32) -> (r: String)
    ensures
        r@ == ipv4_text(a),
{
    proof {
        reveal_strlit(".");
    }
    let mut out = String::new();
    push_decimal(&mut out, (a / 16777216) as u64);
    out.append(".");
    push_decimal(&mut out, ((a / 65536) % 256) as u64);
    out.append(".");
    push_decimal(&mut out, ((a / 256) % 256) as u64);
    out.append(".");
    push_decimal(&mut out, (a % 256) as u64);
    assert(out@ =~= ipv4_text(a));
    out
}

/// Appends `n` in decimal to `prefix`.
pub fn append_decimal(prefix: String, n: u64) -> (r: String)
    ensures
        r@ == prefix@ + decimal(n as nat),
{
    let mut out = prefix;
    push_decimal(&mut out, n);
    out
}

/// Whether two texts are equal.
pub fn same_text(a: &str, b: &str) -> (r: bool)
    ensures
        r == (a@ == b@),
{
    let n = a.unicode_len();
    if n != b.unicode_len() {
        return false;
    }
    let mut i: usize = 0;
    while i < n
        invariant
            n == a@.len(),
            n == b@.len(),
            i <= n,
            forall|j: int| 0 <= j < i ==> a@[j] == b@[j],
        decreases n - i,
    {
        if a.get_char(i) != b.get_char(i) {
            return false;
        }
        i += 1;
    }
    assert(a@ =~= b@);
    true
}

} // verus!

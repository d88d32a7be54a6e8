//! Text helpers: comparing strings, writing numbers in decimal, joining paths.
use vstd::prelude::*;
use vstd::string::*;

verus! {

/// Whether two strings hold the same characters.
pub fn str_eq(a: &str, b: &str) -> (r: bool)
    ensures
        r == (a@ == b@),
{
    let ab = a.as_bytes();
    let bb = b.as_bytes();
    proof {
        vstd::utf8::encode_utf8_decode_utf8(a@);
        vstd::utf8::encode_utf8_decode_utf8(b@);
    }
    if ab.len() != bb.len() {
        return false;
    }
    let mut i: usize = 0;
    while i < ab.len()
        invariant
            ab@ == a.spec_bytes(),
            bb@ == b.spec_bytes(),
            ab@.len() == bb@.len(),
            i <= ab@.len(),
            forall|j: int| 0 <= j < i ==> ab@[j] == bb@[j],
        decreases ab@.len() - i,
    {
        if ab[i] != bb[i] {
            return false;
        }
        i = i + 1;
    }
    assert(ab@ == bb@);
    true
}

/// The decimal digit `d`.
pub open spec fn spec_digit(d: nat) -> char {
    if d == 0 {
        '0'
    } else if d == 1 {
        '1'
    } else if d == 2 {
        '2'
    } else if d == 3 {
        '3'
    } else if d == 4 {
        '4'
    } else if d == 5 {
        '5'
    } else if d == 6 {
        '6'
    } else if d == 7 {
        '7'
    } else if d == 8 {
        '8'
    } else {
        '9'
    }
}

/// `n` written in decimal, without leading zeros.
pub open spec fn spec_decimal(n: nat) -> Seq<char>
    decreases n,
{
    if n < 10 {
        seq![spec_digit(n)]
    } else {
        spec_decimal(n / 10).push(spec_digit(n % 10))
    }
}

/// The value of a decimal digit character.
pub open spec fn digit_value(c: char) -> int {
    (c as u32) as int - ('0' as u32) as int
}

/// The number that a string of decimal digits stands for.
pub open spec fn decimal_value(s: Seq<char>) -> int
    decreases s.len(),
{
    if s.len() == 0 {
        0
    } else {
        decimal_value(s.drop_last()) * 10 + digit_value(s.last())
    }
}

proof fn lemma_digit_value(d: nat)
    requires
        d < 10,
    ensures
        digit_value(spec_digit(d)) == d,
        '0' <= spec_digit(d) <= '9',
        spec_digit(d) == '0' ==> d == 0,
{
}

/// `decimal(n)` reads back as `n`: it is made of the digits `0` to `9`, read
/// as a decimal number it is `n`, and it starts with `0` only when `n` is 0.
pub proof fn lemma_decimal_reads_back(n: nat)
    ensures
        decimal_value(spec_decimal(n)) == n,
        forall|i: int|
            0 <= i < spec_decimal(n).len() ==> '0' <= #[trigger] spec_decimal(n)[i] <= '9',
        spec_decimal(n).len() > 0,
        spec_decimal(n)[0] == '0' ==> n == 0,
    decreases n,
{
    if n < 10 {
        lemma_digit_value(n);
        assert(spec_decimal(n).drop_last() =~= Seq::<char>::empty());
        assert(decimal_value(Seq::<char>::empty()) == 0);
        assert(decimal_value(spec_decimal(n)) == 0 * 10 + digit_value(spec_digit(n)));
    } else {
        lemma_digit_value(n % 10);
        lemma_decimal_reads_back(n / 10);
        let p = spec_decimal(n / 10);
        assert(spec_decimal(n).drop_last() =~= p);
        assert(spec_decimal(n).last() == spec_digit(n % 10));
        assert(decimal_value(spec_decimal(n)) == decimal_value(p) * 10 + digit_value(
            spec_digit(n % 10),
        ));
        assert((n / 10) * 10 + n % 10 == n) by (nonlinear_arith);
        assert(spec_decimal(n)[0] == p[0]);
        assert forall|i: int| 0 <= i < spec_decimal(n).len() implies '0' <= #[trigger] spec_decimal(
            n,
        )[i] <= '9' by {
            if i < p.len() {
                assert(spec_decimal(n)[i] == p[i]);
            }
        }
    }
}

fn digit(d: u64) -> (s: &'static str)
    requires
        d < 10,
    ensures
        s@ == seq![spec_digit(d as nat)],
{
    if d == 0 {
        proof {
            reveal_strlit("0");
        }
        "0"
    } else if d == 1 {
        proof {
            reveal_strlit("1");
        }
        "1"
    } else if d == 2 {
        proof {
            reveal_strlit("2");
        }
        "2"
    } else if d == 3 {
        proof {
            reveal_strlit("3");
        }
        "3"
    } else if d == 4 {
        proof {
            reveal_strlit("4");
        }
        "4"
    } else if d == 5 {
        proof {
            reveal_strlit("5");
        }
        "5"
    } else if d == 6 {
        proof {
            reveal_strlit("6");
        }
        "6"
    } else if d == 7 {
        proof {
            reveal_strlit("7");
        }
        "7"
    } else if d == 8 {
        proof {
            reveal_strlit("8");
        }
        "8"
    } else {
        proof {
            reveal_strlit("9");
        }
        "9"
    }
}

/// `n` written in decimal, as `format!("{}", n)` writes it.
pub fn decimal(n: u64) -> (s: String)
    ensures
        s@ == spec_decimal(n as nat),
    decreases n,
{
    if n < 10 {
        String::from_str(digit(n))
    } else {
        let mut s = decimal(n / 10);
        s.append(digit(n % 10));
        s
    }
}

/// The path `name` relative to `base`, as `Path::join` forms it: an absolute
/// `name` stands alone, otherwise a separator is put between the two unless
/// `base` is empty or already ends with one.
pub open spec fn spec_join(base: Seq<char>, name: Seq<char>) -> Seq<char> {
    if name.len() > 0 && name[0] == '/' {
        name
    } else if base.len() == 0 || base.last() == '/' {
        base + name
    } else {
        base + "/"@ + name
    }
}

/// A joined path ends with `name`. An absolute `name` is the whole result;
/// otherwise the result starts with `base`, and between the two stands
/// exactly one separator when `base` is not empty (the one `base` ends with,
/// or one added) and none when it is.
pub proof fn lemma_join_shape(base: Seq<char>, name: Seq<char>)
    ensures
        ({
            let j = spec_join(base, name);
            &&& j.len() >= name.len()
            &&& j.subrange(j.len() - name.len(), j.len() as int) == name
            &&& name.len() > 0 && name[0] == '/' ==> j == name
            &&& !(name.len() > 0 && name[0] == '/') ==> {
                &&& j.subrange(0, base.len() as int) == base
                &&& base.len() == 0 ==> j == name
                &&& base.len() > 0 ==> j[j.len() - name.len() - 1] == '/'
                &&& base.len() > 0 && base.last() == '/' ==> j.len() == base.len() + name.len()
                &&& base.len() > 0 && base.last() != '/' ==> j.len() == base.len() + 1 + name.len()
            }
        }),
{
    let j = spec_join(base, name);
    if name.len() > 0 && name[0] == '/' {
        assert(j.subrange(0, j.len() as int) =~= name);
    } else if base.len() == 0 || base.last() == '/' {
        assert(j.subrange(j.len() - name.len(), j.len() as int) =~= name);
        assert(j.subrange(0, base.len() as int) =~= base);
        if base.len() == 0 {
            assert(j =~= name);
        } else {
            assert(j[j.len() - name.len() - 1] == base[base.len() - 1]);
        }
    } else {
        reveal_strlit("/");
        assert("/"@.len() == 1 && "/"@[0] == '/');
        assert(j.subrange(j.len() - name.len(), j.len() as int) =~= name);
        assert(j.subrange(0, base.len() as int) =~= base);
        assert(j[base.len() as int] == '/');
    }
}

/// Joins `name` to the path `base` (see [`spec_join`]).
pub fn join(base: &str, name: &str) -> (s: String)
    ensures
        s@ == spec_join(base@, name@),
{
    let nl = name.unicode_len();
    if nl > 0 && name.get_char(0) == '/' {
        return String::from_str(name);
    }
    let bl = base.unicode_len();
    if bl == 0 || base.get_char(bl - 1) == '/' {
        let s = String::from_str(base);
        s.concat(name)
    } else {
        let s = String::from_str(base);
        let s = s.concat("/");
        s.concat(name)
    }
}

} // verus!

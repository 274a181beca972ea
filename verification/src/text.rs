use vstd::prelude::*;

verus! {

/// The character for one decimal digit.
pub open spec fn spec_digit_char(d: nat) -> char {
    if d == 0 {
        '0'
    } else if d == 1 {
        '1'
    } else if d == 2 {
        '2'
    } else if d == 3 {
        '3'
    } else if d == 4 {
        '4'
    } else if d == 5 {
        '5'
    } else if d == 6 {
        '6'
    } else if d == 7 {
        '7'
    } else if d == 8 {
        '8'
    } else {
        '9'
    }
}

/// The decimal numeral of `n`: most significant digit first, no sign,
/// no leading zero, a single `'0'` for zero.
pub open spec fn spec_decimal(n: nat) -> Seq<char>
    decreases n,
{
    if n < 10 {
        seq![spec_digit_char(n)]
    } else {
        spec_decimal(n / 10).push(spec_digit_char(n % 10))
    }
}

/// The digit characters of `ds` read back to front: `ds` stores a
/// numeral least significant digit first, this is the numeral itself.
spec fn chars_of_rev(ds: Seq<u64>) -> Seq<char>
    decreases ds.len(),
{
    if ds.len() == 0 {
        Seq::empty()
    } else {
        chars_of_rev(ds.drop_first()) + seq![spec_digit_char(ds.first() as nat)]
    }
}

/// Appending a digit at the back of the store prepends its character
/// to the numeral.
proof fn lemma_chars_of_rev_push(ds: Seq<u64>, d: u64)
    ensures
        chars_of_rev(ds.push(d)) == seq![spec_digit_char(d as nat)] + chars_of_rev(ds),
    decreases ds.len(),
{
    if ds.len() == 0 {
        assert(ds.push(d).len() == 1);
        assert(ds.push(d).first() == d);
        assert(ds.push(d).drop_first() =~= Seq::<u64>::empty());
        assert(chars_of_rev(ds.push(d).drop_first()) == Seq::<char>::empty());
        assert(chars_of_rev(ds) == Seq::<char>::empty());
        assert(chars_of_rev(ds.push(d)) =~= seq![spec_digit_char(d as nat)] + chars_of_rev(ds));
    } else {
        assert(ds.push(d).len() == ds.len() + 1);
        assert(ds.push(d).first() == ds.first());
        assert(ds.push(d).drop_first() =~= ds.drop_first().push(d));
        lemma_chars_of_rev_push(ds.drop_first(), d);
        assert(chars_of_rev(ds.push(d)) == chars_of_rev(ds.drop_first().push(d)) + seq![
            spec_digit_char(ds.first() as nat),
        ]);
        assert(chars_of_rev(ds.push(d)) =~= seq![spec_digit_char(d as nat)] + chars_of_rev(ds));
    }
}

/// The one-character string for a decimal digit.
fn digit_str(d: u64) -> (r: &'static str)
    requires
        d < 10,
    ensures
        r@ == seq![spec_digit_char(d as nat)],
{
    proof {
        reveal_strlit("0");
        reveal_strlit("1");
        reveal_strlit("2");
        reveal_strlit("3");
        reveal_strlit("4");
        reveal_strlit("5");
        reveal_strlit("6");
        reveal_strlit("7");
        reveal_strlit("8");
        reveal_strlit("9");
    }
    let r = if d == 0 {
        "0"
    } else if d == 1 {
        "1"
    } else if d == 2 {
        "2"
    } else if d == 3 {
        "3"
    } else if d == 4 {
        "4"
    } else if d == 5 {
        "5"
    } else if d == 6 {
        "6"
    } else if d == 7 {
        "7"
    } else if d == 8 {
        "8"
    } else {
        "9"
    };
    proof {
        assert(r@ =~= seq![spec_digit_char(d as nat)]);
    }
    r
}

/// Formats `n` as its decimal numeral.
pub fn u64_to_string(n: u64) -> (r: String)
    ensures
        r@ == spec_decimal(n as nat),
{
    let mut digits: Vec<u64> = Vec::new();
    let mut m: u64 = n;
    loop
        invariant_except_break
            spec_decimal(n as nat) == spec_decimal(m as nat) + chars_of_rev(digits@),
            forall|j: int| 0 <= j < digits@.len() ==> digits@[j] < 10,
        ensures
            spec_decimal(n as nat) == chars_of_rev(digits@),
            forall|j: int| 0 <= j < digits@.len() ==> digits@[j] < 10,
        decreases m,
    {
        let d = m % 10;
        proof {
            lemma_chars_of_rev_push(digits@, d);
        }
        digits.push(d);
        let next = m / 10;
        if next == 0 {
            proof {
                assert(spec_decimal(m as nat) =~= seq![spec_digit_char(m as nat)]);
                assert(spec_decimal(n as nat) =~= chars_of_rev(digits@));
            }
            break;
        }
        proof {
            assert(spec_decimal(n as nat) =~= spec_decimal(next as nat) + chars_of_rev(digits@));
        }
        m = next;
    }
    let mut r = String::new();
    let mut i: usize = digits.len();
    proof {
        assert(digits@.skip(i as int) =~= Seq::<u64>::empty());
    }
    while i > 0
        invariant
            i <= digits@.len(),
            forall|j: int| 0 <= j < digits@.len() ==> digits@[j] < 10,
            r@ == chars_of_rev(digits@.skip(i as int)),
        decreases i,
    {
        let d = digits[i - 1];
        proof {
            assert(digits@.skip(i as int - 1).drop_first() =~= digits@.skip(i as int));
            assert(digits@.skip(i as int - 1).first() == digits@[i as int - 1]);
        }
        let piece = digit_str(d);
        r.append(piece);
        proof {
            assert(r@ =~= chars_of_rev(digits@.skip(i as int - 1)));
        }
        i = i - 1;
    }
    proof {
        assert(digits@.skip(0) =~= digits@);
    }
    r
}

} // verus!

//! Window identities: labels of the form `window-<n>`, allocated from a
//! counter that only increases, so no two windows ever share a label.
use vstd::prelude::*;
use vstd::string::StringExecFns;

verus! {

/// The decimal digit character for `d`, for `d < 10`.
pub open spec fn digit_char(d: nat) -> char {
    if d == 0 {
        '0'
    } else if d == 1 {
        '1'
    } else if d == 2 {
        '2'
    } else if d == 3 {
        '3'
    } else if d == 4 {
        '4'
    } else if d == 5 {
        '5'
    } else if d == 6 {
        '6'
    } else if d == 7 {
        '7'
    } else if d == 8 {
        '8'
    } else {
        '9'
    }
}

/// The decimal digits of `n`, most significant first, without leading zeros
/// (`0` is written as the single digit `0`).
pub open spec fn dec_digits(n: nat) -> Seq<char>
    decreases n,
{
    if n < 10 {
        seq![digit_char(n)]
    } else {
        dec_digits(n / 10).push(digit_char(n % 10))
    }
}

/// The label of the window whose counter value is `n`.
pub open spec fn window_label(n: nat) -> Seq<char> {
    "window-"@ + dec_digits(n)
}

fn digit_str(d: u32) -> (r: &'static str)
    requires
        d < 10,
    ensures
        r@ == seq![digit_char(d as nat)],
{
    proof {
        reveal_strlit("0");
        reveal_strlit("1");
        reveal_strlit("2");
        reveal_strlit("3");
        reveal_strlit("4");
        reveal_strlit("5");
        reveal_strlit("6");
        reveal_strlit("7");
        reveal_strlit("8");
        reveal_strlit("9");
    }
    let r: &'static str = if d == 0 {
        "0"
    } else if d == 1 {
        "1"
    } else if d == 2 {
        "2"
    } else if d == 3 {
        "3"
    } else if d == 4 {
        "4"
    } else if d == 5 {
        "5"
    } else if d == 6 {
        "6"
    } else if d == 7 {
        "7"
    } else if d == 8 {
        "8"
    } else {
        "9"
    };
    proof {
        assert(r@ =~= seq![digit_char(d as nat)]);
    }
    r
}

/// The decimal rendering of `n`.
pub fn u32_to_string(n: u32) -> (s: String)
    ensures
        s@ == dec_digits(n as nat),
    decreases n,
{
    if n < 10 {
        String::from_str(digit_str(n))
    } else {
        let mut s = u32_to_string(n / 10);
        s.append(digit_str(n % 10));
        proof {
            assert(dec_digits(n as nat) =~= dec_digits((n / 10) as nat) + seq![
                digit_char((n % 10) as nat),
            ]);
        }
        s
    }
}

/// The label `window-<n>` for counter value `n`.
pub fn format_window_label(n: u32) -> (s: String)
    ensures
        s@ == window_label(n as nat),
{
    let mut s = String::from_str("window-");
    let num = u32_to_string(n);
    s.append(num.as_str());
    s
}

proof fn lemma_dec_digits_len(n: nat)
    ensures
        dec_digits(n).len() >= 1,
        n >= 10 ==> dec_digits(n).len() >= 2,
    decreases n,
{
    if n >= 10 {
        lemma_dec_digits_len(n / 10);
    }
}

proof fn lemma_digit_char_injective(a: nat, b: nat)
    requires
        a < 10,
        b < 10,
        a != b,
    ensures
        digit_char(a) != digit_char(b),
{
}

proof fn lemma_dec_digits_injective(a: nat, b: nat)
    requires
        a != b,
    ensures
        dec_digits(a) != dec_digits(b),
    decreases a + b,
{
    lemma_dec_digits_len(a);
    lemma_dec_digits_len(b);
    if a < 10 && b < 10 {
        lemma_digit_char_injective(a, b);
        if dec_digits(a) == dec_digits(b) {
            assert(dec_digits(a)[0] == dec_digits(b)[0]);
        }
    } else if a < 10 && b >= 10 {
        assert(dec_digits(a).len() == 1);
    } else if a >= 10 && b < 10 {
        assert(dec_digits(b).len() == 1);
    } else {
        if a % 10 != b % 10 {
            lemma_digit_char_injective(a % 10, b % 10);
            if dec_digits(a) == dec_digits(b) {
                assert(dec_digits(a).last() == dec_digits(b).last());
            }
        } else {
            assert(a / 10 != b / 10) by {
                vstd::arithmetic::div_mod::lemma_fundamental_div_mod(a as int, 10);
                vstd::arithmetic::div_mod::lemma_fundamental_div_mod(b as int, 10);
            }
            lemma_dec_digits_injective(a / 10, b / 10);
            if dec_digits(a) == dec_digits(b) {
                assert(dec_digits(a).drop_last() =~= dec_digits(a / 10));
                assert(dec_digits(b).drop_last() =~= dec_digits(b / 10));
            }
        }
    }
}

/// Distinct counter values give distinct window labels.
pub proof fn lemma_window_label_injective(a: nat, b: nat)
    requires
        a != b,
    ensures
        window_label(a) != window_label(b),
{
    lemma_dec_digits_injective(a, b);
    if window_label(a) == window_label(b) {
        let p = "window-"@;
        let x = dec_digits(a);
        let y = dec_digits(b);
        assert((p + x).len() == (p + y).len());
        assert forall|i: int| 0 <= i < x.len() implies x[i] == y[i] by {
            assert(x[i] == (p + x)[p.len() + i]);
            assert(y[i] == (p + y)[p.len() + i]);
        }
        assert(x =~= y);
    }
}

/// A label drawn from the counter never collides with the configured `main`
/// window: the two name spaces are disjoint.
pub proof fn lemma_window_label_not_main(n: nat)
    ensures
        window_label(n) != "main"@,
{
    reveal_strlit("window-");
    reveal_strlit("main");
    lemma_dec_digits_len(n);
    if window_label(n) == "main"@ {
        assert(window_label(n).len() == "main"@.len());
    }
}

/// A label about to be drawn at counter value `c` is fresh: in a registry
/// whose live labels are the configured `main` window and labels drawn at
/// earlier counter values, it does not occur.
pub proof fn lemma_fresh_label(labels: Seq<Seq<char>>, c: nat)
    requires
        forall|i: int|
            0 <= i < labels.len() ==> labels[i] == "main"@ || (exists|k: nat|
                k < c && labels[i] == window_label(k)),
    ensures
        !labels.contains(window_label(c)),
{
    if labels.contains(window_label(c)) {
        let i = choose|i: int| 0 <= i < labels.len() && labels[i] == window_label(c);
        lemma_window_label_not_main(c);
        if labels[i] != "main"@ {
            let k = choose|k: nat| k < c && labels[i] == window_label(k);
            lemma_window_label_injective(k, c);
        }
    }
}

/// Window identities handed out in strictly increasing counter order are
/// pairwise distinct, whatever the sequence of allocations was.
pub proof fn lemma_allocated_labels_distinct(ids: Seq<nat>)
    requires
        forall|i: int, j: int| 0 <= i < j < ids.len() ==> ids[i] < ids[j],
    ensures
        forall|i: int, j: int|
            0 <= i < j < ids.len() ==> window_label(ids[i]) != window_label(ids[j]),
{
    assert forall|i: int, j: int|
        0 <= i < j < ids.len() implies window_label(ids[i]) != window_label(ids[j]) by {
        lemma_window_label_injective(ids[i], ids[j]);
    }
}

} // verus!

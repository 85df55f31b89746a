use vstd::prelude::*;

verus! {

/// The decimal digit character for `d` (meaningful for `d <= 9`).
pub open spec fn digit_char(d: nat) -> char {
    if d == 0 {
        '0'
    } else if d == 1 {
        '1'
    } else if d == 2 {
        '2'
    } else if d == 3 {
        '3'
    } else if d == 4 {
        '4'
    } else if d == 5 {
        '5'
    } else if d == 6 {
        '6'
    } else if d == 7 {
        '7'
    } else if d == 8 {
        '8'
    } else {
        '9'
    }
}

/// The decimal rendering of `n`: most significant digit first, no leading
/// zeros, a single `'0'` for zero.
pub open spec fn decimal_view(n: nat) -> Seq<char>
    decreases n,
{
    if n < 10 {
        seq![digit_char(n)]
    } else {
        decimal_view(n / 10) + seq![digit_char(n % 10)]
    }
}

/// The event channel name owed to subscription id `id`: the fixed scheme
/// prefix followed by the id in decimal.
pub open spec fn channel_name_view(id: u32) -> Seq<char> {
    "graphql://"@ + decimal_view(id as nat)
}

fn push_digit(s: &mut String, d: u32)
    requires
        d <= 9,
    ensures
        final(s)@ == old(s)@ + seq![digit_char(d as nat)],
{
    if d == 0 {
        proof {
            reveal_strlit("0");
            assert("0"@ =~= seq![digit_char(0)]);
        }
        s.append("0");
    } else if d == 1 {
        proof {
            reveal_strlit("1");
            assert("1"@ =~= seq![digit_char(1)]);
        }
        s.append("1");
    } else if d == 2 {
        proof {
            reveal_strlit("2");
            assert("2"@ =~= seq![digit_char(2)]);
        }
        s.append("2");
    } else if d == 3 {
        proof {
            reveal_strlit("3");
            assert("3"@ =~= seq![digit_char(3)]);
        }
        s.append("3");
    } else if d == 4 {
        proof {
            reveal_strlit("4");
            assert("4"@ =~= seq![digit_char(4)]);
        }
        s.append("4");
    } else if d == 5 {
        proof {
            reveal_strlit("5");
            assert("5"@ =~= seq![digit_char(5)]);
        }
        s.append("5");
    } else if d == 6 {
        proof {
            reveal_strlit("6");
            assert("6"@ =~= seq![digit_char(6)]);
        }
        s.append("6");
    } else if d == 7 {
        proof {
            reveal_strlit("7");
            assert("7"@ =~= seq![digit_char(7)]);
        }
        s.append("7");
    } else if d == 8 {
        proof {
            reveal_strlit("8");
            assert("8"@ =~= seq![digit_char(8)]);
        }
        s.append("8");
    } else {
        proof {
            reveal_strlit("9");
            assert("9"@ =~= seq![digit_char(9)]);
        }
        s.append("9");
    }
}

fn push_decimal(s: &mut String, n: u32)
    ensures
        final(s)@ == old(s)@ + decimal_view(n as nat),
    decreases n,
{
    if n >= 10 {
        push_decimal(s, n / 10);
        push_digit(s, n % 10);
        proof {
            assert(final(s)@ =~= old(s)@ + decimal_view(n as nat));
        }
    } else {
        push_digit(s, n);
    }
}

/// Derives the event channel name for a subscription id. The name is a pure
/// function of the id: one name per subscription, stable for its lifetime.
pub fn channel_name(id: u32) -> (r: String)
    ensures
        r@ == channel_name_view(id),
{
    let mut s = String::from_str("graphql://");
    push_decimal(&mut s, id);
    s
}

proof fn lemma_digit_char_injective(a: nat, b: nat)
    requires
        a <= 9,
        b <= 9,
        digit_char(a) == digit_char(b),
    ensures
        a == b,
{
    assert(digit_char(a) as int == digit_char(b) as int);
    if a != b {
        assert(false);
    }
}

proof fn lemma_decimal_len_pos(n: nat)
    ensures
        decimal_view(n).len() >= 1,
    decreases n,
{
    if n >= 10 {
        lemma_decimal_len_pos(n / 10);
    }
}

proof fn lemma_decimal_injective(a: nat, b: nat)
    requires
        decimal_view(a) == decimal_view(b),
    ensures
        a == b,
    decreases a,
{
    if a < 10 && b < 10 {
        assert(decimal_view(a)[0] == digit_char(a));
        assert(decimal_view(b)[0] == digit_char(b));
        lemma_digit_char_injective(a, b);
    } else if a < 10 && b >= 10 {
        lemma_decimal_len_pos(b / 10);
        assert(decimal_view(b).len() >= 2);
    } else if a >= 10 && b < 10 {
        lemma_decimal_len_pos(a / 10);
        assert(decimal_view(a).len() >= 2);
    } else {
        assert(decimal_view(a).drop_last() =~= decimal_view(a / 10));
        assert(decimal_view(b).drop_last() =~= decimal_view(b / 10));
        lemma_decimal_injective(a / 10, b / 10);
        assert(decimal_view(a).last() == digit_char(a % 10));
        assert(decimal_view(b).last() == digit_char(b % 10));
        lemma_digit_char_injective(a % 10, b % 10);
    }
}

/// Distinct subscription ids never share an event channel: the channel name
/// is injective in the id, so events for one subscription can never be
/// delivered on another subscription's channel.
pub proof fn lemma_distinct_ids_distinct_channels(a: u32, b: u32)
    requires
        a != b,
    ensures
        channel_name_view(a) != channel_name_view(b),
{
    if channel_name_view(a) == channel_name_view(b) {
        let p = "graphql://"@;
        let x = decimal_view(a as nat);
        let y = decimal_view(b as nat);
        assert((p + x).len() == (p + y).len());
        assert(x =~= y) by {
            assert forall|i: int| 0 <= i < x.len() implies x[i] == y[i] by {
                assert((p + x)[p.len() + i] == (p + y)[p.len() + i]);
            }
        }
        lemma_decimal_injective(a as nat, b as nat);
    }
}

} // verus!

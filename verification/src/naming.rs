use crate::text::{Text, clone_text, contains_text, texts};
use vstd::prelude::*;
use vstd::string::*;

verus! {

/// The character of a decimal digit.
pub open spec fn digit_char(d: nat) -> char {
    if d == 0 {
        '0'
    } else if d == 1 {
        '1'
    } else if d == 2 {
        '2'
    } else if d == 3 {
        '3'
    } else if d == 4 {
        '4'
    } else if d == 5 {
        '5'
    } else if d == 6 {
        '6'
    } else if d == 7 {
        '7'
    } else if d == 8 {
        '8'
    } else {
        '9'
    }
}

/// A number in decimal digits, without leading zeros.
pub open spec fn decimal(n: nat) -> Text
    decreases n,
{
    if n < 10 {
        seq![digit_char(n)]
    } else {
        decimal(n / 10).push(digit_char(n % 10))
    }
}

/// A number has at least one digit.
pub proof fn lemma_decimal_not_empty(n: nat)
    ensures
        decimal(n).len() > 0,
    decreases n,
{
    if n >= 10 {
        lemma_decimal_not_empty(n / 10);
    }
}

fn digit_str(d: usize) -> (r: &'static str)
    requires
        d < 10,
    ensures
        r@ == seq![digit_char(d as nat)],
{
    proof {
        reveal_strlit("0");
        reveal_strlit("1");
        reveal_strlit("2");
        reveal_strlit("3");
        reveal_strlit("4");
        reveal_strlit("5");
        reveal_strlit("6");
        reveal_strlit("7");
        reveal_strlit("8");
        reveal_strlit("9");
    }
    let r = if d == 0 {
        "0"
    } else if d == 1 {
        "1"
    } else if d == 2 {
        "2"
    } else if d == 3 {
        "3"
    } else if d == 4 {
        "4"
    } else if d == 5 {
        "5"
    } else if d == 6 {
        "6"
    } else if d == 7 {
        "7"
    } else if d == 8 {
        "8"
    } else {
        "9"
    };
    proof {
        assert(r@ =~= seq![digit_char(d as nat)]);
    }
    r
}

/// Writes a number in decimal digits.
pub fn decimal_text(n: usize) -> (r: String)
    ensures
        r@ == decimal(n as nat),
    decreases n,
{
    if n < 10 {
        String::from_str(digit_str(n))
    } else {
        let mut r = decimal_text(n / 10);
        let d = digit_str(n % 10);
        r.append(d);
        proof {
            assert(r@ =~= decimal((n / 10) as nat).push(digit_char((n % 10) as nat)));
        }
        r
    }
}

/// The length of the longest of `items`.
pub open spec fn max_len(items: Seq<Text>) -> nat
    decreases items.len(),
{
    if items.len() == 0 {
        0
    } else {
        let rest = max_len(items.drop_last());
        if items.last().len() > rest {
            items.last().len()
        } else {
            rest
        }
    }
}

/// No item is longer than the longest.
pub proof fn lemma_max_len(items: Seq<Text>, i: int)
    requires
        0 <= i < items.len(),
    ensures
        items[i].len() <= max_len(items),
    decreases items.len(),
{
    if i < items.len() - 1 {
        lemma_max_len(items.drop_last(), i);
    }
}

/// `base` where it is none of `taken`; else `base` with `suffix` behind it
/// as often as it takes to leave `taken`, and at most `budget` times.
pub open spec fn fresh(base: Text, suffix: Text, taken: Seq<Text>, budget: nat) -> Text
    decreases budget,
{
    if budget == 0 || !taken.contains(base) {
        base
    } else {
        fresh(base + suffix, suffix, taken, (budget - 1) as nat)
    }
}

/// A name that is none of `taken`: `base`, made longer by `suffix` as often
/// as it takes.
pub open spec fn fresh_name(base: Text, suffix: Text, taken: Seq<Text>) -> Text {
    fresh(base, suffix, taken, max_len(taken) + 1)
}

/// With a budget that reaches beyond the longest taken name, the name
/// that `fresh` gives is not taken.
pub proof fn lemma_fresh(base: Text, suffix: Text, taken: Seq<Text>, budget: nat)
    requires
        suffix.len() > 0,
        budget + base.len() > max_len(taken),
    ensures
        !taken.contains(fresh(base, suffix, taken, budget)),
    decreases budget,
{
    if taken.contains(base) {
        let i = choose|i: int| 0 <= i < taken.len() && taken[i] == base;
        lemma_max_len(taken, i);
        lemma_fresh(base + suffix, suffix, taken, (budget - 1) as nat);
    }
}

/// The fresh name is none of the taken ones.
pub proof fn lemma_fresh_name(base: Text, suffix: Text, taken: Seq<Text>)
    requires
        suffix.len() > 0,
    ensures
        !taken.contains(fresh_name(base, suffix, taken)),
{
    lemma_fresh(base, suffix, taken, max_len(taken) + 1);
}

fn longest(items: &Vec<String>) -> (r: usize)
    ensures
        r == max_len(texts(items@)),
{
    let mut r: usize = 0;
    let mut i: usize = 0;
    while i < items.len()
        invariant
            i <= items.len(),
            r == max_len(texts(items@).take(i as int)),
        decreases items.len() - i,
    {
        proof {
            assert(texts(items@).take(i + 1).drop_last() =~= texts(items@).take(i as int));
            assert(texts(items@).take(i + 1).last() == items@[i as int]@);
        }
        let n = items[i].as_str().unicode_len();
        if n > r {
            r = n;
        }
        i += 1;
    }
    proof {
        assert(texts(items@).take(items.len() as int) =~= texts(items@));
    }
    r
}

/// Makes `base` a name that is none of `taken`.
pub fn make_fresh(base: &String, suffix: &String, taken: &Vec<String>) -> (r: String)
    ensures
        r@ == fresh_name(base@, suffix@, texts(taken@)),
{
    let mut name = clone_text(base);
    let bound = longest(taken);
    let mut used: usize = 0;
    let mut more: bool = true;
    while more && contains_text(taken, &name)
        invariant
            used <= bound,
            more ==> fresh_name(base@, suffix@, texts(taken@)) == fresh(
                name@,
                suffix@,
                texts(taken@),
                (bound - used + 1) as nat,
            ),
            !more ==> fresh_name(base@, suffix@, texts(taken@)) == name@,
            bound == max_len(texts(taken@)),
        decreases bound - used + (if more { 1nat } else { 0nat }),
    {
        name.append(suffix.as_str());
        if used == bound {
            more = false;
            proof {
                assert(fresh(name@, suffix@, texts(taken@), 0) == name@);
            }
        } else {
            used += 1;
        }
    }
    name
}

} // verus!

//! Task names: one adjective, one noun and a number below one thousand,
//! written one after the other with no separator.
use rand::Rng;
use vstd::prelude::*;

verus! {

/// How many adjectives and nouns there are to choose from.
pub const WORD_CHOICES: u64 = 5;

/// The numbers drawn lie below this bound.
pub const NUMBER_BOUND: u64 = 1000;

/// The adjective with index `i`.
pub open spec fn adjective(i: nat) -> Seq<char> {
    if i == 0 {
        "Quick"@
    } else if i == 1 {
        "Lazy"@
    } else if i == 2 {
        "Sleepy"@
    } else if i == 3 {
        "Noisy"@
    } else {
        "Hungry"@
    }
}

/// The noun with index `i`.
pub open spec fn noun(i: nat) -> Seq<char> {
    if i == 0 {
        "Fox"@
    } else if i == 1 {
        "Dog"@
    } else if i == 2 {
        "Cat"@
    } else if i == 3 {
        "Mouse"@
    } else {
        "Bear"@
    }
}

/// The character of the decimal digit `d`.
pub open spec fn digit_char(d: nat) -> char {
    if d == 0 {
        '0'
    } else if d == 1 {
        '1'
    } else if d == 2 {
        '2'
    } else if d == 3 {
        '3'
    } else if d == 4 {
        '4'
    } else if d == 5 {
        '5'
    } else if d == 6 {
        '6'
    } else if d == 7 {
        '7'
    } else if d == 8 {
        '8'
    } else {
        '9'
    }
}

/// The decimal representation of `n`, without leading zeros.
pub open spec fn decimal(n: nat) -> Seq<char>
    decreases n,
{
    if n < 10 {
        seq![digit_char(n)]
    } else {
        decimal(n / 10).push(digit_char(n % 10))
    }
}

/// The name made of adjective `a`, noun `b` and the number `k`.
pub open spec fn task_name(a: nat, b: nat, k: nat) -> Seq<char> {
    adjective(a) + noun(b) + decimal(k)
}

/// `s` is a well-formed task name.
pub open spec fn is_task_name(s: Seq<char>) -> bool {
    exists|a: nat, b: nat, k: nat|
        a < WORD_CHOICES && b < WORD_CHOICES && k < NUMBER_BOUND && s == #[trigger] task_name(a, b, k)
}

proof fn lemma_decimal_nonempty(n: nat)
    ensures
        decimal(n).len() >= 1,
    decreases n,
{
    if n >= 10 {
        lemma_decimal_nonempty(n / 10);
    }
}

/// Different numbers are written differently.
pub proof fn lemma_decimal_injective(m: nat, n: nat)
    requires
        decimal(m) == decimal(n),
    ensures
        m == n,
    decreases m + n,
{
    if m < 10 && n < 10 {
        assert(decimal(m)[0] == digit_char(m));
        assert(decimal(n)[0] == digit_char(n));
    } else if m < 10 {
        lemma_decimal_nonempty(n / 10);
        assert(decimal(n).len() >= 2);
    } else if n < 10 {
        lemma_decimal_nonempty(m / 10);
        assert(decimal(m).len() >= 2);
    } else {
        assert(decimal(m).drop_last() == decimal(m / 10));
        assert(decimal(n).drop_last() == decimal(n / 10));
        assert(decimal(m).last() == digit_char(m % 10));
        assert(decimal(n).last() == digit_char(n % 10));
        lemma_decimal_injective(m / 10, n / 10);
        assert(m % 10 == n % 10);
        assert(m == (m / 10) * 10 + m % 10);
        assert(n == (n / 10) * 10 + n % 10);
    }
}

/// A name gives back the draws it was made from: the adjective, the noun and
/// the number. So each of the five times five times one thousand outcomes of
/// the three draws yields a name of its own.
pub proof fn lemma_task_name_injective(a1: nat, b1: nat, k1: nat, a2: nat, b2: nat, k2: nat)
    requires
        a1 < WORD_CHOICES,
        b1 < WORD_CHOICES,
        a2 < WORD_CHOICES,
        b2 < WORD_CHOICES,
        task_name(a1, b1, k1) == task_name(a2, b2, k2),
    ensures
        a1 == a2,
        b1 == b2,
        k1 == k2,
{
    reveal_strlit("Quick");
    reveal_strlit("Lazy");
    reveal_strlit("Sleepy");
    reveal_strlit("Noisy");
    reveal_strlit("Hungry");
    reveal_strlit("Fox");
    reveal_strlit("Dog");
    reveal_strlit("Cat");
    reveal_strlit("Mouse");
    reveal_strlit("Bear");
    let s = task_name(a1, b1, k1);
    lemma_decimal_nonempty(k1);
    lemma_decimal_nonempty(k2);
    assert(s[0] == adjective(a1)[0]);
    assert(s[0] == adjective(a2)[0]);
    assert(a1 == a2);
    let p = adjective(a1).len() as int;
    let rest1 = noun(b1) + decimal(k1);
    let rest2 = noun(b2) + decimal(k2);
    assert(s == adjective(a1) + rest1);
    assert(s == adjective(a2) + rest2);
    assert(rest1 == s.subrange(p, s.len() as int));
    assert(rest2 == s.subrange(p, s.len() as int));
    assert(rest1[0] == noun(b1)[0]);
    assert(rest2[0] == noun(b2)[0]);
    assert(b1 == b2);
    let q = noun(b1).len() as int;
    assert(decimal(k1) == rest1.subrange(q, rest1.len() as int));
    assert(decimal(k2) == rest2.subrange(q, rest2.len() as int));
    lemma_decimal_injective(k1, k2);
}

/// The adjective with index `i`.
pub fn adjective_word(i: u64) -> (r: &'static str)
    requires
        i < WORD_CHOICES,
    ensures
        r@ == adjective(i as nat),
{
    match i {
        0 => "Quick",
        1 => "Lazy",
        2 => "Sleepy",
        3 => "Noisy",
        _ => "Hungry",
    }
}

/// The noun with index `i`.
pub fn noun_word(i: u64) -> (r: &'static str)
    requires
        i < WORD_CHOICES,
    ensures
        r@ == noun(i as nat),
{
    match i {
        0 => "Fox",
        1 => "Dog",
        2 => "Cat",
        3 => "Mouse",
        _ => "Bear",
    }
}

fn digit_str(d: u64) -> (r: &'static str)
    requires
        d < 10,
    ensures
        r@ == seq![digit_char(d as nat)],
{
    match d {
        0 => {
            proof { reveal_strlit("0"); }
            "0"
        },
        1 => {
            proof { reveal_strlit("1"); }
            "1"
        },
        2 => {
            proof { reveal_strlit("2"); }
            "2"
        },
        3 => {
            proof { reveal_strlit("3"); }
            "3"
        },
        4 => {
            proof { reveal_strlit("4"); }
            "4"
        },
        5 => {
            proof { reveal_strlit("5"); }
            "5"
        },
        6 => {
            proof { reveal_strlit("6"); }
            "6"
        },
        7 => {
            proof { reveal_strlit("7"); }
            "7"
        },
        8 => {
            proof { reveal_strlit("8"); }
            "8"
        },
        _ => {
            proof { reveal_strlit("9"); }
            "9"
        },
    }
}

/// Writes `n` in decimal, without leading zeros.
pub fn decimal_string(n: u64) -> (r: String)
    ensures
        r@ == decimal(n as nat),
    decreases n,
{
    if n < 10 {
        digit_str(n).to_owned()
    } else {
        let mut s = decimal_string(n / 10);
        s.append(digit_str(n % 10));
        s
    }
}

/// The name made of the adjective with index `a`, the noun with index `b` and
/// the number `k`.
pub fn compose_name(a: u64, b: u64, k: u64) -> (r: String)
    requires
        a < WORD_CHOICES,
        b < WORD_CHOICES,
        k < NUMBER_BOUND,
    ensures
        r@ == task_name(a as nat, b as nat, k as nat),
        is_task_name(r@),
{
    let mut s = adjective_word(a).to_owned();
    s.append(noun_word(b));
    let digits = decimal_string(k);
    s.append(digits.as_str());
    proof {
        assert(s@ == task_name(a as nat, b as nat, k as nat));
    }
    s
}

/// Relies on rand's `thread_rng` and `Rng::gen_range`: a number drawn
/// uniformly below `bound`, which must not be zero.
#[verifier::external_body]
fn draw_below(bound: u64) -> (r: u64)
    requires
        bound > 0,
    ensures
        r < bound,
{
    rand::thread_rng().gen_range(0..bound)
}

/// A fresh task name: an adjective, a noun and a number below one thousand,
/// each drawn independently and uniformly.
pub fn generate_name() -> (r: String)
    ensures
        is_task_name(r@),
{
    let a = draw_below(WORD_CHOICES);
    let b = draw_below(WORD_CHOICES);
    let k = draw_below(NUMBER_BOUND);
    compose_name(a, b, k)
}

} // verus!

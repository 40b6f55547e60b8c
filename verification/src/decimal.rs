//! Decimal text of integers, verified against a character-level
//! specification.

use vstd::prelude::*;
use vstd::string::StringExecFns;

verus! {

/// The character for one decimal digit.
pub open spec fn digit_char(d: nat) -> char {
    seq!['0', '1', '2', '3', '4', '5', '6', '7', '8', '9'][d as int]
}

/// The decimal digits of `n`, most significant first.
pub open spec fn dec_digits(n: nat) -> Seq<char>
    decreases n,
{
    if n < 10 {
        seq![digit_char(n)]
    } else {
        dec_digits(n / 10).push(digit_char(n % 10))
    }
}

/// The decimal text of `i`: a minus sign for a negative value, then the
/// digits of its magnitude.
pub open spec fn dec_str(i: int) -> Seq<char> {
    if i < 0 {
        seq!['-'] + dec_digits((-i) as nat)
    } else {
        dec_digits(i as nat)
    }
}

/// The one-character string for a decimal digit.
fn digit_str(d: u64) -> (s: &'static str)
    requires
        d < 10,
    ensures
        s@ == seq![digit_char(d as nat)],
{
    let s: &'static str = match d {
        0 => "0",
        1 => "1",
        2 => "2",
        3 => "3",
        4 => "4",
        5 => "5",
        6 => "6",
        7 => "7",
        8 => "8",
        _ => "9",
    };
    proof {
        reveal_strlit("0");
        reveal_strlit("1");
        reveal_strlit("2");
        reveal_strlit("3");
        reveal_strlit("4");
        reveal_strlit("5");
        reveal_strlit("6");
        reveal_strlit("7");
        reveal_strlit("8");
        reveal_strlit("9");
        assert(s@ =~= seq![digit_char(d as nat)]);
    }
    s
}

/// The digit characters of `digs` read from the last element to the first.
spec fn rev_chars(digs: Seq<u64>) -> Seq<char>
    decreases digs.len(),
{
    if digs.len() == 0 {
        Seq::empty()
    } else {
        seq![digit_char(digs.last() as nat)] + rev_chars(digs.drop_last())
    }
}

proof fn lemma_rev_chars_len(digs: Seq<u64>)
    ensures
        rev_chars(digs).len() == digs.len(),
    decreases digs.len(),
{
    if digs.len() > 0 {
        lemma_rev_chars_len(digs.drop_last());
    }
}

proof fn lemma_rev_chars_index(digs: Seq<u64>, k: int)
    requires
        0 <= k < digs.len(),
    ensures
        rev_chars(digs).len() == digs.len(),
        rev_chars(digs)[k] == digit_char(digs[digs.len() - 1 - k] as nat),
    decreases digs.len(),
{
    lemma_rev_chars_len(digs);
    if k > 0 {
        lemma_rev_chars_index(digs.drop_last(), k - 1);
    }
}

/// The decimal digits of `n` as a string.
fn magnitude_string(n: u64) -> (s: String)
    ensures
        s@ == dec_digits(n as nat),
{
    let mut digs: Vec<u64> = Vec::new();
    let mut m: u64 = n;
    while m >= 10
        invariant
            dec_digits(n as nat) =~= dec_digits(m as nat) + rev_chars(digs@),
            forall|i: int| 0 <= i < digs@.len() ==> #[trigger] digs@[i] < 10,
        decreases m,
    {
        let ghost before = digs@;
        let d = m % 10;
        digs.push(d);
        m = m / 10;
        proof {
            assert(digs@.drop_last() =~= before);
            assert(dec_digits(n as nat) =~= dec_digits(m as nat) + rev_chars(digs@));
        }
    }
    let ghost before = digs@;
    digs.push(m);
    proof {
        assert(digs@.drop_last() =~= before);
        assert(dec_digits(n as nat) =~= rev_chars(digs@));
    }

    let mut s = String::new();
    let total = digs.len();
    let mut j: usize = 0;
    while j < total
        invariant
            total == digs@.len(),
            j <= total,
            dec_digits(n as nat) =~= rev_chars(digs@),
            s@ =~= rev_chars(digs@).take(j as int),
            forall|i: int| 0 <= i < digs@.len() ==> #[trigger] digs@[i] < 10,
        decreases total - j,
    {
        let d = digs[total - 1 - j];
        s.append(digit_str(d));
        j = j + 1;
        proof {
            lemma_rev_chars_index(digs@, j - 1 as int);
            assert(rev_chars(digs@).take(j as int) =~= rev_chars(digs@).take(j - 1 as int).push(
                rev_chars(digs@)[j - 1],
            ));
        }
    }
    proof {
        lemma_rev_chars_len(digs@);
        assert(rev_chars(digs@).take(total as int) =~= rev_chars(digs@));
    }
    s
}

/// The decimal text of a signed 64-bit integer.
pub fn i64_to_dec_string(i: i64) -> (s: String)
    ensures
        s@ == dec_str(i as int),
{
    if i >= 0 {
        magnitude_string(i as u64)
    } else {
        let mag: u64 = (-(i as i128)) as u64;
        let digits = magnitude_string(mag);
        let s = String::from_str("-").concat(digits.as_str());
        proof {
            reveal_strlit("-");
            assert(s@ =~= dec_str(i as int));
        }
        s
    }
}

} // verus!

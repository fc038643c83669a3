//! Text building blocks: decimal numerals and angle-bracketed argument lists.

use vstd::prelude::*;

verus! {

/// The decimal digit character for `d` (`d < 10`).
pub open spec fn digit(d: nat) -> char {
    seq!['0', '1', '2', '3', '4', '5', '6', '7', '8', '9'][d as int]
}

/// The decimal numeral of `n`, most significant digit first, without leading zeros.
pub open spec fn decimal(n: nat) -> Seq<char>
    decreases n,
{
    if n < 10 {
        seq![digit(n)]
    } else {
        decimal(n / 10) + seq![digit(n % 10)]
    }
}

fn digit_str(d: u64) -> (r: &'static str)
    requires
        d < 10,
    ensures
        r@ == seq![digit(d as nat)],
{
    proof {
        reveal_strlit("0");
        reveal_strlit("1");
        reveal_strlit("2");
        reveal_strlit("3");
        reveal_strlit("4");
        reveal_strlit("5");
        reveal_strlit("6");
        reveal_strlit("7");
        reveal_strlit("8");
        reveal_strlit("9");
    }
    match d {
        0 => "0",
        1 => "1",
        2 => "2",
        3 => "3",
        4 => "4",
        5 => "5",
        6 => "6",
        7 => "7",
        8 => "8",
        _ => "9",
    }
}

/// Appends the decimal numeral of `n` to `out`.
pub fn push_decimal(out: &mut String, n: u64)
    ensures
        final(out)@ == old(out)@ + decimal(n as nat),
    decreases n,
{
    if n >= 10 {
        push_decimal(out, n / 10);
    }
    out.append(digit_str(n % 10));
    assert(final(out)@ =~= old(out)@ + decimal(n as nat));
}

/// The elements of `items` separated by `", "`.
pub open spec fn comma_join(items: Seq<Seq<char>>) -> Seq<char>
    decreases items.len(),
{
    if items.len() == 0 {
        Seq::empty()
    } else if items.len() == 1 {
        items[0]
    } else {
        comma_join(items.drop_last()) + seq![',', ' '] + items.last()
    }
}

/// The bracketed argument-list form of `items`: nothing when there are none,
/// otherwise `<`, the items joined by `", "`, and `>`.
pub open spec fn angle(items: Seq<Seq<char>>) -> Seq<char> {
    if items.len() == 0 {
        Seq::empty()
    } else {
        seq!['<'] + comma_join(items) + seq!['>']
    }
}

/// A slice of terms rendered as a generic argument list (`<A, B, C>`).
pub struct Angle<'a, T>(pub &'a [T]);

impl<'a> Angle<'a, String> {
    /// Appends the argument-list form of the already rendered items.
    pub fn fmt(&self, out: &mut String)
        ensures
            final(out)@ == old(out)@ + angle(self.0@.map_values(|s: String| s@)),
    {
        let ghost texts = self.0@.map_values(|s: String| s@);
        if self.0.len() > 0 {
            out.append("<");
            proof {
                reveal_strlit("<");
                reveal_strlit(", ");
                reveal_strlit(">");
                assert(texts.take(0) =~= Seq::<Seq<char>>::empty());
            }
            let mut i: usize = 0;
            while i < self.0.len()
                invariant
                    i <= self.0@.len(),
                    0 < self.0@.len(),
                    texts == self.0@.map_values(|s: String| s@),
                    out@ == old(out)@ + seq!['<'] + comma_join(texts.take(i as int)),
                decreases self.0@.len() - i,
            {
                if i > 0 {
                    out.append(", ");
                }
                out.append(self.0[i].as_str());
                proof {
                    reveal_strlit(", ");
                    assert(texts.take(i + 1).drop_last() =~= texts.take(i as int));
                    assert(texts.take(i + 1).last() == self.0@[i as int]@);
                    assert(out@ =~= old(out)@ + seq!['<'] + comma_join(texts.take(i + 1)));
                }
                i = i + 1;
            }
            out.append(">");
            proof {
                reveal_strlit(">");
                assert(texts.take(self.0@.len() as int) =~= texts);
            }
        }
        assert(final(out)@ =~= old(out)@ + angle(texts));
    }
}

} // verus!

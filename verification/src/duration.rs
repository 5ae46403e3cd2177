use vstd::prelude::*;

verus! {

/// Renders a value as the text the interactive tables show for it.
pub trait ToString {
    fn to_string(&self) -> String;
}

/// A span of played time, held as whole seconds: what the launcher
/// records of playtime and session length.
#[derive(Clone, Copy, Debug, PartialEq, Eq, Structural)]
pub struct Duration {
    pub secs: u64,
}

/// The character of one decimal digit.
pub open spec fn digit_char(d: nat) -> char {
    if d == 0 {
        '0'
    } else if d == 1 {
        '1'
    } else if d == 2 {
        '2'
    } else if d == 3 {
        '3'
    } else if d == 4 {
        '4'
    } else if d == 5 {
        '5'
    } else if d == 6 {
        '6'
    } else if d == 7 {
        '7'
    } else if d == 8 {
        '8'
    } else {
        '9'
    }
}

/// The decimal digits of `n`, most significant first, no leading zeros
/// (a lone zero for 0).
pub open spec fn dec_digits(n: nat) -> Seq<char>
    decreases n,
{
    if n < 10 {
        seq![digit_char(n)]
    } else {
        dec_digits(n / 10).push(digit_char(n % 10))
    }
}

/// The parts of the duration display: hours, minutes and seconds, each
/// with its unit letter; a zero part is left out, except that the
/// seconds part stands alone when everything is zero.
pub open spec fn duration_parts(secs: nat) -> Seq<Seq<char>> {
    let h = secs / 3600;
    let m = (secs % 3600) / 60;
    let s = secs % 60;
    let with_h: Seq<Seq<char>> = if h > 0 {
        seq![dec_digits(h) + "h"@]
    } else {
        Seq::empty()
    };
    let with_m: Seq<Seq<char>> = if m > 0 {
        with_h.push(dec_digits(m) + "m"@)
    } else {
        with_h
    };
    if s > 0 || with_m.len() == 0 {
        with_m.push(dec_digits(s) + "s"@)
    } else {
        with_m
    }
}

/// The parts joined with single spaces.
pub open spec fn joined_parts(parts: Seq<Seq<char>>) -> Seq<char>
    decreases parts.len(),
{
    if parts.len() == 0 {
        Seq::empty()
    } else if parts.len() == 1 {
        parts[0]
    } else {
        joined_parts(parts.drop_last()) + " "@ + parts.last()
    }
}

/// The full duration display text.
pub open spec fn duration_text(secs: nat) -> Seq<char> {
    joined_parts(duration_parts(secs))
}

/// One decimal digit as text.
fn digit_str(d: u64) -> (r: &'static str)
    requires
        d < 10,
    ensures
        r@ == seq![digit_char(d as nat)],
{
    let r: &'static str = if d == 0 {
        "0"
    } else if d == 1 {
        "1"
    } else if d == 2 {
        "2"
    } else if d == 3 {
        "3"
    } else if d == 4 {
        "4"
    } else if d == 5 {
        "5"
    } else if d == 6 {
        "6"
    } else if d == 7 {
        "7"
    } else if d == 8 {
        "8"
    } else {
        "9"
    };
    proof {
        reveal_strlit("0");
        reveal_strlit("1");
        reveal_strlit("2");
        reveal_strlit("3");
        reveal_strlit("4");
        reveal_strlit("5");
        reveal_strlit("6");
        reveal_strlit("7");
        reveal_strlit("8");
        reveal_strlit("9");
        assert(r@ =~= seq![digit_char(d as nat)]);
    }
    r
}

/// Writes `n` in decimal.
pub fn u64_to_decimal(n: u64) -> (r: String)
    ensures
        r@ == dec_digits(n as nat),
    decreases n,
{
    if n < 10 {
        digit_str(n).to_owned()
    } else {
        let mut s = u64_to_decimal(n / 10);
        s.append(digit_str(n % 10));
        proof {
            assert(s@ =~= dec_digits(n as nat));
        }
        s
    }
}

impl Duration {
    /// The display text of this duration, as `duration_text` states it.
    pub fn display(&self) -> (r: String)
        ensures
            r@ == duration_text(self.secs as nat),
    {
        let h = self.secs / 3600;
        let m = (self.secs % 3600) / 60;
        let s = self.secs % 60;
        let mut parts: Vec<String> = Vec::new();
        if h > 0 {
            let mut hp = u64_to_decimal(h);
            hp.append("h");
            parts.push(hp);
        }
        if m > 0 {
            let mut mp = u64_to_decimal(m);
            mp.append("m");
            parts.push(mp);
        }
        if s > 0 || parts.len() == 0 {
            let mut sp = u64_to_decimal(s);
            sp.append("s");
            parts.push(sp);
        }
        proof {
            assert(crate::asset::views_of_strings(parts@) =~~= duration_parts(
                self.secs as nat,
            ));
        }
        let n = parts.len();
        let mut out = String::new();
        let mut i: usize = 0;
        while i < n
            invariant
                i <= n,
                n == parts@.len(),
                out@ == joined_parts(crate::asset::views_of_strings(parts@).take(i as int)),
            decreases n - i,
        {
            if i > 0 {
                out.append(" ");
            }
            out.append(parts[i].as_str());
            proof {
                let pv = crate::asset::views_of_strings(parts@);
                assert(pv.take(i + 1).drop_last() =~= pv.take(i as int));
                assert(pv.take(i + 1).last() == pv[i as int]);
                assert(pv[i as int] == parts@[i as int]@);
                if i == 0 {
                    assert(out@ =~= joined_parts(pv.take(1)));
                } else {
                    assert(out@ =~= joined_parts(pv.take(i as int)) + " "@ + pv[i as int]);
                }
            }
            i = i + 1;
        }
        proof {
            let pv = crate::asset::views_of_strings(parts@);
            assert(pv.take(n as int) =~= pv);
        }
        out
    }
}

impl ToString for Duration {
    /// Hours, minutes and seconds with unit letters, zero parts left
    /// out, `0s` when the span is empty.
    fn to_string(&self) -> (r: String)
        ensures
            r@ == duration_text(self.secs as nat),
    {
        self.display()
    }
}

} // verus!

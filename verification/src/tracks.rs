//! Track naming: synthetic tracks are called `track-0`, `track-1`, ...

use vstd::prelude::*;
use vstd::string::*;

verus! {

/// The decimal digit character for `d < 10`.
pub open spec fn digit_char(d: nat) -> char
    recommends
        d < 10,
{
    (48 + d) as char
}

/// The decimal representation of `n`, without leading zeros.
pub open spec fn decimal(n: nat) -> Seq<char>
    decreases n,
{
    if n < 10 {
        seq![digit_char(n)]
    } else {
        decimal(n / 10).push(digit_char(n % 10))
    }
}

/// The text `track-`.
pub open spec fn track_prefix() -> Seq<char> {
    seq!['t', 'r', 'a', 'c', 'k', '-']
}

/// The name of synthetic track number `i`.
pub open spec fn track_name_of(i: nat) -> Seq<char> {
    track_prefix() + decimal(i)
}

/// The names of synthetic tracks `0 .. n`.
pub open spec fn track_names(n: nat) -> Seq<Seq<char>> {
    Seq::new(n, |i: int| track_name_of(i as nat))
}

/// The number of tracks a subscriber asked for `n` tracks subscribes to: at least one.
pub open spec fn subscribed_count(n: nat) -> nat {
    if n == 0 {
        1
    } else {
        n
    }
}

/// The characters of each string of `v`.
pub open spec fn names_of(v: Seq<String>) -> Seq<Seq<char>> {
    v.map_values(|s: String| s@)
}

proof fn lemma_decimal_len(n: nat)
    ensures
        decimal(n).len() >= 1,
        n >= 10 ==> decimal(n).len() >= 2,
    decreases n,
{
    if n >= 10 {
        lemma_decimal_len(n / 10);
    }
}

/// Distinct numbers have distinct decimal representations.
pub proof fn lemma_decimal_injective(a: nat, b: nat)
    requires
        decimal(a) == decimal(b),
    ensures
        a == b,
    decreases a,
{
    lemma_decimal_len(a);
    lemma_decimal_len(b);
    if a < 10 && b < 10 {
        assert(decimal(a) == seq![digit_char(a)]);
        assert(decimal(b) == seq![digit_char(b)]);
        assert(seq![digit_char(a)][0] == digit_char(a));
        assert(seq![digit_char(b)][0] == digit_char(b));
        assert(digit_char(a) == digit_char(b));
        assert((digit_char(a) as int) == 48 + a);
        assert(a == b);
    } else if a >= 10 && b >= 10 {
        let da = decimal(a);
        let db = decimal(b);
        assert(da.last() == db.last());
        assert(digit_char(a % 10) == digit_char(b % 10));
        assert(a % 10 == b % 10);
        assert(da.drop_last() =~= decimal(a / 10));
        assert(db.drop_last() =~= decimal(b / 10));
        lemma_decimal_injective(a / 10, b / 10);
        assert(a == 10 * (a / 10) + a % 10);
        assert(b == 10 * (b / 10) + b % 10);
    } else {
        assert(decimal(a).len() != decimal(b).len());
    }
}

/// Every synthetic track has its own name: tracks with different numbers
/// have different names.
pub proof fn lemma_track_names_distinct(i: nat, j: nat)
    requires
        i != j,
    ensures
        track_name_of(i) != track_name_of(j),
{
    if track_name_of(i) == track_name_of(j) {
        assert(decimal(i) =~= track_name_of(i).skip(6));
        assert(decimal(j) =~= track_name_of(j).skip(6));
        lemma_decimal_injective(i, j);
    }
}

/// A subscriber asked for `n >= 1` tracks subscribes to exactly the tracks that
/// a publisher asked for `n` tracks creates, in the same order; asked for none,
/// it still subscribes to `track-0`.
pub proof fn lemma_subscriber_matches_publisher(n: nat)
    ensures
        n >= 1 ==> track_names(subscribed_count(n)) == track_names(n),
        n == 0 ==> track_names(subscribed_count(n)) == seq![track_name_of(0)],
{
    if n == 0 {
        assert(track_names(1) =~= seq![track_name_of(0)]);
    }
}

/// Appends the decimal digit `d` to `s`.
fn append_digit(s: &mut String, d: usize)
    requires
        d < 10,
    ensures
        final(s)@ == old(s)@.push(digit_char(d as nat)),
{
    if d == 0 {
        proof {
            reveal_strlit("0");
        }
        s.append("0");
    } else if d == 1 {
        proof {
            reveal_strlit("1");
        }
        s.append("1");
    } else if d == 2 {
        proof {
            reveal_strlit("2");
        }
        s.append("2");
    } else if d == 3 {
        proof {
            reveal_strlit("3");
        }
        s.append("3");
    } else if d == 4 {
        proof {
            reveal_strlit("4");
        }
        s.append("4");
    } else if d == 5 {
        proof {
            reveal_strlit("5");
        }
        s.append("5");
    } else if d == 6 {
        proof {
            reveal_strlit("6");
        }
        s.append("6");
    } else if d == 7 {
        proof {
            reveal_strlit("7");
        }
        s.append("7");
    } else if d == 8 {
        proof {
            reveal_strlit("8");
        }
        s.append("8");
    } else {
        proof {
            reveal_strlit("9");
        }
        s.append("9");
    }
    assert(final(s)@ =~= old(s)@.push(digit_char(d as nat)));
}

/// Appends the decimal representation of `n` to `s`.
pub(crate) fn append_decimal(s: &mut String, n: u64)
    ensures
        final(s)@ == old(s)@ + decimal(n as nat),
    decreases n,
{
    if n >= 10 {
        append_decimal(s, n / 10);
    }
    append_digit(s, (n % 10) as usize);
    assert(final(s)@ =~= old(s)@ + decimal(n as nat));
}

/// The name of synthetic track number `i`: `track-` followed by `i` in decimal.
pub fn track_name(i: usize) -> (name: String)
    ensures
        name@ == track_name_of(i as nat),
{
    let mut name = String::new();
    proof {
        reveal_strlit("track-");
    }
    name.append("track-");
    assert(name@ =~= track_prefix());
    append_decimal(&mut name, i as u64);
    name
}

/// The names of synthetic tracks `0 .. n`, in order.
pub fn track_names_upto(n: usize) -> (names: Vec<String>)
    ensures
        names_of(names@) == track_names(n as nat),
{
    let mut names: Vec<String> = Vec::new();
    let mut i: usize = 0;
    while i < n
        invariant
            i <= n,
            names@.len() == i,
            forall|j: int| 0 <= j < i ==> #[trigger] names@[j]@ == track_name_of(j as nat),
        decreases n - i,
    {
        names.push(track_name(i));
        i = i + 1;
    }
    assert(names_of(names@) =~= track_names(n as nat));
    names
}

/// The tracks that a publisher asked for `tracks` tracks creates: `track-0`
/// through `track-{tracks-1}`.
pub fn publisher_track_names(tracks: usize) -> (names: Vec<String>)
    ensures
        names_of(names@) == track_names(tracks as nat),
{
    track_names_upto(tracks)
}

/// The tracks that a subscriber asked for `tracks` tracks subscribes to:
/// `track-0` through `track-{max(tracks, 1) - 1}`.
pub fn subscriber_track_names(tracks: usize) -> (names: Vec<String>)
    ensures
        names_of(names@) == track_names(subscribed_count(tracks as nat)),
{
    let n: usize = if tracks == 0 {
        1
    } else {
        tracks
    };
    track_names_upto(n)
}

} // verus!

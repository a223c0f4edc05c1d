//! Small verified text-building utilities shared by the struct and enum
//! engines: joining fragments with a separator and rendering decimal indices.

use vstd::prelude::*;

verus! {

/// The character for a single decimal digit value.
pub open spec fn dec_digit(d: nat) -> char {
    if d == 0 {
        '0'
    } else if d == 1 {
        '1'
    } else if d == 2 {
        '2'
    } else if d == 3 {
        '3'
    } else if d == 4 {
        '4'
    } else if d == 5 {
        '5'
    } else if d == 6 {
        '6'
    } else if d == 7 {
        '7'
    } else if d == 8 {
        '8'
    } else {
        '9'
    }
}

/// The usual base-ten rendering of `n`, most significant digit first,
/// without leading zeros (except for `n == 0` itself).
pub open spec fn spec_dec(n: nat) -> Seq<char>
    decreases n,
{
    if n < 10 {
        seq![dec_digit(n)]
    } else {
        spec_dec(n / 10).push(dec_digit(n % 10))
    }
}

/// `parts` joined with `sep` between consecutive elements.
pub open spec fn spec_join(parts: Seq<Seq<char>>, sep: Seq<char>) -> Seq<char>
    decreases parts.len(),
{
    if parts.len() == 0 {
        Seq::<char>::empty()
    } else if parts.len() == 1 {
        parts[0]
    } else {
        parts[0] + sep + spec_join(parts.drop_first(), sep)
    }
}

/// Concatenation of `parts` with nothing between them.
pub open spec fn spec_concat(parts: Seq<Seq<char>>) -> Seq<char>
    decreases parts.len(),
{
    if parts.len() == 0 {
        Seq::<char>::empty()
    } else {
        parts[0] + spec_concat(parts.drop_first())
    }
}

/// Appending one more fragment extends a join by `sep` plus the fragment.
pub proof fn lemma_join_push(parts: Seq<Seq<char>>, sep: Seq<char>, last: Seq<char>)
    ensures
        spec_join(parts.push(last), sep) == if parts.len() == 0 {
            last
        } else {
            spec_join(parts, sep) + sep + last
        },
    decreases parts.len(),
{
    if parts.len() == 0 {
        assert(parts.push(last).len() == 1);
        assert(spec_join(parts.push(last), sep) == parts.push(last)[0]);
        assert(parts.push(last)[0] == last);
    } else {
        lemma_join_push(parts.drop_first(), sep, last);
        assert(parts.push(last).drop_first() =~= parts.drop_first().push(last));
        if parts.len() == 1 {
            assert(parts.drop_first().len() == 0);
            assert(spec_join(parts.push(last), sep) == parts[0] + sep + last);
            assert(spec_join(parts, sep) == parts[0]);
        } else {
            assert(spec_join(parts.push(last), sep) == parts[0] + sep + (spec_join(
                parts.drop_first(),
                sep,
            ) + sep + last));
            assert(spec_join(parts, sep) + sep + last =~= parts[0] + sep + (spec_join(
                parts.drop_first(),
                sep,
            ) + sep + last));
        }
    }
}

/// Appending one more fragment extends a plain concatenation by the fragment.
pub proof fn lemma_concat_push(parts: Seq<Seq<char>>, last: Seq<char>)
    ensures
        spec_concat(parts.push(last)) == spec_concat(parts) + last,
    decreases parts.len(),
{
    if parts.len() == 0 {
        assert(parts.push(last).drop_first() =~= parts);
        assert(spec_concat(parts.push(last)) == last + spec_concat(parts));
        assert(last + Seq::<char>::empty() =~= Seq::<char>::empty() + last);
    } else {
        lemma_concat_push(parts.drop_first(), last);
        assert(parts.push(last).drop_first() =~= parts.drop_first().push(last));
        assert(spec_concat(parts.push(last)) == parts[0] + (spec_concat(parts.drop_first())
            + last));
        assert(parts[0] + (spec_concat(parts.drop_first()) + last) =~= (parts[0] + spec_concat(
            parts.drop_first(),
        )) + last);
    }
}

/// The views of a vector of owned strings.
pub open spec fn views_of(parts: Seq<String>) -> Seq<Seq<char>> {
    parts.map_values(|p: String| p@)
}

/// Join a vector of fragments with `sep`.
pub fn join_strings(parts: &Vec<String>, sep: &str) -> (r: String)
    ensures
        r@ == spec_join(views_of(parts@), sep@),
{
    let mut r = String::new();
    let mut i: usize = 0;
    while i < parts.len()
        invariant
            i <= parts.len(),
            r@ == spec_join(views_of(parts@.take(i as int)), sep@),
        decreases parts.len() - i,
    {
        if i > 0 {
            r.append(sep);
        }
        r.append(parts[i].as_str());
        proof {
            assert(views_of(parts@.take(i + 1 as int)) =~= views_of(parts@.take(i as int)).push(
                parts@[i as int]@,
            ));
            lemma_join_push(views_of(parts@.take(i as int)), sep@, parts@[i as int]@);
        }
        i = i + 1;
    }
    proof {
        assert(parts@.take(parts@.len() as int) =~= parts@);
    }
    r
}

/// Concatenate a vector of fragments with nothing between them.
pub fn concat_strings(parts: &Vec<String>) -> (r: String)
    ensures
        r@ == spec_concat(views_of(parts@)),
{
    let mut r = String::new();
    let mut i: usize = 0;
    while i < parts.len()
        invariant
            i <= parts.len(),
            r@ == spec_concat(views_of(parts@.take(i as int))),
        decreases parts.len() - i,
    {
        r.append(parts[i].as_str());
        proof {
            assert(views_of(parts@.take(i + 1 as int)) =~= views_of(parts@.take(i as int)).push(
                parts@[i as int]@,
            ));
            lemma_concat_push(views_of(parts@.take(i as int)), parts@[i as int]@);
        }
        i = i + 1;
    }
    proof {
        assert(parts@.take(parts@.len() as int) =~= parts@);
    }
    r
}

/// A one-character string for a digit value.
fn dec_digit_string(d: usize) -> (r: String)
    requires
        d < 10,
    ensures
        r@ =~= seq![dec_digit(d as nat)],
{
    let s: &str = if d == 0 {
        "0"
    } else if d == 1 {
        "1"
    } else if d == 2 {
        "2"
    } else if d == 3 {
        "3"
    } else if d == 4 {
        "4"
    } else if d == 5 {
        "5"
    } else if d == 6 {
        "6"
    } else if d == 7 {
        "7"
    } else if d == 8 {
        "8"
    } else {
        "9"
    };
    proof {
        reveal_strlit("0");
        reveal_strlit("1");
        reveal_strlit("2");
        reveal_strlit("3");
        reveal_strlit("4");
        reveal_strlit("5");
        reveal_strlit("6");
        reveal_strlit("7");
        reveal_strlit("8");
        reveal_strlit("9");
    }
    String::from_str(s)
}

/// Base-ten rendering of `n`.
pub fn dec_string(n: usize) -> (r: String)
    ensures
        r@ == spec_dec(n as nat),
    decreases n,
{
    if n < 10 {
        let r = dec_digit_string(n);
        proof {
            assert(r@ =~= spec_dec(n as nat));
        }
        r
    } else {
        let mut r = dec_string(n / 10);
        let d = dec_digit_string(n % 10);
        r.append(d.as_str());
        proof {
            assert(r@ =~= spec_dec(n as nat));
        }
        r
    }
}

} // verus!

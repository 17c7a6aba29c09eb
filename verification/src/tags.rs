//! The per-tile wall tag parser: a comma-separated list of direction
//! tokens.  Unparseable tokens — empty ones included — are silently
//! dropped; that leniency is deliberate, not an error path.

use vstd::prelude::*;
use vstd::string::StrSliceExecFns;

use crate::direction::{parse_direction, spec_parse_direction};
use crate::dungeon::Walls;

verus! {

/// The comma-separated tokens of `s`, in order.  The empty sequence holds
/// one empty token, as splitting does.
pub open spec fn split_commas(s: Seq<char>) -> Seq<Seq<char>>
    decreases s.len(),
{
    if s.len() == 0 {
        seq![Seq::<char>::empty()]
    } else if s[0] == ',' {
        seq![Seq::<char>::empty()] + split_commas(s.drop_first())
    } else {
        let rest = split_commas(s.drop_first());
        seq![seq![s[0]] + rest[0]] + rest.drop_first()
    }
}

/// Splitting always yields at least one token.
pub proof fn lemma_split_commas_nonempty(s: Seq<char>)
    ensures
        split_commas(s).len() >= 1,
    decreases s.len(),
{
    if s.len() == 0 {
    } else if s[0] == ',' {
    } else {
        lemma_split_commas_nonempty(s.drop_first());
    }
}

/// If the first `i` characters of `s` hold no comma and position `i` is a
/// comma or the end, then the first token is exactly those `i` characters
/// and the rest of the tokens split what follows the comma.
proof fn lemma_split_commas_prefix(s: Seq<char>, i: int)
    requires
        0 <= i <= s.len(),
        forall|j: int| 0 <= j < i ==> s[j] != ',',
        i == s.len() || s[i] == ',',
    ensures
        i == s.len() ==> split_commas(s) == seq![s],
        i < s.len() ==> split_commas(s) == seq![s.take(i)] + split_commas(s.skip(i + 1)),
    decreases i,
{
    if i == 0 {
        if s.len() == 0 {
            assert(s =~= Seq::<char>::empty());
            assert(split_commas(s) =~~= seq![s]);
        } else {
            assert(s[0] == ',');
            assert(s.take(0) =~= Seq::<char>::empty());
            assert(s.drop_first() =~= s.skip(1));
            assert(split_commas(s) =~~= seq![s.take(0)] + split_commas(s.skip(1)));
        }
    } else {
        let tail = s.drop_first();
        assert(forall|j: int| 0 <= j < i - 1 ==> tail[j] == s[j + 1] && tail[j] != ',');
        lemma_split_commas_prefix(tail, i - 1);
        let rest = split_commas(tail);
        if i == s.len() {
            assert(rest == seq![tail]);
            assert(seq![s[0]] + tail =~= s);
            assert(rest.drop_first() =~= Seq::<Seq<char>>::empty());
            assert(split_commas(s) =~~= seq![s]);
        } else {
            assert(rest == seq![tail.take(i - 1)] + split_commas(tail.skip(i)));
            assert(rest[0] == tail.take(i - 1));
            assert(seq![s[0]] + tail.take(i - 1) =~= s.take(i));
            assert(rest.drop_first() =~= split_commas(tail.skip(i)));
            assert(tail.skip(i) =~= s.skip(i + 1));
            assert(split_commas(s) =~~= seq![s.take(i)] + split_commas(s.skip(i + 1)));
        }
    }
}

/// The wall set named by a token list: each token that parses as a
/// direction is inserted, every other token is dropped.
pub open spec fn walls_of_tokens(tokens: Seq<Seq<char>>) -> Walls
    decreases tokens.len(),
{
    if tokens.len() == 0 {
        Walls::spec_empty()
    } else {
        walls_of_tokens(tokens.drop_last()).spec_insert_opt(spec_parse_direction(tokens.last()))
    }
}

proof fn lemma_walls_of_tokens_take_step(tokens: Seq<Seq<char>>, k: int)
    requires
        0 <= k < tokens.len(),
    ensures
        walls_of_tokens(tokens.take(k + 1)) == walls_of_tokens(tokens.take(k)).spec_insert_opt(
            spec_parse_direction(tokens[k]),
        ),
{
    assert(tokens.take(k + 1).drop_last() =~= tokens.take(k));
    assert(tokens.take(k + 1).last() == tokens[k]);
}

/// The wall set a tag string names: its comma-separated tokens, parsed
/// leniently.
pub open spec fn spec_walls_of_tag(s: Seq<char>) -> Walls {
    walls_of_tokens(split_commas(s))
}

/// Parse a tile's wall tag: split on commas, parse each token as a
/// direction ignoring ASCII case, and silently drop every token that does
/// not parse.  An empty tag yields the empty wall set.
pub fn parse_wall_tag(s: &str) -> (r: Walls)
    ensures
        r == spec_walls_of_tag(s@),
{
    let ghost tokens = split_commas(s@);
    let n = s.unicode_len();
    let mut walls = Walls::empty();
    let mut start: usize = 0;
    let ghost mut k: int = 0;
    proof {
        assert(s@.skip(0) =~= s@);
        assert(tokens.skip(0) =~= tokens);
        assert(tokens.take(0) =~= Seq::<Seq<char>>::empty());
    }
    loop
        invariant
            tokens == split_commas(s@),
            n == s@.len(),
            start <= n,
            0 <= k <= tokens.len(),
            walls == walls_of_tokens(tokens.take(k)),
            tokens.skip(k) == split_commas(s@.skip(start as int)),
        decreases n - start,
    {
        let ghost rem = s@.skip(start as int);
        let mut j: usize = start;
        loop
            invariant
                n == s@.len(),
                start <= j <= n,
                forall|t: int| start <= t < j ==> s@[t] != ',',
            ensures
                start <= j <= n,
                forall|t: int| start <= t < j ==> s@[t] != ',',
                j == n || s@[j as int] == ',',
            decreases n - j,
        {
            if j == n {
                break ;
            }
            if s.get_char(j) == ',' {
                break ;
            }
            j = j + 1;
        }
        proof {
            assert(forall|t: int| 0 <= t < j - start ==> rem[t] == s@[t + start] && rem[t] != ',');
            assert(j < n ==> rem[j - start] == s@[j as int]);
            lemma_split_commas_prefix(rem, j - start);
            lemma_split_commas_nonempty(rem);
            assert(tokens.skip(k).len() >= 1);
            assert(k < tokens.len());
            assert(tokens.skip(k)[0] == tokens[k]);
        }
        let token = s.substring_char(start, j);
        proof {
            assert(token@ =~= rem.take(j - start));
            if j == n {
                assert(rem.take(j - start) =~= rem);
                assert(split_commas(rem) == seq![rem]);
            }
            assert(tokens[k] == split_commas(rem)[0]);
            assert(tokens[k] == token@);
            lemma_walls_of_tokens_take_step(tokens, k);
        }
        match parse_direction(token) {
            Some(d) => walls.insert(d),
            None => {},
        }
        proof {
            k = k + 1;
        }
        if j == n {
            proof {
                assert(walls == walls_of_tokens(tokens.take(k)));
                assert(tokens.skip(k - 1).len() == 1);
                assert(k == tokens.len());
                assert(tokens.take(k) =~= tokens);
                assert(walls == walls_of_tokens(tokens));
            }
            return walls;
        }
        proof {
            assert(tokens.skip(k - 1).drop_first() =~= tokens.skip(k));
            assert(rem.skip(j - start + 1) =~= s@.skip(j as int + 1));
            assert(split_commas(rem).drop_first() =~= split_commas(s@.skip(j as int + 1)));
        }
        start = j + 1;
    }
}

} // verus!

use vstd::prelude::*;
use vstd::string::StrSliceExecFns;
use vstd::string::StringExecFns;

verus! {

/// The characters of `s` after its last comma (all of `s` where it has none).
pub open spec fn open_token(s: Seq<char>) -> Seq<char>
    decreases s.len(),
{
    if s.len() == 0 || s.last() == ',' {
        Seq::empty()
    } else {
        open_token(s.drop_last()).push(s.last())
    }
}

/// The non-empty runs of non-comma characters of `s` that a comma ends, in order.
pub open spec fn closed_tokens(s: Seq<char>) -> Seq<Seq<char>>
    decreases s.len(),
{
    if s.len() == 0 {
        Seq::empty()
    } else if s.last() == ',' {
        let t = open_token(s.drop_last());
        if t.len() > 0 {
            closed_tokens(s.drop_last()).push(t)
        } else {
            closed_tokens(s.drop_last())
        }
    } else {
        closed_tokens(s.drop_last())
    }
}

/// The feature tokens of a configuration: its non-empty comma-separated parts, in order.
pub open spec fn feature_tokens(s: Seq<char>) -> Seq<Seq<char>> {
    if open_token(s).len() > 0 {
        closed_tokens(s).push(open_token(s))
    } else {
        closed_tokens(s)
    }
}

/// What a list of strings holds, as sequences of characters.
pub open spec fn strings_view(v: Seq<String>) -> Seq<Seq<char>> {
    v.map_values(|t: String| t@)
}

/// Splits a configuration at its commas and drops the empty parts.
pub fn config_features(config: &str) -> (r: Vec<String>)
    ensures
        strings_view(r@) == feature_tokens(config@),
{
    let n = config.unicode_len();
    let mut tokens: Vec<String> = Vec::new();
    let mut start: usize = 0;
    let mut i: usize = 0;
    while i < n
        invariant
            n == config@.len(),
            start <= i <= n,
            open_token(config@.subrange(0, i as int)) == config@.subrange(start as int, i as int),
            strings_view(tokens@) == closed_tokens(config@.subrange(0, i as int)),
        decreases n - i,
    {
        let c = config.get_char(i);
        let ghost pre = config@.subrange(0, i as int);
        let ghost next = config@.subrange(0, i + 1);
        assert(next.drop_last() =~= pre);
        assert(next.last() == c);
        if c == ',' {
            if start < i {
                let piece = config.substring_char(start, i);
                let t = String::from_str(piece);
                let ghost old_tokens = tokens@;
                tokens.push(t);
                assert(strings_view(tokens@) =~= strings_view(old_tokens).push(t@));
            }
            start = i + 1;
            assert(config@.subrange(start as int, i + 1) =~= Seq::<char>::empty());
        } else {
            assert(config@.subrange(start as int, i + 1) =~= config@.subrange(
                start as int,
                i as int,
            ).push(c));
        }
        i = i + 1;
    }
    let ghost all = config@.subrange(0, n as int);
    assert(all =~= config@);
    if start < n {
        let piece = config.substring_char(start, n);
        let t = String::from_str(piece);
        let ghost old_tokens = tokens@;
        tokens.push(t);
        assert(strings_view(tokens@) =~= strings_view(old_tokens).push(t@));
    }
    tokens
}

} // verus!

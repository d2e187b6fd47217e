//! Profile discovery from the shared credentials file, line by line: each
//! line holding a bracketed section header contributes one profile name,
//! cleaned of brackets, of the word `profile`, and of surrounding
//! whitespace.
//!
//! Reading the file itself is outside glue; this module receives its lines
//! as plain strings.

use vstd::prelude::*;

use crate::text::{
    bracket_match_spec, find_bracketed, remove_pat, remove_pat_spec, trim, trim_spec,
};

verus! {

/// One raw section match cleaned into a profile name: brackets and the word
/// `profile` removed, whitespace trimmed.
pub open spec fn clean_profile_spec(m: Seq<char>) -> Seq<char> {
    trim_spec(remove_pat_spec(remove_pat_spec(remove_pat_spec(m, "["@), "]"@), "profile"@))
}

/// Cleans one raw bracketed match into a profile name.
pub fn clean_profile(m: &str) -> (r: String)
    ensures
        r@ == clean_profile_spec(m@),
{
    proof {
        reveal_strlit("[");
        reveal_strlit("]");
        reveal_strlit("profile");
    }
    let without_open = remove_pat(m, "[");
    let without_brackets = remove_pat(without_open.as_str(), "]");
    let without_word = remove_pat(without_brackets.as_str(), "profile");
    trim(without_word.as_str())
}

/// Cleans every raw match, in order.
pub fn parse_profiles(regex_matches: Vec<String>) -> (r: Vec<String>)
    ensures
        r@.len() == regex_matches@.len(),
        forall|i: int|
            0 <= i < r@.len() ==> #[trigger] r@[i]@ == clean_profile_spec(regex_matches@[i]@),
{
    let n = regex_matches.len();
    let mut out: Vec<String> = Vec::new();
    let mut i: usize = 0;
    while i < n
        invariant
            n == regex_matches@.len(),
            0 <= i <= n,
            out@.len() == i,
            forall|k: int|
                0 <= k < i ==> #[trigger] out@[k]@ == clean_profile_spec(regex_matches@[k]@),
        decreases n - i,
    {
        out.push(clean_profile(regex_matches[i].as_str()));
        i += 1;
    }
    out
}

/// The profiles the credentials file's lines name: one per line holding a
/// bracketed section header, cleaned into a profile name.
pub open spec fn profiles_from_lines(lines: Seq<Seq<char>>) -> Seq<Seq<char>>
    decreases lines.len(),
{
    if lines.len() == 0 {
        Seq::empty()
    } else {
        (match bracket_match_spec(lines.first()) {
            Some(m) => seq![clean_profile_spec(m)],
            None => Seq::empty(),
        }) + profiles_from_lines(lines.drop_first())
    }
}

/// Extracts the profile names from the credentials file's lines: each line's
/// leftmost bracketed span, cleaned.
pub fn get_aws_profiles(lines: Vec<String>) -> (r: Vec<String>)
    ensures
        r@.map_values(|p: String| p@) == profiles_from_lines(
            lines@.map_values(|l: String| l@),
        ),
{
    let ghost lines0 = lines@.map_values(|l: String| l@);
    let n = lines.len();
    let mut out: Vec<String> = Vec::new();
    let mut i: usize = 0;
    proof {
        assert(lines0.skip(0) =~= lines0);
        assert(out@.map_values(|p: String| p@) + profiles_from_lines(lines0) =~= profiles_from_lines(
            lines0,
        ));
    }
    while i < n
        invariant
            n == lines@.len(),
            lines0 == lines@.map_values(|l: String| l@),
            0 <= i <= n,
            profiles_from_lines(lines0) == out@.map_values(|p: String| p@)
                + profiles_from_lines(lines0.skip(i as int)),
        decreases n - i,
    {
        let ghost suffix = lines0.skip(i as int);
        proof {
            assert(suffix.len() > 0);
            assert(suffix.first() == lines0[i as int]);
            assert(suffix.drop_first() =~= lines0.skip(i as int + 1));
            assert(lines0[i as int] == lines@[i as int]@);
        }
        match find_bracketed(lines[i].as_str()) {
            Some(m) => {
                let ghost out_prev = out@;
                out.push(clean_profile(m.as_str()));
                proof {
                    assert(bracket_match_spec(lines0[i as int]) == Some(m@));
                    assert(out@.map_values(|p: String| p@) =~= out_prev.map_values(
                        |p: String| p@,
                    ).push(clean_profile_spec(m@)));
                    assert(out_prev.map_values(|p: String| p@).push(clean_profile_spec(m@))
                        + profiles_from_lines(lines0.skip(i as int + 1)) =~= out_prev.map_values(
                        |p: String| p@,
                    ) + (seq![clean_profile_spec(m@)] + profiles_from_lines(
                        lines0.skip(i as int + 1),
                    )));
                }
            },
            None => {
                proof {
                    assert(Seq::<Seq<char>>::empty() + profiles_from_lines(
                        lines0.skip(i as int + 1),
                    ) =~= profiles_from_lines(lines0.skip(i as int + 1)));
                }
            },
        }
        i += 1;
    }
    proof {
        assert(lines0.skip(n as int) =~= Seq::<Seq<char>>::empty());
        assert(out@.map_values(|p: String| p@) + profiles_from_lines(lines0.skip(n as int))
            =~= out@.map_values(|p: String| p@));
    }
    out
}

} // verus!

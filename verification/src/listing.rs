//! Listing support for driving the object store's command-line client:
//! building its arguments, parsing its output, and classifying the entries
//! it lists. The command itself runs in outside glue; this module receives
//! its standard output as text.

use vstd::prelude::*;

use crate::text::{remove_pat, remove_pat_spec, split_char, split_char_spec, trim, trim_spec};
use vstd::string::StringExecFns;

verus! {

/// Builds the profile argument for the command-line client.
pub fn build_profile_arg(profile: &str) -> (r: String)
    ensures
        r@ == "--profile="@ + profile@,
{
    let mut s = String::from_str("--profile=");
    s.append(profile);
    s
}

/// Builds the object-store URI for a bucket and a path inside it.
pub fn build_s3_uri(bucket: &str, obj_path: &str) -> (r: String)
    ensures
        r@ == "s3://"@ + bucket@ + "/"@ + obj_path@,
{
    let mut s = String::from_str("s3://");
    s.append(bucket);
    s.append("/");
    s.append(obj_path);
    s
}

/// One line of listing output cleaned into an entry: whitespace trimmed,
/// the listing's `PRE` directory marker removed, and trimmed again.
pub open spec fn clean_listing_line(l: Seq<char>) -> Seq<char> {
    trim_spec(remove_pat_spec(trim_spec(l), "PRE"@))
}

/// What parsing the client's standard output yields: each line cleaned,
/// lines left empty by cleaning dropped.
pub open spec fn parse_stdout_lines(ls: Seq<Seq<char>>) -> Seq<Seq<char>>
    decreases ls.len(),
{
    if ls.len() == 0 {
        Seq::empty()
    } else {
        (if clean_listing_line(ls.first()).len() > 0 {
            seq![clean_listing_line(ls.first())]
        } else {
            Seq::empty()
        }) + parse_stdout_lines(ls.drop_first())
    }
}

pub open spec fn parse_stdout_spec(s: Seq<char>) -> Seq<Seq<char>> {
    parse_stdout_lines(split_char_spec(s, '\n'))
}

/// Parses the client's standard output into listing entries: one per line,
/// trimmed and stripped of the `PRE` marker, empty lines dropped.
pub fn parse_stdout(output: &str) -> (r: Vec<String>)
    ensures
        r@.map_values(|p: String| p@) == parse_stdout_spec(output@),
{
    proof {
        reveal_strlit("PRE");
    }
    let lines = split_char(output, '\n');
    let ghost lines0 = lines@.map_values(|p: String| p@);
    let n = lines.len();
    let mut out: Vec<String> = Vec::new();
    let mut i: usize = 0;
    proof {
        assert(lines0.skip(0) =~= lines0);
        assert(out@.map_values(|p: String| p@) + parse_stdout_lines(lines0) =~= parse_stdout_lines(
            lines0,
        ));
    }
    while i < n
        invariant
            n == lines@.len(),
            lines0 == lines@.map_values(|p: String| p@),
            "PRE"@.len() > 0,
            0 <= i <= n,
            parse_stdout_lines(lines0) == out@.map_values(|p: String| p@) + parse_stdout_lines(
                lines0.skip(i as int),
            ),
        decreases n - i,
    {
        let ghost suffix = lines0.skip(i as int);
        proof {
            assert(suffix.len() > 0);
            assert(suffix.first() == lines0[i as int]);
            assert(suffix.drop_first() =~= lines0.skip(i as int + 1));
            assert(lines0[i as int] == lines@[i as int]@);
        }
        let trimmed = trim(lines[i].as_str());
        let stripped = remove_pat(trimmed.as_str(), "PRE");
        let cleaned = trim(stripped.as_str());
        if cleaned.as_str().unicode_len() > 0 {
            let ghost out_prev = out@;
            out.push(cleaned);
            proof {
                assert(out@.map_values(|p: String| p@) =~= out_prev.map_values(|p: String| p@)
                    .push(clean_listing_line(lines0[i as int])));
                assert(out_prev.map_values(|p: String| p@).push(
                    clean_listing_line(lines0[i as int]),
                ) + parse_stdout_lines(lines0.skip(i as int + 1)) =~= out_prev.map_values(
                    |p: String| p@,
                ) + (seq![clean_listing_line(lines0[i as int])] + parse_stdout_lines(
                    lines0.skip(i as int + 1),
                )));
            }
        } else {
            proof {
                assert(clean_listing_line(lines0[i as int]).len() == 0);
                assert(Seq::<Seq<char>>::empty() + parse_stdout_lines(lines0.skip(i as int + 1))
                    =~= parse_stdout_lines(lines0.skip(i as int + 1)));
            }
        }
        i += 1;
    }
    proof {
        assert(lines0.skip(n as int) =~= Seq::<Seq<char>>::empty());
        assert(out@.map_values(|p: String| p@) + parse_stdout_lines(lines0.skip(n as int)) =~= out@
            .map_values(|p: String| p@));
    }
    out
}

/// Whether a listed entry names a directory: it ends with a separator.
pub open spec fn ends_with_slash(s: Seq<char>) -> bool {
    s.len() > 0 && s.last() == '/'
}

/// `s` with every trailing separator removed.
pub open spec fn trim_trailing_slashes_spec(s: Seq<char>) -> Seq<char>
    decreases s.len(),
{
    if s.len() == 0 || s.last() != '/' {
        s
    } else {
        trim_trailing_slashes_spec(s.drop_last())
    }
}

/// Removes every trailing separator from a listed directory entry.
pub fn trim_trailing_slashes(s: &str) -> (r: String)
    ensures
        r@ == trim_trailing_slashes_spec(s@),
{
    let n = s.unicode_len();
    let mut b: usize = n;
    proof {
        assert(s@.subrange(0, n as int) =~= s@);
    }
    while b > 0 && s.get_char(b - 1) == '/'
        invariant
            n == s@.len(),
            0 <= b <= n,
            trim_trailing_slashes_spec(s@) == trim_trailing_slashes_spec(
                s@.subrange(0, b as int),
            ),
        decreases b,
    {
        proof {
            assert(s@.subrange(0, b as int).last() == s@[b - 1]);
            assert(s@.subrange(0, b as int).drop_last() =~= s@.subrange(0, b as int - 1));
        }
        b -= 1;
    }
    proof {
        let piece = s@.subrange(0, b as int);
        if b > 0 {
            assert(piece.last() == s@[b - 1]);
        }
        assert(trim_trailing_slashes_spec(piece) == piece);
    }
    let piece = s.substring_char(0, b);
    String::from_str(piece)
}

/// How one listed entry is handled while walking a bucket.
///
/// * `DateDirectory`: a directory whose name parses as a date; it is
///   recorded as a leaf and not walked into.
/// * `NestedDirectory`: a directory to walk into recursively.
/// * `ObjectKey`: not a directory; the walk stops and yields no tree.
#[derive(Clone, Copy, Debug, PartialEq, Eq, Structural)]
pub enum EntryKind {
    DateDirectory,
    NestedDirectory,
    ObjectKey,
}

/// The classification of an entry once the date question is answered.
pub open spec fn classify_spec(entry: Seq<char>, date_like: bool) -> EntryKind {
    if !ends_with_slash(entry) {
        EntryKind::ObjectKey
    } else if date_like {
        EntryKind::DateDirectory
    } else {
        EntryKind::NestedDirectory
    }
}

/// Classifies an entry given whether its trimmed name parses as a date.
pub fn classify_entry_kind(entry: &str, date_like: bool) -> (k: EntryKind)
    ensures
        k == classify_spec(entry@, date_like),
{
    let n = entry.unicode_len();
    if n == 0 || entry.get_char(n - 1) != '/' {
        EntryKind::ObjectKey
    } else if date_like {
        EntryKind::DateDirectory
    } else {
        EntryKind::NestedDirectory
    }
}

/// Relies on dateparser::parse: whether the text parses as a date or time.
/// Some relative formats are judged against the current instant, so nothing
/// is promised of the answer.
#[verifier::external_body]
fn date_like(s: &str) -> bool {
    dateparser::parse(s).is_ok()
}

/// Classifies one listed entry: a non-directory stops the walk, a directory
/// whose trimmed name parses as a date is a leaf, and any other directory
/// is walked into. Returns the entry's kind and its name without trailing
/// separators.
pub fn classify_entry(entry: &str) -> (r: (EntryKind, String))
    ensures
        r.1@ == trim_trailing_slashes_spec(entry@),
        r.0 is ObjectKey <==> !ends_with_slash(entry@),
{
    let trimmed = trim_trailing_slashes(entry);
    let is_date = date_like(trimmed.as_str());
    let k = classify_entry_kind(entry, is_date);
    (k, trimmed)
}

} // verus!

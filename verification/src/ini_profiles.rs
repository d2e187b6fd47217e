//! Profile discovery from the credentials file parsed as INI: every named
//! section contributes one profile, its name cleaned of the word `profile`
//! and of surrounding whitespace.

use vstd::prelude::*;

use crate::errors::{GetAwsConfigFilePathError, GetProfilesError};
use crate::text::{remove_pat, remove_pat_spec, trim, trim_spec};
use vstd::string::StringExecFns;

verus! {

/// The section names of an INI document, in document order: `None` is the
/// nameless general section, `Some` a named section. `None` for the whole
/// when the text is not well-formed INI.
pub uninterp spec fn ini_sections_of(text: Seq<char>) -> Option<Seq<Option<Seq<char>>>>;

/// Relies on ini::Ini::load_from_str and ini::Ini::sections: parses INI
/// text and hands back its section names in document order, or nothing when
/// parsing fails. Both are functions of the text alone.
#[verifier::external_body]
fn load_ini_sections(text: &str) -> (r: Option<Vec<Option<String>>>)
    ensures
        r is Some <==> ini_sections_of(text@) is Some,
        r matches Some(v) ==> ini_sections_of(text@) == Some(v.deep_view()),
{
    match ini::Ini::load_from_str(text) {
        Ok(conf) => Some(conf.sections().map(|s| s.map(|name| name.to_string())).collect()),
        Err(_) => None,
    }
}

/// One section name cleaned into a profile name: the word `profile`
/// removed, whitespace trimmed.
pub open spec fn clean_section_spec(s: Seq<char>) -> Seq<char> {
    trim_spec(remove_pat_spec(s, "profile"@))
}

fn clean_section(s: &str) -> (r: String)
    ensures
        r@ == clean_section_spec(s@),
{
    proof {
        reveal_strlit("profile");
    }
    let without_word = remove_pat(s, "profile");
    trim(without_word.as_str())
}

/// The profiles an INI document's sections name: one per named section,
/// cleaned; the nameless general section contributes none.
pub open spec fn ini_profiles_spec(secs: Seq<Option<Seq<char>>>) -> Seq<Seq<char>>
    decreases secs.len(),
{
    if secs.len() == 0 {
        Seq::empty()
    } else {
        (match secs.first() {
            Some(name) => seq![clean_section_spec(name)],
            None => Seq::empty(),
        }) + ini_profiles_spec(secs.drop_first())
    }
}

/// Cleans every named section into a profile name, in order.
pub fn parse_profiles_from_ini(sections: Vec<Option<String>>) -> (r: Vec<String>)
    ensures
        r@.map_values(|p: String| p@) == ini_profiles_spec(sections.deep_view()),
{
    let ghost secs0 = sections.deep_view();
    let n = sections.len();
    let mut out: Vec<String> = Vec::new();
    let mut i: usize = 0;
    proof {
        assert(secs0.len() == n);
        assert(secs0.skip(0) =~= secs0);
        assert(out@.map_values(|p: String| p@) + ini_profiles_spec(secs0) =~= ini_profiles_spec(
            secs0,
        ));
    }
    while i < n
        invariant
            n == sections@.len(),
            secs0 == sections.deep_view(),
            secs0.len() == n,
            0 <= i <= n,
            ini_profiles_spec(secs0) == out@.map_values(|p: String| p@) + ini_profiles_spec(
                secs0.skip(i as int),
            ),
        decreases n - i,
    {
        let ghost suffix = secs0.skip(i as int);
        proof {
            assert(suffix.len() > 0);
            assert(suffix.first() == secs0[i as int]);
            assert(suffix.drop_first() =~= secs0.skip(i as int + 1));
            assert(secs0[i as int] == sections@[i as int].deep_view());
        }
        match &sections[i] {
            Some(name) => {
                let ghost out_prev = out@;
                out.push(clean_section(name.as_str()));
                proof {
                    assert(secs0[i as int] == Some(name@));
                    assert(out@.map_values(|p: String| p@) =~= out_prev.map_values(
                        |p: String| p@,
                    ).push(clean_section_spec(name@)));
                    assert(out_prev.map_values(|p: String| p@).push(clean_section_spec(name@))
                        + ini_profiles_spec(secs0.skip(i as int + 1)) =~= out_prev.map_values(
                        |p: String| p@,
                    ) + (seq![clean_section_spec(name@)] + ini_profiles_spec(
                        secs0.skip(i as int + 1),
                    )));
                }
            },
            None => {
                proof {
                    assert(secs0[i as int] is None);
                    assert(Seq::<Seq<char>>::empty() + ini_profiles_spec(
                        secs0.skip(i as int + 1),
                    ) =~= ini_profiles_spec(secs0.skip(i as int + 1)));
                }
            },
        }
        i += 1;
    }
    proof {
        assert(secs0.skip(n as int) =~= Seq::<Option<Seq<char>>>::empty());
        assert(out@.map_values(|p: String| p@) + ini_profiles_spec(secs0.skip(n as int)) =~= out@
            .map_values(|p: String| p@));
    }
    out
}

/// Parses the credentials file's text and extracts the profile names its
/// sections declare. Fails exactly when the text is not well-formed INI.
pub fn get_aws_profiles(text: &str) -> (r: Result<Vec<String>, GetProfilesError>)
    ensures
        r is Ok <==> ini_sections_of(text@) is Some,
        ini_sections_of(text@) is None ==> r == Err::<Vec<String>, GetProfilesError>(
            GetProfilesError::FileError,
        ),
        (match r {
            Ok(v) => ini_sections_of(text@) matches Some(secs) && v@.map_values(|p: String| p@)
                == ini_profiles_spec(secs),
            Err(_) => true,
        }),
{
    match load_ini_sections(text) {
        Some(sections) => Ok(parse_profiles_from_ini(sections)),
        None => Err(GetProfilesError::FileError),
    }
}

/// Resolves the credentials file's path under the home directory, which the
/// surrounding glue looks up; without a home directory there is no path.
pub fn get_config_file_path(home_dir: Option<String>) -> (r: Result<
    String,
    GetAwsConfigFilePathError,
>)
    ensures
        (match home_dir {
            Some(home) => r matches Ok(p) && p@ == home@ + "/.aws/config"@,
            None => r == Err::<String, GetAwsConfigFilePathError>(
                GetAwsConfigFilePathError::HomeDirNotFound,
            ),
        }),
{
    match home_dir {
        Some(home) => {
            let mut path = home;
            path.append("/.aws/config");
            Ok(path)
        },
        None => Err(GetAwsConfigFilePathError::HomeDirNotFound),
    }
}

} // verus!

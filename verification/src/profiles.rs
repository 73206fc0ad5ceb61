//! Profiles: the rules for profile names, for the directory a profile's data
//! lives in, and for the saved list of profiles.
use vstd::prelude::*;
use crate::text::{
    eq_ignore_ascii_case, eq_ignore_ascii_case_spec, is_ascii_alphanumeric, is_ascii_alphanumeric_char,
    one_char, str_eq, trim, trim_spec,
};

verus! {

/// The name of the profile that a fresh installation starts with, and of the
/// directory used when a name has no character fit for a directory name.
pub open spec fn default_profile_name() -> Seq<char> {
    "Personal"@
}

/// The characters kept in a profile's directory name.
pub open spec fn is_dir_name_char(c: char) -> bool {
    is_ascii_alphanumeric_char(c) || c == '-' || c == '_'
}

/// [`is_dir_name_char`] as a predicate value.
pub open spec fn dir_name_char() -> spec_fn(char) -> bool {
    |c: char| is_dir_name_char(c)
}

/// The directory name of a profile: its ASCII letters, digits, hyphens and
/// underscores, or "Personal" when none is left.
pub open spec fn profile_dir_name_spec(profile: Seq<char>) -> Seq<char> {
    let safe = profile.filter(dir_name_char());
    if safe.len() == 0 {
        default_profile_name()
    } else {
        safe
    }
}

/// The directory name of the profile `profile` (see [`profile_dir_name_spec`]).
pub fn profile_dir_name(profile: &str) -> (r: String)
    ensures
        r@ == profile_dir_name_spec(profile@),
{
    let n: usize = profile.unicode_len();
    let mut safe = String::new();
    let mut i: usize = 0;
    assert(profile@.subrange(0, 0).filter(dir_name_char()) =~= Seq::<char>::empty()) by {
        reveal(Seq::filter);
    }
    while i < n
        invariant
            i <= n,
            n == profile@.len(),
            safe@ == profile@.subrange(0, i as int).filter(dir_name_char()),
        decreases n - i,
    {
        let c = profile.get_char(i);
        assert(profile@.subrange(0, i + 1).drop_last() =~= profile@.subrange(0, i as int));
        assert(profile@.subrange(0, i + 1).last() == c);
        proof {
            reveal(Seq::filter);
        }
        if is_ascii_alphanumeric(c) || c == '-' || c == '_' {
            safe.append(one_char(profile, i));
        }
        i += 1;
    }
    assert(profile@.subrange(0, n as int) =~= profile@);
    if safe.unicode_len() == 0 {
        String::from_str("Personal")
    } else {
        safe
    }
}

/// A profile's directory name is never empty and holds only ASCII letters,
/// digits, hyphens and underscores, so it cannot leave the profiles
/// directory.
pub proof fn law_profile_dir_name_is_safe(profile: Seq<char>)
    ensures
        profile_dir_name_spec(profile).len() > 0,
        forall|i: int|
            0 <= i < profile_dir_name_spec(profile).len() ==> is_dir_name_char(
                #[trigger] profile_dir_name_spec(profile)[i],
            ),
{
    broadcast use Seq::lemma_filter_pred;

    reveal_strlit("Personal");
    let safe = profile.filter(dir_name_char());
    assert forall|i: int| 0 <= i < safe.len() implies is_dir_name_char(#[trigger] safe[i]) by {
        assert(dir_name_char()(safe[i]));
    }
}

/// The characters allowed in a profile name.
pub open spec fn is_profile_name_char(c: char) -> bool {
    is_ascii_alphanumeric_char(c) || c == ' ' || c == '-' || c == '_'
}

/// The longest profile name, in bytes; since every allowed character is
/// ASCII, also in characters.
pub const PROFILE_NAME_MAX: usize = 32;

/// A profile name, already trimmed, that may be created: one to 32
/// characters, each an ASCII letter or digit, a space, a hyphen or an
/// underscore.
pub open spec fn is_valid_profile_name(name: Seq<char>) -> bool {
    &&& 1 <= name.len() <= PROFILE_NAME_MAX
    &&& forall|i: int| 0 <= i < name.len() ==> is_profile_name_char(#[trigger] name[i])
}

/// Why a profile could not be created or selected.
#[derive(Clone, Copy, Debug, PartialEq, Eq, Structural)]
pub enum ProfileError {
    /// The name is empty, too long or holds a character that is not allowed.
    InvalidName,
    /// No profile of that name exists.
    UnknownProfile,
}

impl ProfileError {
    /// The message shown to the user.
    pub open spec fn message_spec(self) -> Seq<char> {
        match self {
            ProfileError::InvalidName => "Use 1\u{2013}32 letters, numbers, spaces, hyphens, or underscores."@,
            ProfileError::UnknownProfile => "unknown profile"@,
        }
    }

    /// The message shown to the user (see [`ProfileError::message_spec`]).
    pub fn message(&self) -> (r: String)
        ensures
            r@ == self.message_spec(),
    {
        match self {
            ProfileError::InvalidName => String::from_str(
                "Use 1\u{2013}32 letters, numbers, spaces, hyphens, or underscores.",
            ),
            ProfileError::UnknownProfile => String::from_str("unknown profile"),
        }
    }
}

/// The name that `raw` asks for, with surrounding whitespace removed, when
/// it is a valid profile name; `InvalidName` otherwise.
pub fn validate_profile_name(raw: &str) -> (r: Result<String, ProfileError>)
    ensures
        r is Ok <==> is_valid_profile_name(trim_spec(raw@)),
        r matches Ok(name) ==> name@ == trim_spec(raw@),
        r matches Err(e) ==> e == ProfileError::InvalidName,
{
    let name = trim(raw);
    let n: usize = name.unicode_len();
    if n == 0 || n > PROFILE_NAME_MAX {
        return Err(ProfileError::InvalidName);
    }
    let mut i: usize = 0;
    while i < n
        invariant
            i <= n,
            n == name@.len(),
            name@ == trim_spec(raw@),
            forall|j: int| 0 <= j < i ==> is_profile_name_char(#[trigger] name@[j]),
        decreases n - i,
    {
        let c = name.get_char(i);
        if !(is_ascii_alphanumeric(c) || c == ' ' || c == '-' || c == '_') {
            assert(!is_profile_name_char(name@[i as int]));
            assert(!is_valid_profile_name(name@));
            return Err(ProfileError::InvalidName);
        }
        i += 1;
    }
    Ok(String::from_str(name))
}

/// A profile name is accepted exactly when, once trimmed, it has 1 to 32
/// characters, each an ASCII lower- or upper-case letter, an ASCII digit, a
/// space, a hyphen or an underscore; validation then returns the trimmed
/// name.
pub proof fn law_profile_name_characters(name: Seq<char>)
    ensures
        is_valid_profile_name(name) <==> (1 <= name.len() <= 32 && forall|i: int|
            0 <= i < name.len() ==> {
                let c = #[trigger] name[i];
                ('a' <= c <= 'z') || ('A' <= c <= 'Z') || ('0' <= c <= '9') || c == ' ' || c
                    == '-' || c == '_'
            }),
{
}

/// Whether some entry of `profiles` is exactly `name`.
pub open spec fn has_profile(profiles: Seq<String>, name: Seq<char>) -> bool {
    exists|i: int| 0 <= i < profiles.len() && (#[trigger] profiles[i])@ == name
}

/// Whether some entry of `profiles` equals `name` when ASCII case is ignored.
pub open spec fn has_profile_ignoring_case(profiles: Seq<String>, name: Seq<char>) -> bool {
    exists|i: int|
        0 <= i < profiles.len() && eq_ignore_ascii_case_spec((#[trigger] profiles[i])@, name)
}

/// Whether `profiles` holds `name` exactly (see [`has_profile`]).
pub fn contains_profile(profiles: &Vec<String>, name: &str) -> (r: bool)
    ensures
        r == has_profile(profiles@, name@),
{
    let mut i: usize = 0;
    while i < profiles.len()
        invariant
            i <= profiles.len(),
            forall|j: int| 0 <= j < i ==> (#[trigger] profiles@[j])@ != name@,
        decreases profiles.len() - i,
    {
        if str_eq(profiles[i].as_str(), name) {
            return true;
        }
        i += 1;
    }
    false
}

/// Whether `profiles` holds `name` up to ASCII case (see
/// [`has_profile_ignoring_case`]).
pub fn contains_profile_ignoring_case(profiles: &Vec<String>, name: &str) -> (r: bool)
    ensures
        r == has_profile_ignoring_case(profiles@, name@),
{
    let mut i: usize = 0;
    while i < profiles.len()
        invariant
            i <= profiles.len(),
            forall|j: int|
                0 <= j < i ==> !eq_ignore_ascii_case_spec((#[trigger] profiles@[j])@, name@),
        decreases profiles.len() - i,
    {
        if eq_ignore_ascii_case(profiles[i].as_str(), name) {
            return true;
        }
        i += 1;
    }
    false
}

/// A saved list of profiles is used only when it is not empty and names its
/// active profile.
pub open spec fn is_valid_registry(profiles: Seq<String>, active: Seq<char>) -> bool {
    profiles.len() > 0 && has_profile(profiles, active)
}

/// Whether a saved list of profiles and its active profile may be used (see
/// [`is_valid_registry`]).
pub fn registry_is_valid(profiles: &Vec<String>, active: &str) -> (r: bool)
    ensures
        r == is_valid_registry(profiles@, active@),
{
    profiles.len() > 0 && contains_profile(profiles, active)
}

} // verus!

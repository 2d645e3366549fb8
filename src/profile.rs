//! The closed set of power profiles and their string tokens.
use vstd::prelude::*;

use crate::text::same_text;

verus! {

/// A power profile, as the power-profile service names it.
#[derive(Debug, Clone, Copy, PartialEq, Eq, Hash, Structural)]
pub enum Profile {
    Performance,
    Balanced,
    PowerSaver,
}

/// A string that names no power profile.
#[derive(Debug)]
pub struct UnknownProfile {
    pub value: String,
}

impl Profile {
    /// The token under which the service and the configuration name the profile.
    pub open spec fn token(self) -> Seq<char> {
        match self {
            Profile::Performance => "performance"@,
            Profile::Balanced => "balanced"@,
            Profile::PowerSaver => "power-saver"@,
        }
    }

    /// The profile that `s` names, if any.
    pub open spec fn parse_spec(s: Seq<char>) -> Option<Profile> {
        if s == Profile::Performance.token() {
            Some(Profile::Performance)
        } else if s == Profile::Balanced.token() {
            Some(Profile::Balanced)
        } else if s == Profile::PowerSaver.token() {
            Some(Profile::PowerSaver)
        } else {
            None
        }
    }

    /// The position of the profile in the fixed order.
    pub open spec fn rank(self) -> int {
        match self {
            Profile::Performance => 0,
            Profile::Balanced => 1,
            Profile::PowerSaver => 2,
        }
    }

    /// The profiles in their fixed order.
    pub open spec fn all_spec() -> Seq<Profile> {
        seq![Profile::Performance, Profile::Balanced, Profile::PowerSaver]
    }

    pub fn as_config_key(self) -> (r: &'static str)
        ensures
            r@ == self.token(),
    {
        match self {
            Profile::Performance => "performance",
            Profile::Balanced => "balanced",
            Profile::PowerSaver => "power-saver",
        }
    }

    pub fn all() -> (r: [Profile; 3])
        ensures
            r@ == Self::all_spec(),
    {
        let r = [Profile::Performance, Profile::Balanced, Profile::PowerSaver];
        assert(r@ =~= Self::all_spec());
        r
    }

    /// Parses the exact token of a profile; any other string is refused.
    pub fn from_str(s: &str) -> (r: Result<Profile, UnknownProfile>)
        ensures
            r matches Ok(p) ==> Self::parse_spec(s@) == Some(p),
            r matches Err(e) ==> Self::parse_spec(s@) is None && e.value@ == s@,
    {
        if same_text(s, "performance") {
            Ok(Profile::Performance)
        } else if same_text(s, "balanced") {
            Ok(Profile::Balanced)
        } else if same_text(s, "power-saver") {
            Ok(Profile::PowerSaver)
        } else {
            Err(UnknownProfile { value: s.to_owned() })
        }
    }
}

/// The three tokens differ from one another.
pub proof fn lemma_tokens_distinct()
    ensures
        Profile::Performance.token() != Profile::Balanced.token(),
        Profile::Performance.token() != Profile::PowerSaver.token(),
        Profile::Balanced.token() != Profile::PowerSaver.token(),
{
    reveal_strlit("performance");
    reveal_strlit("balanced");
    reveal_strlit("power-saver");
    assert(Profile::Performance.token()[1] != Profile::PowerSaver.token()[1]);
}

/// Parsing the token of a profile gives that profile back, and a string that
/// is no profile's token parses to nothing.
pub proof fn lemma_parse_round_trip(p: Profile, s: Seq<char>)
    ensures
        Profile::parse_spec(p.token()) == Some(p),
        Profile::parse_spec(s) matches Some(q) ==> q.token() == s,
        Profile::parse_spec(s) is None <==> (forall|q: Profile| q.token() != s),
{
    lemma_tokens_distinct();
    if Profile::parse_spec(s) is None {
        assert forall|q: Profile| q.token() != s by {
            match q {
                Profile::Performance => {},
                Profile::Balanced => {},
                Profile::PowerSaver => {},
            }
        }
    }
}

} // verus!

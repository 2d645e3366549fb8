//! The mode table: one scheduler invocation for each power profile.
use vstd::prelude::*;

use crate::profile::Profile;

verus! {

/// A scheduler invocation: the scheduler's name and one argument string that
/// is handed to the control tool verbatim.
#[derive(Debug)]
pub struct Mode {
    pub sched: String,
    pub args: String,
}

impl Mode {
    /// A copy of this mode.
    pub fn copy(&self) -> (r: Mode)
        ensures
            r == *self,
    {
        Mode { sched: self.sched.clone(), args: self.args.clone() }
    }
}

/// One entry of the configuration: a profile key and the mode given for it.
#[derive(Debug)]
pub struct ModeEntry {
    pub key: String,
    pub mode: Mode,
}

/// Why a configuration does not make a mode table.
#[derive(Debug)]
pub enum ConfigError {
    /// An entry's key names no profile.
    UnknownProfile { key: String },
    /// Two entries name the same profile.
    Duplicate { profile: Profile },
    /// No entry names this profile.
    Missing { profile: Profile },
}

/// The profile that entry `i` names, if any.
pub open spec fn entry_profile(entries: Seq<ModeEntry>, i: int) -> Option<Profile> {
    Profile::parse_spec(entries[i].key@)
}

/// Entry `i` names a profile that no earlier entry names.
pub open spec fn entry_fine(entries: Seq<ModeEntry>, i: int) -> bool {
    &&& entry_profile(entries, i) is Some
    &&& forall|j: int| 0 <= j < i ==> entry_profile(entries, j) != entry_profile(entries, i)
}

/// Every entry before `n` names a profile, and no profile twice.
pub open spec fn prefix_fine(entries: Seq<ModeEntry>, n: int) -> bool {
    forall|i: int| 0 <= i < n ==> entry_fine(entries, i)
}

/// Some entry names profile `p`.
pub open spec fn present(entries: Seq<ModeEntry>, p: Profile) -> bool {
    exists|i: int| 0 <= i < entries.len() && entry_profile(entries, i) == Some(p)
}

/// The entries make a complete table without duplicates.
pub open spec fn table_ok(entries: Seq<ModeEntry>) -> bool {
    &&& prefix_fine(entries, entries.len() as int)
    &&& forall|p: Profile| present(entries, p)
}

/// Entry `i` is the first that spoils the table.
pub open spec fn first_bad(entries: Seq<ModeEntry>, i: int) -> bool {
    0 <= i < entries.len() && prefix_fine(entries, i) && !entry_fine(entries, i)
}

/// The entries make a table exactly when every key names a profile, every
/// profile is named, and no two entries name the same profile.
pub proof fn lemma_table_ok_iff(entries: Seq<ModeEntry>)
    ensures
        table_ok(entries) <==> {
            &&& forall|i: int| 0 <= i < entries.len() ==> entry_profile(entries, i) is Some
            &&& forall|p: Profile| present(entries, p)
            &&& forall|i: int, j: int|
                0 <= i < entries.len() && 0 <= j < entries.len() && i != j ==> entry_profile(
                    entries,
                    i,
                ) != entry_profile(entries, j)
        },
{
    let all_named = forall|i: int| 0 <= i < entries.len() ==> entry_profile(entries, i) is Some;
    let distinct = forall|i: int, j: int|
        0 <= i < entries.len() && 0 <= j < entries.len() && i != j ==> entry_profile(entries, i)
            != entry_profile(entries, j);
    if table_ok(entries) {
        assert forall|i: int| 0 <= i < entries.len() implies entry_profile(entries, i) is Some by {
            assert(entry_fine(entries, i));
        }
        assert forall|i: int, j: int|
            0 <= i < entries.len() && 0 <= j < entries.len() && i != j implies entry_profile(
            entries,
            i,
        ) != entry_profile(entries, j) by {
            assert(entry_fine(entries, i));
            assert(entry_fine(entries, j));
        }
    }
    if all_named && distinct {
        assert forall|i: int| 0 <= i < entries.len() implies entry_fine(entries, i) by {
            assert forall|j: int| 0 <= j < i implies entry_profile(entries, j) != entry_profile(
                entries,
                i,
            ) by {
                assert(i != j);
            }
        }
    }
}

/// The mode table: exactly one mode for each profile.
#[derive(Debug)]
pub struct Config {
    performance: Mode,
    balanced: Mode,
    power_saver: Mode,
}

/// What a slot for profile `p` holds after the first `n` entries.
pub open spec fn slot_ok(s: Option<Mode>, entries: Seq<ModeEntry>, n: int, p: Profile) -> bool {
    match s {
        Some(m) => exists|j: int|
            0 <= j < n && entry_profile(entries, j) == Some(p) && entries[j].mode == m,
        None => forall|j: int| 0 <= j < n ==> entry_profile(entries, j) != Some(p),
    }
}

/// Two fine entries that name the same profile are the same entry.
proof fn lemma_fine_unique(entries: Seq<ModeEntry>, i: int, j: int)
    requires
        0 <= i < entries.len(),
        0 <= j < entries.len(),
        entry_fine(entries, i),
        entry_fine(entries, j),
        entry_profile(entries, i) == entry_profile(entries, j),
    ensures
        i == j,
{
}

impl Config {
    /// The mode that the table holds for `p`.
    pub closed spec fn mode_spec(&self, p: Profile) -> Mode {
        match p {
            Profile::Performance => self.performance,
            Profile::Balanced => self.balanced,
            Profile::PowerSaver => self.power_saver,
        }
    }

    /// Builds the table from the configuration's entries, in their order.
    /// The first entry whose key names no profile, or names one that an
    /// earlier entry named, is reported; else the first profile that no
    /// entry names.
    pub fn from_entries(entries: Vec<ModeEntry>) -> (r: Result<Config, ConfigError>)
        ensures
            r is Ok <==> table_ok(entries@),
            r matches Ok(c) ==> forall|i: int|
                0 <= i < entries@.len() ==> c.mode_spec(entry_profile(entries@, i)->0)
                    == entries@[i].mode,
            r matches Err(ConfigError::UnknownProfile { key }) ==> exists|i: int|
                first_bad(entries@, i) && entry_profile(entries@, i) is None && key@
                    == entries@[i].key@,
            r matches Err(ConfigError::Duplicate { profile }) ==> exists|i: int|
                first_bad(entries@, i) && entry_profile(entries@, i) == Some(profile),
            r matches Err(ConfigError::Missing { profile }) ==> {
                &&& prefix_fine(entries@, entries@.len() as int)
                &&& !present(entries@, profile)
                &&& forall|q: Profile| q.rank() < profile.rank() ==> present(entries@, q)
            },
    {
        let ghost es = entries@;
        let mut perf: Option<Mode> = None;
        let mut bal: Option<Mode> = None;
        let mut saver: Option<Mode> = None;
        let mut i: usize = 0;
        while i < entries.len()
            invariant
                es == entries@,
                i <= es.len(),
                prefix_fine(es, i as int),
                slot_ok(perf, es, i as int, Profile::Performance),
                slot_ok(bal, es, i as int, Profile::Balanced),
                slot_ok(saver, es, i as int, Profile::PowerSaver),
            decreases es.len() - i,
        {
            let e = &entries[i];
            match Profile::from_str(e.key.as_str()) {
                Err(_) => {
                    assert(first_bad(es, i as int));
                    return Err(ConfigError::UnknownProfile { key: e.key.clone() });
                },
                Ok(p) => {
                    let taken = match p {
                        Profile::Performance => perf.is_some(),
                        Profile::Balanced => bal.is_some(),
                        Profile::PowerSaver => saver.is_some(),
                    };
                    if taken {
                        assert(first_bad(es, i as int));
                        return Err(ConfigError::Duplicate { profile: p });
                    }
                    let m = e.mode.copy();
                    match p {
                        Profile::Performance => { perf = Some(m); },
                        Profile::Balanced => { bal = Some(m); },
                        Profile::PowerSaver => { saver = Some(m); },
                    }
                    assert(entry_fine(es, i as int));
                },
            }
            i = i + 1;
        }
        proof {
            lemma_present_of_slot(perf, es, Profile::Performance);
            lemma_present_of_slot(bal, es, Profile::Balanced);
            lemma_present_of_slot(saver, es, Profile::PowerSaver);
        }
        match (perf, bal, saver) {
            (Some(a), Some(b), Some(c)) => {
                let cfg = Config { performance: a, balanced: b, power_saver: c };
                assert forall|p: Profile| present(es, p) by {
                    match p {
                        Profile::Performance => {},
                        Profile::Balanced => {},
                        Profile::PowerSaver => {},
                    }
                }
                assert forall|i: int|
                    0 <= i < es.len() implies cfg.mode_spec(entry_profile(es, i)->0)
                    == es[i].mode by {
                    let p = entry_profile(es, i)->0;
                    assert(entry_fine(es, i));
                    assert(entry_profile(es, i) == Some(p));
                    let s = match p {
                        Profile::Performance => perf,
                        Profile::Balanced => bal,
                        Profile::PowerSaver => saver,
                    };
                    assert(slot_ok(s, es, es.len() as int, p));
                    let j = choose|j: int|
                        0 <= j < es.len() && entry_profile(es, j) == Some(p) && es[j].mode
                            == s->0;
                    lemma_fine_unique(es, i, j);
                }
                Ok(cfg)
            },
            (None, _, _) => Err(ConfigError::Missing { profile: Profile::Performance }),
            (_, None, _) => Err(ConfigError::Missing { profile: Profile::Balanced }),
            (_, _, None) => Err(ConfigError::Missing { profile: Profile::PowerSaver }),
        }
    }

    /// The mode for profile `p`; a complete table always has one.
    pub fn mode_for(&self, p: Profile) -> (r: Option<&Mode>)
        ensures
            r matches Some(m) && *m == self.mode_spec(p),
    {
        match p {
            Profile::Performance => Some(&self.performance),
            Profile::Balanced => Some(&self.balanced),
            Profile::PowerSaver => Some(&self.power_saver),
        }
    }
}

/// After all entries, a slot holds a mode exactly when some entry names its profile.
proof fn lemma_present_of_slot(s: Option<Mode>, es: Seq<ModeEntry>, p: Profile)
    requires
        slot_ok(s, es, es.len() as int, p),
    ensures
        s is Some <==> present(es, p),
{
}

} // verus!

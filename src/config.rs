use crate::authority::{CertPath, KeyPath};
use crate::error::ProfileNotFound;
use std::path::PathBuf;
use vstd::prelude::*;

verus! {

/// Where the persisted certificate and key of one authority live.
pub struct Profile {
    pub cert: PathBuf,
    pub key: PathBuf,
}

/// The registry of authorities: profiles by name, in order of registration.
/// A later entry for a name replaces the earlier ones.
pub struct Config {
    pub profiles: Vec<(String, Profile)>,
}

/// The registry that a list of entries denotes: each name maps to the
/// profile of its last entry.
pub open spec fn entries_map(entries: Seq<(String, Profile)>) -> Map<Seq<char>, Profile>
    decreases entries.len(),
{
    if entries.len() == 0 {
        Map::empty()
    } else {
        entries_map(entries.drop_last()).insert(entries.last().0@, entries.last().1)
    }
}

impl View for Config {
    type V = Map<Seq<char>, Profile>;

    open spec fn view(&self) -> Map<Seq<char>, Profile> {
        entries_map(self.profiles@)
    }
}

impl Profile {
    /// The profile of an authority persisted at `cert` and `key`.
    pub fn new(cert: CertPath, key: KeyPath) -> (r: Profile)
        ensures
            r.cert == cert.0,
            r.key == key.0,
    {
        Profile { cert: cert.0, key: key.0 }
    }
}

impl Default for Config {
    fn default() -> (r: Config)
        ensures
            r@ == Map::<Seq<char>, Profile>::empty(),
    {
        Config::new()
    }
}

impl Config {
    /// A registry without profiles.
    pub fn new() -> (r: Config)
        ensures
            r@ == Map::<Seq<char>, Profile>::empty(),
    {
        Config { profiles: Vec::new() }
    }

    /// The profile registered under `name`, or `ProfileNotFound` naming it.
    pub fn profile(&self, name: &String) -> (r: Result<&Profile, ProfileNotFound>)
        ensures
            r is Ok <==> self@.contains_key(name@),
            r matches Ok(p) ==> self@[name@] == *p,
            r matches Err(e) ==> e.0@ == name@,
    {
        let mut i: usize = self.profiles.len();
        assert(self.profiles@.take(i as int) =~= self.profiles@);
        while i > 0
            invariant
                i <= self.profiles.len(),
                entries_map(self.profiles@.take(i as int)).contains_key(name@)
                    == self@.contains_key(name@),
                self@.contains_key(name@) ==> entries_map(self.profiles@.take(i as int))[name@]
                    == self@[name@],
            decreases i,
        {
            let ghost pre = self.profiles@.take(i as int);
            assert(pre.drop_last() =~= self.profiles@.take(i - 1));
            if self.profiles[i - 1].0 == *name {
                return Ok(&self.profiles[i - 1].1);
            }
            i = i - 1;
        }
        assert(self.profiles@.take(0) =~= Seq::<(String, Profile)>::empty());
        Err(ProfileNotFound(name.clone()))
    }

    /// Registers `profile` under `name`, replacing any profile of that name.
    pub fn register(&mut self, name: String, profile: Profile)
        ensures
            final(self)@ == old(self)@.insert(name@, profile),
    {
        let ghost before = self.profiles@;
        self.profiles.push((name, profile));
        assert(self.profiles@.drop_last() =~= before);
    }
}

} // verus!

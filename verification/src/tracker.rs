//! The group assembly tracker: a transient map from an album-correlation key
//! to the identifier already allocated for that album.

use vstd::prelude::*;
use vstd::hash_map::StringHashMap;

verus! {

/// Transient, process-lifetime mapping `album key -> identifier`. Entries are
/// created on the first item of an album and only read afterwards; nothing
/// evicts them.
pub struct GroupTracker {
    map: StringHashMap<String>,
}

impl View for GroupTracker {
    type V = Map<Seq<char>, Seq<char>>;

    closed spec fn view(&self) -> Map<Seq<char>, Seq<char>> {
        self.map@.map_values(|v: String| v@)
    }
}

impl GroupTracker {
    /// An empty tracker.
    pub fn new() -> (r: Self)
        ensures
            r@ == Map::<Seq<char>, Seq<char>>::empty(),
    {
        let t = GroupTracker { map: StringHashMap::new() };
        proof {
            assert(t@ =~= Map::<Seq<char>, Seq<char>>::empty());
        }
        t
    }

    /// If `album_key` is already mapped, returns the existing identifier and
    /// `created == false`, leaving the tracker unchanged. Otherwise records
    /// `fresh` under the key and returns it with `created == true`. The read
    /// and the insertion happen in one call, so a caller that holds the
    /// tracker exclusively can never mint two identifiers for one album.
    pub fn resolve_or_create(&mut self, album_key: &String, fresh: String) -> (r: (String, bool))
        ensures
            old(self)@.contains_key(album_key@) ==> {
                &&& r.1 == false
                &&& r.0@ == old(self)@[album_key@]
                &&& final(self)@ == old(self)@
            },
            !old(self)@.contains_key(album_key@) ==> {
                &&& r.1 == true
                &&& r.0@ == fresh@
                &&& final(self)@ == old(self)@.insert(album_key@, fresh@)
            },
    {
        let existing = self.map.get(album_key.as_str());
        match existing {
            Some(uid) => {
                let u = uid.clone();
                (u, false)
            },
            None => {
                self.map.insert(album_key.clone(), fresh.clone());
                proof {
                    assert(self@ =~= old(self)@.insert(album_key@, fresh@));
                }
                (fresh, true)
            },
        }
    }
}

} // verus!

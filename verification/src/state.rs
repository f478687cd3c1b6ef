//! Record of a property reset session kept for an app.

use vstd::prelude::*;

use crate::keyed_map::KeyedMap;

verus! {

/// The package a reset session belongs to and the property values it backed up.
pub struct ActiveResetSession {
    pub package: String,
    pub backups: KeyedMap<String>,
}

impl ActiveResetSession {
    /// A session for `package` with no backups yet.
    pub fn new(package: String) -> (s: Self)
        ensures
            s.package == package,
            s.backups.str_pairs().len() == 0,
    {
        let backups = KeyedMap::new();
        assert(backups.str_pairs() =~= Seq::<(Seq<char>, Seq<char>)>::empty());
        ActiveResetSession { package, backups }
    }
}

} // verus!

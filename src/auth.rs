use vstd::prelude::*;

verus! {

/// The credential gate: development mode, or membership of the presented key
/// in the configured allow-list.
pub struct CredentialGate {
    pub dev_mode: bool,
    pub api_keys: Vec<String>,
}

impl CredentialGate {
    /// The configured keys, as character sequences.
    pub open spec fn keys(&self) -> Seq<Seq<char>> {
        self.api_keys@.map_values(|k: String| k@)
    }

    /// Whether `key` is accepted: in development mode always, else when configured.
    pub open spec fn accepts(&self, key: Seq<char>) -> bool {
        self.dev_mode || self.keys().contains(key)
    }

    /// Decides whether `key` may open a player connection. Never fails and
    /// changes nothing.
    pub fn authorize(&self, key: &String) -> (r: bool)
        ensures
            r == self.accepts(key@),
    {
        if self.dev_mode {
            return true;
        }
        let mut i: usize = 0;
        while i < self.api_keys.len()
            invariant
                i <= self.api_keys@.len(),
                forall|j: int| 0 <= j < i ==> self.keys()[j] != key@,
            decreases self.api_keys@.len() - i,
        {
            if self.api_keys[i] == *key {
                assert(self.keys()[i as int] == key@);
                return true;
            }
            i = i + 1;
        }
        assert(!self.keys().contains(key@));
        false
    }
}

} // verus!

use vstd::prelude::*;

verus! {

/// The service name under which the application's secrets are filed.
pub const SERVICE_NAME: &'static str = "dev.cairn.desktop";

/// One stored secret: a service and key naming it, and its value.
pub struct KeyStoreEntry {
    pub service: String,
    pub key: String,
    pub value: String,
}

/// The name under which an entry is filed.
pub open spec fn entry_key(e: KeyStoreEntry) -> (Seq<char>, Seq<char>) {
    (e.service@, e.key@)
}

/// The value stored under a name in a sequence of entries: the value of
/// the most recently stored matching entry, or `None`.
pub open spec fn lookup(s: Seq<KeyStoreEntry>, service: Seq<char>, key: Seq<char>) -> Option<
    Seq<char>,
>
    decreases s.len(),
{
    if s.len() == 0 {
        None
    } else if entry_key(s.last()) == (service, key) {
        Some(s.last().value@)
    } else {
        lookup(s.drop_last(), service, key)
    }
}

/// An in-memory secret store with the keychain's semantics: storing
/// under a name replaces what the name held, loading returns exactly
/// what the name holds, and deleting is idempotent.
pub struct KeyStore {
    entries: Vec<KeyStoreEntry>,
}

impl KeyStore {
    /// The store's entries, most recently stored last.
    pub closed spec fn entries_spec(&self) -> Seq<KeyStoreEntry> {
        self.entries@
    }

    /// An empty store: every name holds nothing.
    pub fn new() -> (r: KeyStore)
        ensures
            forall|service: Seq<char>, key: Seq<char>|
                #[trigger] lookup(r.entries_spec(), service, key) is None,
    {
        KeyStore { entries: Vec::new() }
    }

    /// Stores a value under a name, replacing whatever the name held.
    /// Every other name keeps its value.
    pub fn store(&mut self, service: &str, key: &str, value: &str) -> (r: Result<(), String>)
        ensures
            r is Ok,
            lookup(final(self).entries_spec(), service@, key@) == Some(value@),
            forall|s2: Seq<char>, k2: Seq<char>|
                (s2, k2) != (service@, key@) ==> #[trigger] lookup(
                    final(self).entries_spec(),
                    s2,
                    k2,
                ) == lookup(old(self).entries_spec(), s2, k2),
    {
        let entry = KeyStoreEntry {
            service: String::from_str(service),
            key: String::from_str(key),
            value: String::from_str(value),
        };
        self.entries.push(entry);
        proof {
            let post = self.entries@;
            assert(post.last() == entry);
            assert(post.drop_last() =~= old(self).entries@);
        }
        Ok(())
    }

    /// Loads the value a name holds, or `None` when it holds nothing.
    pub fn load(&self, service: &str, key: &str) -> (r: Result<Option<String>, String>)
        ensures
            r is Ok,
            r matches Ok(Some(v)) ==> lookup(self.entries_spec(), service@, key@) == Some(v@),
            r matches Ok(None) ==> lookup(self.entries_spec(), service@, key@) is None,
    {
        let n = self.entries.len();
        proof {
            assert(self.entries@.subrange(0, n as int) =~= self.entries@);
        }
        let mut i: usize = n;
        while i > 0
            invariant
                i <= n,
                n == self.entries@.len(),
                lookup(self.entries@, service@, key@) == lookup(
                    self.entries@.subrange(0, i as int),
                    service@,
                    key@,
                ),
            decreases i,
        {
            i = i - 1;
            let entry = &self.entries[i];
            let service_matches = entry.service == service.to_owned();
            let key_matches = entry.key == key.to_owned();
            proof {
                let prefix1 = self.entries@.subrange(0, i + 1 as int);
                assert(prefix1.last() == self.entries@[i as int]);
                assert(prefix1.drop_last() =~= self.entries@.subrange(0, i as int));
            }
            if service_matches && key_matches {
                return Ok(Some(entry.value.clone()));
            }
        }
        proof {
            assert(self.entries@.subrange(0, 0) =~= Seq::<KeyStoreEntry>::empty());
        }
        Ok(None)
    }

    /// Deletes whatever a name holds; a name that holds nothing is left
    /// as it is. Every other name keeps its value.
    pub fn delete(&mut self, service: &str, key: &str) -> (r: Result<(), String>)
        ensures
            r is Ok,
            lookup(final(self).entries_spec(), service@, key@) is None,
            forall|s2: Seq<char>, k2: Seq<char>|
                (s2, k2) != (service@, key@) ==> #[trigger] lookup(
                    final(self).entries_spec(),
                    s2,
                    k2,
                ) == lookup(old(self).entries_spec(), s2, k2),
    {
        let mut kept: Vec<KeyStoreEntry> = Vec::new();
        let n = self.entries.len();
        let mut i: usize = 0;
        while i < n
            invariant
                i <= n,
                n == self.entries@.len(),
                self.entries@ == old(self).entries@,
                forall|s2: Seq<char>, k2: Seq<char>| #[trigger]
                    lookup(kept@, s2, k2) == if (s2, k2) == (service@, key@) {
                        None
                    } else {
                        lookup(self.entries@.subrange(0, i as int), s2, k2)
                    },
            decreases n - i,
        {
            let entry = &self.entries[i];
            let service_matches = entry.service == service.to_owned();
            let key_matches = entry.key == key.to_owned();
            let ghost kept_pre = kept@;
            let ghost pre_i = self.entries@.subrange(0, i as int);
            let ghost post_i = self.entries@.subrange(0, i + 1 as int);
            proof {
                assert(post_i.last() == self.entries@[i as int]);
                assert(post_i.drop_last() =~= pre_i);
            }
            if !(service_matches && key_matches) {
                kept.push(
                    KeyStoreEntry {
                        service: entry.service.clone(),
                        key: entry.key.clone(),
                        value: entry.value.clone(),
                    },
                );
                proof {
                    assert(kept@.drop_last() =~= kept_pre);
                    assert(entry_key(kept@.last()) == entry_key(self.entries@[i as int]));
                }
            }
            proof {
                assert forall|s2: Seq<char>, k2: Seq<char>| #[trigger]
                    lookup(kept@, s2, k2) == (if (s2, k2) == (service@, key@) {
                        None::<Seq<char>>
                    } else {
                        lookup(post_i, s2, k2)
                    }) by {
                    assert(lookup(kept_pre, s2, k2) == (if (s2, k2) == (service@, key@) {
                        None::<Seq<char>>
                    } else {
                        lookup(pre_i, s2, k2)
                    }));
                }
            }
            i = i + 1;
        }
        proof {
            assert(self.entries@.subrange(0, n as int) =~= self.entries@);
        }
        self.entries = kept;
        Ok(())
    }

    /// Stores a value for the application's fixed service name.
    pub fn keychain_store(&mut self, key: String, value: String) -> (r: Result<(), String>)
        ensures
            r is Ok,
            lookup(final(self).entries_spec(), SERVICE_NAME@, key@) == Some(value@),
            forall|s2: Seq<char>, k2: Seq<char>|
                (s2, k2) != (SERVICE_NAME@, key@) ==> #[trigger] lookup(
                    final(self).entries_spec(),
                    s2,
                    k2,
                ) == lookup(old(self).entries_spec(), s2, k2),
    {
        self.store(SERVICE_NAME, key.as_str(), value.as_str())
    }

    /// Loads the value stored for the application's fixed service name.
    pub fn keychain_load(&self, key: String) -> (r: Result<Option<String>, String>)
        ensures
            r is Ok,
            r matches Ok(Some(v)) ==> lookup(self.entries_spec(), SERVICE_NAME@, key@) == Some(
                v@,
            ),
            r matches Ok(None) ==> lookup(self.entries_spec(), SERVICE_NAME@, key@) is None,
    {
        self.load(SERVICE_NAME, key.as_str())
    }

    /// Deletes the value stored for the application's fixed service name.
    pub fn keychain_delete(&mut self, key: String) -> (r: Result<(), String>)
        ensures
            r is Ok,
            lookup(final(self).entries_spec(), SERVICE_NAME@, key@) is None,
            forall|s2: Seq<char>, k2: Seq<char>|
                (s2, k2) != (SERVICE_NAME@, key@) ==> #[trigger] lookup(
                    final(self).entries_spec(),
                    s2,
                    k2,
                ) == lookup(old(self).entries_spec(), s2, k2),
    {
        self.delete(SERVICE_NAME, key.as_str())
    }
}

} // verus!

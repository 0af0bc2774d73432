//! The plugin registry: three name-keyed collections of plugin descriptors,
//! checked once at startup and read-only afterwards.
use vstd::prelude::*;

use crate::config::{Checker, Endpoint, Handler, Keyed, Server, Trigger};
use crate::err::DemeanorError;

verus! {

/// The first index at or after `k` whose key is `key`.
pub open spec fn find_key_from<C: Keyed>(items: Seq<C>, key: Seq<char>, k: int) -> Option<int>
    decreases items.len() - k,
{
    if k < 0 || k >= items.len() {
        None
    } else if items[k].key() == key {
        Some(k)
    } else {
        find_key_from(items, key, k + 1)
    }
}

/// The first index whose key is `key`, if any.
pub open spec fn find_key<C: Keyed>(items: Seq<C>, key: Seq<char>) -> Option<int> {
    find_key_from(items, key, 0)
}

pub open spec fn has_key<C: Keyed>(items: Seq<C>, key: Seq<char>) -> bool {
    exists|i: int| 0 <= i < items.len() && #[trigger] items[i].key() == key
}

/// No two records share a key.
pub open spec fn keys_unique<C: Keyed>(items: Seq<C>) -> bool {
    forall|i: int, j: int|
        0 <= i < items.len() && 0 <= j < items.len() && i != j ==> #[trigger] items[i].key()
            != #[trigger] items[j].key()
}

pub proof fn lemma_find_key_from<C: Keyed>(items: Seq<C>, key: Seq<char>, k: int)
    requires
        0 <= k,
    ensures
        find_key_from(items, key, k) matches Some(i) ==> k <= i < items.len() && items[i].key()
            == key && forall|j: int| k <= j < i ==> #[trigger] items[j].key() != key,
        find_key_from(items, key, k) is None ==> forall|j: int|
            k <= j < items.len() ==> #[trigger] items[j].key() != key,
    decreases items.len() - k,
{
    if k < items.len() && items[k].key() != key {
        lemma_find_key_from(items, key, k + 1);
    }
}

/// The lookup by key finds a record exactly when one has the key, and then
/// one that has it; under unique keys, the only one.
pub proof fn lemma_find_key<C: Keyed>(items: Seq<C>, key: Seq<char>)
    ensures
        find_key(items, key) is Some <==> has_key(items, key),
        find_key(items, key) matches Some(i) ==> 0 <= i < items.len() && items[i].key() == key,
        keys_unique(items) ==> forall|j: int|
            0 <= j < items.len() && #[trigger] items[j].key() == key ==> find_key(items, key)
                == Some(j),
{
    lemma_find_key_from(items, key, 0);
    if find_key(items, key) is None {
        assert forall|j: int| 0 <= j < items.len() implies #[trigger] items[j].key() != key by {}
    }
}

/// Position of the first record with the given key.
pub fn position_of<C: Keyed>(items: &Vec<C>, key: &String) -> (r: Option<usize>)
    ensures
        r matches Some(i) ==> find_key(items@, key@) == Some(i as int),
        r is None ==> find_key(items@, key@) is None,
{
    let mut i: usize = 0;
    while i < items.len()
        invariant
            i <= items@.len(),
            find_key(items@, key@) == find_key_from(items@, key@, i as int),
        decreases items@.len() - i,
    {
        if items[i].key_ref().eq(key) {
            return Some(i);
        }
        i = i + 1;
    }
    None
}

/// Whether no two records share a key.
pub fn all_keys_unique<C: Keyed>(items: &Vec<C>) -> (r: bool)
    ensures
        r == keys_unique(items@),
{
    let n = items.len();
    let mut i: usize = 0;
    while i < n
        invariant
            n == items@.len(),
            i <= n,
            forall|a: int, b: int|
                0 <= a < i && 0 <= b < n && a != b ==> #[trigger] items@[a].key()
                    != #[trigger] items@[b].key(),
        decreases n - i,
    {
        let mut j: usize = 0;
        while j < n
            invariant
                n == items@.len(),
                i < n,
                j <= n,
                forall|a: int, b: int|
                    0 <= a < i && 0 <= b < n && a != b ==> #[trigger] items@[a].key()
                        != #[trigger] items@[b].key(),
                forall|b: int| 0 <= b < j && b != i ==> items@[i as int].key() != #[trigger] items@[b].key(),
            decreases n - j,
        {
            if j != i && items[i].key_ref().eq(items[j].key_ref()) {
                return false;
            }
            j = j + 1;
        }
        i = i + 1;
    }
    true
}

/// The stage that a trigger links to exists: a checker when it uses one, a
/// handler otherwise.
pub open spec fn trigger_link_resolves(t: Trigger, checkers: Seq<Checker>, handlers: Seq<Handler>) -> bool {
    if t.use_checker {
        has_key(checkers, t.next_plugin@)
    } else {
        has_key(handlers, t.next_plugin@)
    }
}

/// Every "next" link of the pipeline graph names an existing stage.
pub open spec fn links_complete(triggers: Seq<Trigger>, checkers: Seq<Checker>, handlers: Seq<Handler>) -> bool {
    &&& forall|i: int| 0 <= i < triggers.len() ==> trigger_link_resolves(#[trigger] triggers[i], checkers, handlers)
    &&& forall|i: int| 0 <= i < checkers.len() ==> has_key(handlers, (#[trigger] checkers[i]).next_plugin@)
}

/// The plugin descriptors of the three stages, each kind keyed by name.
pub struct PluginRegistry {
    triggers: Vec<Trigger>,
    checkers: Vec<Checker>,
    handlers: Vec<Handler>,
}

impl PluginRegistry {
    #[verifier::type_invariant]
    pub closed spec fn inv(&self) -> bool {
        &&& keys_unique(self.triggers@)
        &&& keys_unique(self.checkers@)
        &&& keys_unique(self.handlers@)
    }

    pub closed spec fn spec_triggers(&self) -> Seq<Trigger> {
        self.triggers@
    }

    pub closed spec fn spec_checkers(&self) -> Seq<Checker> {
        self.checkers@
    }

    pub closed spec fn spec_handlers(&self) -> Seq<Handler> {
        self.handlers@
    }

    /// Builds the registry; a name used twice within one kind is refused.
    pub fn build(triggers: Vec<Trigger>, checkers: Vec<Checker>, handlers: Vec<Handler>) -> (r: Result<PluginRegistry, DemeanorError>)
        ensures
            r is Ok <==> keys_unique(triggers@) && keys_unique(checkers@) && keys_unique(handlers@),
            r matches Ok(reg) ==> reg.spec_triggers() == triggers@ && reg.spec_checkers() == checkers@
                && reg.spec_handlers() == handlers@,
            !keys_unique(triggers@) ==> (r matches Err(e) && e.0@ == "Duplicate trigger name"@),
            keys_unique(triggers@) && !keys_unique(checkers@) ==> (r matches Err(e) && e.0@
                == "Duplicate checker name"@),
            keys_unique(triggers@) && keys_unique(checkers@) && !keys_unique(handlers@) ==> (r matches Err(
                e,
            ) && e.0@ == "Duplicate handler name"@),
    {
        if !all_keys_unique(&triggers) {
            return Err(DemeanorError::new("Duplicate trigger name"));
        }
        if !all_keys_unique(&checkers) {
            return Err(DemeanorError::new("Duplicate checker name"));
        }
        if !all_keys_unique(&handlers) {
            return Err(DemeanorError::new("Duplicate handler name"));
        }
        Ok(PluginRegistry { triggers, checkers, handlers })
    }

    /// Builds the registry and checks its pipeline graph, so that a dangling
    /// `next_plugin` link stops the start instead of failing requests.
    pub fn build_checked(triggers: Vec<Trigger>, checkers: Vec<Checker>, handlers: Vec<Handler>) -> (r: Result<PluginRegistry, DemeanorError>)
        ensures
            r is Ok <==> keys_unique(triggers@) && keys_unique(checkers@) && keys_unique(handlers@)
                && links_complete(triggers@, checkers@, handlers@),
            r matches Ok(reg) ==> reg.spec_triggers() == triggers@ && reg.spec_checkers() == checkers@
                && reg.spec_handlers() == handlers@,
    {
        let reg = PluginRegistry::build(triggers, checkers, handlers)?;
        reg.validate_links()?;
        Ok(reg)
    }

    /// Within each kind, no two plugins share a name.
    pub fn lemma_names_unique(&self)
        ensures
            keys_unique(self.spec_triggers()),
            keys_unique(self.spec_checkers()),
            keys_unique(self.spec_handlers()),
    {
        proof {
            use_type_invariant(self);
        }
    }

    pub fn triggers(&self) -> (r: &Vec<Trigger>)
        ensures
            r@ == self.spec_triggers(),
    {
        &self.triggers
    }

    pub fn checkers(&self) -> (r: &Vec<Checker>)
        ensures
            r@ == self.spec_checkers(),
    {
        &self.checkers
    }

    pub fn handlers(&self) -> (r: &Vec<Handler>)
        ensures
            r@ == self.spec_handlers(),
    {
        &self.handlers
    }

    pub fn find_trigger(&self, name: &String) -> (r: Option<usize>)
        ensures
            r matches Some(i) ==> find_key(self.spec_triggers(), name@) == Some(i as int),
            r is None ==> find_key(self.spec_triggers(), name@) is None,
    {
        position_of(&self.triggers, name)
    }

    pub fn find_checker(&self, name: &String) -> (r: Option<usize>)
        ensures
            r matches Some(i) ==> find_key(self.spec_checkers(), name@) == Some(i as int),
            r is None ==> find_key(self.spec_checkers(), name@) is None,
    {
        position_of(&self.checkers, name)
    }

    pub fn find_handler(&self, name: &String) -> (r: Option<usize>)
        ensures
            r matches Some(i) ==> find_key(self.spec_handlers(), name@) == Some(i as int),
            r is None ==> find_key(self.spec_handlers(), name@) is None,
    {
        position_of(&self.handlers, name)
    }

    /// Checks the pipeline graph: each trigger links to an existing checker or
    /// handler as its flag says, each checker to an existing handler. The
    /// error names the first plugin whose link does not resolve.
    pub fn validate_links(&self) -> (r: Result<(), DemeanorError>)
        ensures
            r is Ok <==> links_complete(self.spec_triggers(), self.spec_checkers(), self.spec_handlers()),
            r matches Err(e) ==> exists|name: Seq<char>|
                #![auto]
                e.0@ == "Unresolved next_plugin of "@ + name && (has_key(self.spec_triggers(), name)
                    || has_key(self.spec_checkers(), name)),
    {
        let mut i: usize = 0;
        while i < self.triggers.len()
            invariant
                i <= self.triggers@.len(),
                forall|k: int|
                    0 <= k < i ==> trigger_link_resolves(
                        #[trigger] self.triggers@[k],
                        self.checkers@,
                        self.handlers@,
                    ),
            decreases self.triggers@.len() - i,
        {
            let t = &self.triggers[i];
            let found = if t.use_checker {
                position_of(&self.checkers, &t.next_plugin)
            } else {
                position_of(&self.handlers, &t.next_plugin)
            };
            proof {
                lemma_find_key(self.checkers@, t.next_plugin@);
                lemma_find_key(self.handlers@, t.next_plugin@);
            }
            if found.is_none() {
                let msg = "Unresolved next_plugin of ".to_owned().concat(t.name.as_str());
                assert(self.triggers@[i as int].key() == t.name@);
                return Err(DemeanorError(msg));
            }
            i = i + 1;
        }
        let mut j: usize = 0;
        while j < self.checkers.len()
            invariant
                j <= self.checkers@.len(),
                forall|k: int|
                    0 <= k < self.triggers@.len() ==> trigger_link_resolves(
                        #[trigger] self.triggers@[k],
                        self.checkers@,
                        self.handlers@,
                    ),
                forall|k: int| 0 <= k < j ==> has_key(self.handlers@, (#[trigger] self.checkers@[k]).next_plugin@),
            decreases self.checkers@.len() - j,
        {
            let c = &self.checkers[j];
            let found = position_of(&self.handlers, &c.next_plugin);
            proof {
                lemma_find_key(self.handlers@, c.next_plugin@);
            }
            if found.is_none() {
                let msg = "Unresolved next_plugin of ".to_owned().concat(c.name.as_str());
                assert(self.checkers@[j as int].key() == c.name@);
                return Err(DemeanorError(msg));
            }
            j = j + 1;
        }
        Ok(())
    }

    /// Checks a server against the registry: its endpoint paths are unique and
    /// each endpoint names an existing trigger.
    pub fn validate_server(&self, server: &Server) -> (r: Result<(), DemeanorError>)
        ensures
            r is Ok <==> endpoints_resolve(server.endpoints@, self.spec_triggers()),
            !keys_unique(server.endpoints@) ==> (r matches Err(e) && e.0@ == "Duplicate endpoint path"@),
            keys_unique(server.endpoints@) && r is Err ==> (r matches Err(e) && e.0@
                == "Endpoint names an unknown trigger"@),
    {
        if !all_keys_unique(&server.endpoints) {
            return Err(DemeanorError::new("Duplicate endpoint path"));
        }
        let mut i: usize = 0;
        while i < server.endpoints.len()
            invariant
                i <= server.endpoints@.len(),
                keys_unique(server.endpoints@),
                forall|k: int|
                    0 <= k < i ==> has_key(self.triggers@, (#[trigger] server.endpoints@[k]).trigger_name@),
            decreases server.endpoints@.len() - i,
        {
            let e = &server.endpoints[i];
            let found = position_of(&self.triggers, &e.trigger_name);
            proof {
                lemma_find_key(self.triggers@, e.trigger_name@);
            }
            if found.is_none() {
                return Err(DemeanorError::new("Endpoint names an unknown trigger"));
            }
            i = i + 1;
        }
        Ok(())
    }
}

/// The endpoints of a server have unique paths and each names a trigger of
/// the registry.
pub open spec fn endpoints_resolve(endpoints: Seq<Endpoint>, triggers: Seq<Trigger>) -> bool {
    &&& keys_unique(endpoints)
    &&& forall|k: int| 0 <= k < endpoints.len() ==> has_key(triggers, (#[trigger] endpoints[k]).trigger_name@)
}

} // verus!

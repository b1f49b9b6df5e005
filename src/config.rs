//! The configuration store: application identities registered under
//! indices starting at 1, with the default activity and the connection
//! preferences.

use vstd::prelude::*;
use vstd::string::*;
use std::collections::BTreeMap;
use vstd::std_specs::btree::increasing_seq;
use vstd::std_specs::cmp::OrdSpec;
use crate::activity::{empty_activity, Activity};
use crate::error::Error;

verus! {

/// How many `DISCORD_APPLICATION_ID_<n>` variables are scanned, `n` running
/// from 1 to this bound.
pub const ENV_INDEX_MAX: u32 = 100;

/// The default of both connection switches.
pub fn default_true() -> (r: bool)
    ensures
        r,
{
    true
}

/// The default time between reconnection attempts, in seconds.
pub fn default_reconnect_interval() -> (r: u64)
    ensures
        r == 30,
{
    30
}

/// `s` lists the keys of `m`, each once, in increasing order.
pub open spec fn lists_keys_in_order(s: Seq<u32>, m: Map<u32, Seq<char>>) -> bool {
    &&& forall|k: u32| s.contains(k) <==> m.contains_key(k)
    &&& forall|a: int, b: int| 0 <= a < b < s.len() ==> #[trigger] s[a] < #[trigger] s[b]
}

/// The identities that the variables with values `values` register: the
/// value at position `k - 1` under index `k`, for `k` from 1 to `n`, where
/// that value is present and not empty.
pub open spec fn env_identities(values: Seq<Option<String>>, n: int) -> Map<u32, Seq<char>> {
    Map::new(
        |k: u32| 1 <= k <= n && values[k - 1] is Some && values[k - 1]->Some_0@.len() > 0,
        |k: u32| values[k - 1]->Some_0@,
    )
}

/// `s` with all but its first and last four characters hidden, when it is
/// longer than eight characters.
pub open spec fn masked(s: Seq<char>) -> Seq<char> {
    if s.len() > 8 {
        s.subrange(0, 4) + "..."@ + s.subrange(s.len() - 4, s.len() as int)
    } else {
        s
    }
}

/// Indices compared through references order as the indices themselves.
proof fn lemma_index_refs_obey_cmp()
    ensures
        vstd::laws_cmp::obeys_cmp::<&u32>(),
{
    broadcast use vstd::laws_cmp::group_laws_cmp, vstd::laws_eq::group_laws_eq;

    assert(vstd::laws_cmp::obeys_cmp::<u32>());
    reveal(vstd::laws_cmp::obeys_cmp_partial_ord);
    reveal(vstd::laws_cmp::obeys_cmp_ord);
    reveal(vstd::laws_eq::obeys_eq_spec_properties);
    reveal(vstd::laws_cmp::obeys_partial_cmp_spec_properties);
}

/// The store's contents.
#[derive(Debug, Clone)]
pub struct Config {
    application_ids: BTreeMap<u32, String>,
    /// The activity shown when none is given.
    pub activity: Activity,
    /// Whether to connect at start.
    pub auto_connect: bool,
    /// Whether to reconnect after losing the connection.
    pub auto_reconnect: bool,
    /// Seconds between reconnection attempts.
    pub reconnect_interval: u64,
}

impl Default for Config {
    fn default() -> (r: Config)
        ensures
            r.ids() == Map::<u32, Seq<char>>::empty(),
            r.spec_activity() == empty_activity(),
            r.spec_auto_connect(),
            r.spec_auto_reconnect(),
            r.spec_reconnect_interval() == 30,
    {
        Config::new()
    }
}

impl Config {
    /// The registered identities by index.
    pub closed spec fn ids(self) -> Map<u32, Seq<char>> {
        self.application_ids@.map_values(|s: String| s@)
    }

    pub closed spec fn spec_activity(self) -> Activity {
        self.activity
    }

    pub closed spec fn spec_auto_connect(self) -> bool {
        self.auto_connect
    }

    pub closed spec fn spec_auto_reconnect(self) -> bool {
        self.auto_reconnect
    }

    pub closed spec fn spec_reconnect_interval(self) -> u64 {
        self.reconnect_interval
    }

    /// An empty store with the default preferences: connect and reconnect
    /// automatically, every 30 seconds.
    pub fn new() -> (r: Config)
        ensures
            r.ids() == Map::<u32, Seq<char>>::empty(),
            r.spec_activity() == empty_activity(),
            r.spec_auto_connect(),
            r.spec_auto_reconnect(),
            r.spec_reconnect_interval() == 30,
    {
        let r = Config {
            application_ids: BTreeMap::new(),
            activity: Activity::new(),
            auto_connect: default_true(),
            auto_reconnect: default_true(),
            reconnect_interval: default_reconnect_interval(),
        };
        assert(r.ids() =~= Map::<u32, Seq<char>>::empty());
        r
    }

    /// Registers `app_id` under `index`, replacing what was there.
    pub fn add_application_id(&mut self, index: u32, app_id: String)
        ensures
            final(self).ids() == old(self).ids().insert(index, app_id@),
            final(self).spec_activity() == old(self).spec_activity(),
            final(self).spec_auto_connect() == old(self).spec_auto_connect(),
            final(self).spec_auto_reconnect() == old(self).spec_auto_reconnect(),
            final(self).spec_reconnect_interval() == old(self).spec_reconnect_interval(),
    {
        broadcast use vstd::std_specs::btree::group_btree_axioms, vstd::laws_cmp::group_laws_cmp;

        self.application_ids.insert(index, app_id);
        assert(self.ids() =~= old(self).ids().insert(index, app_id@));
    }

    /// The identity registered under `index`. Index 0 names none and gives
    /// `InvalidIndex`; an index with no identity gives `NotFound`, with the
    /// registered indices.
    pub fn get_application_id(&self, index: u32) -> (r: Result<&str, Error>)
        ensures
            index == 0 ==> r == Err::<&str, Error>(Error::InvalidIndex),
            index != 0 && self.ids().contains_key(index) ==> r is Ok && r->Ok_0@ == self.ids()[index],
            index != 0 && !self.ids().contains_key(index) ==> (r matches Err(
                Error::NotFound { index: i, registered },
            ) && i == index && lists_keys_in_order(registered@, self.ids())),
    {
        broadcast use vstd::std_specs::btree::group_btree_axioms, vstd::laws_cmp::group_laws_cmp;

        if index == 0 {
            return Err(Error::InvalidIndex);
        }
        match self.application_ids.get(&index) {
            Some(s) => Ok(s.as_str()),
            None => Err(Error::NotFound { index, registered: self.registered_indices() }),
        }
    }

    /// How many identities are registered.
    pub fn application_id_count(&self) -> (r: usize)
        ensures
            r == self.ids().len(),
    {
        broadcast use vstd::std_specs::btree::group_btree_axioms, vstd::laws_cmp::group_laws_cmp;

        assert(self.ids().dom() =~= self.application_ids@.dom());
        self.application_ids.len()
    }

    /// The registered indices, each once, in increasing order.
    pub fn registered_indices(&self) -> (r: Vec<u32>)
        ensures
            lists_keys_in_order(r@, self.ids()),
    {
        broadcast use vstd::std_specs::btree::group_btree_axioms, vstd::laws_cmp::group_laws_cmp;

        let mut r: Vec<u32> = Vec::new();
        for k in iter: self.application_ids.keys()
            invariant
                iter.seq().unref().to_set() == self.application_ids@.dom(),
                increasing_seq(iter.seq()),
                r@ == iter.seq().unref().take(iter.index() as int),
                iter.index() == iter.seq().len() ==> lists_keys_in_order(r@, self.ids()),
        {
            r.push(*k);
            assert(r@ =~= iter.seq().unref().take(iter.index() + 1));
            assert(iter.index() + 1 == iter.seq().len() ==> lists_keys_in_order(r@, self.ids())) by {
                lemma_index_refs_obey_cmp();
                if iter.index() + 1 == iter.seq().len() {
                    assert(r@ =~= iter.seq().unref());
                    assert forall|x: u32| r@.contains(x) <==> self.ids().contains_key(x) by {
                        assert(iter.seq().unref().to_set().contains(x) <==> iter.seq().unref().contains(x));
                    }
                    vstd::std_specs::btree::axiom_increasing_seq_meaning::<&u32>(iter.seq());
                    assert forall|a: int, b: int| 0 <= a < b < r@.len() implies #[trigger] r@[a] < #[trigger] r@[b] by {
                        assert(<&u32 as OrdSpec>::cmp_spec(&iter.seq()[a], &iter.seq()[b]) is Less);
                        assert(r@[a] == *iter.seq()[a]);
                        assert(r@[b] == *iter.seq()[b]);
                    }
                }
            }
        }
        r
    }

    /// Registers the identities that the variables `DISCORD_APPLICATION_ID_1`
    /// to `DISCORD_APPLICATION_ID_100` hold: `values[k - 1]` is the value of
    /// the one with suffix `k`, if set. Absent and empty values are skipped;
    /// values past the hundredth are ignored.
    pub fn load_from_env(&mut self, values: &Vec<Option<String>>)
        ensures
            final(self).ids() == old(self).ids().union_prefer_right(
                env_identities(values@, if values@.len() < ENV_INDEX_MAX { values@.len() as int } else { ENV_INDEX_MAX as int }),
            ),
            final(self).spec_activity() == old(self).spec_activity(),
            final(self).spec_auto_connect() == old(self).spec_auto_connect(),
            final(self).spec_auto_reconnect() == old(self).spec_auto_reconnect(),
            final(self).spec_reconnect_interval() == old(self).spec_reconnect_interval(),
    {
        let n: usize = if values.len() < ENV_INDEX_MAX as usize { values.len() } else { ENV_INDEX_MAX as usize };
        let mut i: usize = 0;
        while i < n
            invariant
                n <= values@.len(),
                n <= ENV_INDEX_MAX,
                i <= n,
                self.ids() == old(self).ids().union_prefer_right(env_identities(values@, i as int)),
                self.activity == old(self).spec_activity(),
                self.auto_connect == old(self).spec_auto_connect(),
                self.auto_reconnect == old(self).spec_auto_reconnect(),
                self.reconnect_interval == old(self).spec_reconnect_interval(),
            decreases n - i,
        {
            let ghost before = self.ids();
            let k: u32 = (i + 1) as u32;
            match &values[i] {
                Some(v) => {
                    if !v.as_str().is_empty() {
                        self.add_application_id(k, v.clone());
                    }
                },
                None => {},
            }
            proof {
                let m_prev = env_identities(values@, i as int);
                let m_next = env_identities(values@, i + 1);
                if values@[i as int] is Some && values@[i as int]->Some_0@.len() > 0 {
                    assert(m_next =~= m_prev.insert(k, values@[i as int]->Some_0@));
                    assert(self.ids() =~= old(self).ids().union_prefer_right(m_next));
                } else {
                    assert(m_next =~= m_prev);
                }
            }
            i = i + 1;
        }
    }

    /// A store with the default preferences and the identities that the
    /// variable values `values` register (see `load_from_env`).
    pub fn from_env(values: &Vec<Option<String>>) -> (r: Config)
        ensures
            r.ids() == env_identities(values@, if values@.len() < ENV_INDEX_MAX { values@.len() as int } else { ENV_INDEX_MAX as int }),
            r.spec_activity() == empty_activity(),
            r.spec_auto_connect(),
            r.spec_auto_reconnect(),
            r.spec_reconnect_interval() == 30,
    {
        let mut config = Config::new();
        config.load_from_env(values);
        proof {
            let n = if values@.len() < ENV_INDEX_MAX { values@.len() as int } else { ENV_INDEX_MAX as int };
            assert(config.ids() =~= env_identities(values@, n));
        }
        config
    }
}

/// `app_id` for display: its first and last four characters around `...`
/// when it is longer than eight characters, else as it is.
pub fn mask_application_id(app_id: &str) -> (r: String)
    ensures
        r@ == masked(app_id@),
{
    let n = app_id.unicode_len();
    if n > 8 {
        let mut r = String::from_str(app_id.substring_char(0, 4));
        r.append("...");
        r.append(app_id.substring_char(n - 4, n));
        r
    } else {
        String::from_str(app_id)
    }
}

} // verus!

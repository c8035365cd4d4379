//! Model of the shared configuration store.
//!
//! The store is a table of rows `(kind, env, key, value)` with at most one
//! row per `(kind, env, key)` triple. A write is an upsert: it overwrites the
//! value of an existing row with the same triple, or adds a new row. Rows are
//! never deleted by this subsystem. The store as a whole is viewed as a map
//! from triples to values.
//!
//! The module also builds the parameterized upsert request handed to the host
//! store: the command text is a fixed literal, independent of the inputs, and
//! the three variable parts travel as bound parameters, so no input is ever
//! interpolated into the command.

use vstd::prelude::*;
use vstd::string::*;

verus! {

/// The identity of a row: the triple the table is keyed by.
pub type TripleKey = (Seq<char>, Seq<char>, Seq<char>);

/// The fixed tag identifying this subsystem's rows among other tenants of the
/// shared table.
pub open spec fn config_kind_spec() -> Seq<char> {
    "python venv"@
}

/// Triple under which a spawned process's identifier is recorded for the
/// environment `name`.
pub open spec fn pid_triple(name: Seq<char>) -> TripleKey {
    (config_kind_spec(), name, "PID"@)
}

/// Triple under which an environment's communication channel key is recorded.
pub open spec fn listen_triple(name: Seq<char>) -> TripleKey {
    (config_kind_spec(), name, "listen_key"@)
}

/// One row of the shared configuration table.
pub struct ConfigEntry {
    pub kind: String,
    pub env: String,
    pub key: String,
    pub value: String,
}

impl ConfigEntry {
    /// The triple that identifies this row.
    pub open spec fn triple(self) -> TripleKey {
        (self.kind@, self.env@, self.key@)
    }
}

/// The map described by a sequence of rows; a later row overrides an earlier
/// one with the same triple.
pub open spec fn rows_as_map(rows: Seq<ConfigEntry>) -> Map<TripleKey, Seq<char>>
    decreases rows.len(),
{
    if rows.len() == 0 {
        Map::empty()
    } else {
        rows_as_map(rows.drop_last()).insert(rows.last().triple(), rows.last().value@)
    }
}

/// No two rows share a triple.
pub open spec fn distinct_triples(rows: Seq<ConfigEntry>) -> bool {
    forall|i: int, j: int|
        0 <= i < j < rows.len() ==> #[trigger] rows[i].triple() != #[trigger] rows[j].triple()
}

/// How many rows carry the triple `t`.
pub open spec fn count_matching(rows: Seq<ConfigEntry>, t: TripleKey) -> nat
    decreases rows.len(),
{
    if rows.len() == 0 {
        0
    } else {
        count_matching(rows.drop_last(), t) + if rows.last().triple() == t {
            1nat
        } else {
            0nat
        }
    }
}

/// A triple is a key of the row map exactly when some row carries it.
pub proof fn lemma_rows_as_map_dom(rows: Seq<ConfigEntry>, t: TripleKey)
    ensures
        rows_as_map(rows).contains_key(t) <==> exists|i: int|
            0 <= i < rows.len() && #[trigger] rows[i].triple() == t,
    decreases rows.len(),
{
    if rows.len() > 0 {
        let sub = rows.drop_last();
        lemma_rows_as_map_dom(sub, t);
        if rows_as_map(rows).contains_key(t) {
            if t == rows.last().triple() {
                assert(rows[rows.len() - 1].triple() == t);
            } else {
                let i = choose|i: int| 0 <= i < sub.len() && #[trigger] sub[i].triple() == t;
                assert(rows[i].triple() == t);
            }
        }
        if exists|i: int| 0 <= i < rows.len() && #[trigger] rows[i].triple() == t {
            let i = choose|i: int| 0 <= i < rows.len() && #[trigger] rows[i].triple() == t;
            if i < rows.len() - 1 {
                assert(sub[i].triple() == t);
            }
        }
    }
}

/// With distinct triples, the row map binds each row's triple to that row's
/// value.
pub proof fn lemma_rows_as_map_at(rows: Seq<ConfigEntry>, i: int)
    requires
        distinct_triples(rows),
        0 <= i < rows.len(),
    ensures
        rows_as_map(rows).contains_key(rows[i].triple()),
        rows_as_map(rows)[rows[i].triple()] == rows[i].value@,
    decreases rows.len(),
{
    if i < rows.len() - 1 {
        let sub = rows.drop_last();
        assert forall|p: int, q: int| 0 <= p < q < sub.len() implies #[trigger] sub[p].triple()
            != #[trigger] sub[q].triple() by {
            assert(rows[p].triple() != rows[q].triple());
        }
        lemma_rows_as_map_at(sub, i);
        assert(rows.last().triple() != rows[i].triple());
    }
}

/// Replacing the row at `i` by a row with the same triple turns the row map
/// into the old map with that binding overwritten, and keeps the triples
/// distinct.
pub proof fn lemma_rows_as_map_update(rows: Seq<ConfigEntry>, i: int, e: ConfigEntry)
    requires
        distinct_triples(rows),
        0 <= i < rows.len(),
        e.triple() == rows[i].triple(),
    ensures
        rows_as_map(rows.update(i, e)) == rows_as_map(rows).insert(e.triple(), e.value@),
        distinct_triples(rows.update(i, e)),
    decreases rows.len(),
{
    let urows = rows.update(i, e);
    assert forall|p: int, q: int| 0 <= p < q < urows.len() implies #[trigger] urows[p].triple()
        != #[trigger] urows[q].triple() by {
        assert(urows[p].triple() == rows[p].triple());
        assert(urows[q].triple() == rows[q].triple());
        assert(rows[p].triple() != rows[q].triple());
    }
    if i == rows.len() - 1 {
        assert(urows.drop_last() =~= rows.drop_last());
        assert(rows_as_map(rows).insert(e.triple(), e.value@) =~= rows_as_map(
            rows.drop_last(),
        ).insert(e.triple(), e.value@));
    } else {
        let sub = rows.drop_last();
        assert forall|p: int, q: int| 0 <= p < q < sub.len() implies #[trigger] sub[p].triple()
            != #[trigger] sub[q].triple() by {
            assert(rows[p].triple() != rows[q].triple());
        }
        lemma_rows_as_map_update(sub, i, e);
        assert(urows.drop_last() =~= sub.update(i, e));
        assert(urows.last() == rows.last());
        assert(e.triple() != rows.last().triple());
        assert(rows_as_map(urows) == rows_as_map(sub).insert(e.triple(), e.value@).insert(
            rows.last().triple(),
            rows.last().value@,
        ));
        assert(rows_as_map(sub).insert(e.triple(), e.value@).insert(
            rows.last().triple(),
            rows.last().value@,
        ) =~= rows_as_map(sub).insert(rows.last().triple(), rows.last().value@).insert(
            e.triple(),
            e.value@,
        ));
    }
}

/// With distinct triples, a triple is carried by at most one row, and by
/// exactly one row when it is a key of the row map.
pub proof fn lemma_count_unique(rows: Seq<ConfigEntry>, t: TripleKey)
    requires
        distinct_triples(rows),
    ensures
        count_matching(rows, t) <= 1,
        count_matching(rows, t) == 1 <==> rows_as_map(rows).contains_key(t),
    decreases rows.len(),
{
    lemma_rows_as_map_dom(rows, t);
    if rows.len() > 0 {
        let sub = rows.drop_last();
        assert forall|p: int, q: int| 0 <= p < q < sub.len() implies #[trigger] sub[p].triple()
            != #[trigger] sub[q].triple() by {
            assert(rows[p].triple() != rows[q].triple());
        }
        lemma_count_unique(sub, t);
        lemma_rows_as_map_dom(sub, t);
        if rows.last().triple() == t {
            assert forall|i: int| 0 <= i < sub.len() implies #[trigger] sub[i].triple() != t by {
                assert(rows[i].triple() != rows[rows.len() - 1].triple());
            }
            assert(count_matching(sub, t) == 0);
        }
    }
}

/// The shared configuration store, held as its rows.
pub struct ConfigStore {
    rows: Vec<ConfigEntry>,
}

impl View for ConfigStore {
    type V = Map<TripleKey, Seq<char>>;

    closed spec fn view(&self) -> Map<TripleKey, Seq<char>> {
        rows_as_map(self.rows@)
    }
}

impl ConfigStore {
    /// The store's rows, in insertion order.
    pub closed spec fn rows_seq(self) -> Seq<ConfigEntry> {
        self.rows@
    }

    /// At most one row per triple.
    pub closed spec fn wf(self) -> bool {
        distinct_triples(self.rows@)
    }

    /// An empty store.
    pub fn new() -> (r: ConfigStore)
        ensures
            r.wf(),
            r@ == Map::<TripleKey, Seq<char>>::empty(),
            r.rows_seq().len() == 0,
    {
        ConfigStore { rows: Vec::new() }
    }

    /// Write `value` under `(kind, env, key)`: overwrite the value of the row
    /// with that triple if one exists, add the row otherwise. Returns the
    /// written value, confirming what was durably recorded.
    pub fn upsert(&mut self, kind: &str, env: &str, key: &str, value: &str) -> (r: String)
        requires
            old(self).wf(),
        ensures
            final(self).wf(),
            final(self)@ == old(self)@.insert((kind@, env@, key@), value@),
            r@ == value@,
    {
        let entry = ConfigEntry {
            kind: String::from_str(kind),
            env: String::from_str(env),
            key: String::from_str(key),
            value: String::from_str(value),
        };
        let ghost t = (kind@, env@, key@);
        let ghost ge = entry;
        let n = self.rows.len();
        let mut i: usize = 0;
        while i < n
            invariant
                self == old(self),
                self.wf(),
                n == self.rows@.len(),
                0 <= i <= n,
                ge == entry,
                t == (kind@, env@, key@),
                ge.triple() == t,
                ge.value@ == value@,
                forall|j: int| 0 <= j < i ==> #[trigger] self.rows@[j].triple() != t,
            decreases n - i,
        {
            if self.rows[i].kind == entry.kind && self.rows[i].env == entry.env && self.rows[i].key
                == entry.key {
                let ghost old_rows = self.rows@;
                self.rows.remove(i);
                self.rows.insert(i, entry);
                proof {
                    assert(self.rows@ =~= old_rows.update(i as int, ge));
                    lemma_rows_as_map_update(old_rows, i as int, ge);
                }
                return String::from_str(value);
            }
            i = i + 1;
        }
        let ghost old_rows = self.rows@;
        self.rows.push(entry);
        proof {
            assert(self.rows@.drop_last() =~= old_rows);
            assert(self.rows@.last() == ge);
            assert forall|p: int, q: int| 0 <= p < q < self.rows@.len() implies
                #[trigger] self.rows@[p].triple() != #[trigger] self.rows@[q].triple() by {
                if q < self.rows@.len() - 1 {
                    assert(old_rows[p].triple() != old_rows[q].triple());
                } else {
                    assert(old_rows[p].triple() != t);
                }
            }
        }
        String::from_str(value)
    }

    /// Look up the value recorded under `(kind, env, key)`.
    pub fn get(&self, kind: &str, env: &str, key: &str) -> (r: Option<String>)
        requires
            self.wf(),
        ensures
            match r {
                Option::Some(v) => self@.contains_key((kind@, env@, key@)) && v@ == self@[(
                    kind@,
                    env@,
                    key@,
                )],
                Option::None => !self@.contains_key((kind@, env@, key@)),
            },
    {
        let wanted_kind = String::from_str(kind);
        let wanted_env = String::from_str(env);
        let wanted_key = String::from_str(key);
        let ghost t = (kind@, env@, key@);
        let n = self.rows.len();
        let mut i: usize = 0;
        while i < n
            invariant
                n == self.rows@.len(),
                0 <= i <= n,
                self.wf(),
                t == (kind@, env@, key@),
                wanted_kind@ == kind@,
                wanted_env@ == env@,
                wanted_key@ == key@,
                forall|j: int| 0 <= j < i ==> #[trigger] self.rows@[j].triple() != t,
            decreases n - i,
        {
            if self.rows[i].kind == wanted_kind && self.rows[i].env == wanted_env
                && self.rows[i].key == wanted_key {
                proof {
                    lemma_rows_as_map_at(self.rows@, i as int);
                }
                return Some(self.rows[i].value.clone());
            }
            i = i + 1;
        }
        proof {
            lemma_rows_as_map_dom(self.rows@, t);
        }
        None
    }

    /// Count the rows carrying `(kind, env, key)`: exactly one when the
    /// triple was ever written, none otherwise, and never more.
    pub fn row_count(&self, kind: &str, env: &str, key: &str) -> (n: usize)
        requires
            self.wf(),
        ensures
            n as nat == count_matching(self.rows_seq(), (kind@, env@, key@)),
            n <= 1,
            n == 1 <==> self@.contains_key((kind@, env@, key@)),
    {
        let wanted_kind = String::from_str(kind);
        let wanted_env = String::from_str(env);
        let wanted_key = String::from_str(key);
        let ghost t = (kind@, env@, key@);
        proof {
            lemma_count_unique(self.rows@, t);
        }
        let len = self.rows.len();
        let mut count: usize = 0;
        let mut i: usize = 0;
        while i < len
            invariant
                len == self.rows@.len(),
                0 <= i <= len,
                self.wf(),
                t == (kind@, env@, key@),
                wanted_kind@ == kind@,
                wanted_env@ == env@,
                wanted_key@ == key@,
                count as nat == count_matching(self.rows@.take(i as int), t),
                count <= i,
            decreases len - i,
        {
            proof {
                assert(self.rows@.take(i + 1).drop_last() =~= self.rows@.take(i as int));
                assert(self.rows@.take(i + 1).last() == self.rows@[i as int]);
            }
            if self.rows[i].kind == wanted_kind && self.rows[i].env == wanted_env
                && self.rows[i].key == wanted_key {
                count = count + 1;
            }
            i = i + 1;
        }
        proof {
            assert(self.rows@.take(len as int) =~= self.rows@);
        }
        count
    }

    /// How many rows the store holds.
    pub fn len(&self) -> (n: usize)
        ensures
            n == self.rows_seq().len(),
    {
        self.rows.len()
    }
}

/// The fixed command text of the parameterized upsert against the shared
/// table. The variable parts are the three placeholders; the row tag is the
/// literal `python venv`.
pub open spec fn upsert_query_spec() -> Seq<char> {
    "insert into symbiotic.symbiotic_config(type, env, key, value) values('python venv', $1, $2, $3) on conflict(type, env, key) do update set value=$3"@
}

/// A parameterized upsert, ready to be executed against the host store: the
/// fixed command text together with the three bound parameters, in order
/// environment name, key, value.
pub struct UpsertRequest {
    pub query: String,
    pub params: Vec<String>,
}

/// `r` upserts `value` under `(python venv, env, key)`: its command text is
/// the fixed upsert statement and its bound parameters are exactly `env`,
/// `key` and `value`.
pub open spec fn is_upsert_request(
    r: UpsertRequest,
    env: Seq<char>,
    key: Seq<char>,
    value: Seq<char>,
) -> bool {
    &&& r.query@ == upsert_query_spec()
    &&& r.params@.len() == 3
    &&& r.params@[0]@ == env
    &&& r.params@[1]@ == key
    &&& r.params@[2]@ == value
}

/// Build the parameterized upsert for `(python venv, env, key) -> value`.
///
/// The command text is a literal independent of the inputs; the variable
/// parts travel only as bound parameters, so none of them is interpolated
/// into the command.
pub fn upsert_request(env: &str, key: &str, value: &str) -> (r: UpsertRequest)
    ensures
        is_upsert_request(r, env@, key@, value@),
{
    let query = String::from_str(
        "insert into symbiotic.symbiotic_config(type, env, key, value) values('python venv', $1, $2, $3) on conflict(type, env, key) do update set value=$3",
    );
    let mut params: Vec<String> = Vec::new();
    params.push(String::from_str(env));
    params.push(String::from_str(key));
    params.push(String::from_str(value));
    UpsertRequest { query, params }
}

/// Upsert idempotence: two writes under one triple leave exactly the binding
/// of the later write, as if the earlier one had not happened.
pub proof fn lemma_upsert_idempotent(
    m: Map<TripleKey, Seq<char>>,
    t: TripleKey,
    v1: Seq<char>,
    v2: Seq<char>,
)
    ensures
        m.insert(t, v1).insert(t, v2) == m.insert(t, v2),
{
    assert(m.insert(t, v1).insert(t, v2) =~= m.insert(t, v2));
}

/// Recording a process identifier and then a channel key for one environment
/// leaves both bindings in place: the two rows live under distinct triples,
/// so neither write can overwrite the other.
pub proof fn lemma_launch_records(
    m: Map<TripleKey, Seq<char>>,
    name: Seq<char>,
    pid: Seq<char>,
    chan: Seq<char>,
)
    ensures
        m.insert(pid_triple(name), pid).insert(listen_triple(name), chan).contains_key(
            pid_triple(name),
        ),
        m.insert(pid_triple(name), pid).insert(listen_triple(name), chan)[pid_triple(name)] == pid,
        m.insert(pid_triple(name), pid).insert(listen_triple(name), chan).contains_key(
            listen_triple(name),
        ),
        m.insert(pid_triple(name), pid).insert(listen_triple(name), chan)[listen_triple(name)]
            == chan,
{
    reveal_strlit("PID");
    reveal_strlit("listen_key");
    assert("PID"@.len() != "listen_key"@.len());
    assert(pid_triple(name) != listen_triple(name));
}

} // verus!

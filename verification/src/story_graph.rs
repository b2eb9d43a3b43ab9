//! The story graph kept by a session: stories, the modules running in each
//! story, the intents issued to them, and the typed outputs they expose to
//! one another. Each association is keyed by an identifier string with
//! first-added-wins positions and unique keys, and every mutation of a
//! module's data refreshes its last-modified timestamp.

use vstd::prelude::*;

verus! {

/// The first position holding `key`, or `-1` when no entry does.
pub open spec fn assoc_index<V>(entries: Seq<(Seq<char>, V)>, key: Seq<char>) -> int
    decreases entries.len(),
{
    if entries.len() == 0 {
        -1
    } else if entries[0].0 == key {
        0
    } else {
        let r = assoc_index(entries.drop_first(), key);
        if r < 0 {
            -1
        } else {
            r + 1
        }
    }
}

/// Whether some entry holds `key`.
pub open spec fn assoc_has<V>(entries: Seq<(Seq<char>, V)>, key: Seq<char>) -> bool {
    assoc_index(entries, key) >= 0
}

/// The value at `key`, when present.
pub open spec fn assoc_get<V>(entries: Seq<(Seq<char>, V)>, key: Seq<char>) -> Option<V> {
    if assoc_has(entries, key) {
        Option::Some(entries[assoc_index(entries, key)].1)
    } else {
        Option::None
    }
}

/// `assoc_index` finds the first entry with the key: it is in range, it
/// holds the key, and nothing before it does; `-1` means no entry does.
pub proof fn lemma_assoc_index<V>(entries: Seq<(Seq<char>, V)>, key: Seq<char>)
    ensures
        assoc_index(entries, key) == -1 ==> forall|j: int|
            0 <= j < entries.len() ==> (#[trigger] entries[j]).0 != key,
        assoc_index(entries, key) >= 0 ==> {
            let i = assoc_index(entries, key);
            &&& i < entries.len()
            &&& entries[i].0 == key
            &&& forall|j: int| 0 <= j < i ==> (#[trigger] entries[j]).0 != key
        },
    decreases entries.len(),
{
    if entries.len() > 0 && entries[0].0 != key {
        let rest = entries.drop_first();
        lemma_assoc_index(rest, key);
        let i = assoc_index(entries, key);
        if assoc_index(rest, key) == -1 {
            assert forall|j: int| 0 <= j < entries.len() implies (#[trigger] entries[j]).0
                != key by {
                if j >= 1 {
                    assert(entries[j] == rest[j - 1]);
                }
            }
        } else {
            assert(entries[i] == rest[i - 1]);
            assert forall|j: int| 0 <= j < i implies (#[trigger] entries[j]).0 != key by {
                if j >= 1 {
                    assert(entries[j] == rest[j - 1]);
                }
            }
        }
    }
}

/// Updating an entry's value, keeping its key, keeps the keys pairwise
/// distinct.
pub proof fn lemma_assoc_unique_update<V>(s: Seq<(Seq<char>, V)>, i: int, v: V)
    requires
        assoc_unique(s),
        0 <= i < s.len(),
    ensures
        assoc_unique(s.update(i, (s[i].0, v))),
{
    let t = s.update(i, (s[i].0, v));
    assert forall|a: int, b: int| 0 <= a < b < t.len() implies (#[trigger] t[a]).0 != (
    #[trigger] t[b]).0 by {
        assert(t[a].0 == s[a].0);
        assert(t[b].0 == s[b].0);
    }
}

/// Appending an entry under a key nothing holds keeps the keys pairwise
/// distinct.
pub proof fn lemma_assoc_unique_push<V>(s: Seq<(Seq<char>, V)>, key: Seq<char>, v: V)
    requires
        assoc_unique(s),
        !assoc_has(s, key),
    ensures
        assoc_unique(s.push((key, v))),
{
    lemma_assoc_index(s, key);
    let t = s.push((key, v));
    assert forall|a: int, b: int| 0 <= a < b < t.len() implies (#[trigger] t[a]).0 != (
    #[trigger] t[b]).0 by {
        if b == s.len() {
            assert(t[a] == s[a]);
            assert(s[a].0 != key);
        } else {
            assert(t[a] == s[a]);
            assert(t[b] == s[b]);
        }
    }
}

/// Whether the entries' keys are pairwise distinct.
pub open spec fn assoc_unique<V>(entries: Seq<(Seq<char>, V)>) -> bool {
    forall|i: int, j: int|
        0 <= i < j < entries.len() ==> (#[trigger] entries[i]).0 != (#[trigger] entries[j]).0
}

/// An intent issued to a module: the action it asks for, when one is set.
#[derive(Clone, Debug, PartialEq)]
pub struct Intent {
    pub action: Option<String>,
}

impl View for Intent {
    type V = Option<Seq<char>>;

    open spec fn view(&self) -> Option<Seq<char>> {
        self.action.deep_view()
    }
}

impl Intent {
    /// A new intent asking for nothing yet.
    pub fn new() -> (r: Intent)
        ensures
            r@ is None,
    {
        Intent { action: Option::None }
    }

    /// This intent, now asking for `action`.
    pub fn with_action(self, action: &str) -> (r: Intent)
        ensures
            r@ == Option::Some(action@),
    {
        Intent { action: Option::Some(action.to_owned()) }
    }
}

/// The spec-level value of a module output.
pub struct ModuleOutputView {
    pub entity_reference: Seq<char>,
    pub consumers: Seq<(Seq<char>, Seq<char>)>,
}

/// One typed output of a module: the entity it currently references, and
/// the set of (module, entity type) pairs consuming it.
#[derive(Clone, Debug)]
pub struct ModuleOutput {
    pub entity_reference: String,
    pub consumers: Vec<(String, String)>,
}

impl View for ModuleOutput {
    type V = ModuleOutputView;

    open spec fn view(&self) -> ModuleOutputView {
        ModuleOutputView {
            entity_reference: self.entity_reference@,
            consumers: self.consumers.deep_view(),
        }
    }
}

impl DeepView for ModuleOutput {
    type V = ModuleOutputView;

    open spec fn deep_view(&self) -> ModuleOutputView {
        self.view()
    }
}

/// Keeps the consumer pairs whose module is not `module_id`.
pub open spec fn consumer_of_other(module_id: Seq<char>) -> spec_fn((Seq<char>, Seq<char>)) -> bool {
    |c: (Seq<char>, Seq<char>)| c.0 != module_id
}

/// Whether the consumer pair `p` is present.
pub open spec fn consumers_contain(s: Seq<(Seq<char>, Seq<char>)>, p: (Seq<char>, Seq<char>)) -> bool {
    exists|i: int| 0 <= i < s.len() && s[i] == p
}

impl ModuleOutput {
    pub fn new(entity_reference: &str) -> (r: ModuleOutput)
        ensures
            r@.entity_reference == entity_reference@,
            r@.consumers == Seq::<(Seq<char>, Seq<char>)>::empty(),
    {
        let r = ModuleOutput { entity_reference: entity_reference.to_owned(), consumers: Vec::new() };
        proof {
            assert(r@.consumers =~= Seq::<(Seq<char>, Seq<char>)>::empty());
        }
        r
    }

    /// Whether `(module_id, entity_type)` already consumes this output.
    pub fn has_consumer(&self, module_id: &str, entity_type: &str) -> (r: bool)
        ensures
            r == consumers_contain(self@.consumers, (module_id@, entity_type@)),
    {
        let mid: String = module_id.to_owned();
        let ety: String = entity_type.to_owned();
        let n = self.consumers.len();
        let mut i: usize = 0;
        while i < n
            invariant
                n == self.consumers.len(),
                self@.consumers.len() == n,
                mid@ == module_id@,
                ety@ == entity_type@,
                i <= n,
                forall|j: int| 0 <= j < i ==> self@.consumers[j] != (module_id@, entity_type@),
            decreases n - i,
        {
            let c = &self.consumers[i];
            if c.0 == mid && c.1 == ety {
                assert(self@.consumers[i as int] == (module_id@, entity_type@));
                return true;
            }
            i = i + 1;
        }
        false
    }

    /// The number of consumers of this output.
    pub fn consumer_count(&self) -> (n: usize)
        ensures
            n == self@.consumers.len(),
    {
        self.consumers.len()
    }

    /// Links the module with id `module_id` as a consumer of this output,
    /// for the given entity type; linking an existing consumer again
    /// changes nothing.
    pub fn add_consumer(&mut self, module_id: &str, entity_type: &str)
        ensures
            final(self)@.entity_reference == old(self)@.entity_reference,
            final(self)@.consumers == if consumers_contain(
                old(self)@.consumers,
                (module_id@, entity_type@),
            ) {
                old(self)@.consumers
            } else {
                old(self)@.consumers.push((module_id@, entity_type@))
            },
    {
        if !self.has_consumer(module_id, entity_type) {
            let ghost pre = self@.consumers;
            self.consumers.push((module_id.to_owned(), entity_type.to_owned()));
            proof {
                assert(self@.consumers =~= pre.push((module_id@, entity_type@)));
            }
        }
    }

    /// Unlinks every consumption by the module with id `module_id`,
    /// whatever the entity type.
    pub fn remove_consumer(&mut self, module_id: &str)
        ensures
            final(self)@.entity_reference == old(self)@.entity_reference,
            final(self)@.consumers == old(self)@.consumers.filter(consumer_of_other(module_id@)),
    {
        let ghost pred = consumer_of_other(module_id@);
        let ghost all = self@.consumers;
        let mid: String = module_id.to_owned();
        let n = self.consumers.len();
        let mut kept: Vec<(String, String)> = Vec::new();
        let mut i: usize = 0;
        proof {
            reveal_with_fuel(Seq::filter, 2);
            assert(all.take(0) =~= Seq::<(Seq<char>, Seq<char>)>::empty());
            assert(kept.deep_view() =~= all.take(0).filter(pred));
        }
        while i < n
            invariant
                n == self.consumers.len(),
                self@.consumers == all,
                all.len() == n,
                mid@ == module_id@,
                pred == consumer_of_other(module_id@),
                i <= n,
                kept.deep_view() == all.take(i as int).filter(pred),
            decreases n - i,
        {
            let c = &self.consumers[i];
            let ghost pre = kept.deep_view();
            if !(c.0 == mid) {
                kept.push(((c.0).clone(), (c.1).clone()));
                proof {
                    assert(kept.deep_view() =~= pre.push(all[i as int]));
                }
            }
            proof {
                reveal_with_fuel(Seq::filter, 2);
                assert(all.take(i as int + 1).drop_last() =~= all.take(i as int));
                assert(all.take(i as int + 1).last() == all[i as int]);
                assert(kept.deep_view() =~= all.take(i as int + 1).filter(pred));
            }
            i = i + 1;
        }
        proof {
            assert(all.take(n as int) =~= all);
        }
        self.consumers = kept;
    }

    /// Points this output at a new entity reference.
    pub fn update_reference(&mut self, new_reference: &str)
        ensures
            final(self)@.entity_reference == new_reference@,
            final(self)@.consumers == old(self)@.consumers,
    {
        self.entity_reference = new_reference.to_owned();
    }
}

/// Timestamps saturate here, far beyond any nanosecond clock reading, so
/// that refreshing one can always move it strictly forward.
pub const TIMESTAMP_CEILING: u128 = 0x8000000000000000000000000000000;

/// Relies on std::time::SystemTime::now, read as nanoseconds since the
/// Unix epoch; 0 when the clock reads before the epoch. Two readings of a
/// wall clock carry no ordering promise.
#[verifier::external_body]
fn now_nanos() -> u128 {
    match std::time::SystemTime::now().duration_since(std::time::UNIX_EPOCH) {
        Ok(d) => d.as_nanos(),
        Err(_) => 0,
    }
}

/// The current wall-clock reading, kept below the timestamp ceiling.
fn current_timestamp() -> (t: u128)
    ensures
        t < TIMESTAMP_CEILING,
{
    let t = now_nanos();
    if t >= TIMESTAMP_CEILING {
        TIMESTAMP_CEILING - 1
    } else {
        t
    }
}

/// Finds the first entry holding `key`, the position `assoc_index` names.
fn find_key<V: DeepView>(entries: &Vec<(String, V)>, key: &String) -> (r: Option<usize>)
    ensures
        match r {
            Option::Some(i) => i as int == assoc_index(entries.deep_view(), key@),
            Option::None => assoc_index(entries.deep_view(), key@) == -1,
        },
{
    let ghost dv = entries.deep_view();
    let n = entries.len();
    let mut i: usize = 0;
    while i < n
        invariant
            n == entries.len(),
            dv == entries.deep_view(),
            dv.len() == n,
            i <= n,
            forall|j: int| 0 <= j < i ==> (#[trigger] dv[j]).0 != key@,
        decreases n - i,
    {
        if entries[i].0 == *key {
            proof {
                assert(dv[i as int].0 == key@);
                lemma_assoc_index(dv, key@);
            }
            return Option::Some(i);
        }
        i = i + 1;
    }
    proof {
        lemma_assoc_index(dv, key@);
    }
    Option::None
}

/// The spec-level value of a module's data.
pub struct ModuleDataView {
    pub outputs: Seq<(Seq<char>, ModuleOutputView)>,
    pub children: Seq<Seq<char>>,
    pub last_intent: Option<Seq<char>>,
    pub created_timestamp: u128,
    pub last_modified_timestamp: u128,
}

/// The shape every module's data keeps: output names unique and its
/// timestamp at or below the ceiling.
pub open spec fn module_data_view_wf(m: ModuleDataView) -> bool {
    &&& assoc_unique(m.outputs)
    &&& m.last_modified_timestamp <= TIMESTAMP_CEILING
}

/// A module's data is freshly made with `intent`: no outputs, no children,
/// and both timestamps equal.
pub open spec fn fresh_module_data(m: ModuleDataView, intent: Option<Seq<char>>) -> bool {
    &&& m.outputs == Seq::<(Seq<char>, ModuleOutputView)>::empty()
    &&& m.children == Seq::<Seq<char>>::empty()
    &&& m.last_intent == intent
    &&& m.created_timestamp == m.last_modified_timestamp
}

/// One module's record in a story: its typed outputs, the modules it
/// issued intents to, the last intent it received, and when it was created
/// and last changed.
#[derive(Clone, Debug)]
pub struct ModuleData {
    pub outputs: Vec<(String, ModuleOutput)>,
    children: Vec<String>,
    pub last_intent: Intent,
    created_timestamp: u128,
    last_modified_timestamp: u128,
}

impl View for ModuleData {
    type V = ModuleDataView;

    closed spec fn view(&self) -> ModuleDataView {
        ModuleDataView {
            outputs: self.outputs.deep_view(),
            children: self.children.deep_view(),
            last_intent: self.last_intent@,
            created_timestamp: self.created_timestamp,
            last_modified_timestamp: self.last_modified_timestamp,
        }
    }
}

impl DeepView for ModuleData {
    type V = ModuleDataView;

    open spec fn deep_view(&self) -> ModuleDataView {
        self.view()
    }
}

impl ModuleData {
    pub open spec fn wf(&self) -> bool {
        module_data_view_wf(self@)
    }

    /// A fresh module record whose first intent is `intent`; creation and
    /// last-modification timestamps start out equal.
    pub fn new(intent: Intent) -> (r: ModuleData)
        ensures
            r.wf(),
            fresh_module_data(r@, intent@),
    {
        let timestamp = current_timestamp();
        let r = ModuleData {
            children: Vec::new(),
            outputs: Vec::new(),
            last_intent: intent,
            created_timestamp: timestamp,
            last_modified_timestamp: timestamp,
        };
        proof {
            assert(r@.outputs =~= Seq::<(Seq<char>, ModuleOutputView)>::empty());
            assert(r@.children =~= Seq::<Seq<char>>::empty());
        }
        r
    }

    pub fn created_timestamp(&self) -> (t: u128)
        ensures
            t == self@.created_timestamp,
    {
        self.created_timestamp
    }

    pub fn last_modified_timestamp(&self) -> (t: u128)
        ensures
            t == self@.last_modified_timestamp,
    {
        self.last_modified_timestamp
    }

    /// Whether this module has issued an intent to `child_module_id`.
    pub fn has_child(&self, child_module_id: &str) -> (r: bool)
        ensures
            r == self@.children.contains(child_module_id@),
    {
        let key: String = child_module_id.to_owned();
        let n = self.children.len();
        let mut i: usize = 0;
        while i < n
            invariant
                n == self.children.len(),
                self@.children.len() == n,
                key@ == child_module_id@,
                i <= n,
                forall|j: int| 0 <= j < i ==> self@.children[j] != child_module_id@,
            decreases n - i,
        {
            if self.children[i] == key {
                assert(self@.children[i as int] == child_module_id@);
                return true;
            }
            i = i + 1;
        }
        false
    }

    pub fn child_count(&self) -> (n: usize)
        ensures
            n == self@.children.len(),
    {
        self.children.len()
    }

    /// The output named `output_name`, when the module has one.
    pub fn get_output(&self, output_name: &str) -> (r: Option<&ModuleOutput>)
        ensures
            match r {
                Option::Some(o) => assoc_get(self@.outputs, output_name@) == Option::Some(o@),
                Option::None => !assoc_has(self@.outputs, output_name@),
            },
    {
        let key: String = output_name.to_owned();
        match find_key(&self.outputs, &key) {
            Option::Some(i) => {
                proof {
                    lemma_assoc_index(self@.outputs, output_name@);
                }
                Option::Some(&self.outputs[i].1)
            },
            Option::None => Option::None,
        }
    }

    pub fn output_count(&self) -> (n: usize)
        ensures
            n == self@.outputs.len(),
    {
        self.outputs.len()
    }

    /// Moves the last-modified timestamp strictly forward (to the clock,
    /// or just past the old stamp when the clock has not advanced),
    /// saturating only at the ceiling.
    fn update_timestamp(&mut self)
        requires
            old(self)@.last_modified_timestamp <= TIMESTAMP_CEILING,
        ensures
            final(self)@.last_modified_timestamp <= TIMESTAMP_CEILING,
            old(self)@.last_modified_timestamp < TIMESTAMP_CEILING ==> final(self)@.last_modified_timestamp > old(self)@.last_modified_timestamp,
            old(self)@.last_modified_timestamp >= TIMESTAMP_CEILING ==> final(self)@.last_modified_timestamp == old(self)@.last_modified_timestamp,
            final(self)@.outputs == old(self)@.outputs,
            final(self)@.children == old(self)@.children,
            final(self)@.last_intent == old(self)@.last_intent,
            final(self)@.created_timestamp == old(self)@.created_timestamp,
    {
        if self.last_modified_timestamp < TIMESTAMP_CEILING {
            let now = current_timestamp();
            if now > self.last_modified_timestamp {
                self.last_modified_timestamp = now;
            } else {
                self.last_modified_timestamp = self.last_modified_timestamp + 1;
            }
        }
    }

    /// Updates the output named `output_name`: with a reference, points
    /// the output at it (creating the output, with no consumers, when it
    /// is new); with `None`, removes the output. Refreshes the timestamp.
    pub fn update_output(&mut self, output_name: &str, new_reference: Option<String>)
        requires
            old(self).wf(),
        ensures
            final(self).wf(),
            final(self)@.children == old(self)@.children,
            final(self)@.last_intent == old(self)@.last_intent,
            final(self)@.created_timestamp == old(self)@.created_timestamp,
            old(self)@.last_modified_timestamp < TIMESTAMP_CEILING ==> final(self)@.last_modified_timestamp > old(self)@.last_modified_timestamp,
            ({
                let i = assoc_index(old(self)@.outputs, output_name@);
                match new_reference {
                    Option::Some(reference) => if i >= 0 {
                        final(self)@.outputs == old(self)@.outputs.update(
                            i,
                            (
                                old(self)@.outputs[i].0,
                                ModuleOutputView {
                                    entity_reference: reference@,
                                    consumers: old(self)@.outputs[i].1.consumers,
                                },
                            ),
                        )
                    } else {
                        final(self)@.outputs == old(self)@.outputs.push(
                            (
                                output_name@,
                                ModuleOutputView {
                                    entity_reference: reference@,
                                    consumers: Seq::<(Seq<char>, Seq<char>)>::empty(),
                                },
                            ),
                        )
                    },
                    Option::None => if i >= 0 {
                        final(self)@.outputs == old(self)@.outputs.remove(i)
                    } else {
                        final(self)@.outputs == old(self)@.outputs
                    },
                }
            }),
    {
        let ghost pre = self@.outputs;
        let key: String = output_name.to_owned();
        match new_reference {
            Option::Some(reference) => {
                match find_key(&self.outputs, &key) {
                    Option::Some(i) => {
                        proof {
                            lemma_assoc_index(pre, output_name@);
                        }
                        let entry = vstd::std_specs::vec::vec_index_mut(&mut self.outputs, i);
                        entry.1.update_reference(reference.as_str());
                        proof {
                            assert(self@.outputs =~= pre.update(
                                i as int,
                                (
                                    pre[i as int].0,
                                    ModuleOutputView {
                                        entity_reference: reference@,
                                        consumers: pre[i as int].1.consumers,
                                    },
                                ),
                            ));
                        }
                    },
                    Option::None => {
                        proof {
                            lemma_assoc_index(pre, output_name@);
                        }
                        self.outputs.push((key, ModuleOutput::new(reference.as_str())));
                        proof {
                            assert(self@.outputs =~= pre.push(
                                (
                                    output_name@,
                                    ModuleOutputView {
                                        entity_reference: reference@,
                                        consumers: Seq::<(Seq<char>, Seq<char>)>::empty(),
                                    },
                                ),
                            ));
                        }
                    },
                }
            },
            Option::None => {
                match find_key(&self.outputs, &key) {
                    Option::Some(i) => {
                        proof {
                            lemma_assoc_index(pre, output_name@);
                        }
                        let _ = self.outputs.remove(i);
                        proof {
                            assert(self@.outputs =~= pre.remove(i as int));
                        }
                    },
                    Option::None => {},
                }
            },
        }
        self.update_timestamp();
    }

    /// Adds `(module_id, entity_type)` as a consumer of the output named
    /// `output_name`, creating the output around `reference` when it is
    /// new; an existing output keeps its current reference. Refreshes the
    /// timestamp.
    pub fn add_output_consumer(
        &mut self,
        output_name: &str,
        reference: &str,
        module_id: &str,
        entity_type: &str,
    )
        requires
            old(self).wf(),
        ensures
            final(self).wf(),
            final(self)@.children == old(self)@.children,
            final(self)@.last_intent == old(self)@.last_intent,
            final(self)@.created_timestamp == old(self)@.created_timestamp,
            old(self)@.last_modified_timestamp < TIMESTAMP_CEILING ==> final(self)@.last_modified_timestamp > old(self)@.last_modified_timestamp,
            ({
                let i = assoc_index(old(self)@.outputs, output_name@);
                let pair = (module_id@, entity_type@);
                if i >= 0 {
                    final(self)@.outputs == old(self)@.outputs.update(
                        i,
                        (
                            old(self)@.outputs[i].0,
                            ModuleOutputView {
                                entity_reference: old(self)@.outputs[i].1.entity_reference,
                                consumers: if consumers_contain(
                                    old(self)@.outputs[i].1.consumers,
                                    pair,
                                ) {
                                    old(self)@.outputs[i].1.consumers
                                } else {
                                    old(self)@.outputs[i].1.consumers.push(pair)
                                },
                            },
                        ),
                    )
                } else {
                    final(self)@.outputs == old(self)@.outputs.push(
                        (
                            output_name@,
                            ModuleOutputView {
                                entity_reference: reference@,
                                consumers: seq![pair],
                            },
                        ),
                    )
                }
            }),
    {
        let ghost pre = self@.outputs;
        let key: String = output_name.to_owned();
        match find_key(&self.outputs, &key) {
            Option::Some(i) => {
                proof {
                    lemma_assoc_index(pre, output_name@);
                }
                let entry = vstd::std_specs::vec::vec_index_mut(&mut self.outputs, i);
                entry.1.add_consumer(module_id, entity_type);
                proof {
                    let pair = (module_id@, entity_type@);
                    assert(self@.outputs =~= pre.update(
                        i as int,
                        (
                            pre[i as int].0,
                            ModuleOutputView {
                                entity_reference: pre[i as int].1.entity_reference,
                                consumers: if consumers_contain(pre[i as int].1.consumers, pair) {
                                    pre[i as int].1.consumers
                                } else {
                                    pre[i as int].1.consumers.push(pair)
                                },
                            },
                        ),
                    ));
                }
            },
            Option::None => {
                proof {
                    lemma_assoc_index(pre, output_name@);
                }
                let mut output = ModuleOutput::new(reference);
                output.add_consumer(module_id, entity_type);
                self.outputs.push((key, output));
                proof {
                    let pair = (module_id@, entity_type@);
                    assert(output@.consumers =~= seq![pair]);
                    assert(self@.outputs =~= pre.push(
                        (
                            output_name@,
                            ModuleOutputView { entity_reference: reference@, consumers: seq![pair] },
                        ),
                    ));
                }
            },
        }
        self.update_timestamp();
    }

    /// Replaces the last intent issued to this module. Refreshes the
    /// timestamp.
    pub fn update_intent(&mut self, new_intent: Intent)
        requires
            old(self)@.last_modified_timestamp <= TIMESTAMP_CEILING,
        ensures
            final(self)@.outputs == old(self)@.outputs,
            final(self)@.children == old(self)@.children,
            final(self)@.last_intent == new_intent@,
            final(self)@.created_timestamp == old(self)@.created_timestamp,
            final(self)@.last_modified_timestamp <= TIMESTAMP_CEILING,
            old(self)@.last_modified_timestamp < TIMESTAMP_CEILING ==> final(self)@.last_modified_timestamp > old(self)@.last_modified_timestamp,
    {
        self.last_intent = new_intent;
        self.update_timestamp();
    }

    /// Records that this module issued an intent to `child_module_id`;
    /// recording a child a second time changes nothing. Refreshes the
    /// timestamp.
    pub fn add_child(&mut self, child_module_id: &str)
        requires
            old(self)@.last_modified_timestamp <= TIMESTAMP_CEILING,
        ensures
            final(self)@.outputs == old(self)@.outputs,
            final(self)@.last_intent == old(self)@.last_intent,
            final(self)@.created_timestamp == old(self)@.created_timestamp,
            old(self)@.last_modified_timestamp < TIMESTAMP_CEILING ==> final(self)@.last_modified_timestamp > old(self)@.last_modified_timestamp,
            final(self)@.last_modified_timestamp <= TIMESTAMP_CEILING,
            final(self)@.children == if old(self)@.children.contains(child_module_id@) {
                old(self)@.children
            } else {
                old(self)@.children.push(child_module_id@)
            },
    {
        if !self.has_child(child_module_id) {
            let ghost pre = self@.children;
            self.children.push(child_module_id.to_owned());
            proof {
                assert(self@.children =~= pre.push(child_module_id@));
            }
        }
        self.update_timestamp();
    }

    /// Forgets that this module issued an intent to `child_module_id`.
    /// Refreshes the timestamp.
    pub fn remove_child(&mut self, child_module_id: &str)
        requires
            old(self)@.last_modified_timestamp <= TIMESTAMP_CEILING,
        ensures
            final(self)@.outputs == old(self)@.outputs,
            final(self)@.last_intent == old(self)@.last_intent,
            final(self)@.created_timestamp == old(self)@.created_timestamp,
            old(self)@.last_modified_timestamp < TIMESTAMP_CEILING ==> final(self)@.last_modified_timestamp > old(self)@.last_modified_timestamp,
            final(self)@.last_modified_timestamp <= TIMESTAMP_CEILING,
            final(self)@.children == old(self)@.children.filter(segment_other(child_module_id@)),
    {
        let ghost pred = segment_other(child_module_id@);
        let ghost all = self@.children;
        let key: String = child_module_id.to_owned();
        let n = self.children.len();
        let mut kept: Vec<String> = Vec::new();
        let mut i: usize = 0;
        proof {
            reveal_with_fuel(Seq::filter, 2);
            assert(all.take(0) =~= Seq::<Seq<char>>::empty());
            assert(kept.deep_view() =~= all.take(0).filter(pred));
        }
        while i < n
            invariant
                n == self.children.len(),
                self@.children == all,
                all.len() == n,
                key@ == child_module_id@,
                pred == segment_other(child_module_id@),
                i <= n,
                kept.deep_view() == all.take(i as int).filter(pred),
            decreases n - i,
        {
            let ghost pre = kept.deep_view();
            if !(self.children[i] == key) {
                kept.push(self.children[i].clone());
                proof {
                    assert(kept.deep_view() =~= pre.push(all[i as int]));
                }
            }
            proof {
                reveal_with_fuel(Seq::filter, 2);
                assert(all.take(i as int + 1).drop_last() =~= all.take(i as int));
                assert(all.take(i as int + 1).last() == all[i as int]);
                assert(kept.deep_view() =~= all.take(i as int + 1).filter(pred));
            }
            i = i + 1;
        }
        proof {
            assert(all.take(n as int) =~= all);
        }
        self.children = kept;
        self.update_timestamp();
    }
}

/// Keeps the path segments that differ from `segment`.
pub open spec fn segment_other(segment: Seq<char>) -> spec_fn(Seq<char>) -> bool {
    |c: Seq<char>| c != segment
}

/// A module id together with its data, for handing both out as one value.
#[derive(Debug)]
pub struct Module {
    pub module_id: String,
    pub module_data: ModuleData,
}

impl Module {
    pub fn new(module_id: &str, module_data: ModuleData) -> (r: Module)
        ensures
            r.module_id@ == module_id@,
            r.module_data@ == module_data@,
    {
        Module { module_id: module_id.to_owned(), module_data }
    }
}

/// The shape a story graph keeps: module ids unique, each module's data
/// well formed.
pub open spec fn story_graph_view_wf(s: Seq<(Seq<char>, ModuleDataView)>) -> bool {
    &&& assoc_unique(s)
    &&& forall|i: int| 0 <= i < s.len() ==> module_data_view_wf((#[trigger] s[i]).1)
}

/// The modules of one story, keyed by module id.
#[derive(Clone, Debug)]
pub struct StoryGraph {
    modules: Vec<(String, ModuleData)>,
}

impl View for StoryGraph {
    type V = Seq<(Seq<char>, ModuleDataView)>;

    closed spec fn view(&self) -> Seq<(Seq<char>, ModuleDataView)> {
        self.modules.deep_view()
    }
}

impl DeepView for StoryGraph {
    type V = Seq<(Seq<char>, ModuleDataView)>;

    open spec fn deep_view(&self) -> Seq<(Seq<char>, ModuleDataView)> {
        self.view()
    }
}

impl StoryGraph {
    pub open spec fn wf(&self) -> bool {
        story_graph_view_wf(self@)
    }

    pub fn new() -> (r: StoryGraph)
        ensures
            r.wf(),
            r@ == Seq::<(Seq<char>, ModuleDataView)>::empty(),
    {
        let r = StoryGraph { modules: Vec::new() };
        proof {
            assert(r@ =~= Seq::<(Seq<char>, ModuleDataView)>::empty());
        }
        r
    }

    /// Adds a module with `intent` as its initial intent; adding a module
    /// id that already exists replaces its record with a fresh one.
    pub fn add_module(&mut self, module_id: &str, intent: Intent)
        requires
            old(self).wf(),
        ensures
            final(self).wf(),
            ({
                let i = assoc_index(old(self)@, module_id@);
                if i >= 0 {
                    &&& final(self)@.len() == old(self)@.len()
                    &&& forall|j: int|
                        0 <= j < old(self)@.len() && j != i ==> final(self)@[j] == old(self)@[j]
                    &&& final(self)@[i].0 == old(self)@[i].0
                    &&& fresh_module_data(final(self)@[i].1, intent@)
                } else {
                    &&& final(self)@.len() == old(self)@.len() + 1
                    &&& forall|j: int|
                        0 <= j < old(self)@.len() ==> final(self)@[j] == old(self)@[j]
                    &&& final(self)@.last().0 == module_id@
                    &&& fresh_module_data(final(self)@.last().1, intent@)
                }
            }),
    {
        let ghost pre = self@;
        let key: String = module_id.to_owned();
        let data = ModuleData::new(intent);
        match find_key(&self.modules, &key) {
            Option::Some(i) => {
                proof {
                    lemma_assoc_index(pre, module_id@);
                }
                let entry = vstd::std_specs::vec::vec_index_mut(&mut self.modules, i);
                entry.1 = data;
                proof {
                    assert(self@ =~= pre.update(i as int, (pre[i as int].0, self@[i as int].1)));
                    lemma_assoc_unique_update(pre, i as int, self@[i as int].1);
                    assert(forall|j: int|
                        0 <= j < pre.len() && j != i as int ==> self@[j] == pre[j]);
                    assert(self@[i as int].0 == pre[i as int].0);
                    assert forall|j: int| 0 <= j < self@.len() implies module_data_view_wf(
                        (#[trigger] self@[j]).1,
                    ) by {
                        if j != i as int {
                            assert(self@[j] == pre[j]);
                        }
                    }
                }
            },
            Option::None => {
                proof {
                    lemma_assoc_index(pre, module_id@);
                }
                self.modules.push((key, data));
                proof {
                    assert(self@ =~= pre.push((module_id@, self@.last().1)));
                    lemma_assoc_unique_push(pre, module_id@, self@.last().1);
                    assert(forall|j: int| 0 <= j < pre.len() ==> self@[j] == pre[j]);
                    assert(self@.last().0 == module_id@);
                    assert forall|j: int| 0 <= j < self@.len() implies module_data_view_wf(
                        (#[trigger] self@[j]).1,
                    ) by {
                        if j < pre.len() {
                            assert(self@[j] == pre[j]);
                        }
                    }
                }
            },
        }
    }

    /// The data of the module with id `module_id`, when it is in the
    /// story.
    pub fn get_module_data(&self, module_id: &str) -> (r: Option<&ModuleData>)
        ensures
            match r {
                Option::Some(m) => assoc_get(self@, module_id@) == Option::Some(m@),
                Option::None => !assoc_has(self@, module_id@),
            },
    {
        let key: String = module_id.to_owned();
        match find_key(&self.modules, &key) {
            Option::Some(i) => {
                proof {
                    lemma_assoc_index(self@, module_id@);
                }
                Option::Some(&self.modules[i].1)
            },
            Option::None => Option::None,
        }
    }

    /// Mutable access to the data of the module with id `module_id`. The
    /// story afterwards holds, at that module's unchanged position and
    /// key, whatever the caller leaves behind the returned reference.
    pub fn get_module_data_mut(&mut self, module_id: &str) -> (r: Option<&mut ModuleData>)
        ensures
            ({
                let i = assoc_index(old(self)@, module_id@);
                match r {
                    Option::Some(m) => {
                        &&& i >= 0
                        &&& (*m)@ == old(self)@[i].1
                        &&& final(self)@ == old(self)@.update(
                            i,
                            (old(self)@[i].0, final(m)@),
                        )
                    },
                    Option::None => {
                        &&& i < 0
                        &&& final(self)@ == old(self)@
                    },
                }
            }),
    {
        let ghost pre = self@;
        let key: String = module_id.to_owned();
        match find_key(&self.modules, &key) {
            Option::Some(i) => {
                proof {
                    lemma_assoc_index(pre, module_id@);
                }
                let entry = vstd::std_specs::vec::vec_index_mut(&mut self.modules, i);
                Option::Some(&mut entry.1)
            },
            Option::None => Option::None,
        }
    }

    /// Every module entry of the story, in first-added order.
    pub fn get_all_modules(&self) -> (r: &Vec<(String, ModuleData)>)
        ensures
            r.deep_view() == self@,
    {
        &self.modules
    }

    /// The number of modules in this story.
    pub fn get_module_count(&self) -> (n: usize)
        ensures
            n == self@.len(),
    {
        self.modules.len()
    }
}

/// The story graphs of one session, keyed by story id.
pub struct SessionGraph {
    stories: Vec<(String, StoryGraph)>,
}

impl View for SessionGraph {
    type V = Seq<(Seq<char>, Seq<(Seq<char>, ModuleDataView)>)>;

    closed spec fn view(&self) -> Seq<(Seq<char>, Seq<(Seq<char>, ModuleDataView)>)> {
        self.stories.deep_view()
    }
}

impl SessionGraph {
    /// The shape a session keeps: story ids unique, each story well
    /// formed.
    pub open spec fn wf(&self) -> bool {
        &&& assoc_unique(self@)
        &&& forall|i: int| 0 <= i < self@.len() ==> story_graph_view_wf((#[trigger] self@[i]).1)
    }

    pub fn new() -> (r: SessionGraph)
        ensures
            r.wf(),
            r@ == Seq::<(Seq<char>, Seq<(Seq<char>, ModuleDataView)>)>::empty(),
    {
        let r = SessionGraph { stories: Vec::new() };
        proof {
            assert(r@ =~= Seq::<(Seq<char>, Seq<(Seq<char>, ModuleDataView)>)>::empty());
        }
        r
    }

    /// Creates an empty story under `story_id`; creating a story id that
    /// already exists empties its graph.
    pub fn new_story(&mut self, story_id: &str)
        requires
            old(self).wf(),
        ensures
            final(self).wf(),
            ({
                let i = assoc_index(old(self)@, story_id@);
                if i >= 0 {
                    final(self)@ == old(self)@.update(
                        i,
                        (old(self)@[i].0, Seq::<(Seq<char>, ModuleDataView)>::empty()),
                    )
                } else {
                    final(self)@ == old(self)@.push(
                        (story_id@, Seq::<(Seq<char>, ModuleDataView)>::empty()),
                    )
                }
            }),
    {
        let ghost pre = self@;
        let key: String = story_id.to_owned();
        let graph = StoryGraph::new();
        match find_key(&self.stories, &key) {
            Option::Some(i) => {
                proof {
                    lemma_assoc_index(pre, story_id@);
                }
                let entry = vstd::std_specs::vec::vec_index_mut(&mut self.stories, i);
                entry.1 = graph;
                proof {
                    assert(self@ =~= pre.update(
                        i as int,
                        (pre[i as int].0, Seq::<(Seq<char>, ModuleDataView)>::empty()),
                    ));
                }
            },
            Option::None => {
                proof {
                    lemma_assoc_index(pre, story_id@);
                }
                self.stories.push((key, graph));
                proof {
                    assert(self@ =~= pre.push(
                        (story_id@, Seq::<(Seq<char>, ModuleDataView)>::empty()),
                    ));
                }
            },
        }
    }

    /// The story graph under `story_id`, when the session has one.
    pub fn get_story_graph(&self, story_id: &str) -> (r: Option<&StoryGraph>)
        ensures
            match r {
                Option::Some(g) => assoc_get(self@, story_id@) == Option::Some(g@),
                Option::None => !assoc_has(self@, story_id@),
            },
    {
        let key: String = story_id.to_owned();
        match find_key(&self.stories, &key) {
            Option::Some(i) => {
                proof {
                    lemma_assoc_index(self@, story_id@);
                }
                Option::Some(&self.stories[i].1)
            },
            Option::None => Option::None,
        }
    }

    /// Mutable access to the story graph under `story_id`. The session
    /// afterwards holds, at that story's unchanged position and key,
    /// whatever the caller leaves behind the returned reference.
    pub fn get_story_graph_mut(&mut self, story_id: &str) -> (r: Option<&mut StoryGraph>)
        ensures
            ({
                let i = assoc_index(old(self)@, story_id@);
                match r {
                    Option::Some(g) => {
                        &&& i >= 0
                        &&& (*g)@ == old(self)@[i].1
                        &&& final(self)@ == old(self)@.update(i, (old(self)@[i].0, final(g)@))
                    },
                    Option::None => {
                        &&& i < 0
                        &&& final(self)@ == old(self)@
                    },
                }
            }),
    {
        let ghost pre = self@;
        let key: String = story_id.to_owned();
        match find_key(&self.stories, &key) {
            Option::Some(i) => {
                proof {
                    lemma_assoc_index(pre, story_id@);
                }
                let entry = vstd::std_specs::vec::vec_index_mut(&mut self.stories, i);
                Option::Some(&mut entry.1)
            },
            Option::None => Option::None,
        }
    }

    /// The number of stories in this session.
    pub fn story_count(&self) -> (n: usize)
        ensures
            n == self@.len(),
    {
        self.stories.len()
    }
}

} // verus!

use vstd::prelude::*;

use crate::model::Build;
use crate::model::Input;
use crate::model::InputOutputs;
use crate::model::Output;
use crate::paths::spec_parse_paths;
use crate::paths::parse_paths;
use crate::status::BuildStatus;

verus! {

/// The mathematical image of the build store: the authoritative tables
/// of builds, inputs and outputs, with the next id of each.
#[verifier::ext_equal]
pub struct StoreView {
    pub builds: Seq<Build>,
    pub inputs: Seq<Input>,
    pub outputs: Seq<Output>,
    pub next_build_id: i32,
    pub next_input_id: i32,
    pub next_output_id: i32,
}

/// The build table is sound: ids are unique, positive and below the next
/// id, a finish time is recorded exactly on the terminal statuses, and an
/// error message only accompanies a failure.
pub open spec fn spec_builds_wf(builds: Seq<Build>, next: i32) -> bool {
    &&& 1 <= next
    &&& forall|i: int, j: int|
        0 <= i < builds.len() && 0 <= j < builds.len() && i != j ==> builds[i].id != builds[j].id
    &&& forall|i: int| 0 <= i < builds.len() ==> 1 <= (#[trigger] builds[i]).id < next
    &&& forall|i: int|
        0 <= i < builds.len() ==> ((#[trigger] builds[i]).status.spec_is_terminal()
            <==> builds[i].finished_at is Some)
    &&& forall|i: int|
        0 <= i < builds.len() ==> ((#[trigger] builds[i]).error_msg is Some ==> builds[i].status
            == BuildStatus::Failed)
}

/// The input table is sound: ids unique, positive, below the next id.
pub open spec fn spec_inputs_wf(inputs: Seq<Input>, next: i32) -> bool {
    &&& 1 <= next
    &&& forall|i: int, j: int|
        0 <= i < inputs.len() && 0 <= j < inputs.len() && i != j ==> inputs[i].id != inputs[j].id
    &&& forall|i: int| 0 <= i < inputs.len() ==> 1 <= (#[trigger] inputs[i]).id < next
}

/// The output table is sound: ids unique, positive, below the next id,
/// and at most one row per (input, platform) pair.
pub open spec fn spec_outputs_wf(outputs: Seq<Output>, next: i32) -> bool {
    &&& 1 <= next
    &&& forall|i: int, j: int|
        0 <= i < outputs.len() && 0 <= j < outputs.len() && i != j ==> outputs[i].id
            != outputs[j].id
    &&& forall|i: int| 0 <= i < outputs.len() ==> 1 <= (#[trigger] outputs[i]).id < next
    &&& forall|i: int, j: int|
        0 <= i < outputs.len() && 0 <= j < outputs.len() && i != j ==> !((
        #[trigger] outputs[i]).input_id == (#[trigger] outputs[j]).input_id && outputs[i].system@
            == outputs[j].system@)
}

pub open spec fn spec_has_build_id(builds: Seq<Build>, id: i32) -> bool {
    exists|i: int| 0 <= i < builds.len() && builds[i].id == id
}

pub open spec fn spec_has_input_id(inputs: Seq<Input>, id: i32) -> bool {
    exists|i: int| 0 <= i < inputs.len() && inputs[i].id == id
}

/// Every input belongs to an existing build.
pub open spec fn spec_inputs_ref(inputs: Seq<Input>, builds: Seq<Build>) -> bool {
    forall|i: int|
        0 <= i < inputs.len() ==> spec_has_build_id(builds, (#[trigger] inputs[i]).build_id)
}

/// Every output belongs to an existing input.
pub open spec fn spec_outputs_ref(outputs: Seq<Output>, inputs: Seq<Input>) -> bool {
    forall|i: int|
        0 <= i < outputs.len() ==> spec_has_input_id(inputs, (#[trigger] outputs[i]).input_id)
}

impl StoreView {
    pub open spec fn has_build(self, id: i32) -> bool {
        spec_has_build_id(self.builds, id)
    }

    pub open spec fn build_index(self, id: i32) -> int {
        choose|i: int| 0 <= i < self.builds.len() && self.builds[i].id == id
    }

    pub open spec fn build_of(self, id: i32) -> Build {
        self.builds[self.build_index(id)]
    }

    pub open spec fn has_input(self, id: i32) -> bool {
        spec_has_input_id(self.inputs, id)
    }

    pub open spec fn input_index(self, id: i32) -> int {
        choose|i: int| 0 <= i < self.inputs.len() && self.inputs[i].id == id
    }

    pub open spec fn input_of(self, id: i32) -> Input {
        self.inputs[self.input_index(id)]
    }

    /// Whether an output row belongs to a build, through its input.
    pub open spec fn output_in_build(self, o: Output, build_id: i32) -> bool {
        self.has_input(o.input_id) && self.input_of(o.input_id).build_id == build_id
    }

    /// Whether some output row already exists for an (input, platform)
    /// pair.
    pub open spec fn output_exists(self, input_id: i32, system: Seq<char>) -> bool {
        exists|i: int|
            0 <= i < self.outputs.len() && self.outputs[i].input_id == input_id
                && self.outputs[i].system@ == system
    }

    /// Well-formedness of the store: every table is sound and every row
    /// references an existing owner.
    pub open spec fn wf(self) -> bool {
        &&& spec_builds_wf(self.builds, self.next_build_id)
        &&& spec_inputs_wf(self.inputs, self.next_input_id)
        &&& spec_outputs_wf(self.outputs, self.next_output_id)
        &&& spec_inputs_ref(self.inputs, self.builds)
        &&& spec_outputs_ref(self.outputs, self.inputs)
    }
}

/// The build store. The worker's database mirrors these tables; every
/// change the worker makes goes through one of the operations below.
pub struct BuildStore {
    pub builds: Vec<Build>,
    pub inputs: Vec<Input>,
    pub outputs: Vec<Output>,
    pub next_build_id: i32,
    pub next_input_id: i32,
    pub next_output_id: i32,
}

impl View for BuildStore {
    type V = StoreView;

    open spec fn view(&self) -> StoreView {
        StoreView {
            builds: self.builds@,
            inputs: self.inputs@,
            outputs: self.outputs@,
            next_build_id: self.next_build_id,
            next_input_id: self.next_input_id,
            next_output_id: self.next_output_id,
        }
    }
}

/// A build reset to the start of its lifecycle run: building, with no
/// finish time and no error message.
pub open spec fn spec_begun(b: Build) -> Build {
    Build {
        id: b.id,
        origin: b.origin,
        rev: b.rev,
        created_at: b.created_at,
        status: BuildStatus::Building,
        finished_at: Option::None,
        error_msg: Option::None,
    }
}

/// The store with the named build (re)entering its lifecycle.
pub open spec fn spec_begin_build(v: StoreView, id: i32) -> StoreView {
    StoreView {
        builds: Seq::new(
            v.builds.len(),
            |i: int|
                if v.builds[i].id == id {
                    spec_begun(v.builds[i])
                } else {
                    v.builds[i]
                },
        ),
        inputs: v.inputs,
        outputs: v.outputs,
        next_build_id: v.next_build_id,
        next_input_id: v.next_input_id,
        next_output_id: v.next_output_id,
    }
}

/// The survivor test of a restart: an output stays exactly when it does
/// not belong to the restarted build.
pub open spec fn spec_keep_pred(v: StoreView, build_id: i32) -> spec_fn(Output) -> bool {
    |o: Output| !v.output_in_build(o, build_id)
}

/// The store with every output of the named build deleted.
pub open spec fn spec_delete_outputs(v: StoreView, build_id: i32) -> StoreView {
    StoreView {
        builds: v.builds,
        inputs: v.inputs,
        outputs: v.outputs.filter(spec_keep_pred(v, build_id)),
        next_build_id: v.next_build_id,
        next_input_id: v.next_input_id,
        next_output_id: v.next_output_id,
    }
}

/// What a restart does to the store before a fresh task starts: the
/// build's outputs are deleted and its lifecycle re-enters the building
/// state.
pub open spec fn spec_restart_prep(v: StoreView, id: i32) -> StoreView {
    spec_begin_build(spec_delete_outputs(v, id), id)
}

/// A sequence whose elements all satisfy the filter keeps exactly its
/// elements when filtered.
proof fn lemma_filter_all<A>(s: Seq<A>, pred: spec_fn(A) -> bool)
    requires
        forall|i: int| 0 <= i < s.len() ==> pred(#[trigger] s[i]),
    ensures
        s.filter(pred) == s,
    decreases s.len(),
{
    reveal(Seq::filter);
    if s.len() > 0 {
        lemma_filter_all(s.drop_last(), pred);
        assert(s.filter(pred) =~= s);
    }
}

/// Restart idempotence: preparing the same build for restart twice in a
/// row leaves the store exactly as one preparation does, so a duplicated
/// restart notification changes nothing about the prepared state.
pub proof fn lemma_restart_idempotent(v: StoreView, id: i32)
    ensures
        spec_restart_prep(spec_restart_prep(v, id), id) == spec_restart_prep(v, id),
{
    let v1 = spec_restart_prep(v, id);
    let d2 = spec_delete_outputs(v1, id);
    assert(v1.inputs == v.inputs);
    let pred = spec_keep_pred(v, id);
    let pred1 = spec_keep_pred(v1, id);
    assert(v1.outputs == v.outputs.filter(pred));
    assert forall|i: int| 0 <= i < v1.outputs.len() implies pred1(#[trigger] v1.outputs[i]) by {
        v.outputs.lemma_filter_pred(pred, i);
        assert(pred(v1.outputs[i]));
        assert(!v.output_in_build(v1.outputs[i], id));
        assert(v1.output_in_build(v1.outputs[i], id) == v.output_in_build(v1.outputs[i], id));
    }
    lemma_filter_all(v1.outputs, pred1);
    assert(d2.outputs == v1.outputs);
    assert forall|i: int| 0 <= i < v1.builds.len() implies spec_begin_build(d2, id).builds[i]
        == v1.builds[i] by {
        let b0 = spec_delete_outputs(v, id).builds[i];
        assert(v1.builds[i] == (if b0.id == id {
            spec_begun(b0)
        } else {
            b0
        }));
    }
    assert(spec_begin_build(d2, id).builds =~= v1.builds);
    assert(spec_restart_prep(v1, id) =~= v1);
}

impl BuildStore {
    /// An empty store; ids start at one.
    pub fn new() -> (r: BuildStore)
        ensures
            r@.builds.len() == 0,
            r@.inputs.len() == 0,
            r@.outputs.len() == 0,
            r@.next_build_id == 1,
            r@.next_input_id == 1,
            r@.next_output_id == 1,
            r@.wf(),
    {
        BuildStore {
            builds: Vec::new(),
            inputs: Vec::new(),
            outputs: Vec::new(),
            next_build_id: 1,
            next_input_id: 1,
            next_output_id: 1,
        }
    }

    /// Finds the position of a build row by id.
    fn find_build_index(&self, id: i32) -> (r: Option<usize>)
        ensures
            match r {
                Option::Some(i) => i < self@.builds.len() && self@.builds[i as int].id == id,
                Option::None => !self@.has_build(id),
            },
    {
        let n = self.builds.len();
        let mut i: usize = 0;
        while i < n
            invariant
                n == self@.builds.len(),
                0 <= i <= n,
                forall|j: int| 0 <= j < i ==> self@.builds[j].id != id,
            decreases n - i,
        {
            if self.builds[i].id == id {
                return Some(i);
            }
            i = i + 1;
        }
        None
    }

    /// Finds the position of an input row by id.
    fn find_input_index(&self, id: i32) -> (r: Option<usize>)
        ensures
            match r {
                Option::Some(i) => i < self@.inputs.len() && self@.inputs[i as int].id == id,
                Option::None => !self@.has_input(id),
            },
    {
        let n = self.inputs.len();
        let mut i: usize = 0;
        while i < n
            invariant
                n == self@.inputs.len(),
                0 <= i <= n,
                forall|j: int| 0 <= j < i ==> self@.inputs[j].id != id,
            decreases n - i,
        {
            if self.inputs[i].id == id {
                return Some(i);
            }
            i = i + 1;
        }
        None
    }

    /// Looks a build up by id.
    pub fn get_build(&self, id: i32) -> (r: Option<&Build>)
        requires
            self@.wf(),
        ensures
            match r {
                Option::Some(b) => self@.has_build(id) && *b == self@.build_of(id),
                Option::None => !self@.has_build(id),
            },
    {
        match self.find_build_index(id) {
            Some(i) => {
                proof {
                    let k = self@.build_index(id);
                    assert(self@.builds[i as int].id == id);
                    assert(0 <= k < self@.builds.len() && self@.builds[k].id == id);
                    assert(k == i as int);
                }
                Some(&self.builds[i])
            },
            None => None,
        }
    }

    /// Creates a queued build for a submission. Returns its id.
    pub fn create_build(&mut self, origin: String, rev: String, now: i64) -> (r: i32)
        requires
            old(self)@.next_build_id < i32::MAX,
        ensures
            r == old(self)@.next_build_id,
            final(self)@.builds == old(self)@.builds.push(
                (Build {
                    id: r,
                    origin: origin,
                    rev: rev,
                    created_at: now,
                    status: BuildStatus::Queued,
                    finished_at: Option::None,
                    error_msg: Option::None,
                }),
            ),
            final(self)@.inputs == old(self)@.inputs,
            final(self)@.outputs == old(self)@.outputs,
            final(self)@.next_build_id == old(self)@.next_build_id + 1,
            final(self)@.next_input_id == old(self)@.next_input_id,
            final(self)@.next_output_id == old(self)@.next_output_id,
            old(self)@.wf() ==> final(self)@.wf(),
    {
        let id = self.next_build_id;
        let b = Build {
            id,
            origin,
            rev,
            created_at: now,
            status: BuildStatus::Queued,
            finished_at: None,
            error_msg: None,
        };
        self.builds.push(b);
        self.next_build_id = self.next_build_id + 1;
        proof {
            if old(self)@.wf() {
                let v = self@;
                let o = old(self)@;
                assert forall|i: int, j: int|
                    0 <= i < v.builds.len() && 0 <= j < v.builds.len() && i != j implies v
                    .builds[i].id != v.builds[j].id by {
                    if i < o.builds.len() && j < o.builds.len() {
                        assert(o.builds[i].id != o.builds[j].id);
                    } else if i < o.builds.len() {
                        assert(1 <= o.builds[i].id < o.next_build_id);
                    } else {
                        assert(1 <= o.builds[j].id < o.next_build_id);
                    }
                }
                assert forall|i: int| 0 <= i < v.builds.len() implies 1 <= (
                #[trigger] v.builds[i]).id < v.next_build_id by {
                    if i < o.builds.len() {
                        assert(1 <= o.builds[i].id < o.next_build_id);
                    }
                }
                assert forall|i: int| 0 <= i < v.inputs.len() implies v.has_build(
                    (#[trigger] v.inputs[i]).build_id,
                ) by {
                    assert(o.has_build(o.inputs[i].build_id));
                    let k = choose|k: int|
                        0 <= k < o.builds.len() && o.builds[k].id == o.inputs[i].build_id;
                    assert(v.builds[k].id == o.inputs[i].build_id);
                }
                assert(v.wf());
            }
        }
        id
    }

    /// Adds one input expression path to a build.
    fn add_input(&mut self, build_id: i32, path: String)
        requires
            old(self)@.next_input_id < i32::MAX,
            old(self)@.has_build(build_id),
        ensures
            final(self)@.inputs == old(self)@.inputs.push(
                (Input { id: old(self)@.next_input_id, build_id: build_id, path: path }),
            ),
            final(self)@.builds == old(self)@.builds,
            final(self)@.outputs == old(self)@.outputs,
            final(self)@.next_build_id == old(self)@.next_build_id,
            final(self)@.next_input_id == old(self)@.next_input_id + 1,
            final(self)@.next_output_id == old(self)@.next_output_id,
            old(self)@.wf() ==> final(self)@.wf(),
    {
        let id = self.next_input_id;
        self.inputs.push(Input { id, build_id, path });
        self.next_input_id = self.next_input_id + 1;
        proof {
            if old(self)@.wf() {
                let v = self@;
                let o = old(self)@;
                assert forall|i: int, j: int|
                    0 <= i < v.inputs.len() && 0 <= j < v.inputs.len() && i != j implies v
                    .inputs[i].id != v.inputs[j].id by {
                    if i < o.inputs.len() && j < o.inputs.len() {
                        assert(o.inputs[i].id != o.inputs[j].id);
                    } else if i < o.inputs.len() {
                        assert(1 <= o.inputs[i].id < o.next_input_id);
                    } else {
                        assert(1 <= o.inputs[j].id < o.next_input_id);
                    }
                }
                assert forall|i: int| 0 <= i < v.inputs.len() implies 1 <= (
                #[trigger] v.inputs[i]).id < v.next_input_id by {
                    if i < o.inputs.len() {
                        assert(1 <= o.inputs[i].id < o.next_input_id);
                    }
                }
                assert forall|i: int| 0 <= i < v.inputs.len() implies v.has_build(
                    (#[trigger] v.inputs[i]).build_id,
                ) by {
                    if i < o.inputs.len() {
                        assert(o.has_build(o.inputs[i].build_id));
                        let k = choose|k: int|
                            0 <= k < o.builds.len() && o.builds[k].id == o.inputs[i].build_id;
                        assert(v.builds[k].id == o.inputs[i].build_id);
                    } else {
                        assert(v.inputs[i].build_id == build_id);
                        assert(o.has_build(build_id));
                    }
                }
                assert forall|i: int| 0 <= i < v.outputs.len() implies v.has_input(
                    (#[trigger] v.outputs[i]).input_id,
                ) by {
                    assert(o.has_input(o.outputs[i].input_id));
                    let k = choose|k: int|
                        0 <= k < o.inputs.len() && o.inputs[k].id == o.outputs[i].input_id;
                    assert(v.inputs[k].id == o.outputs[i].input_id);
                }
                assert(v.wf());
            }
        }
    }

    /// Accepts a submission: creates the build and one input per path in
    /// the submitted comma-separated list, trimmed, empty entries
    /// dropped. Returns the new build's id.
    pub fn submit_build(&mut self, origin: String, rev: String, paths: &str, now: i64) -> (r: i32)
        requires
            old(self)@.next_build_id < i32::MAX,
            old(self)@.next_input_id + spec_parse_paths(paths@).len() < i32::MAX,
        ensures
            r == old(self)@.next_build_id,
            final(self)@.builds == old(self)@.builds.push(
                (Build {
                    id: r,
                    origin: origin,
                    rev: rev,
                    created_at: now,
                    status: BuildStatus::Queued,
                    finished_at: Option::None,
                    error_msg: Option::None,
                }),
            ),
            final(self)@.inputs.len() == old(self)@.inputs.len() + spec_parse_paths(paths@).len(),
            forall|k: int|
                0 <= k < old(self)@.inputs.len() ==> final(self)@.inputs[k] == old(
                    self,
                )@.inputs[k],
            forall|k: int|
                0 <= k < spec_parse_paths(paths@).len() ==> {
                    let w = #[trigger] final(self)@.inputs[old(self)@.inputs.len() + k];
                    &&& w.path@ == spec_parse_paths(paths@)[k]
                    &&& w.build_id == r
                    &&& w.id == old(self)@.next_input_id + k
                },
            final(self)@.outputs == old(self)@.outputs,
            final(self)@.next_build_id == old(self)@.next_build_id + 1,
            final(self)@.next_input_id == old(self)@.next_input_id + spec_parse_paths(
                paths@,
            ).len(),
            final(self)@.next_output_id == old(self)@.next_output_id,
            old(self)@.wf() ==> final(self)@.wf(),
    {
        let id = self.create_build(origin, rev, now);
        let parsed = parse_paths(paths);
        let n = parsed.len();
        let ghost mid = self@;
        let mut k: usize = 0;
        proof {
            assert(parsed.deep_view().len() == n);
            assert(self@.builds[self@.builds.len() - 1].id == id);
        }
        while k < n
            invariant
                n == parsed@.len(),
                parsed.deep_view() == spec_parse_paths(paths@),
                0 <= k <= n,
                self@.has_build(id),
                mid.next_input_id + n < i32::MAX,
                self@.builds == mid.builds,
                self@.outputs == mid.outputs,
                self@.next_build_id == mid.next_build_id,
                self@.next_output_id == mid.next_output_id,
                self@.next_input_id == mid.next_input_id + k,
                self@.inputs.len() == mid.inputs.len() + k,
                forall|j: int| 0 <= j < mid.inputs.len() ==> self@.inputs[j] == mid.inputs[j],
                forall|j: int|
                    0 <= j < k ==> {
                        let w = #[trigger] self@.inputs[mid.inputs.len() + j];
                        &&& w.path@ == spec_parse_paths(paths@)[j]
                        &&& w.build_id == id
                        &&& w.id == mid.next_input_id + j
                    },
                mid.wf() ==> self@.wf(),
            decreases n - k,
        {
            let p = parsed[k].clone();
            proof {
                assert(p@ == parsed.deep_view()[k as int]);
            }
            self.add_input(id, p);
            k = k + 1;
        }
        id
    }

    /// Deletes every output of a build, as a restart does before the
    /// build re-runs.
    pub fn delete_outputs_of_build(&mut self, build_id: i32)
        requires
            old(self)@.wf(),
        ensures
            final(self)@ == spec_delete_outputs(old(self)@, build_id),
            final(self)@.wf(),
    {
        let n = self.outputs.len();
        let mut kept: Vec<Output> = Vec::new();
        let mut i: usize = 0;
        let ghost pred = spec_keep_pred(old(self)@, build_id);
        proof {
            reveal(Seq::filter);
            assert(self@.outputs.take(0) =~= Seq::<Output>::empty());
            assert(kept@ =~= self@.outputs.take(0).filter(pred));
        }
        while i < n
            invariant
                n == self@.outputs.len(),
                0 <= i <= n,
                *self == *old(self),
                old(self)@.wf(),
                kept@ == self@.outputs.take(i as int).filter(pred),
                pred == spec_keep_pred(old(self)@, build_id),
            decreases n - i,
        {
            let o = &self.outputs[i];
            let idx = self.find_input_index(o.input_id);
            let keep = match idx {
                Some(j) => self.inputs[j].build_id != build_id,
                None => true,
            };
            proof {
                reveal(Seq::filter);
                match idx {
                    Option::Some(j) => {
                        assert(self@.inputs[j as int].id == o.input_id);
                        assert(self@.has_input(o.input_id));
                        let k = self@.input_index(o.input_id);
                        assert(0 <= k < self@.inputs.len() && self@.inputs[k].id == o.input_id);
                        assert(k == j as int);
                        assert(keep == pred(*o));
                    },
                    Option::None => {
                        assert(!self@.has_input(o.input_id));
                        assert(keep == pred(*o));
                    },
                }
                assert(self@.outputs.take(i + 1).drop_last() =~= self@.outputs.take(i as int));
                assert(self@.outputs.take(i + 1).last() == self@.outputs[i as int]);
            }
            if keep {
                let copy = self.outputs[i].clone();
                kept.push(copy);
            }
            i = i + 1;
        }
        proof {
            assert(self@.outputs.take(n as int) =~= self@.outputs);
        }
        self.outputs = kept;
        proof {
            let v = self@;
            let o = old(self)@;
            assert(v =~= spec_delete_outputs(o, build_id));
            lemma_filter_keeps_distinct(o.outputs, pred);
            assert forall|i2: int| 0 <= i2 < v.outputs.len() implies 1 <= (
            #[trigger] v.outputs[i2]).id < v.next_output_id && v.has_input(
                v.outputs[i2].input_id,
            ) by {
                assert(o.outputs.filter(pred).contains(v.outputs[i2]));
                o.outputs.lemma_filter_contains_rev(pred, v.outputs[i2]);
                let k = choose|k: int| 0 <= k < o.outputs.len() && o.outputs[k] == v.outputs[i2];
                assert(1 <= o.outputs[k].id < o.next_output_id);
                assert(o.has_input(o.outputs[k].input_id));
                let k2 = choose|k2: int|
                    0 <= k2 < o.inputs.len() && o.inputs[k2].id == o.outputs[k].input_id;
                assert(v.inputs[k2].id == v.outputs[i2].input_id);
            }
            assert(v.wf());
        }
    }

    /// Moves a build (back) into the building state: status building, no
    /// finish time, no error message. The explicit re-entry point of the
    /// lifecycle; a missing id changes nothing.
    pub fn begin_build(&mut self, id: i32)
        requires
            old(self)@.wf(),
        ensures
            final(self)@ == spec_begin_build(old(self)@, id),
            final(self)@.wf(),
    {
        let ghost o = self@;
        match self.find_build_index(id) {
            Some(i) => {
                let old_b = &self.builds[i];
                let b = Build {
                    id: old_b.id,
                    origin: old_b.origin.clone(),
                    rev: old_b.rev.clone(),
                    created_at: old_b.created_at,
                    status: BuildStatus::Building,
                    finished_at: None,
                    error_msg: None,
                };
                self.builds[i] = b;
                proof {
                    let v = self@;
                    assert forall|j: int| 0 <= j < v.builds.len() implies v.builds[j]
                        == spec_begin_build(o, id).builds[j] by {
                        if j == i {
                            assert(o.builds[j].id == id);
                        } else {
                            assert(o.builds[j].id != id);
                        }
                    }
                }
            },
            None => {
                proof {
                    assert(self@.builds =~= spec_begin_build(o, id).builds);
                }
            },
        }
        proof {
            let v = self@;
            assert(v.builds =~= spec_begin_build(o, id).builds);
            assert(v =~= spec_begin_build(o, id));
            assert forall|j: int| 0 <= j < v.builds.len() implies ({
                let b = #[trigger] v.builds[j];
                &&& b.id == o.builds[j].id
                &&& 1 <= b.id < v.next_build_id
                &&& (b.status.spec_is_terminal() <==> b.finished_at is Some)
                &&& (b.error_msg is Some ==> b.status == BuildStatus::Failed)
            }) by {
                assert(1 <= o.builds[j].id < o.next_build_id);
                assert(o.builds[j].status.spec_is_terminal() <==> o.builds[j].finished_at is Some);
                assert(o.builds[j].error_msg is Some ==> o.builds[j].status
                    == BuildStatus::Failed);
            }
            assert forall|i2: int, j2: int|
                0 <= i2 < v.builds.len() && 0 <= j2 < v.builds.len() && i2 != j2 implies v
                .builds[i2].id != v.builds[j2].id by {
                assert(o.builds[i2].id != o.builds[j2].id);
            }
            assert forall|i2: int| 0 <= i2 < v.inputs.len() implies spec_has_build_id(
                v.builds,
                (#[trigger] v.inputs[i2]).build_id,
            ) by {
                assert(spec_has_build_id(o.builds, o.inputs[i2].build_id));
                let k = choose|k: int|
                    0 <= k < o.builds.len() && o.builds[k].id == o.inputs[i2].build_id;
                assert(v.builds[k].id == o.inputs[i2].build_id);
            }
            assert(v.wf());
        }
    }

    /// Whether an output row already exists for an (input, platform)
    /// pair.
    fn output_row_exists(&self, input_id: i32, system: &String) -> (r: bool)
        ensures
            r == self@.output_exists(input_id, system@),
    {
        let n = self.outputs.len();
        let mut i: usize = 0;
        while i < n
            invariant
                n == self@.outputs.len(),
                0 <= i <= n,
                forall|j: int|
                    0 <= j < i ==> !((#[trigger] self@.outputs[j]).input_id == input_id
                        && self@.outputs[j].system@ == system@),
            decreases n - i,
        {
            if self.outputs[i].input_id == input_id && self.outputs[i].system == *system {
                return true;
            }
            i = i + 1;
        }
        false
    }

    /// Persists a resolved revision for a build, unless the build is
    /// gone or already terminal; says whether it was applied.
    pub fn set_rev(&mut self, id: i32, rev: String) -> (applied: bool)
        requires
            old(self)@.wf(),
        ensures
            final(self)@ == spec_task_step(old(self)@, (TaskOp::SetRev { id: id, rev: rev })),
            final(self)@.wf(),
            applied == spec_task_guard(old(self)@, (TaskOp::SetRev { id: id, rev: rev })),
    {
        let ghost o = self@;
        let ghost op = TaskOp::SetRev { id, rev };
        match self.find_build_index(id) {
            Some(i) => {
                proof {
                    let k = o.build_index(id);
                    assert(0 <= k < o.builds.len() && o.builds[k].id == id);
                    assert(k == i as int);
                }
                if self.builds[i].status.is_terminal() {
                    proof {
                        assert(!spec_task_guard(o, op));
                    }
                    false
                } else {
                    let old_b = &self.builds[i];
                    let b = Build {
                        id: old_b.id,
                        origin: old_b.origin.clone(),
                        rev,
                        created_at: old_b.created_at,
                        status: old_b.status,
                        finished_at: old_b.finished_at,
                        error_msg: match &old_b.error_msg {
                            Some(e) => Some(e.clone()),
                            None => None,
                        },
                    };
                    self.builds[i] = b;
                    proof {
                        let v = self@;
                        assert(spec_task_guard(o, op));
                        assert forall|j: int| 0 <= j < v.builds.len() implies v.builds[j]
                            == spec_task_step(o, op).builds[j] by {
                            if j == i {
                                assert(o.builds[j].id == id);
                            } else {
                                assert(o.builds[j].id != id);
                            }
                        }
                        assert(v.builds =~= spec_task_step(o, op).builds);
                        assert(v =~= spec_task_step(o, op));
                        lemma_builds_pointwise_wf(o.builds, v.builds, o.next_build_id, o.inputs);
                        assert(v.wf());
                    }
                    true
                }
            },
            None => {
                proof {
                    assert(!o.has_build(id));
                    assert(self@ =~= spec_task_step(o, op));
                }
                false
            },
        }
    }

    /// Records one realized store path, unless its input is gone, its
    /// build is terminal, or an output for the (input, platform) pair
    /// already exists; says whether the row was inserted.
    pub fn insert_output(&mut self, input_id: i32, system: String, store_path: String) -> (applied:
        bool)
        requires
            old(self)@.wf(),
        ensures
            final(self)@ == spec_task_step(
                old(self)@,
                (TaskOp::InsertOutput {
                    input_id: input_id,
                    system: system,
                    store_path: store_path,
                }),
            ),
            final(self)@.wf(),
            applied == spec_task_guard(
                old(self)@,
                (TaskOp::InsertOutput {
                    input_id: input_id,
                    system: system,
                    store_path: store_path,
                }),
            ),
    {
        let ghost o = self@;
        let ghost op = TaskOp::InsertOutput { input_id, system, store_path };
        let guard_ok = match self.find_input_index(input_id) {
            Some(j) => {
                proof {
                    let k = o.input_index(input_id);
                    assert(0 <= k < o.inputs.len() && o.inputs[k].id == input_id);
                    assert(k == j as int);
                }
                let bid = self.inputs[j].build_id;
                match self.find_build_index(bid) {
                    Some(bi) => {
                        proof {
                            let k2 = o.build_index(bid);
                            assert(0 <= k2 < o.builds.len() && o.builds[k2].id == bid);
                            assert(k2 == bi as int);
                        }
                        !self.builds[bi].status.is_terminal() && !self.output_row_exists(
                            input_id,
                            &system,
                        ) && self.next_output_id < i32::MAX
                    },
                    None => false,
                }
            },
            None => false,
        };
        proof {
            assert(guard_ok == spec_task_guard(o, op));
        }
        if guard_ok {
            let row = Output { id: self.next_output_id, input_id, system, store_path };
            self.outputs.push(row);
            self.next_output_id = self.next_output_id + 1;
            proof {
                let v = self@;
                assert(v =~= spec_task_step(o, op));
                assert forall|i2: int, j2: int|
                    0 <= i2 < v.outputs.len() && 0 <= j2 < v.outputs.len() && i2 != j2 implies v
                    .outputs[i2].id != v.outputs[j2].id by {
                    if i2 < o.outputs.len() && j2 < o.outputs.len() {
                        assert(o.outputs[i2].id != o.outputs[j2].id);
                    } else if i2 < o.outputs.len() {
                        assert(1 <= o.outputs[i2].id < o.next_output_id);
                    } else {
                        assert(1 <= o.outputs[j2].id < o.next_output_id);
                    }
                }
                assert forall|i2: int| 0 <= i2 < v.outputs.len() implies 1 <= (
                #[trigger] v.outputs[i2]).id < v.next_output_id by {
                    if i2 < o.outputs.len() {
                        assert(1 <= o.outputs[i2].id < o.next_output_id);
                    }
                }
                assert forall|i2: int, j2: int|
                    0 <= i2 < v.outputs.len() && 0 <= j2 < v.outputs.len() && i2 != j2 implies !((
                #[trigger] v.outputs[i2]).input_id == (#[trigger] v.outputs[j2]).input_id
                    && v.outputs[i2].system@ == v.outputs[j2].system@) by {
                    if i2 < o.outputs.len() && j2 < o.outputs.len() {
                    } else {
                        let e = if i2 < o.outputs.len() {
                            i2
                        } else {
                            j2
                        };
                        assert(!(o.outputs[e].input_id == input_id && o.outputs[e].system@
                            == system@));
                    }
                }
                assert forall|i2: int| 0 <= i2 < v.outputs.len() implies spec_has_input_id(
                    v.inputs,
                    (#[trigger] v.outputs[i2]).input_id,
                ) by {
                    if i2 < o.outputs.len() {
                        assert(spec_has_input_id(o.inputs, o.outputs[i2].input_id));
                    } else {
                        assert(o.has_input(input_id));
                    }
                }
                assert(v.wf());
            }
            true
        } else {
            proof {
                assert(self@ =~= spec_task_step(o, op));
            }
            false
        }
    }

    /// Moves a build into a terminal status and records its finish time,
    /// unless the build is gone or already terminal, the status is not
    /// terminal, or an error message accompanies a non-failure; says
    /// whether it was applied.
    pub fn finish_build(
        &mut self,
        id: i32,
        status: BuildStatus,
        now: i64,
        error_msg: Option<String>,
    ) -> (applied: bool)
        requires
            old(self)@.wf(),
        ensures
            final(self)@ == spec_task_step(
                old(self)@,
                (TaskOp::FinishBuild { id: id, status: status, now: now, error_msg: error_msg }),
            ),
            final(self)@.wf(),
            applied == spec_task_guard(
                old(self)@,
                (TaskOp::FinishBuild { id: id, status: status, now: now, error_msg: error_msg }),
            ),
    {
        let ghost o = self@;
        let ghost op = TaskOp::FinishBuild { id, status, now, error_msg };
        match self.find_build_index(id) {
            Some(i) => {
                proof {
                    let k = o.build_index(id);
                    assert(0 <= k < o.builds.len() && o.builds[k].id == id);
                    assert(k == i as int);
                }
                let err_ok = match &error_msg {
                    Some(_) => status == BuildStatus::Failed,
                    None => true,
                };
                if self.builds[i].status.is_terminal() || !status.is_terminal() || !err_ok {
                    proof {
                        assert(!spec_task_guard(o, op));
                        assert(self@ =~= spec_task_step(o, op));
                    }
                    false
                } else {
                    let old_b = &self.builds[i];
                    let b = Build {
                        id: old_b.id,
                        origin: old_b.origin.clone(),
                        rev: old_b.rev.clone(),
                        created_at: old_b.created_at,
                        status,
                        finished_at: Some(now),
                        error_msg,
                    };
                    self.builds[i] = b;
                    proof {
                        let v = self@;
                        assert(spec_task_guard(o, op));
                        assert forall|j: int| 0 <= j < v.builds.len() implies v.builds[j]
                            == spec_task_step(o, op).builds[j] by {
                            if j == i {
                                assert(o.builds[j].id == id);
                            } else {
                                assert(o.builds[j].id != id);
                            }
                        }
                        assert(v.builds =~= spec_task_step(o, op).builds);
                        assert(v =~= spec_task_step(o, op));
                        lemma_builds_pointwise_wf(o.builds, v.builds, o.next_build_id, o.inputs);
                        assert(v.wf());
                    }
                    true
                }
            },
            None => {
                proof {
                    assert(!o.has_build(id));
                    assert(self@ =~= spec_task_step(o, op));
                }
                false
            },
        }
    }

    /// The inputs of a build, in insertion order.
    pub fn inputs_of(&self, build_id: i32) -> (r: Vec<Input>)
        ensures
            r@ == self@.inputs.filter(spec_input_of_build(build_id)),
    {
        let ghost pred = spec_input_of_build(build_id);
        let n = self.inputs.len();
        let mut r: Vec<Input> = Vec::new();
        let mut i: usize = 0;
        proof {
            reveal(Seq::filter);
            assert(self@.inputs.take(0) =~= Seq::<Input>::empty());
            assert(r@ =~= self@.inputs.take(0).filter(pred));
        }
        while i < n
            invariant
                n == self@.inputs.len(),
                0 <= i <= n,
                pred == spec_input_of_build(build_id),
                r@ == self@.inputs.take(i as int).filter(pred),
            decreases n - i,
        {
            proof {
                reveal(Seq::filter);
                assert(self@.inputs.take(i + 1).drop_last() =~= self@.inputs.take(i as int));
                assert(self@.inputs.take(i + 1).last() == self@.inputs[i as int]);
            }
            if self.inputs[i].build_id == build_id {
                let copy = self.inputs[i].clone();
                r.push(copy);
            }
            i = i + 1;
        }
        proof {
            assert(self@.inputs.take(n as int) =~= self@.inputs);
        }
        r
    }

    /// The outputs realized for one input, in insertion order.
    pub fn outputs_of_input(&self, input_id: i32) -> (r: Vec<Output>)
        ensures
            r@ == self@.outputs.filter(spec_output_of_input(input_id)),
    {
        let ghost pred = spec_output_of_input(input_id);
        let n = self.outputs.len();
        let mut r: Vec<Output> = Vec::new();
        let mut i: usize = 0;
        proof {
            reveal(Seq::filter);
            assert(self@.outputs.take(0) =~= Seq::<Output>::empty());
            assert(r@ =~= self@.outputs.take(0).filter(pred));
        }
        while i < n
            invariant
                n == self@.outputs.len(),
                0 <= i <= n,
                pred == spec_output_of_input(input_id),
                r@ == self@.outputs.take(i as int).filter(pred),
            decreases n - i,
        {
            proof {
                reveal(Seq::filter);
                assert(self@.outputs.take(i + 1).drop_last() =~= self@.outputs.take(i as int));
                assert(self@.outputs.take(i + 1).last() == self@.outputs[i as int]);
            }
            if self.outputs[i].input_id == input_id {
                let copy = self.outputs[i].clone();
                r.push(copy);
            }
            i = i + 1;
        }
        proof {
            assert(self@.outputs.take(n as int) =~= self@.outputs);
        }
        r
    }

    /// The inputs of a build, each grouped with its outputs: what a
    /// client reads when it inspects one build.
    pub fn get_inputs_and_outputs(&self, build_id: i32) -> (r: Vec<InputOutputs>)
        ensures
            ({
                let ins = self@.inputs.filter(spec_input_of_build(build_id));
                &&& r@.len() == ins.len()
                &&& forall|k: int|
                    0 <= k < ins.len() ==> (#[trigger] r@[k]).input == ins[k] && r@[k].outputs@
                        == self@.outputs.filter(spec_output_of_input(ins[k].id))
            }),
    {
        let ins = self.inputs_of(build_id);
        let n = ins.len();
        let mut r: Vec<InputOutputs> = Vec::new();
        let mut k: usize = 0;
        while k < n
            invariant
                n == ins@.len(),
                ins@ == self@.inputs.filter(spec_input_of_build(build_id)),
                0 <= k <= n,
                r@.len() == k,
                forall|j: int|
                    0 <= j < k ==> (#[trigger] r@[j]).input == ins@[j] && r@[j].outputs@
                        == self@.outputs.filter(spec_output_of_input(ins@[j].id)),
            decreases n - k,
        {
            let outs = self.outputs_of_input(ins[k].id);
            let input_copy = ins[k].clone();
            r.push(InputOutputs { input: input_copy, outputs: outs });
            k = k + 1;
        }
        r
    }

    /// The index of a newest build in a non-empty list.
    fn max_created_index(v: &Vec<Build>) -> (r: usize)
        requires
            v@.len() > 0,
        ensures
            r < v@.len(),
            forall|k: int| 0 <= k < v@.len() ==> v@[r as int].created_at >= v@[k].created_at,
    {
        let n = v.len();
        let mut best: usize = 0;
        let mut i: usize = 1;
        while i < n
            invariant
                n == v@.len(),
                best < n,
                1 <= i <= n,
                forall|k: int| 0 <= k < i ==> v@[best as int].created_at >= v@[k].created_at,
            decreases n - i,
        {
            if v[i].created_at > v[best].created_at {
                best = i;
            }
            i = i + 1;
        }
        best
    }

    /// The builds ordered from newest to oldest submission: a descending
    /// permutation of the build table.
    fn sorted_builds_desc(&self) -> (r: Vec<Build>)
        ensures
            spec_sorted_desc(r@),
            r@.to_multiset() == self@.builds.to_multiset(),
    {
        let n = self.builds.len();
        let mut rest: Vec<Build> = Vec::new();
        let mut i: usize = 0;
        while i < n
            invariant
                n == self@.builds.len(),
                0 <= i <= n,
                rest@ == self@.builds.take(i as int),
            decreases n - i,
        {
            let copy = self.builds[i].clone();
            rest.push(copy);
            proof {
                assert(rest@ =~= self@.builds.take(i + 1));
            }
            i = i + 1;
        }
        proof {
            assert(self@.builds.take(n as int) =~= self@.builds);
        }
        let mut out: Vec<Build> = Vec::new();
        proof {
            broadcast use vstd::seq_lib::group_to_multiset_ensures;
            broadcast use vstd::multiset::group_multiset_axioms;

            assert(out@.to_multiset().add(rest@.to_multiset()) =~= self@.builds.to_multiset());
        }
        while rest.len() > 0
            invariant
                out@.to_multiset().add(rest@.to_multiset()) == self@.builds.to_multiset(),
                spec_sorted_desc(out@),
                forall|a: int, b: int|
                    0 <= a < out@.len() && 0 <= b < rest@.len() ==> out@[a].created_at
                        >= rest@[b].created_at,
            decreases rest@.len(),
        {
            let ghost out1 = out@;
            let ghost rest1 = rest@;
            let m = Self::max_created_index(&rest);
            let b = rest.remove(m);
            out.push(b);
            proof {
                broadcast use vstd::seq_lib::group_to_multiset_ensures;
                broadcast use vstd::multiset::group_multiset_axioms;

                assert(rest1.contains(rest1[m as int]));
                assert(rest1.to_multiset().count(rest1[m as int]) > 0);
                assert(out@.to_multiset() =~= out1.to_multiset().insert(b));
                assert(rest@.to_multiset() =~= rest1.to_multiset().remove(b));
                assert(out@.to_multiset().add(rest@.to_multiset()) =~= out1.to_multiset().add(
                    rest1.to_multiset(),
                ));
                assert forall|a: int, c: int|
                    0 <= a < out@.len() && 0 <= c < rest@.len() implies out@[a].created_at
                    >= rest@[c].created_at by {
                    if c < m {
                        assert(rest@[c] == rest1[c]);
                    } else {
                        assert(rest@[c] == rest1[c + 1]);
                    }
                    if a < out1.len() {
                    } else {
                        assert(out@[a] == rest1[m as int]);
                    }
                }
                assert(spec_sorted_desc(out@));
            }
        }
        proof {
            broadcast use vstd::multiset::group_multiset_axioms;
            broadcast use vstd::seq_lib::group_to_multiset_ensures;

            assert(rest@.to_multiset().len() == rest@.len());
            assert(out@.to_multiset().add(rest@.to_multiset()) =~= out@.to_multiset());
        }
        out
    }

    /// The latest builds by submission time: the first `count` entries
    /// of a descending permutation of the build table.
    pub fn latest_builds(&self, count: usize) -> (r: Vec<Build>)
        ensures
            spec_sorted_desc(r@),
            r@.len() == (if count <= self@.builds.len() {
                count as int
            } else {
                self@.builds.len() as int
            }),
            exists|all: Seq<Build>|
                {
                    &&& #[trigger] spec_sorted_desc(all)
                    &&& all.to_multiset() == self@.builds.to_multiset()
                    &&& r@ == all.take(r@.len() as int)
                },
    {
        let mut s = self.sorted_builds_desc();
        let ghost all = s@;
        proof {
            broadcast use vstd::seq_lib::group_to_multiset_ensures;

            assert(s@.to_multiset().len() == s@.len());
            assert(self@.builds.to_multiset().len() == self@.builds.len());
        }
        s.truncate(count);
        proof {
            if count <= all.len() {
                assert(s@ == all.subrange(0, count as int));
            } else {
                assert(s@ == all);
                assert(s@ =~= all.take(all.len() as int));
            }
            assert(spec_sorted_desc(s@));
            assert(spec_sorted_desc(all) && all.to_multiset() == self@.builds.to_multiset() && s@
                == all.take(s@.len() as int));
        }
        s
    }
}

/// Membership test of an input in a build.
pub open spec fn spec_input_of_build(build_id: i32) -> spec_fn(Input) -> bool {
    |inp: Input| inp.build_id == build_id
}

/// Membership test of an output under an input.
pub open spec fn spec_output_of_input(input_id: i32) -> spec_fn(Output) -> bool {
    |o: Output| o.input_id == input_id
}

/// Builds ordered from newest to oldest submission.
pub open spec fn spec_sorted_desc(s: Seq<Build>) -> bool {
    forall|i: int, j: int| 0 <= i < j < s.len() ==> s[i].created_at >= s[j].created_at
}

/// A pointwise rewrite of the build table that keeps every row's id and
/// the soundness of its status fields keeps the table and its references
/// well-formed.
proof fn lemma_builds_pointwise_wf(
    old_builds: Seq<Build>,
    new_builds: Seq<Build>,
    next: i32,
    inputs: Seq<Input>,
)
    requires
        spec_builds_wf(old_builds, next),
        spec_inputs_ref(inputs, old_builds),
        new_builds.len() == old_builds.len(),
        forall|i: int|
            0 <= i < new_builds.len() ==> {
                let b = #[trigger] new_builds[i];
                &&& b.id == old_builds[i].id
                &&& (b.status.spec_is_terminal() <==> b.finished_at is Some)
                &&& (b.error_msg is Some ==> b.status == BuildStatus::Failed)
            },
    ensures
        spec_builds_wf(new_builds, next),
        spec_inputs_ref(inputs, new_builds),
{
    assert forall|i: int, j: int|
        0 <= i < new_builds.len() && 0 <= j < new_builds.len() && i != j implies new_builds[i].id
        != new_builds[j].id by {
        assert(old_builds[i].id != old_builds[j].id);
    }
    assert forall|i: int| 0 <= i < new_builds.len() implies 1 <= (#[trigger] new_builds[i]).id
        < next by {
        assert(1 <= old_builds[i].id < next);
    }
    assert forall|i: int| 0 <= i < inputs.len() implies spec_has_build_id(
        new_builds,
        (#[trigger] inputs[i]).build_id,
    ) by {
        assert(spec_has_build_id(old_builds, inputs[i].build_id));
        let k = choose|k: int|
            0 <= k < old_builds.len() && old_builds[k].id == inputs[i].build_id;
        assert(new_builds[k].id == inputs[i].build_id);
    }
}

/// A store write a running build task performs.
pub enum TaskOp {
    /// Persist the resolved commit hash of a build's symbolic revision.
    SetRev { id: i32, rev: String },
    /// Record one realized store path for an (input, platform) pair.
    InsertOutput { input_id: i32, system: String, store_path: String },
    /// Move a build into a terminal status and record its finish time.
    FinishBuild { id: i32, status: BuildStatus, now: i64, error_msg: Option<String> },
}

/// A build with its revision rewritten to the resolved hash.
pub open spec fn spec_with_rev(b: Build, rev: String) -> Build {
    Build {
        id: b.id,
        origin: b.origin,
        rev: rev,
        created_at: b.created_at,
        status: b.status,
        finished_at: b.finished_at,
        error_msg: b.error_msg,
    }
}

/// A build moved into a terminal status, with its finish time recorded.
pub open spec fn spec_finished(b: Build, st: BuildStatus, now: i64, err: Option<String>) -> Build {
    Build {
        id: b.id,
        origin: b.origin,
        rev: b.rev,
        created_at: b.created_at,
        status: st,
        finished_at: Option::Some(now),
        error_msg: err,
    }
}

/// Whether a task-driven write is admissible: it addresses an existing,
/// non-terminal build, an inserted output is the first for its (input,
/// platform) pair, a finishing status is terminal, and an error message
/// only accompanies a failure. An inadmissible write changes nothing:
/// once a build is terminal, no task-driven operation moves it again.
pub open spec fn spec_task_guard(v: StoreView, op: TaskOp) -> bool {
    match op {
        TaskOp::SetRev { id, rev } => v.has_build(id) && !v.build_of(id).status.spec_is_terminal(),
        TaskOp::InsertOutput { input_id, system, store_path } => {
            &&& v.has_input(input_id)
            &&& v.has_build(v.input_of(input_id).build_id)
            &&& !v.build_of(v.input_of(input_id).build_id).status.spec_is_terminal()
            &&& !v.output_exists(input_id, system@)
            &&& v.next_output_id < i32::MAX
        },
        TaskOp::FinishBuild { id, status, now, error_msg } => {
            &&& v.has_build(id)
            &&& !v.build_of(id).status.spec_is_terminal()
            &&& status.spec_is_terminal()
            &&& (error_msg is Some ==> status == BuildStatus::Failed)
        },
    }
}

/// What a task-driven write does to the store. A write whose guard fails
/// leaves the store untouched.
pub open spec fn spec_task_step(v: StoreView, op: TaskOp) -> StoreView {
    if !spec_task_guard(v, op) {
        v
    } else {
        match op {
            TaskOp::SetRev { id, rev } => StoreView {
                builds: Seq::new(
                    v.builds.len(),
                    |i: int|
                        if v.builds[i].id == id {
                            spec_with_rev(v.builds[i], rev)
                        } else {
                            v.builds[i]
                        },
                ),
                inputs: v.inputs,
                outputs: v.outputs,
                next_build_id: v.next_build_id,
                next_input_id: v.next_input_id,
                next_output_id: v.next_output_id,
            },
            TaskOp::InsertOutput { input_id, system, store_path } => StoreView {
                builds: v.builds,
                inputs: v.inputs,
                outputs: v.outputs.push(
                    Output {
                        id: v.next_output_id,
                        input_id: input_id,
                        system: system,
                        store_path: store_path,
                    },
                ),
                next_build_id: v.next_build_id,
                next_input_id: v.next_input_id,
                next_output_id: (v.next_output_id + 1) as i32,
            },
            TaskOp::FinishBuild { id, status, now, error_msg } => StoreView {
                builds: Seq::new(
                    v.builds.len(),
                    |i: int|
                        if v.builds[i].id == id {
                            spec_finished(v.builds[i], status, now, error_msg)
                        } else {
                            v.builds[i]
                        },
                ),
                inputs: v.inputs,
                outputs: v.outputs,
                next_build_id: v.next_build_id,
                next_input_id: v.next_input_id,
                next_output_id: v.next_output_id,
            },
        }
    }
}

/// Terminal monotonicity: once a build's status is terminal, no
/// task-driven store operation changes that build's row again, and its
/// finish time stands recorded.
pub proof fn lemma_terminal_monotonicity(v: StoreView, op: TaskOp, i: int)
    requires
        v.wf(),
        0 <= i < v.builds.len(),
        v.builds[i].status.spec_is_terminal(),
    ensures
        spec_task_step(v, op).builds.len() == v.builds.len(),
        spec_task_step(v, op).builds[i] == v.builds[i],
        v.builds[i].finished_at is Some,
{
    if spec_task_guard(v, op) {
        match op {
            TaskOp::SetRev { id, rev } => {
                let k = v.build_index(id);
                assert(0 <= k < v.builds.len() && v.builds[k].id == id);
                assert(v.builds[i].id != id);
            },
            TaskOp::InsertOutput { input_id, system, store_path } => {},
            TaskOp::FinishBuild { id, status, now, error_msg } => {
                let k = v.build_index(id);
                assert(0 <= k < v.builds.len() && v.builds[k].id == id);
                assert(v.builds[i].id != id);
            },
        }
    }
}

/// Output uniqueness: in a well-formed store, at most one output row
/// exists for each (input, platform) pair.
pub proof fn lemma_output_uniqueness(v: StoreView, i: int, j: int)
    requires
        v.wf(),
        0 <= i < v.outputs.len(),
        0 <= j < v.outputs.len(),
        i != j,
    ensures
        !(v.outputs[i].input_id == v.outputs[j].input_id && v.outputs[i].system@
            == v.outputs[j].system@),
{
}

/// Filtering keeps output rows pairwise distinct: distinct ids stay
/// distinct, and no duplicate (input, platform) pair appears.
proof fn lemma_filter_keeps_distinct(s: Seq<Output>, pred: spec_fn(Output) -> bool)
    requires
        forall|a: int, b: int|
            0 <= a < s.len() && 0 <= b < s.len() && a != b ==> s[a].id != s[b].id,
        forall|a: int, b: int|
            0 <= a < s.len() && 0 <= b < s.len() && a != b ==> !(s[a].input_id == s[b].input_id
                && s[a].system@ == s[b].system@),
    ensures
        forall|i: int, j: int|
            0 <= i < s.filter(pred).len() && 0 <= j < s.filter(pred).len() && i != j ==> s.filter(
                pred,
            )[i].id != s.filter(pred)[j].id,
        forall|i: int, j: int|
            0 <= i < s.filter(pred).len() && 0 <= j < s.filter(pred).len() && i != j ==> !(
            s.filter(pred)[i].input_id == s.filter(pred)[j].input_id && s.filter(pred)[i].system@
                == s.filter(pred)[j].system@),
    decreases s.len(),
{
    reveal(Seq::filter);
    if s.len() > 0 {
        let s0 = s.drop_last();
        assert(forall|a: int| 0 <= a < s0.len() ==> s0[a] == s[a]);
        lemma_filter_keeps_distinct(s0, pred);
        let f0 = s0.filter(pred);
        if pred(s.last()) {
            let f = s.filter(pred);
            assert(f == f0.push(s.last()));
            assert forall|i: int, j: int|
                0 <= i < f.len() && 0 <= j < f.len() && i != j implies f[i].id != f[j].id && !(
            f[i].input_id == f[j].input_id && f[i].system@ == f[j].system@) by {
                if i < f0.len() && j < f0.len() {
                } else {
                    let k = if i < f0.len() {
                        i
                    } else {
                        j
                    };
                    assert(f[k] == f0[k]);
                    assert(f0.contains(f0[k]));
                    s0.lemma_filter_contains_rev(pred, f0[k]);
                    let m = choose|m: int| 0 <= m < s0.len() && s0[m] == f0[k];
                    assert(s[m] == f0[k]);
                    assert(s[m].id != s.last().id);
                }
            }
        }
    }
}

} // verus!

//! The compositor's view of the display topology, and the detector that polls
//! it for a projector output.
use vstd::prelude::*;

verus! {

/// One output record from a topology snapshot: a display known to the
/// compositor, with its activity, power-management state and assigned
/// workspace.
pub struct Output {
    pub name: String,
    pub active: bool,
    pub powered: bool,
    pub workspace: Option<String>,
}

/// Mathematical model of an [`Output`].
pub struct OutputModel {
    pub name: Seq<char>,
    pub active: bool,
    pub powered: bool,
    pub workspace: Option<Seq<char>>,
}

impl View for Output {
    type V = OutputModel;

    open spec fn view(&self) -> OutputModel {
        OutputModel {
            name: self.name@,
            active: self.active,
            powered: self.powered,
            workspace: match self.workspace {
                Some(w) => Some(w@),
                None => None,
            },
        }
    }
}

/// The models of every output in a snapshot, in snapshot order.
pub open spec fn snapshot_model(outputs: Seq<Output>) -> Seq<OutputModel> {
    outputs.map_values(|o: Output| o@)
}

/// The character-sequence models of a list of strings, in order.
pub open spec fn strings_model(names: Seq<String>) -> Seq<Seq<char>> {
    names.map_values(|n: String| n@)
}

/// Whether the snapshot reports an output called `name`, in any state.
pub open spec fn snapshot_reports(outs: Seq<OutputModel>, name: Seq<char>) -> bool {
    exists|i: int| 0 <= i < outs.len() && outs[i].name == name
}

/// Whether `name` appears among the configured candidate names.
pub open spec fn name_in_candidates(name: Seq<char>, candidates: Seq<Seq<char>>) -> bool {
    exists|i: int| 0 <= i < candidates.len() && candidates[i] == name
}

/// An output counts as the projector exactly when it is active, powered,
/// bears one of the candidate names, and carries a non-empty workspace
/// assignment.
pub open spec fn is_projector_match(o: OutputModel, candidates: Seq<Seq<char>>) -> bool {
    &&& o.active
    &&& o.powered
    &&& name_in_candidates(o.name, candidates)
    &&& o.workspace is Some
    &&& o.workspace->0.len() > 0
}

/// Whether some output of the snapshot matches.
pub open spec fn has_match(outs: Seq<OutputModel>, candidates: Seq<Seq<char>>) -> bool {
    exists|i: int| 0 <= i < outs.len() && is_projector_match(outs[i], candidates)
}

/// The index of the last matching output of the snapshot, or -1 when none
/// matches.
pub open spec fn last_match_index(outs: Seq<OutputModel>, candidates: Seq<Seq<char>>) -> int
    decreases outs.len(),
{
    if outs.len() == 0 {
        -1
    } else if is_projector_match(outs.last(), candidates) {
        outs.len() - 1
    } else {
        last_match_index(outs.drop_last(), candidates)
    }
}

/// The last matching output is indeed a match, every later output is not,
/// and an index is returned exactly when some output matches.
pub proof fn lemma_last_match_index(outs: Seq<OutputModel>, candidates: Seq<Seq<char>>)
    ensures
        has_match(outs, candidates) <==> 0 <= last_match_index(outs, candidates) < outs.len(),
        !has_match(outs, candidates) ==> last_match_index(outs, candidates) == -1,
        has_match(outs, candidates) ==> is_projector_match(
            outs[last_match_index(outs, candidates)],
            candidates,
        ),
        forall|k: int|
            last_match_index(outs, candidates) < k < outs.len() ==> !is_projector_match(
                #[trigger] outs[k],
                candidates,
            ),
    decreases outs.len(),
{
    if outs.len() > 0 {
        let rest = outs.drop_last();
        lemma_last_match_index(rest, candidates);
        assert(forall|i: int| 0 <= i < outs.len() - 1 ==> rest[i] == #[trigger] outs[i]);
        if is_projector_match(outs.last(), candidates) {
            assert(is_projector_match(outs[outs.len() - 1], candidates));
            assert(has_match(outs, candidates));
            assert(last_match_index(outs, candidates) == outs.len() - 1);
        } else {
            assert(last_match_index(outs, candidates) == last_match_index(rest, candidates));
            if has_match(outs, candidates) {
                let w = choose|i: int|
                    0 <= i < outs.len() && is_projector_match(outs[i], candidates);
                assert(w < outs.len() - 1);
                assert(is_projector_match(rest[w], candidates));
                assert(has_match(rest, candidates));
            }
            if has_match(rest, candidates) {
                let w = choose|i: int|
                    0 <= i < rest.len() && is_projector_match(rest[i], candidates);
                assert(is_projector_match(outs[w], candidates));
                assert(has_match(outs, candidates));
            }
            assert forall|k: int|
                last_match_index(outs, candidates) < k < outs.len() implies !is_projector_match(
                #[trigger] outs[k],
                candidates,
            ) by {
                if k == outs.len() - 1 {
                    assert(!is_projector_match(outs.last(), candidates));
                } else {
                    assert(rest[k] == outs[k]);
                }
            }
        }
    }
}

/// The outcome of one successful poll: the matched output's name and its
/// assigned workspace.
pub struct DetectionResult {
    pub name: String,
    pub workspace: String,
}

/// A detection's fields are both non-empty whenever every candidate name is
/// non-empty: the matched name is one of the candidates, and the match
/// itself already required a non-empty workspace.
pub proof fn lemma_detection_name_nonempty(name: Seq<char>, candidates: Seq<Seq<char>>)
    requires
        name_in_candidates(name, candidates),
        forall|i: int| 0 <= i < candidates.len() ==> #[trigger] candidates[i].len() > 0,
    ensures
        name.len() > 0,
{
}

/// Whether `name` is one of the `candidates`, compared character for
/// character.
pub fn candidates_contain(name: &String, candidates: &Vec<String>) -> (r: bool)
    ensures
        r == name_in_candidates(name@, strings_model(candidates@)),
{
    let ghost cs = strings_model(candidates@);
    let mut i: usize = 0;
    while i < candidates.len()
        invariant
            0 <= i <= candidates.len(),
            cs == strings_model(candidates@),
            forall|j: int| 0 <= j < i ==> cs[j] != name@,
        decreases candidates.len() - i,
    {
        if *name == candidates[i] {
            assert(cs[i as int] == name@);
            return true;
        }
        i = i + 1;
    }
    false
}

/// Whether the snapshot reports an output called `name`, regardless of its
/// power or activity state.
pub fn snapshot_has_output(outputs: &Vec<Output>, name: &String) -> (r: bool)
    ensures
        r == snapshot_reports(snapshot_model(outputs@), name@),
{
    let ghost m = snapshot_model(outputs@);
    let mut i: usize = 0;
    while i < outputs.len()
        invariant
            0 <= i <= outputs.len(),
            m == snapshot_model(outputs@),
            forall|j: int| 0 <= j < i ==> m[j].name != name@,
        decreases outputs.len() - i,
    {
        assert(m[i as int] == outputs@[i as int]@);
        if outputs[i].name == *name {
            assert(m[i as int].name == name@);
            return true;
        }
        i = i + 1;
    }
    false
}

/// Examines one topology snapshot and returns the projector detected in it,
/// if any.
///
/// A match requires an output that is simultaneously active, powered,
/// name-matched and workspace-assigned; when several outputs match, the last
/// one in snapshot order wins.
pub fn poll_once(outputs: &Vec<Output>, candidates: &Vec<String>) -> (r: Option<DetectionResult>)
    ensures
        r is Some <==> has_match(snapshot_model(outputs@), strings_model(candidates@)),
        r is Some ==> {
            let m = snapshot_model(outputs@);
            let j = last_match_index(m, strings_model(candidates@));
            &&& r->0.name@ == m[j].name
            &&& Some(r->0.workspace@) == m[j].workspace
            &&& r->0.workspace@.len() > 0
            &&& name_in_candidates(r->0.name@, strings_model(candidates@))
        },
{
    let ghost m = snapshot_model(outputs@);
    let ghost cs = strings_model(candidates@);
    let mut found: Option<DetectionResult> = None;
    let mut i: usize = 0;
    while i < outputs.len()
        invariant
            0 <= i <= outputs.len(),
            m == snapshot_model(outputs@),
            cs == strings_model(candidates@),
            found is Some <==> has_match(m.take(i as int), cs),
            found is Some ==> {
                let j = last_match_index(m.take(i as int), cs);
                &&& found->0.name@ == m[j].name
                &&& Some(found->0.workspace@) == m[j].workspace
                &&& found->0.workspace@.len() > 0
                &&& name_in_candidates(found->0.name@, cs)
            },
        decreases outputs.len() - i,
    {
        let output = &outputs[i];
        assert(m[i as int] == output@);
        let mut matched = false;
        if output.active && output.powered {
            match &output.workspace {
                Some(w) => {
                    if !w.as_str().is_empty() && candidates_contain(&output.name, candidates) {
                        found = Some(
                            DetectionResult { name: output.name.clone(), workspace: w.clone() },
                        );
                        matched = true;
                    }
                },
                None => {},
            }
        }
        proof {
            let pre = m.take(i as int);
            let cur = m.take(i + 1int);
            assert(cur.drop_last() =~= pre);
            assert(cur.last() == m[i as int]);
            assert(matched == is_projector_match(m[i as int], cs));
            if matched {
                assert(last_match_index(cur, cs) == i as int);
                assert(has_match(cur, cs));
            } else {
                assert(last_match_index(cur, cs) == last_match_index(pre, cs));
                if has_match(cur, cs) {
                    let w = choose|k: int|
                        0 <= k < cur.len() && is_projector_match(cur[k], cs);
                    if w < i as int {
                        assert(is_projector_match(pre[w], cs));
                    }
                }
                if has_match(pre, cs) {
                    let w = choose|k: int|
                        0 <= k < pre.len() && is_projector_match(pre[k], cs);
                    assert(is_projector_match(cur[w], cs));
                }
                lemma_last_match_index(pre, cs);
            }
        }
        i = i + 1;
    }
    proof {
        assert(m.take(outputs@.len() as int) =~= m);
    }
    found
}

} // verus!

use vstd::prelude::*;

use crate::rules::RuleEngine;

verus! {

/// One package version to scan, with the URLs of its published artifacts.
#[derive(Debug)]
pub struct Job {
    pub hash: String,
    pub name: String,
    pub version: String,
    pub distributions: Vec<String>,
}

/// The coordinator's answer to a job request: a job, or a message saying
/// that none is available.
pub enum GetJobResponse {
    Job(Job),
    Error { detail: String },
}

/// The verdict reported for one job.
#[derive(Debug)]
pub struct SubmitJobResultsBody {
    pub name: String,
    pub version: String,
    pub score: Option<i64>,
    pub inspector_url: Option<String>,
    pub rules_matched: Vec<String>,
}

/// The names held by `v`, as a set of character sequences.
pub open spec fn name_set(v: Seq<String>) -> Set<Seq<char>> {
    Set::new(|s: Seq<char>| exists|i: int| 0 <= i < v.len() && v[i]@ == s)
}

/// No name occurs twice in `v`.
pub open spec fn distinct_names(v: Seq<String>) -> bool {
    forall|i: int, j: int| 0 <= i < j < v.len() ==> v[i]@ != v[j]@
}

/// The union of the rule names matched over a sequence of artifact
/// outcomes, where `None` stands for an artifact that could not be fetched.
pub open spec fn union_of(outcomes: Seq<Option<Set<Seq<char>>>>) -> Set<Seq<char>>
    decreases outcomes.len(),
{
    if outcomes.len() == 0 {
        Set::empty()
    } else {
        union_of(outcomes.drop_last()).union(
            match outcomes.last() {
                Some(s) => s,
                None => Set::empty(),
            },
        )
    }
}

/// The names matched over the entries of one artifact: the union over the
/// entries whose scan succeeded.
pub open spec fn scans_union(found: Seq<Result<Vec<String>, String>>) -> Set<Seq<char>>
    decreases found.len(),
{
    if found.len() == 0 {
        Set::empty()
    } else {
        scans_union(found.drop_last()).union(
            match found.last() {
                Ok(v) => name_set(v@),
                Err(_) => Set::empty(),
            },
        )
    }
}

proof fn lemma_name_set_concat(a: Seq<String>, b: Seq<String>)
    ensures
        name_set(a + b) == name_set(a).union(name_set(b)),
{
    assert forall|s: Seq<char>| name_set(a + b).contains(s) implies name_set(a).union(name_set(b)).contains(s) by {
        let t = choose|t: int| 0 <= t < (a + b).len() && (a + b)[t]@ == s;
        if t < a.len() {
            assert(a[t]@ == s);
        } else {
            assert(b[t - a.len()]@ == s);
        }
    }
    assert forall|s: Seq<char>| name_set(a).union(name_set(b)).contains(s) implies name_set(a + b).contains(s) by {
        if name_set(a).contains(s) {
            let t = choose|t: int| 0 <= t < a.len() && a[t]@ == s;
            assert((a + b)[t] == a[t]);
        } else {
            let t = choose|t: int| 0 <= t < b.len() && b[t]@ == s;
            assert((a + b)[t + a.len()] == b[t]);
        }
    }
    assert(name_set(a + b) =~= name_set(a).union(name_set(b)));
}

/// An artifact with no entries, once retrieved, counts as scanned with no
/// match.
pub proof fn lemma_no_entries()
    ensures
        scans_union(Seq::<Result<Vec<String>, String>>::empty()) == Set::<Seq<char>>::empty(),
{
}

/// At least one artifact of the job was fetched and scanned.
pub open spec fn any_scanned(outcomes: Seq<Option<Set<Seq<char>>>>) -> bool {
    exists|i: int| 0 <= i < outcomes.len() && outcomes[i] is Some
}

/// The outcome of one distribution URL, as the set of rule names matched.
pub open spec fn outcome_view(o: Option<Vec<String>>) -> Option<Set<Seq<char>>> {
    match o {
        Some(v) => Some(name_set(v@)),
        None => None,
    }
}

/// When no distribution of a job could be retrieved, the run has matched no
/// rule and scanned nothing, so its result carries no score.
pub proof fn lemma_all_failed(outcomes: Seq<Option<Set<Seq<char>>>>)
    requires
        forall|i: int| 0 <= i < outcomes.len() ==> outcomes[i] is None,
    ensures
        union_of(outcomes) == Set::<Seq<char>>::empty(),
        !any_scanned(outcomes),
    decreases outcomes.len(),
{
    if outcomes.len() > 0 {
        let prev = outcomes.drop_last();
        assert forall|i: int| 0 <= i < prev.len() implies prev[i] is None by {
            assert(prev[i] == outcomes[i]);
        }
        lemma_all_failed(prev);
        assert(union_of(outcomes) =~= Set::<Seq<char>>::empty());
    }
}

/// When every distribution but the last fails and the last succeeds, the
/// matched rules are exactly those of the last artifact.
pub proof fn lemma_only_last_succeeds(outcomes: Seq<Option<Set<Seq<char>>>>)
    requires
        outcomes.len() > 0,
        forall|i: int| 0 <= i < outcomes.len() - 1 ==> outcomes[i] is None,
        outcomes.last() is Some,
    ensures
        union_of(outcomes) == outcomes.last()->Some_0,
        any_scanned(outcomes),
{
    let prev = outcomes.drop_last();
    assert forall|i: int| 0 <= i < prev.len() implies prev[i] is None by {
        assert(prev[i] == outcomes[i]);
    }
    lemma_all_failed(prev);
    assert(union_of(outcomes) =~= outcomes.last()->Some_0);
    assert(outcomes[outcomes.len() - 1] is Some);
}

/// What is accumulated while the artifacts of one job are retrieved and
/// scanned, one outcome per attempted distribution URL.
pub struct JobRun {
    pub name: String,
    pub version: String,
    pub matched: Vec<String>,
    pub scanned: bool,
    pub outcomes: Ghost<Seq<Option<Set<Seq<char>>>>>,
}

impl GetJobResponse {
    /// The job carried by the response; `None` when the coordinator has none.
    pub fn into_job(self) -> (r: Option<Job>)
        ensures
            self is Job ==> r == Some(self->Job_0),
            self is Error ==> r is None,
    {
        match self {
            GetJobResponse::Job(job) => Some(job),
            GetJobResponse::Error { .. } => None,
        }
    }
}

impl JobRun {
    pub open spec fn wf(&self) -> bool {
        &&& distinct_names(self.matched@)
        &&& name_set(self.matched@) == union_of(self.outcomes@)
        &&& self.scanned == any_scanned(self.outcomes@)
    }

    /// A run for `job` before any artifact has been attempted.
    pub fn new(job: &Job) -> (r: JobRun)
        ensures
            r.wf(),
            r.name == job.name,
            r.version == job.version,
            r.outcomes@ == Seq::<Option<Set<Seq<char>>>>::empty(),
    {
        let r = JobRun {
            name: job.name.clone(),
            version: job.version.clone(),
            matched: Vec::new(),
            scanned: false,
            outcomes: Ghost(Seq::empty()),
        };
        assert(name_set(r.matched@) =~= Set::empty());
        r
    }

    /// Records the outcome of one distribution URL: the rule names matched in
    /// its artifact, or `None` when the artifact could not be retrieved.
    pub fn record_artifact(&mut self, outcome: Option<Vec<String>>)
        requires
            old(self).wf(),
        ensures
            final(self).wf(),
            final(self).name == old(self).name,
            final(self).version == old(self).version,
            final(self).outcomes@ == old(self).outcomes@.push(outcome_view(outcome)),
    {
        let ghost prev = self.outcomes@;
        let ghost entry = outcome_view(outcome);
        self.outcomes = Ghost(prev.push(entry));
        assert(self.outcomes@.drop_last() =~= prev);
        match outcome {
            None => {
                assert(union_of(self.outcomes@) =~= union_of(prev));
                assert(any_scanned(self.outcomes@) == any_scanned(prev)) by {
                    if any_scanned(prev) {
                        let i = choose|i: int| 0 <= i < prev.len() && prev[i] is Some;
                        assert(self.outcomes@[i] is Some);
                    }
                }
            },
            Some(names) => {
                let ghost start = self.matched@;
                let ghost s0 = *self;
                assert(entry == Some(name_set(names@)));
                let n = names.len();
                let mut k: usize = 0;
                while k < n
                    invariant
                        n == names@.len(),
                        k <= n,
                        self.outcomes == s0.outcomes,
                        self.name == s0.name,
                        self.version == s0.version,
                        self.scanned == s0.scanned,
                        distinct_names(self.matched@),
                        name_set(self.matched@) == name_set(start).union(
                            name_set(names@.take(k as int)),
                        ),
                    decreases n - k,
                {
                    let ghost before = self.matched@;
                    let candidate = &names[k];
                    let mut present = false;
                    let m = self.matched.len();
                    let mut j: usize = 0;
                    while j < m
                        invariant
                            m == self.matched@.len(),
                            j <= m,
                            present <==> exists|t: int| 0 <= t < j && self.matched@[t]@ == candidate@,
                        decreases m - j,
                    {
                        if self.matched[j] == *candidate {
                            present = true;
                        }
                        j = j + 1;
                    }
                    if !present {
                        self.matched.push(candidate.clone());
                        assert(self.matched@.drop_last() == before);
                        assert(name_set(self.matched@) =~= name_set(before).insert(candidate@)) by {
                            assert(self.matched@[before.len() as int] == *candidate);
                            assert forall|s: Seq<char>| name_set(before).contains(s) implies name_set(self.matched@).contains(s) by {
                                let t = choose|t: int| 0 <= t < before.len() && before[t]@ == s;
                                assert(self.matched@[t] == before[t]);
                            }
                        }
                    } else {
                        assert(name_set(before).contains(candidate@));
                    }
                    assert(names@.take(k + 1) =~= names@.take(k as int).push(names@[k as int]));
                    assert(name_set(names@.take(k + 1)) =~= name_set(names@.take(k as int)).insert(candidate@)) by {
                        let tk = names@.take(k as int);
                        let tk1 = names@.take(k + 1);
                        assert forall|s: Seq<char>| name_set(tk1).contains(s) implies name_set(tk).insert(candidate@).contains(s) by {
                            let t = choose|t: int| 0 <= t < tk1.len() && tk1[t]@ == s;
                            if t < k {
                                assert(tk[t] == tk1[t]);
                            }
                        }
                        assert forall|s: Seq<char>| name_set(tk).contains(s) implies name_set(tk1).contains(s) by {
                            let t = choose|t: int| 0 <= t < tk.len() && tk[t]@ == s;
                            assert(tk[t] == tk1[t]);
                        }
                        assert(tk1[k as int] == names@[k as int]);
                    }
                    assert(name_set(self.matched@) =~= name_set(start).union(
                        name_set(names@.take(k + 1)),
                    ));
                    k = k + 1;
                }
                assert(names@.take(n as int) =~= names@);
                assert(union_of(self.outcomes@) =~= union_of(prev).union(name_set(names@)));
                assert(name_set(self.matched@) =~= union_of(self.outcomes@));
                self.scanned = true;
                assert(self.outcomes@[prev.len() as int] is Some);
            },
        }
    }

    /// Records a retrieved artifact from the scan results of its entries:
    /// the names matched by the entries whose scan succeeded.
    pub fn record_scans(&mut self, results: Vec<Result<Vec<String>, String>>)
        requires
            old(self).wf(),
        ensures
            final(self).wf(),
            final(self).name == old(self).name,
            final(self).version == old(self).version,
            final(self).outcomes@ == old(self).outcomes@.push(Some(scans_union(results@))),
    {
        let ghost all = results@;
        let mut rest = results;
        let mut names: Vec<String> = Vec::new();
        while rest.len() > 0
            invariant
                name_set(names@).union(scans_union(rest@)) == scans_union(all),
            decreases rest@.len(),
        {
            let ghost before = rest@;
            let ghost names0 = names@;
            let last = rest.pop();
            assert(rest@ == before.drop_last());
            match last {
                Some(Ok(found)) => {
                    let mut f = found;
                    proof {
                        lemma_name_set_concat(names0, f@);
                    }
                    names.append(&mut f);
                },
                _ => {},
            }
            assert(name_set(names@).union(scans_union(rest@)) =~= scans_union(all));
        }
        assert(name_set(names@) =~= scans_union(all));
        self.record_artifact(Some(names));
    }

    /// Scans every entry of a retrieved artifact against `rules` and records
    /// the artifact as scanned, with the names of all rules that matched in
    /// any entry whose scan succeeded.
    pub fn scan_artifact<E: RuleEngine>(&mut self, engine: &E, rules: &E::Rules, entries: &Vec<Vec<u8>>)
        requires
            old(self).wf(),
        ensures
            final(self).wf(),
            final(self).name == old(self).name,
            final(self).version == old(self).version,
            exists|found: Seq<Result<Vec<String>, String>>|
                #![auto]
                found.len() == entries@.len() && final(self).outcomes@ == old(self).outcomes@.push(
                    Some(scans_union(found)),
                ),
    {
        let mut results: Vec<Result<Vec<String>, String>> = Vec::new();
        let mut i: usize = 0;
        while i < entries.len()
            invariant
                i <= entries@.len(),
                results@.len() == i,
            decreases entries@.len() - i,
        {
            results.push(engine.scan(rules, entries[i].as_slice()));
            i = i + 1;
        }
        let ghost found = results@;
        self.record_scans(results);
        assert(found.len() == entries@.len() && self.outcomes@ == old(self).outcomes@.push(
            Some(scans_union(found)),
        ));
    }

    /// The result to submit for the job: the union of the matched rule names,
    /// with `score` and `inspector_url` kept only when some artifact was
    /// scanned.
    pub fn finish(self, score: Option<i64>, inspector_url: Option<String>) -> (r: SubmitJobResultsBody)
        requires
            self.wf(),
        ensures
            r.name == self.name,
            r.version == self.version,
            distinct_names(r.rules_matched@),
            name_set(r.rules_matched@) == union_of(self.outcomes@),
            r.score == (if any_scanned(self.outcomes@) { score } else { None }),
            r.inspector_url == (if any_scanned(self.outcomes@) { inspector_url } else { None }),
    {
        if self.scanned {
            SubmitJobResultsBody {
                name: self.name,
                version: self.version,
                score,
                inspector_url,
                rules_matched: self.matched,
            }
        } else {
            SubmitJobResultsBody {
                name: self.name,
                version: self.version,
                score: None,
                inspector_url: None,
                rules_matched: self.matched,
            }
        }
    }
}

} // verus!

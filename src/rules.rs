use vstd::prelude::*;
use vstd::string::StringExecFns;
use vstd::string::StringSliceAdditionalSpecFns;

use crate::error::DragonflyError;

verus! {

/// The rule bundle served by the coordinator: its hash and its
/// `(rule id, rule text)` pairs.
pub struct GetRulesResponse {
    pub hash: String,
    pub rules: Vec<(String, String)>,
}

/// The rule texts of `rules`, in order, separated by single newlines.
pub open spec fn joined_rules(rules: Seq<(String, String)>) -> Seq<char>
    decreases rules.len(),
{
    if rules.len() == 0 {
        Seq::empty()
    } else if rules.len() == 1 {
        rules[0].1@
    } else {
        joined_rules(rules.drop_last()) + seq!['\n'] + rules.last().1@
    }
}

/// The pattern-matching capability: compiles rule text into a rule set and
/// scans bytes against a rule set, reporting the identifiers of the rules
/// that matched.
pub trait RuleEngine {
    type Rules;

    /// The texts that the engine turns down before compiling; none by default.
    open spec fn refuses(&self, text: Seq<u8>) -> bool {
        false
    }

    /// The rule text that a rule set was compiled from. The default knows
    /// nothing of it, so an engine whose `compile` is verified states its own.
    open spec fn source_of(rules: &Self::Rules) -> Seq<char> {
        arbitrary()
    }

    fn compile(&self, text: &str) -> (r: Result<Self::Rules, String>)
        ensures
            self.refuses(text.spec_bytes()) ==> r is Err,
            r is Ok ==> Self::source_of(&r->Ok_0) == text@,
    ;

    fn scan(&self, rules: &Self::Rules, data: &[u8]) -> Result<Vec<String>, String>;
}

/// The active rule set together with the hash of the bundle it was built from.
pub struct State<R> {
    pub rules: R,
    pub hash: String,
}

/// The state after a sync attempt whose compilation gave `compiled`: the
/// bundle's hash and rule set together on success, the old state otherwise.
pub open spec fn after_sync<R>(s: State<R>, hash: String, compiled: Result<R, String>) -> State<R> {
    match compiled {
        Ok(r) => State { rules: r, hash },
        Err(_) => s,
    }
}

/// The state after a series of sync attempts, each given as the bundle's
/// hash and the outcome of compiling that bundle.
pub open spec fn replay<R>(s: State<R>, attempts: Seq<(String, Result<R, String>)>) -> State<R>
    decreases attempts.len(),
{
    if attempts.len() == 0 {
        s
    } else {
        after_sync(replay(s, attempts.drop_last()), attempts.last().0, attempts.last().1)
    }
}

/// A sync attempt either installs the bundle's hash together with the rule
/// set compiled from it, or, when compilation fails, changes nothing.
pub proof fn lemma_sync_all_or_nothing<R>(s: State<R>, hash: String, compiled: Result<R, String>)
    ensures
        compiled is Ok ==> after_sync(s, hash, compiled) == (State { rules: compiled->Ok_0, hash }),
        compiled is Err ==> after_sync(s, hash, compiled) == s,
{
}

/// After any series of sync attempts, the hash and the rule set come from
/// the same place: both from the starting state, or both from one single
/// successful attempt.
pub proof fn lemma_hash_matches_rules<R>(s: State<R>, attempts: Seq<(String, Result<R, String>)>)
    ensures
        replay(s, attempts) == s || exists|i: int|
            0 <= i < attempts.len() && attempts[i].1 is Ok && replay(s, attempts).hash
                == attempts[i].0 && replay(s, attempts).rules == attempts[i].1->Ok_0,
    decreases attempts.len(),
{
    if attempts.len() > 0 {
        let prev = attempts.drop_last();
        lemma_hash_matches_rules(s, prev);
        let last = attempts.len() - 1;
        if attempts.last().1 is Ok {
            assert(attempts[last].1 is Ok);
        } else if replay(s, prev) != s {
            let i = choose|i: int|
                0 <= i < prev.len() && prev[i].1 is Ok && replay(s, prev).hash == prev[i].0
                    && replay(s, prev).rules == prev[i].1->Ok_0;
            assert(attempts[i] == prev[i]);
        }
    }
}

impl GetRulesResponse {
    /// The text handed to the rule compiler: all rule texts joined by newlines.
    pub fn rules_text(&self) -> (r: String)
        ensures
            r@ == joined_rules(self.rules@),
    {
        let mut out = String::new();
        let n = self.rules.len();
        let mut i: usize = 0;
        while i < n
            invariant
                n == self.rules@.len(),
                i <= n,
                out@ == joined_rules(self.rules@.take(i as int)),
            decreases n - i,
        {
            proof {
                assert(self.rules@.take(i + 1).drop_last() =~= self.rules@.take(i as int));
                reveal_strlit("\n");
            }
            if i > 0 {
                out.append("\n");
            }
            out.append(self.rules[i].1.as_str());
            i = i + 1;
        }
        assert(self.rules@.take(n as int) =~= self.rules@);
        out
    }
}

impl<R> State<R> {
    pub fn new(rules: R, hash: String) -> (r: Self)
        ensures
            r.rules == rules,
            r.hash == hash,
    {
        Self { rules, hash }
    }

    pub fn set_hash(&mut self, hash: String)
        ensures
            final(self).hash == hash,
            final(self).rules == old(self).rules,
    {
        self.hash = hash;
    }

    pub fn set_rules(&mut self, rules: R)
        ensures
            final(self).rules == rules,
            final(self).hash == old(self).hash,
    {
        self.rules = rules;
    }

    /// Installs the outcome of compiling the bundle with the given hash:
    /// on success hash and rule set are replaced together, on failure
    /// neither is touched and the compiler's detail is returned.
    pub fn apply_compiled(&mut self, hash: String, compiled: Result<R, String>) -> (r: Result<
        (),
        DragonflyError,
    >)
        ensures
            *final(self) == after_sync(*old(self), hash, compiled),
            r is Ok <==> compiled is Ok,
            compiled is Err ==> r == Err::<(), DragonflyError>(
                DragonflyError::RuleCompilation(compiled->Err_0),
            ),
    {
        match compiled {
            Ok(rules) => {
                self.rules = rules;
                self.hash = hash;
                Ok(())
            },
            Err(detail) => Err(DragonflyError::RuleCompilation(detail)),
        }
    }
}

/// The first state built from a bundle with the given hash whose
/// compilation gave `compiled`, or the compiler's refusal.
pub open spec fn installed<R>(hash: String, compiled: Result<R, String>) -> Result<State<R>, DragonflyError> {
    match compiled {
        Ok(r) => Ok(State { rules: r, hash }),
        Err(detail) => Err(DragonflyError::RuleCompilation(detail)),
    }
}

/// The first state from the outcome of compiling the bundle with the given
/// hash: the compiled rule set with that hash, or the compiler's detail.
pub fn state_from_compiled<R>(hash: String, compiled: Result<R, String>) -> (r: Result<State<R>, DragonflyError>)
    ensures
        r == installed(hash, compiled),
{
    match compiled {
        Ok(rules) => Ok(State::new(rules, hash)),
        Err(detail) => Err(DragonflyError::RuleCompilation(detail)),
    }
}

/// Builds the first state from a bundle: compiles its joined rule text.
pub fn initial_state<E: RuleEngine>(engine: &E, bundle: GetRulesResponse) -> (r: Result<
    State<E::Rules>,
    DragonflyError,
>)
    ensures
        exists|c: Result<E::Rules, String>| #![auto] r == installed(bundle.hash, c),
        r is Ok ==> E::source_of(&r->Ok_0.rules) == joined_rules(bundle.rules@),
        r is Ok ==> r->Ok_0.hash == bundle.hash,
        r is Err ==> r->Err_0 is RuleCompilation,
{
    let text = bundle.rules_text();
    let compiled = engine.compile(text.as_str());
    let ghost c = compiled;
    let r = state_from_compiled(bundle.hash, compiled);
    assert(r == installed(bundle.hash, c));
    r
}

impl<R> State<R> {
    /// Brings the state to the bundle: compiles the bundle's joined rule
    /// text with `engine` and installs it together with the bundle's hash,
    /// or leaves the state as it was when compilation fails.
    pub fn sync_rules<E: RuleEngine<Rules = R>>(&mut self, engine: &E, bundle: GetRulesResponse) -> (r:
        Result<(), DragonflyError>)
        ensures
            exists|c: Result<R, String>|
                #![auto]
                *final(self) == after_sync(*old(self), bundle.hash, c) && (r is Ok <==> c is Ok),
            r is Ok ==> final(self).hash == bundle.hash,
            r is Ok ==> E::source_of(&final(self).rules) == joined_rules(bundle.rules@),
            r is Err ==> *final(self) == *old(self) && r->Err_0 is RuleCompilation,
    {
        let text = bundle.rules_text();
        let compiled = engine.compile(text.as_str());
        let ghost c = compiled;
        let r = self.apply_compiled(bundle.hash, compiled);
        assert(*self == after_sync(*old(self), bundle.hash, c) && (r is Ok <==> c is Ok));
        r
    }
}

} // verus!

//! The expert taxonomy: the common trait, the failure type and the
//! registry that holds one expert per specialization.

use vstd::prelude::*;
use vstd::pervasive::VecAdditionalExecFns;
use vstd::string::StringExecFns;
use crate::orchestration::agent::AgentExpert;
use crate::orchestration::analyst::AnalystExpert;
use crate::orchestration::artist::ArtistExpert;
use crate::orchestration::producer::ProducerExpert;
use crate::orchestration::scribe::ScribeExpert;
use crate::orchestration::types::ExpertType;

verus! {

/// Why an expert could not process content.
#[derive(Debug)]
pub enum ExpertError {
    ProcessingError(String),
    IoError(String),
    NetworkError(String),
    ConfigError(String),
}

/// The label of an expert error class.
pub open spec fn spec_expert_error_label(e: &ExpertError) -> Seq<char> {
    match e {
        ExpertError::ProcessingError(_) => "Processing error: "@,
        ExpertError::IoError(_) => "IO error: "@,
        ExpertError::NetworkError(_) => "Network error: "@,
        ExpertError::ConfigError(_) => "Configuration error: "@,
    }
}

/// The detail of an expert error.
pub open spec fn spec_expert_error_detail(e: &ExpertError) -> Seq<char> {
    match e {
        ExpertError::ProcessingError(d) => d@,
        ExpertError::IoError(d) => d@,
        ExpertError::NetworkError(d) => d@,
        ExpertError::ConfigError(d) => d@,
    }
}

impl ExpertError {
    /// A human-readable rendering: the class label, then the detail.
    pub fn message(&self) -> (r: String)
        ensures
            r@ == spec_expert_error_label(self) + spec_expert_error_detail(self),
    {
        let mut out = String::new();
        match self {
            ExpertError::ProcessingError(d) => {
                out.append("Processing error: ");
                out.append(d.as_str());
            },
            ExpertError::IoError(d) => {
                out.append("IO error: ");
                out.append(d.as_str());
            },
            ExpertError::NetworkError(d) => {
                out.append("Network error: ");
                out.append(d.as_str());
            },
            ExpertError::ConfigError(d) => {
                out.append("Configuration error: ");
                out.append(d.as_str());
            },
        }
        out
    }
}

/// What every expert answers about itself.  Processing is an inherent
/// method of each expert: the computation stands here, while the
/// asynchronous dispatch around it and any file output belong to the
/// embedding application.
pub trait Expert {
    /// The specialization of this expert.
    fn expert_type(&self) -> ExpertType;

    /// A one-line capabilities description.
    fn capabilities(&self) -> &'static str;
}

/// One registered expert of any specialization.
pub enum RegisteredExpert {
    Producer(ProducerExpert),
    Artist(ArtistExpert),
    Scribe(ScribeExpert),
    Agent(AgentExpert),
    Analyst(AnalystExpert),
}

/// The specialization a registered expert fills.
pub open spec fn spec_registered_type(e: &RegisteredExpert) -> ExpertType {
    match e {
        RegisteredExpert::Producer(_) => ExpertType::Producer,
        RegisteredExpert::Artist(_) => ExpertType::Artist,
        RegisteredExpert::Scribe(_) => ExpertType::Scribe,
        RegisteredExpert::Agent(_) => ExpertType::Agent,
        RegisteredExpert::Analyst(_) => ExpertType::Analyst,
    }
}

impl RegisteredExpert {
    pub fn expert_type(&self) -> (r: ExpertType)
        ensures
            r == spec_registered_type(self),
    {
        match self {
            RegisteredExpert::Producer(_) => ExpertType::Producer,
            RegisteredExpert::Artist(_) => ExpertType::Artist,
            RegisteredExpert::Scribe(_) => ExpertType::Scribe,
            RegisteredExpert::Agent(_) => ExpertType::Agent,
            RegisteredExpert::Analyst(_) => ExpertType::Analyst,
        }
    }
}

/// First index in `s` filling `t`, or `-1`.
pub open spec fn spec_index_of(s: Seq<RegisteredExpert>, t: ExpertType) -> int
    decreases s.len(),
{
    if s.len() == 0 {
        -1
    } else if spec_registered_type(&s[0]) == t {
        0
    } else {
        let rest = spec_index_of(s.drop_first(), t);
        if rest == -1 {
            -1
        } else {
            rest + 1
        }
    }
}

/// Whether some registered expert fills `t`.
pub open spec fn spec_contains(s: Seq<RegisteredExpert>, t: ExpertType) -> bool {
    spec_index_of(s, t) != -1
}

proof fn lemma_index_of(s: Seq<RegisteredExpert>, t: ExpertType)
    ensures
        spec_index_of(s, t) == -1 ==> forall|j: int|
            0 <= j < s.len() ==> spec_registered_type(&s[j]) != t,
        spec_index_of(s, t) != -1 ==> 0 <= spec_index_of(s, t) < s.len() && spec_registered_type(
            &s[spec_index_of(s, t)],
        ) == t,
    decreases s.len(),
{
    if s.len() > 0 {
        lemma_index_of(s.drop_first(), t);
        if spec_index_of(s, t) == -1 {
            assert forall|j: int| 0 <= j < s.len() implies spec_registered_type(&s[j]) != t by {
                if j > 0 {
                    assert(s.drop_first()[j - 1] == s[j]);
                }
            }
        }
    }
}

proof fn lemma_index_of_first(s: Seq<RegisteredExpert>, t: ExpertType, i: int)
    requires
        0 <= i < s.len(),
        spec_registered_type(&s[i]) == t,
        forall|j: int| 0 <= j < i ==> spec_registered_type(&s[j]) != t,
    ensures
        spec_index_of(s, t) == i,
    decreases s.len(),
{
    if i > 0 {
        assert(forall|j: int|
            0 <= j < s.drop_first().len() ==> #[trigger] s.drop_first()[j] == s[j + 1]);
        lemma_index_of_first(s.drop_first(), t, i - 1);
    }
}

/// The registry: at most one expert per specialization.
pub struct ExpertRegistry {
    experts: Vec<RegisteredExpert>,
}

impl ExpertRegistry {
    pub closed spec fn view(&self) -> Seq<RegisteredExpert> {
        self.experts@
    }

    /// Specializations are pairwise distinct.
    pub open spec fn wf(&self) -> bool {
        forall|i: int, j: int|
            0 <= i < j < self@.len() ==> spec_registered_type(&self@[i]) != spec_registered_type(
                &self@[j],
            )
    }

    /// A registry with the default expert of every specialization.
    pub fn new() -> (r: Self)
        ensures
            r.wf(),
            r@.len() == 5,
            spec_contains(r@, ExpertType::Producer),
            spec_contains(r@, ExpertType::Artist),
            spec_contains(r@, ExpertType::Scribe),
            spec_contains(r@, ExpertType::Agent),
            spec_contains(r@, ExpertType::Analyst),
    {
        let mut registry = ExpertRegistry { experts: Vec::new() };
        registry.register(RegisteredExpert::Producer(ProducerExpert::new()));
        registry.register(RegisteredExpert::Artist(ArtistExpert::new()));
        registry.register(RegisteredExpert::Scribe(ScribeExpert::new()));
        registry.register(RegisteredExpert::Agent(AgentExpert::new()));
        registry.register(RegisteredExpert::Analyst(AnalystExpert::new()));
        registry
    }

    /// Find the index of the expert filling `t`, if any.
    fn index_of_type(&self, t: ExpertType) -> (r: Option<usize>)
        ensures
            r is Some ==> r->0 == spec_index_of(self@, t) && r->0 < self@.len()
                && spec_registered_type(&self@[r->0 as int]) == t,
            r is None ==> spec_index_of(self@, t) == -1,
    {
        let n = self.experts.len();
        let mut i: usize = 0;
        while i < n
            invariant
                n == self@.len(),
                0 <= i <= n,
                forall|j: int| 0 <= j < i ==> spec_registered_type(&self@[j]) != t,
            decreases n - i,
        {
            let here = self.experts[i].expert_type();
            if here == t {
                proof {
                    lemma_index_of_first(self@, t, i as int);
                }
                return Some(i);
            }
            i += 1;
        }
        proof {
            lemma_index_of(self@, t);
            if spec_index_of(self@, t) != -1 {
                assert(false);
            }
        }
        None
    }

    /// Register an expert; one already filling the same specialization is
    /// replaced.
    pub fn register(&mut self, expert: RegisteredExpert)
        requires
            old(self).wf(),
        ensures
            final(self).wf(),
            spec_contains(final(self)@, spec_registered_type(&expert)),
            final(self)@[spec_index_of(final(self)@, spec_registered_type(&expert))] == expert,
            spec_contains(old(self)@, spec_registered_type(&expert)) ==> final(self)@.len() == old(
                self,
            )@.len(),
            !spec_contains(old(self)@, spec_registered_type(&expert)) ==> final(self)@.len() == old(
                self,
            )@.len() + 1,
            forall|t: ExpertType|
                t != spec_registered_type(&expert) ==> #[trigger] spec_contains(final(self)@, t)
                    == spec_contains(old(self)@, t),
    {
        let ghost before = self@;
        let ghost ty = spec_registered_type(&expert);
        let ghost ex = expert;
        let t = expert.expert_type();
        match self.index_of_type(t) {
            Some(i) => {
                self.experts.remove(i);
                self.experts.insert(i, expert);
                proof {
                    assert(self@ =~= before.update(i as int, ex));
                    assert(forall|j: int|
                        0 <= j < before.len() && j != i ==> before[j] == #[trigger] self@[j]);
                    assert(spec_registered_type(&self@[i as int]) == ty);
                    lemma_swap_keeps_types(before, self@, i as int);
                    assert(spec_index_of(self@, ty) == i);
                    assert forall|p: int, q: int|
                        0 <= p < q < self@.len() implies spec_registered_type(&self@[p])
                        != spec_registered_type(&self@[q]) by {
                        assert(spec_registered_type(&self@[p]) == spec_registered_type(&before[p]));
                        assert(spec_registered_type(&self@[q]) == spec_registered_type(&before[q]));
                    }
                    assert forall|t2: ExpertType|
                        t2 != ty implies #[trigger] spec_contains(self@, t2) == spec_contains(
                        before,
                        t2,
                    ) by {
                        assert(spec_index_of(self@, t2) == spec_index_of(before, t2));
                    }
                }
            },
            None => {
                proof {
                    lemma_index_of(before, ty);
                }
                self.experts.push(expert);
                proof {
                    assert(self@ == before.push(ex));
                    assert(self@[before.len() as int] == ex);
                    assert(forall|j: int|
                        0 <= j < before.len() ==> before[j] == #[trigger] self@[j]);
                    lemma_index_of_first(self@, ty, before.len() as int);
                    assert forall|p: int, q: int|
                        0 <= p < q < self@.len() implies spec_registered_type(&self@[p])
                        != spec_registered_type(&self@[q]) by {
                        if q < before.len() {
                            assert(spec_registered_type(&before[p]) != spec_registered_type(
                                &before[q],
                            ));
                        } else {
                            assert(spec_registered_type(&self@[q]) == ty);
                            assert(spec_registered_type(&before[p]) != ty);
                        }
                    }
                    assert forall|t2: ExpertType|
                        t2 != ty implies #[trigger] spec_contains(self@, t2) == spec_contains(
                        before,
                        t2,
                    ) by {
                        lemma_push_keeps_index(before, ex, t2);
                    }
                }
            },
        }
    }

    /// The registered expert filling `expert_type`, if any.
    pub fn get(&self, expert_type: ExpertType) -> (r: Option<&RegisteredExpert>)
        ensures
            r is Some <==> spec_contains(self@, expert_type),
            r is Some ==> *r->0 == self@[spec_index_of(self@, expert_type)]
                && spec_registered_type(r->0) == expert_type,
    {
        match self.index_of_type(expert_type) {
            Some(i) => Some(&self.experts[i]),
            None => None,
        }
    }
}

/// Replacing an entry with one of the same specialization keeps every
/// position's specialization.
proof fn lemma_swap_keeps_types(a: Seq<RegisteredExpert>, b: Seq<RegisteredExpert>, i: int)
    requires
        0 <= i < a.len(),
        b.len() == a.len(),
        forall|j: int| 0 <= j < a.len() && j != i ==> a[j] == b[j],
        spec_registered_type(&a[i]) == spec_registered_type(&b[i]),
    ensures
        forall|t: ExpertType| spec_index_of(a, t) == #[trigger] spec_index_of(b, t),
    decreases a.len(),
{
    assert forall|t: ExpertType| spec_index_of(a, t) == #[trigger] spec_index_of(b, t) by {
        lemma_same_types_same_index(a, b, t);
    }
}

/// Sequences with the same specialization at every position have the
/// same first index for every specialization.
proof fn lemma_same_types_same_index(
    a: Seq<RegisteredExpert>,
    b: Seq<RegisteredExpert>,
    t: ExpertType,
)
    requires
        a.len() == b.len(),
        forall|j: int|
            0 <= j < a.len() ==> spec_registered_type(&a[j]) == spec_registered_type(&b[j]),
    ensures
        spec_index_of(a, t) == spec_index_of(b, t),
    decreases a.len(),
{
    if a.len() > 0 {
        assert(forall|j: int|
            0 <= j < a.drop_first().len() ==> #[trigger] a.drop_first()[j] == a[j + 1]);
        assert(forall|j: int|
            0 <= j < b.drop_first().len() ==> #[trigger] b.drop_first()[j] == b[j + 1]);
        lemma_same_types_same_index(a.drop_first(), b.drop_first(), t);
    }
}

/// Appending an expert of another specialization does not move the
/// first index of any specialization it does not fill.
proof fn lemma_push_keeps_index(s: Seq<RegisteredExpert>, e: RegisteredExpert, t: ExpertType)
    requires
        t != spec_registered_type(&e),
    ensures
        spec_index_of(s.push(e), t) == spec_index_of(s, t),
    decreases s.len(),
{
    if s.len() == 0 {
        assert(s.push(e)[0] == e);
        assert(s.push(e).drop_first() =~= s);
    } else {
        assert(s.push(e)[0] == s[0]);
        assert(s.push(e).drop_first() =~= s.drop_first().push(e));
        lemma_push_keeps_index(s.drop_first(), e, t);
    }
}

} // verus!

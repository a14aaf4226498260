//! The stored records: agreements, claim markers and the coverage pool.
use vstd::prelude::*;
use crate::assoc::{assoc, unique_keys, has_unique_keys, find_key, lemma_assoc_some, lemma_assoc_at};
use crate::balance::GenericBalance;
use crate::msg::Env;

verus! {

/// An escrow agreement.
#[derive(Debug, Clone)]
pub struct Insurance {
    /// May set the recipient, approve, and refund at any time.
    pub arbiter: String,
    /// Where the funds go on approval.
    pub recipient: Option<String>,
    /// Who funded the agreement; where the funds go on refund.
    pub source: String,
    pub title: String,
    pub description: String,
    pub end_height: Option<u64>,
    pub end_time: Option<u64>,
    pub balance: GenericBalance,
    /// Token contracts accepted in top-ups.
    pub cw20_whitelist: Vec<String>,
}

impl Insurance {
    pub open spec fn spec_is_expired(&self, env: Env) -> bool {
        (self.end_height matches Some(h) && env.height >= h) || (self.end_time matches Some(t)
            && env.time >= t)
    }

    /// Expired once the height reaches `end_height` or the time reaches `end_time`.
    pub fn is_expired(&self, env: &Env) -> (r: bool)
        ensures
            r == self.spec_is_expired(*env),
    {
        if let Some(h) = self.end_height {
            if env.height >= h {
                return true;
            }
        }
        if let Some(t) = self.end_time {
            if env.time >= t {
                return true;
            }
        }
        false
    }

    pub open spec fn whitelisted(&self, token: Seq<char>) -> bool {
        exists|i: int| 0 <= i < self.cw20_whitelist@.len() && self.cw20_whitelist@[i]@ == token
    }

    /// The accepted token addresses, as text.
    pub fn human_whitelist(&self) -> (r: Vec<String>)
        ensures
            r@ == self.cw20_whitelist@,
    {
        let mut r: Vec<String> = Vec::new();
        let mut i: usize = 0;
        while i < self.cw20_whitelist.len()
            invariant
                i <= self.cw20_whitelist@.len(),
                r@ == self.cw20_whitelist@.take(i as int),
            decreases self.cw20_whitelist@.len() - i,
        {
            r.push(self.cw20_whitelist[i].clone());
            i = i + 1;
            assert(r@ =~= self.cw20_whitelist@.take(i as int));
        }
        assert(r@ =~= self.cw20_whitelist@);
        r
    }
}

/// The state of a claim filed on an agreement.
#[derive(Debug, Clone, Copy, PartialEq, Eq, Structural)]
pub enum ClaimStatus {
    PendingApproval,
}

/// The shared pool that backs every agreement.
#[derive(Debug, Clone)]
pub struct CoveragePool {
    pub pool: GenericBalance,
}

/// Everything the escrow stores.
#[derive(Debug, Clone)]
pub struct State {
    /// The single arbiter of every agreement.
    pub arbiter: String,
    /// Absent until the first contribution.
    pub coverage_pool: Option<CoveragePool>,
    /// Agreements by id.
    pub insurances: Vec<(String, Insurance)>,
    /// Open claims by agreement id.
    pub claims: Vec<(String, ClaimStatus)>,
}

impl State {
    pub open spec fn wf(&self) -> bool {
        &&& (self.coverage_pool matches Some(cp) ==> cp.pool.wf())
        &&& unique_keys(self.insurances@)
        &&& unique_keys(self.claims@)
        &&& forall|k: Seq<char>| #[trigger] self.insurance(k) is Some ==> self.insurance(k)->Some_0.balance.wf()
        &&& forall|k: Seq<char>| #[trigger] self.claim(k) is Some ==> self.insurance(k) is Some
    }

    /// Whether the state is well-formed: keys are unique, and every claim
    /// belongs to a live agreement.
    pub fn is_well_formed(&self) -> (r: bool)
        ensures
            r == self.wf(),
    {
        match &self.coverage_pool {
            Some(cp) => {
                if !has_unique_keys(&cp.pool.cw20) {
                    return false;
                }
            },
            None => {},
        }
        if !has_unique_keys(&self.insurances) || !has_unique_keys(&self.claims) {
            return false;
        }
        let mut i: usize = 0;
        while i < self.insurances.len()
            invariant
                i <= self.insurances@.len(),
                unique_keys(self.insurances@),
                unique_keys(self.claims@),
                forall|j: int| 0 <= j < i ==> #[trigger] self.insurances@[j].1.balance.wf(),
            decreases self.insurances@.len() - i,
        {
            if !has_unique_keys(&self.insurances[i].1.balance.cw20) {
                proof {
                    lemma_assoc_at(self.insurances@, i as int);
                    assert(self.insurance(self.insurances@[i as int].0@) is Some);
                }
                return false;
            }
            i = i + 1;
        }
        let mut c: usize = 0;
        while c < self.claims.len()
            invariant
                c <= self.claims@.len(),
                unique_keys(self.insurances@),
                unique_keys(self.claims@),
                forall|j: int| 0 <= j < self.insurances@.len() ==> #[trigger] self.insurances@[j].1.balance.wf(),
                forall|j: int| 0 <= j < c ==> #[trigger] self.insurance(self.claims@[j].0@) is Some,
            decreases self.claims@.len() - c,
        {
            if find_key(&self.insurances, &self.claims[c].0).is_none() {
                proof {
                    lemma_assoc_at(self.claims@, c as int);
                    assert(self.claim(self.claims@[c as int].0@) is Some);
                }
                return false;
            }
            c = c + 1;
        }
        proof {
            assert forall|k: Seq<char>| #[trigger] self.insurance(k) is Some implies self.insurance(k)->Some_0.balance.wf() by {
                lemma_assoc_some(self.insurances@, k);
                let j = choose|j: int| 0 <= j < self.insurances@.len() && self.insurances@[j].0@ == k
                    && self.insurances@[j].1 == self.insurance(k)->Some_0;
                assert(self.insurances@[j].1.balance.wf());
            }
            assert forall|k: Seq<char>| #[trigger] self.claim(k) is Some implies self.insurance(k) is Some by {
                lemma_assoc_some(self.claims@, k);
                let j = choose|j: int| 0 <= j < self.claims@.len() && self.claims@[j].0@ == k
                    && self.claims@[j].1 == self.claim(k)->Some_0;
                assert(self.insurance(self.claims@[j].0@) is Some);
            }
        }
        true
    }

    /// The agreement stored under `id`.
    pub open spec fn insurance(&self, id: Seq<char>) -> Option<Insurance> {
        assoc(self.insurances@, id)
    }

    /// The claim open on `id`.
    pub open spec fn claim(&self, id: Seq<char>) -> Option<ClaimStatus> {
        assoc(self.claims@, id)
    }

    pub open spec fn pool(&self) -> Option<GenericBalance> {
        match self.coverage_pool {
            Some(cp) => Some(cp.pool),
            None => None,
        }
    }
}

/// Changing only the pool, to a well-formed one, keeps a state well-formed.
pub proof fn lemma_wf_pool_change(s1: State, s2: State)
    requires
        s1.wf(),
        s2.insurances == s1.insurances,
        s2.claims == s1.claims,
        s2.coverage_pool matches Some(cp) ==> cp.pool.wf(),
    ensures
        s2.wf(),
{
    assert forall|k: Seq<char>| #[trigger] s2.insurance(k) is Some implies s2.insurance(k)->Some_0.balance.wf() by {
        assert(s2.insurance(k) == s1.insurance(k));
    }
    assert forall|k: Seq<char>| #[trigger] s2.claim(k) is Some implies s2.insurance(k) is Some by {
        assert(s2.claim(k) == s1.claim(k));
        assert(s2.insurance(k) == s1.insurance(k));
    }
}

/// A state that differs from a well-formed one only under `id`, in a
/// well-formed way, is well-formed.
pub proof fn lemma_wf_frame(s1: State, s2: State, id: Seq<char>)
    requires
        s1.wf(),
        unique_keys(s2.insurances@),
        unique_keys(s2.claims@),
        s2.coverage_pool matches Some(cp) ==> cp.pool.wf(),
        forall|k: Seq<char>| k != id ==> #[trigger] s2.insurance(k) == s1.insurance(k),
        forall|k: Seq<char>| k != id ==> #[trigger] s2.claim(k) == s1.claim(k),
        s2.insurance(id) is Some ==> s2.insurance(id)->Some_0.balance.wf(),
        s2.claim(id) is Some ==> s2.insurance(id) is Some,
    ensures
        s2.wf(),
{
    assert forall|k: Seq<char>| #[trigger] s2.insurance(k) is Some implies s2.insurance(k)->Some_0.balance.wf() by {
        if k != id {
            assert(s2.insurance(k) == s1.insurance(k));
        }
    }
    assert forall|k: Seq<char>| #[trigger] s2.claim(k) is Some implies s2.insurance(k) is Some by {
        if k != id {
            assert(s2.claim(k) == s1.claim(k));
            assert(s2.insurance(k) == s1.insurance(k));
        }
    }
}

} // verus!

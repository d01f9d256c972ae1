use vstd::prelude::*;
use vstd::string::{StrSliceExecFns, StringExecFns};

use crate::errors::Error;

verus! {

/// A character a sub-account prefix may hold: lower-case letters, digits,
/// hyphen and underscore. The namespace separator `.` is never allowed, so a
/// prefix can only name a direct child.
pub open spec fn allowed_char(c: char) -> bool {
    ||| 'a' <= c && c <= 'z'
    ||| '0' <= c && c <= '9'
    ||| c == '-'
    ||| c == '_'
}

/// A valid prefix is non-empty and made of allowed characters only.
pub open spec fn valid_prefix(p: Seq<char>) -> bool {
    &&& p.len() > 0
    &&& forall|i: int| 0 <= i < p.len() ==> allowed_char(#[trigger] p[i])
}

/// One step of the composite provisioning operation, in the order the
/// platform must apply them.
pub enum DeploymentAction {
    /// Create the child account.
    CreateAccount,
    /// Install the given key on the child as a full-access credential.
    AddFullAccessKey(Vec<u8>),
    /// Move the attached deposit onto the child.
    TransferDeposit(u128),
    /// Install the contract code image on the child.
    DeployCode(Vec<u8>),
}

/// The composite operation the orchestrator hands to the platform: one
/// atomic unit — if any step fails, nothing of it persists. The orchestrator
/// never sees a half-created account.
pub struct DeploymentPlan {
    pub child_id: String,
    pub actions: Vec<DeploymentAction>,
}

/// The factory contract: the parent account identifier, captured once at
/// construction, and the versioned code image it installs on every child.
/// Both are immutable afterwards.
pub struct TokenFactory {
    pub main_account_id: String,
    pub code: Vec<u8>,
}

/// An element-wise copy of a byte image.
fn copy_bytes(v: &Vec<u8>) -> (r: Vec<u8>)
    ensures
        r@ == v@,
{
    let mut r: Vec<u8> = Vec::new();
    let n = v.len();
    let mut i: usize = 0;
    while i < n
        invariant
            n == v@.len(),
            i <= n,
            r@ == v@.subrange(0, i as int),
        decreases n - i,
    {
        r.push(v[i]);
        proof {
            assert(r@ =~= v@.subrange(0, i + 1));
        }
        i = i + 1;
    }
    proof {
        assert(r@ =~= v@);
    }
    r
}

/// Whether `c` may appear in a sub-account prefix.
fn is_allowed_char(c: char) -> (r: bool)
    ensures
        r == allowed_char(c),
{
    (c >= 'a' && c <= 'z') || (c >= '0' && c <= '9') || c == '-' || c == '_'
}

impl TokenFactory {
    /// Captures the parent account identifier and the code image the factory
    /// will install on every child it provisions.
    pub fn new(main_account_id: String, code: Vec<u8>) -> (f: TokenFactory)
        ensures
            f.main_account_id == main_account_id,
            f.code == code,
    {
        TokenFactory { main_account_id, code }
    }

    /// Whether `prefix` may name a child of the parent account.
    pub fn check_prefix(prefix: &String) -> (r: bool)
        ensures
            r == valid_prefix(prefix@),
    {
        let s = prefix.as_str();
        let n = s.unicode_len();
        if n == 0 {
            return false;
        }
        let mut i: usize = 0;
        while i < n
            invariant
                n == s@.len(),
                s@ == prefix@,
                i <= n,
                forall|j: int| 0 <= j < i ==> allowed_char(#[trigger] s@[j]),
            decreases n - i,
        {
            if !is_allowed_char(s.get_char(i)) {
                return false;
            }
            i = i + 1;
        }
        true
    }

    /// Builds the composite operation that provisions `prefix + "." +
    /// parent`: create the child account, install the caller's key as a
    /// full-access credential, move the attached deposit over, and install
    /// the code image — in that order, as one atomic unit. A prefix that is
    /// empty or holds a disallowed character is rejected with `InvalidPrefix`
    /// before anything is built. Whether the child already exists, or the
    /// deposit falls short of the platform's account-creation cost, only the
    /// platform can tell when it executes the plan: it then rejects the whole
    /// operation and nothing persists.
    pub fn deploy_child_token_contract(
        &self,
        prefix: &String,
        attached_deposit: u128,
        caller_public_key: Vec<u8>,
    ) -> (r: Result<DeploymentPlan, Error>)
        ensures
            !valid_prefix(prefix@) ==> r == Err::<DeploymentPlan, Error>(Error::InvalidPrefix),
            valid_prefix(prefix@) ==> (r matches Ok(plan) && plan.child_id@ == prefix@ + "."@
                + self.main_account_id@ && plan.actions@.len() == 4 && plan.actions@[0]
                == DeploymentAction::CreateAccount && plan.actions@[1]
                == DeploymentAction::AddFullAccessKey(caller_public_key) && plan.actions@[2]
                == DeploymentAction::TransferDeposit(attached_deposit) && (plan.actions@[3] matches
                DeploymentAction::DeployCode(c) && c@ == self.code@)),
    {
        if !Self::check_prefix(prefix) {
            return Err(Error::InvalidPrefix);
        }
        let mut child_id = prefix.clone();
        child_id.append(".");
        child_id.append(self.main_account_id.as_str());
        let code = copy_bytes(&self.code);
        let mut actions: Vec<DeploymentAction> = Vec::new();
        actions.push(DeploymentAction::CreateAccount);
        actions.push(DeploymentAction::AddFullAccessKey(caller_public_key));
        actions.push(DeploymentAction::TransferDeposit(attached_deposit));
        actions.push(DeploymentAction::DeployCode(code));
        Ok(DeploymentPlan { child_id, actions })
    }
}

} // verus!

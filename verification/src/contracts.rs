//! The registry client: the validated binding to one deployed registry
//! contract, event ingestion into locally indexed leaf assignments, and the
//! two state-changing operations.
//!
//! Chain reads and transaction broadcasts are the surrounding process's
//! work: each operation here takes the values such a read returned, decides,
//! and hands back either a result or the call to submit next.

use vstd::prelude::*;

use crate::field::{be_nat, field_order, FieldElement};

verus! {

/// A 20-byte account address, as the chain encodes it.
#[derive(Clone, Copy, Debug)]
pub struct Address {
    pub bytes: [u8; 20],
}

impl View for Address {
    type V = Seq<u8>;

    open spec fn view(&self) -> Seq<u8> {
        self.bytes@
    }
}

/// Configuration for the registry client: the contract address and the
/// mock flag (when set, write operations no-op and report success).
#[derive(Clone, Copy, Debug)]
pub struct Options {
    pub semaphore_address: Address,
    pub mock: bool,
}

/// An advisory anomaly noticed while connecting.  Logged by the caller,
/// never fatal: write-access enforcement happens on the contract side.
#[derive(Clone, Copy, Debug, PartialEq, Eq, Structural)]
pub enum Diagnostic {
    /// No contract code is deployed at the configured address.
    NoCodeAtAddress,
    /// The contract's recorded manager differs from the signer identity.
    SignerNotManager,
}

/// A precondition this client enforces was violated.  Distinct from
/// transport and submission failures, which the surrounding process
/// surfaces itself, so that callers can tell "create the group first"
/// apart from "retry the send".
#[derive(Clone, Copy, Debug, PartialEq, Eq, Structural)]
pub enum DomainError {
    /// The group has on-chain depth zero, i.e. it was never created.
    GroupNotCreated { group_id: usize },
    /// A logical tree depth of zero would underflow the on-chain depth.
    InvalidTreeDepth { tree_depth: usize },
}

/// One membership-change log entry as chain history carries it: the raw
/// 256-bit words of the accepted identity commitment and of the tree root
/// after its insertion, both big-endian.
#[derive(Clone, Copy, Debug)]
pub struct MemberAddedEvent {
    pub identity_commitment: [u8; 32],
    pub root: [u8; 32],
}

/// The arguments of a group-creation transaction, ready for submission.
#[derive(Clone, Copy, Debug, PartialEq, Eq)]
pub struct CreateGroupCall {
    pub group_id: usize,
    /// The on-chain depth: one less than the logical tree depth.
    pub depth: usize,
    /// The initial leaf value; always zero.
    pub initial_value: usize,
}

/// The arguments of an add-member transaction, ready for submission.
#[derive(Clone, Copy, Debug, PartialEq, Eq)]
pub struct AddMemberCall {
    pub group_id: usize,
    /// The commitment's canonical residue, big-endian.
    pub commitment: [u8; 32],
}

/// What `insert_identity` decided before any chain interaction.
#[derive(Clone, Copy, Debug, PartialEq, Eq, Structural)]
pub enum InsertIdentityStep {
    /// Mock mode: report success; no chain call of any kind follows.
    MockSuccess,
    /// Query the group's on-chain depth, then continue with
    /// `insert_identity_submit`.
    QueryDepth { group_id: usize },
}

/// The diagnostics that connecting must report: one entry when no code is
/// deployed at the address, one when the recorded manager is not the
/// signer, in that order and nothing else.
pub open spec fn connect_diagnostics(code_empty: bool, manager_is_signer: bool) -> Seq<Diagnostic> {
    let head = if code_empty { seq![Diagnostic::NoCodeAtAddress] } else { Seq::empty() };
    if manager_is_signer {
        head
    } else {
        head.push(Diagnostic::SignerNotManager)
    }
}

/// The validated binding to one deployed registry contract.  Created once,
/// never mutated.
pub struct Contracts {
    semaphore_address: Address,
    signer: Address,
    mock: bool,
}

/// Byte-wise equality of two addresses.
fn address_eq(a: &Address, b: &Address) -> (r: bool)
    ensures
        r <==> a@ == b@,
{
    let mut i: usize = 0;
    while i < 20
        invariant
            i <= 20,
            forall|j: int| 0 <= j < i ==> a.bytes@[j] == b.bytes@[j],
        decreases 20 - i,
    {
        if a.bytes[i] != b.bytes[i] {
            return false;
        }
        i += 1;
    }
    assert(a@ =~= b@);
    true
}

impl Contracts {
    /// The configured contract address.
    pub closed spec fn spec_address(&self) -> Seq<u8> {
        self.semaphore_address@
    }

    /// The connection's own signer identity (the would-be manager).
    pub closed spec fn spec_signer(&self) -> Seq<u8> {
        self.signer@
    }

    /// Whether the handle is in mock mode.
    pub closed spec fn spec_mock(&self) -> bool {
        self.mock
    }

    /// Binds to the registry contract at the configured address.  `code` is
    /// the bytecode the chain reports as deployed there, and `manager` the
    /// contract's recorded manager; the caller performs those two reads and
    /// surfaces any transport failure before this point.  Missing code and
    /// a manager other than the signer are advisory anomalies, reported as
    /// diagnostics and never as failures.
    pub fn new(options: &Options, signer: Address, code: &Vec<u8>, manager: Address) -> (r: (
        Contracts,
        Vec<Diagnostic>,
    ))
        ensures
            r.0.spec_address() == options.semaphore_address@,
            r.0.spec_signer() == signer@,
            r.0.spec_mock() == options.mock,
            r.1@ == connect_diagnostics(code.len() == 0, manager@ == signer@),
    {
        let mut diagnostics: Vec<Diagnostic> = Vec::new();
        if code.len() == 0 {
            diagnostics.push(Diagnostic::NoCodeAtAddress);
        }
        if !address_eq(&manager, &signer) {
            diagnostics.push(Diagnostic::SignerNotManager);
        }
        let handle = Contracts {
            semaphore_address: options.semaphore_address,
            signer,
            mock: options.mock,
        };
        proof {
            assert(diagnostics@ =~= connect_diagnostics(code.len() == 0, manager@ == signer@));
        }
        (handle, diagnostics)
    }

    /// Whether the given recorded manager (as a fresh chain read returned
    /// it) is this connection's signer.  Re-read on every call because the
    /// manager may rotate after connection.
    pub fn is_manager(&self, manager: Address) -> (r: bool)
        ensures
            r <==> manager@ == self.spec_signer(),
    {
        address_eq(&manager, &self.signer)
    }

    /// Converts a batch of membership-change events, already fetched in
    /// chain order from the starting block, into leaf assignments: the
    /// event's commitment and root decoded to field elements, and local
    /// indices assigned from `last_leaf` upward, strictly increasing, no
    /// gaps, no reordering.  An empty batch is a valid outcome.
    pub fn fetch_events(&self, events: &Vec<MemberAddedEvent>, last_leaf: usize) -> (r: Vec<
        (usize, FieldElement, FieldElement),
    >)
        requires
            last_leaf + events.len() <= usize::MAX,
        ensures
            r.len() == events.len(),
            forall|i: int|
                0 <= i < events.len() ==> {
                    &&& (#[trigger] r@[i]).0 == last_leaf + i
                    &&& r@[i].1@ == be_nat(events@[i].identity_commitment@) % field_order()
                    &&& r@[i].2@ == be_nat(events@[i].root@) % field_order()
                    &&& r@[i].1.wf()
                    &&& r@[i].2.wf()
                },
    {
        let mut insertions: Vec<(usize, FieldElement, FieldElement)> = Vec::new();
        let mut index: usize = last_leaf;
        let mut k: usize = 0;
        while k < events.len()
            invariant
                last_leaf + events.len() <= usize::MAX,
                k <= events.len(),
                index == last_leaf + k,
                insertions.len() == k,
                forall|i: int|
                    0 <= i < k ==> {
                        &&& (#[trigger] insertions@[i]).0 == last_leaf + i
                        &&& insertions@[i].1@ == be_nat(events@[i].identity_commitment@)
                            % field_order()
                        &&& insertions@[i].2@ == be_nat(events@[i].root@) % field_order()
                        &&& insertions@[i].1.wf()
                        &&& insertions@[i].2.wf()
                    },
            decreases events.len() - k,
        {
            let event = &events[k];
            let leaf = FieldElement::from_be_bytes(&event.identity_commitment);
            let root = FieldElement::from_be_bytes(&event.root);
            insertions.push((index, leaf, root));
            index += 1;
            k += 1;
        }
        insertions
    }

    /// Builds the group-creation call for the given logical tree depth.
    /// The on-chain depth is one less than the logical depth, because the
    /// on-chain representation's root already accounts for one level; a
    /// logical depth of zero would underflow and is rejected as a domain
    /// error before anything is submitted.  The caller submits the call
    /// and surfaces submission failures itself.
    pub fn create_group(&self, group_id: usize, tree_depth: usize) -> (r: Result<
        CreateGroupCall,
        DomainError,
    >)
        ensures
            tree_depth == 0 ==> r == Err::<CreateGroupCall, DomainError>(
                DomainError::InvalidTreeDepth { tree_depth },
            ),
            tree_depth >= 1 ==> r == Ok::<CreateGroupCall, DomainError>(
                (CreateGroupCall { group_id, depth: (tree_depth - 1) as usize, initial_value: 0 }),
            ),
    {
        if tree_depth == 0 {
            return Err(DomainError::InvalidTreeDepth { tree_depth });
        }
        let depth = tree_depth - 1;
        Ok(CreateGroupCall { group_id, depth, initial_value: 0 })
    }

    /// The first step of inserting an identity.  In mock mode it reports
    /// success immediately, before any validation: no chain call of any
    /// kind may follow.  Otherwise the caller must query the group's
    /// on-chain depth and continue with `insert_identity_submit`.  The
    /// `_tree_depth` and `nonce` parameters are accepted for interface
    /// symmetry with the caller's bookkeeping and do not alter the
    /// decision.
    pub fn insert_identity(
        &self,
        group_id: usize,
        commitment: &FieldElement,
        _tree_depth: usize,
        nonce: usize,
    ) -> (r: InsertIdentityStep)
        ensures
            self.spec_mock() ==> r == InsertIdentityStep::MockSuccess,
            !self.spec_mock() ==> r == (InsertIdentityStep::QueryDepth { group_id }),
    {
        if self.mock {
            InsertIdentityStep::MockSuccess
        } else {
            InsertIdentityStep::QueryDepth { group_id }
        }
    }

    /// The second step of inserting an identity, given the group's on-chain
    /// depth as the chain reported it.  Depth zero means the group was
    /// never created: a domain error, and no transaction is built.
    /// Otherwise the add-member call carries the commitment re-encoded as
    /// its big-endian 256-bit word.  The caller submits the call and
    /// surfaces submission failures itself.
    pub fn insert_identity_submit(
        &self,
        group_id: usize,
        commitment: &FieldElement,
        depth: usize,
    ) -> (r: Result<AddMemberCall, DomainError>)
        ensures
            depth == 0 ==> r == Err::<AddMemberCall, DomainError>(
                DomainError::GroupNotCreated { group_id },
            ),
            depth != 0 ==> {
                &&& r matches Ok(call)
                &&& call.group_id == group_id
                &&& be_nat(call.commitment@) == commitment@
            },
    {
        if depth == 0 {
            return Err(DomainError::GroupNotCreated { group_id });
        }
        let encoded = commitment.to_be_bytes();
        Ok(AddMemberCall { group_id, commitment: encoded })
    }
}

} // verus!


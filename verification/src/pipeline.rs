//! The issuance and retirement pipelines: fixed sequences of delegated
//! calls, made one at a time and abandoned at the first refusal.
//!
//! A pipeline decides; the host acts. The host performs the pending call,
//! hands the answer of the external program to `settle`, and asks again,
//! until the pipeline has an outcome:
//!
//! ```text
//! while let Some(call) = pipeline.pending() {
//!     pipeline.settle(perform(call));
//! }
//! pipeline.outcome()
//! ```
//!
//! A request whose pipeline fails is rolled back by the host as a whole.

use crate::address::Address;
use crate::authority::{authority_for, authority_signer_seeds, DelegatedAuthority};
use crate::calls::{
    create_master_edition_v3, create_metadata_accounts_v2, master_edition_call, metadata_call,
    BurnEdition, Call, CallView, CreateMasterEdition, DelegatedCall, DelegatedCallView,
};
use crate::descriptor::{external_shape, AnchorDataV2, AnchorDataV2View};
use crate::error::Error;
use crate::instruction::encodable;
use crate::metadata::DataV2;
use vstd::prelude::*;

verus! {

/// Where a pipeline stands: its calls in order, how many of them the
/// external programs have accepted, and the failure that ended it, if any.
pub struct PipelineView {
    pub plan: Seq<DelegatedCallView>,
    pub settled: nat,
    pub failure: Option<Error>,
}

impl PipelineView {
    /// The pipeline over `plan` before its first call.
    pub open spec fn start(plan: Seq<DelegatedCallView>) -> PipelineView {
        PipelineView { plan, settled: 0, failure: None }
    }

    /// The call to make next: the first one not yet accepted, unless the
    /// pipeline has failed or is complete.
    pub open spec fn pending(self) -> Option<DelegatedCallView> {
        if self.failure is None && self.settled < self.plan.len() {
            Some(self.plan[self.settled as int])
        } else {
            None
        }
    }

    /// The pipeline after the external program has answered the pending
    /// call: one call further where it accepted, failed with the failure of
    /// that call where it refused. A pipeline without a pending call stays
    /// as it is.
    pub open spec fn settle(self, outcome: Result<(), u64>) -> PipelineView {
        match self.pending() {
            None => self,
            Some(call) => match outcome {
                Ok(()) => PipelineView { settled: self.settled + 1, ..self },
                Err(code) => PipelineView { failure: Some(call.call.rejection(code)), ..self },
            },
        }
    }

    /// How the request ended: the failure if a call was refused, success if
    /// every call was accepted, nothing while a call is pending.
    pub open spec fn outcome(self) -> Option<Result<(), Error>> {
        match self.failure {
            Some(e) => Some(Err(e)),
            None => if self.settled >= self.plan.len() {
                Some(Ok(()))
            } else {
                None
            },
        }
    }

    /// The pipeline after the external programs have given the answers
    /// `outcomes`, one after the other.
    pub open spec fn run(self, outcomes: Seq<Result<(), u64>>) -> PipelineView
        decreases outcomes.len(),
    {
        if outcomes.len() == 0 {
            self
        } else {
            self.settle(outcomes[0]).run(outcomes.drop_first())
        }
    }
}

/// A sequence of delegated calls in progress.
#[derive(Debug)]
pub struct Pipeline {
    plan: Vec<DelegatedCall>,
    settled: usize,
    failure: Option<Error>,
}

impl View for Pipeline {
    type V = PipelineView;

    closed spec fn view(&self) -> PipelineView {
        PipelineView {
            plan: self.plan@.map_values(|call: DelegatedCall| call@),
            settled: self.settled as nat,
            failure: self.failure,
        }
    }
}

impl Pipeline {
    /// No more calls are accepted than the pipeline has.
    pub closed spec fn wf(&self) -> bool {
        self.settled <= self.plan@.len()
    }

    /// A valid pipeline has accepted no more calls than it has.
    pub proof fn lemma_wf_view(&self)
        requires
            self.wf(),
        ensures
            self@.settled <= self@.plan.len(),
    {
    }

    /// The pipeline over `plan` before its first call.
    pub fn new(plan: Vec<DelegatedCall>) -> (pipeline: Pipeline)
        ensures
            pipeline.wf(),
            pipeline@ == PipelineView::start(plan@.map_values(|call: DelegatedCall| call@)),
    {
        Pipeline { plan, settled: 0, failure: None }
    }

    /// The calls of the pipeline, in the order in which they are made.
    pub fn calls(&self) -> (calls: &Vec<DelegatedCall>)
        ensures
            calls@.map_values(|call: DelegatedCall| call@) == self@.plan,
    {
        &self.plan
    }

    /// How many calls the external programs have accepted.
    pub fn settled(&self) -> (settled: usize)
        ensures
            settled == self@.settled,
    {
        self.settled
    }

    /// The call to make next, if there is one.
    pub fn pending(&self) -> (pending: Option<&DelegatedCall>)
        requires
            self.wf(),
        ensures
            match pending {
                Some(call) => self@.pending() == Some(call@),
                None => self@.pending() is None,
            },
    {
        if self.failure.is_none() && self.settled < self.plan.len() {
            Some(&self.plan[self.settled])
        } else {
            None
        }
    }

    /// Takes the answer of the external program to the pending call.
    /// `Err` carries the code that the program gave with its refusal.
    pub fn settle(&mut self, outcome: Result<(), u64>)
        requires
            old(self).wf(),
        ensures
            final(self).wf(),
            final(self)@ == old(self)@.settle(outcome),
    {
        if self.failure.is_none() && self.settled < self.plan.len() {
            match outcome {
                Ok(()) => {
                    self.settled = self.settled + 1;
                },
                Err(code) => {
                    self.failure = Some(self.plan[self.settled].call.rejection(code));
                },
            }
        }
    }

    /// How the request ended, once no call is pending.
    pub fn outcome(&self) -> (outcome: Option<Result<(), Error>>)
        requires
            self.wf(),
        ensures
            outcome == self@.outcome(),
            outcome is None <==> self@.pending() is Some,
    {
        match self.failure {
            Some(e) => Some(Err(e)),
            None => if self.settled >= self.plan.len() {
                Some(Ok(()))
            } else {
                None
            },
        }
    }
}

/// The calls that issue an asset, in order: mint exactly one unit into the
/// holding account, create the metadata record with the delegated authority
/// as update authority, seal the unit as a master edition. The delegated
/// authority signs each of them with the tag and `bump`.
pub open spec fn issuance_plan(
    accounts: CreateMasterEdition,
    bump: u8,
    data: AnchorDataV2View,
    is_mutable: bool,
    max_supply: Option<u64>,
) -> Seq<DelegatedCallView> {
    seq![
        DelegatedCallView {
            call: CallView::MintTo {
                mint: accounts.mint,
                to: accounts.token_account,
                authority: accounts.authority,
                amount: 1,
            },
            signer_seeds: authority_signer_seeds(bump),
        },
        metadata_call(
            accounts,
            authority_signer_seeds(bump),
            false,
            is_mutable,
            external_shape(data),
        ),
        master_edition_call(accounts, authority_signer_seeds(bump), max_supply),
    ]
}

/// The calls that retire an asset, in order: burn exactly one unit out of
/// the holding account, then close the holding account and send its deposit
/// to the payer. The delegated authority signs both with the tag and `bump`.
pub open spec fn retirement_plan(accounts: BurnEdition, bump: u8) -> Seq<DelegatedCallView> {
    seq![
        DelegatedCallView {
            call: CallView::Burn {
                mint: accounts.mint,
                from: accounts.token_account,
                authority: accounts.authority,
                amount: 1,
            },
            signer_seeds: authority_signer_seeds(bump),
        },
        DelegatedCallView {
            call: CallView::CloseAccount {
                account: accounts.token_account,
                destination: accounts.payer,
                authority: accounts.authority,
            },
            signer_seeds: authority_signer_seeds(bump),
        },
    ]
}

/// Begins the issuance of an asset: one unit with the descriptor `data`,
/// sealed as a master edition with at most `max_supply` prints.
///
/// Fails with `NoViableBump` when the program has no delegated authority,
/// else with `AuthorityMismatch` when `accounts.authority` is not the
/// delegated authority. Otherwise the pipeline over the issuance plan is
/// returned, before its first call.
pub fn create_master_edition(
    program_id: &Address,
    accounts: &CreateMasterEdition,
    data: AnchorDataV2,
    is_mutable: bool,
    max_supply: Option<u64>,
) -> (started: Result<Pipeline, Error>)
    requires
        encodable(external_shape(data@)),
    ensures
        match started {
            Ok(pipeline) => {
                &&& pipeline.wf()
                &&& authority_for(program_id@, accounts.authority) matches Ok(authority)
                &&& pipeline@ == PipelineView::start(
                    issuance_plan(*accounts, authority.bump, data@, is_mutable, max_supply),
                )
            },
            Err(e) => authority_for(program_id@, accounts.authority) == Err::<
                DelegatedAuthority,
                Error,
            >(e),
        },
{
    let authority = match DelegatedAuthority::verify(program_id, &accounts.authority) {
        Ok(authority) => authority,
        Err(e) => {
            return Err(e);
        },
    };
    let mint = DelegatedCall {
        call: Call::MintTo {
            mint: accounts.mint,
            to: accounts.token_account,
            authority: accounts.authority,
            amount: 1,
        },
        signer_seeds: authority.signer_seeds(),
    };
    let metadata = create_metadata_accounts_v2(
        accounts,
        authority.signer_seeds(),
        false,
        is_mutable,
        DataV2::from(data),
    );
    let edition = create_master_edition_v3(accounts, authority.signer_seeds(), max_supply);
    let mut plan: Vec<DelegatedCall> = Vec::new();
    plan.push(mint);
    plan.push(metadata);
    plan.push(edition);
    assert(plan@.map_values(|call: DelegatedCall| call@) =~= issuance_plan(
        *accounts,
        authority.bump,
        data@,
        is_mutable,
        max_supply,
    ));
    Ok(Pipeline::new(plan))
}

/// Begins the retirement of an asset: the unit is burnt and its holding
/// account closed, with the deposit going to the payer.
///
/// Fails with `NoViableBump` when the program has no delegated authority,
/// else with `AuthorityMismatch` when `accounts.authority` is not the
/// delegated authority. Otherwise the pipeline over the retirement plan is
/// returned, before its first call.
pub fn burn_edition(program_id: &Address, accounts: &BurnEdition) -> (started: Result<
    Pipeline,
    Error,
>)
    ensures
        match started {
            Ok(pipeline) => {
                &&& pipeline.wf()
                &&& authority_for(program_id@, accounts.authority) matches Ok(authority)
                &&& pipeline@ == PipelineView::start(retirement_plan(*accounts, authority.bump))
            },
            Err(e) => authority_for(program_id@, accounts.authority) == Err::<
                DelegatedAuthority,
                Error,
            >(e),
        },
{
    let authority = match DelegatedAuthority::verify(program_id, &accounts.authority) {
        Ok(authority) => authority,
        Err(e) => {
            return Err(e);
        },
    };
    let burn = DelegatedCall {
        call: Call::Burn {
            mint: accounts.mint,
            from: accounts.token_account,
            authority: accounts.authority,
            amount: 1,
        },
        signer_seeds: authority.signer_seeds(),
    };
    let close = DelegatedCall {
        call: Call::CloseAccount {
            account: accounts.token_account,
            destination: accounts.payer,
            authority: accounts.authority,
        },
        signer_seeds: authority.signer_seeds(),
    };
    let mut plan: Vec<DelegatedCall> = Vec::new();
    plan.push(burn);
    plan.push(close);
    assert(plan@.map_values(|call: DelegatedCall| call@) =~= retirement_plan(
        *accounts,
        authority.bump,
    ));
    Ok(Pipeline::new(plan))
}

/// A pipeline that has failed stays failed: whatever answers follow, it
/// makes no further call and keeps its failure.
pub proof fn lemma_failure_is_final(pipeline: PipelineView, outcomes: Seq<Result<(), u64>>)
    requires
        pipeline.failure is Some,
    ensures
        pipeline.pending() is None,
        pipeline.run(outcomes) == pipeline,
    decreases outcomes.len(),
{
    if outcomes.len() > 0 {
        lemma_failure_is_final(pipeline, outcomes.drop_first());
    }
}

/// What a pipeline has come to after a sequence of answers. The calls were
/// answered in the order of the plan; every call before the current one was
/// accepted; a failure is the refusal of the current call; and without a
/// failure the pipeline is as far as the answers or the plan reach.
pub proof fn lemma_run(pipeline: PipelineView, outcomes: Seq<Result<(), u64>>)
    requires
        pipeline.failure is None,
        pipeline.settled <= pipeline.plan.len(),
    ensures
        ({
            let after = pipeline.run(outcomes);
            let steps = after.settled - pipeline.settled;
            &&& after.plan == pipeline.plan
            &&& 0 <= steps <= outcomes.len()
            &&& after.settled <= after.plan.len()
            &&& forall|i: int| 0 <= i < steps ==> (#[trigger] outcomes[i]) is Ok
            &&& match after.failure {
                Some(e) => {
                    &&& after.settled < after.plan.len()
                    &&& steps < outcomes.len()
                    &&& outcomes[steps] matches Err(code)
                    &&& e == after.plan[after.settled as int].call.rejection(code)
                },
                None => steps == outcomes.len() || after.settled == after.plan.len(),
            }
        }),
    decreases outcomes.len(),
{
    if outcomes.len() > 0 {
        let next = pipeline.settle(outcomes[0]);
        let rest = outcomes.drop_first();
        if next.failure is Some {
            lemma_failure_is_final(next, rest);
        } else {
            lemma_run(next, rest);
            let after = next.run(rest);
            let shift = next.settled - pipeline.settled;
            assert forall|i: int| 0 <= i < after.settled - pipeline.settled implies (
            #[trigger] outcomes[i]) is Ok by {
                if i >= shift {
                    assert(outcomes[i] == rest[i - 1]);
                }
            }
            if after.failure is Some {
                assert(outcomes[after.settled - pipeline.settled] == rest[after.settled
                    - next.settled]);
            }
        }
    }
}

/// A request succeeds only if every call of its plan was made and accepted,
/// in the order of the plan.
pub proof fn lemma_success_needs_every_call(
    plan: Seq<DelegatedCallView>,
    outcomes: Seq<Result<(), u64>>,
)
    requires
        PipelineView::start(plan).run(outcomes).outcome() == Some(Ok::<(), Error>(())),
    ensures
        outcomes.len() >= plan.len(),
        forall|i: int| 0 <= i < plan.len() ==> (#[trigger] outcomes[i]) is Ok,
{
    lemma_run(PipelineView::start(plan), outcomes);
}

/// The first refusal ends the request: it fails with the failure of the
/// refused call, and no later call of the plan is made, whatever answers
/// follow.
pub proof fn lemma_first_refusal_ends_request(
    plan: Seq<DelegatedCallView>,
    outcomes: Seq<Result<(), u64>>,
    refused: int,
    code: u64,
)
    requires
        0 <= refused < plan.len(),
        refused < outcomes.len(),
        forall|i: int| 0 <= i < refused ==> (#[trigger] outcomes[i]) is Ok,
        outcomes[refused] == Err::<(), u64>(code),
    ensures
        ({
            let after = PipelineView::start(plan).run(outcomes);
            &&& after.settled == refused
            &&& after.pending() is None
            &&& after.outcome() == Some(Err::<(), Error>(plan[refused].call.rejection(code)))
        }),
{
    lemma_run(PipelineView::start(plan), outcomes);
    let after = PipelineView::start(plan).run(outcomes);
    if after.settled > refused {
        assert(outcomes[refused] is Ok);
    }
}

/// Issuance is all or nothing on the program's side: if the metadata
/// program refuses the metadata record after the unit was minted, the
/// request fails with that refusal and the edition is never sealed, so that
/// the host rolls the mint back with the rest of the request.
pub proof fn lemma_issuance_fails_with_metadata(
    accounts: CreateMasterEdition,
    bump: u8,
    data: AnchorDataV2View,
    is_mutable: bool,
    max_supply: Option<u64>,
    outcomes: Seq<Result<(), u64>>,
    code: u64,
)
    requires
        outcomes.len() >= 2,
        outcomes[0] is Ok,
        outcomes[1] == Err::<(), u64>(code),
    ensures
        ({
            let after = PipelineView::start(
                issuance_plan(accounts, bump, data, is_mutable, max_supply),
            ).run(outcomes);
            &&& after.outcome() == Some(Err::<(), Error>(Error::MetadataRejected(code)))
            &&& after.pending() is None
            &&& after.settled == 1
        }),
{
    lemma_first_refusal_ends_request(
        issuance_plan(accounts, bump, data, is_mutable, max_supply),
        outcomes,
        1,
        code,
    );
}

/// Retirement burns before it closes: the holding account is closed only
/// after the token program has accepted the burn of the unit, and a refused
/// burn fails the request without any attempt to close the account.
pub proof fn lemma_retirement_burns_first(
    accounts: BurnEdition,
    bump: u8,
    outcomes: Seq<Result<(), u64>>,
)
    ensures
        ({
            let after = PipelineView::start(retirement_plan(accounts, bump)).run(outcomes);
            &&& (after.pending() is Some && after.pending()->0.call is CloseAccount) ==> (
            outcomes.len() == 1 && outcomes[0] is Ok)
            &&& (outcomes.len() >= 1 && outcomes[0] is Err) ==> (after.outcome() == Some(
                Err::<(), Error>(Error::BurnRejected(outcomes[0]->Err_0)),
            ) && after.pending() is None)
            &&& after.outcome() == Some(Ok::<(), Error>(())) ==> (outcomes.len() >= 2
                && outcomes[0] is Ok && outcomes[1] is Ok)
        }),
{
    let plan = retirement_plan(accounts, bump);
    lemma_run(PipelineView::start(plan), outcomes);
    if outcomes.len() >= 1 {
        if let Err(code) = outcomes[0] {
            lemma_first_refusal_ends_request(plan, outcomes, 0, code);
        }
    }
}

} // verus!

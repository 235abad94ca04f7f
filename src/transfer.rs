use vstd::prelude::*;

use crate::address::{parse_address_spec, Address};
use crate::balance::{check_sufficient_balance, required_balance, required_spec, sufficient_spec};
use crate::error::TransferError;
use crate::keypair::SenderKeypair;
use crate::transaction::{
    payer_message, sign_transaction, transfer_instruction, unsigned_transaction, TransferTransaction,
};

verus! {

/// What one run is asked to do: move `amount` to `destination` while leaving
/// at least `min_reserve` in the source account.
#[derive(Clone, Copy, Debug)]
pub struct TransferRequest {
    pub destination: Address,
    pub amount: u64,
    pub min_reserve: u64,
    /// Whether the submission skips the endpoint's preflight simulation.
    pub skip_preflight: bool,
}

impl TransferRequest {
    /// A request always moves a positive amount.
    pub open spec fn wf(&self) -> bool {
        self.amount > 0
    }

    /// Builds a request, reading the destination from its base-58 text.
    /// A malformed destination is an `InvalidAddress`, found before any
    /// network work can start.
    pub fn new(destination: &str, amount: u64, min_reserve: u64, skip_preflight: bool) -> (r: Result<
        TransferRequest,
        TransferError,
    >)
        requires
            amount > 0,
        ensures
            match r {
                Ok(q) => {
                    &&& parse_address_spec(destination@) == Ok::<Seq<u8>, TransferError>(q.destination@)
                    &&& q.amount == amount
                    &&& q.min_reserve == min_reserve
                    &&& q.skip_preflight == skip_preflight
                    &&& q.wf()
                },
                Err(e) => parse_address_spec(destination@) == Err::<Seq<u8>, TransferError>(e),
            },
    {
        let destination = Address::parse(destination)?;
        Ok(TransferRequest { destination, amount, min_reserve, skip_preflight })
    }
}

/// Where a run stands. `Submitted` and `Failed` are terminal.
#[derive(Clone, Copy, Debug, PartialEq, Eq, Structural)]
pub enum Stage {
    /// Waiting for the source account's balance.
    Idle,
    /// The balance covers the request; waiting for a recency anchor.
    BalanceChecked,
    /// The transaction is signed and handed out; waiting for the submission's outcome.
    TransactionSigned,
    /// The chain confirmed the transaction.
    Submitted,
    /// The run ended with an error.
    Failed,
}

/// How a submit-and-confirm call can fail.
#[derive(Clone, Copy, Debug, PartialEq, Eq, Structural)]
pub enum SubmitFailure {
    /// Transport failure.
    Network,
    /// The chain refused the transaction.
    Rejected,
    /// No confirmation in time; the transaction may still land.
    Timeout,
}

/// What the caller reports back after performing the action a run asked for.
pub enum Event {
    /// The balance of the source account, or `None` when the query failed.
    BalanceRead(Option<u64>),
    /// A fresh recency anchor, or `None` when the query failed.
    AnchorRead(Option<[u8; 32]>),
    /// The transaction identifier on confirmation, or how submission failed.
    SubmitOutcome(Result<String, SubmitFailure>),
}

/// What a run asks its caller to do next.
pub enum Action {
    /// Fetch a fresh recency anchor.
    QueryAnchor,
    /// Submit the signed transaction and wait for confirmation.
    Submit { tx: TransferTransaction, skip_preflight: bool },
    /// The run is over, with this result.
    Finish(Result<String, TransferError>),
}

/// Which events a stage takes: each waiting stage takes the answer to the one
/// query it asked for, and a terminal stage takes none.
pub open spec fn accepts_spec(stage: Stage, event: Event) -> bool {
    match event {
        Event::BalanceRead(_) => stage == Stage::Idle,
        Event::AnchorRead(_) => stage == Stage::BalanceChecked,
        Event::SubmitOutcome(_) => stage == Stage::TransactionSigned,
    }
}

/// The verdict on a balance reading: `None` to go on, or the error that ends
/// the run.
pub open spec fn balance_verdict(req: TransferRequest, balance: u64) -> Option<TransferError> {
    if sufficient_spec(balance, req.amount, req.min_reserve) {
        None
    } else {
        Some(
            TransferError::InsufficientBalance {
                current: balance,
                required: required_spec(req.amount, req.min_reserve) as u128,
            },
        )
    }
}

/// The error a failed submission ends the run with.
pub open spec fn submit_error_spec(f: SubmitFailure) -> TransferError {
    match f {
        SubmitFailure::Network => TransferError::NetworkError,
        SubmitFailure::Rejected => TransferError::RejectedByChain,
        SubmitFailure::Timeout => TransferError::Timeout,
    }
}

/// Maps a submission failure to the error that ends the run; a timeout stays
/// a timeout, the indeterminate outcome.
pub fn submit_error(f: SubmitFailure) -> (r: TransferError)
    ensures
        r == submit_error_spec(f),
{
    match f {
        SubmitFailure::Network => TransferError::NetworkError,
        SubmitFailure::Rejected => TransferError::RejectedByChain,
        SubmitFailure::Timeout => TransferError::Timeout,
    }
}

/// One transfer run: the request, the key pair that signs for the source
/// account, and the stage reached. The source account is always the key
/// pair's own account, never one supplied apart from it.
pub struct TransferRun {
    request: TransferRequest,
    key: SenderKeypair,
    stage: Stage,
    /// The balance reading that passed the check, once one has.
    checked: Ghost<Option<u64>>,
}

impl TransferRun {
    pub closed spec fn stage_spec(&self) -> Stage {
        self.stage
    }

    pub closed spec fn request_spec(&self) -> TransferRequest {
        self.request
    }

    /// The balance reading that passed the check, if the run got that far.
    pub closed spec fn checked_balance(&self) -> Option<u64> {
        self.checked@
    }

    /// Past the balance check, the run holds a reading that covers the request.
    pub open spec fn wf(&self) -> bool {
        match self.stage_spec() {
            Stage::BalanceChecked | Stage::TransactionSigned | Stage::Submitted => {
                &&& self.checked_balance() is Some
                &&& sufficient_spec(
                    self.checked_balance().unwrap(),
                    self.request_spec().amount,
                    self.request_spec().min_reserve,
                )
            },
            _ => true,
        }
    }

    /// The account the run transfers from.
    pub closed spec fn source_spec(&self) -> Seq<u8> {
        self.key.account()
    }

    /// The 64-byte encoding of the key pair that signs for the source.
    pub closed spec fn key_spec(&self) -> Seq<u8> {
        self.key@
    }

    /// A run that has done nothing yet.
    pub fn new(request: TransferRequest, key: SenderKeypair) -> (r: TransferRun)
        ensures
            r.stage_spec() == Stage::Idle,
            r.request_spec() == request,
            r.source_spec() == key.account(),
            r.key_spec() == key@,
            r.wf(),
    {
        TransferRun { request, key, stage: Stage::Idle, checked: Ghost(None) }
    }

    pub fn stage(&self) -> (r: Stage)
        ensures
            r == self.stage_spec(),
    {
        self.stage
    }

    /// The account whose balance the run needs first.
    pub fn source(&self) -> (r: Address)
        ensures
            r@ == self.source_spec(),
    {
        self.key.address()
    }

    /// Whether the run, where it stands, takes this event.
    pub fn accepts(&self, event: &Event) -> (r: bool)
        ensures
            r == accepts_spec(self.stage_spec(), *event),
    {
        match event {
            Event::BalanceRead(_) => self.stage == Stage::Idle,
            Event::AnchorRead(_) => self.stage == Stage::BalanceChecked,
            Event::SubmitOutcome(_) => self.stage == Stage::TransactionSigned,
        }
    }

    /// Takes the answer to the last query and decides what comes next.
    /// An insufficient balance or a failed query ends the run before any
    /// transaction is built. Once the balance check passed, a fresh recency
    /// anchor yields the one transfer of the request from the source to the
    /// destination, paid for by the source, bound to that anchor and signed
    /// by the run's key pair.
    pub fn step(&mut self, event: Event) -> (a: Action)
        requires
            old(self).wf(),
            accepts_spec(old(self).stage_spec(), event),
        ensures
            final(self).wf(),
            a is Submit ==> {
                &&& final(self).checked_balance() is Some
                &&& sufficient_spec(
                    final(self).checked_balance().unwrap(),
                    final(self).request_spec().amount,
                    final(self).request_spec().min_reserve,
                )
            },
            final(self).request_spec() == old(self).request_spec(),
            final(self).source_spec() == old(self).source_spec(),
            final(self).key_spec() == old(self).key_spec(),
            match event {
                Event::BalanceRead(None) => {
                    &&& final(self).stage_spec() == Stage::Failed
                    &&& a == Action::Finish(Err(TransferError::NetworkError))
                },
                Event::BalanceRead(Some(b)) => match balance_verdict(old(self).request_spec(), b) {
                    None => final(self).stage_spec() == Stage::BalanceChecked && a is QueryAnchor,
                    Some(e) => final(self).stage_spec() == Stage::Failed && a == Action::Finish(Err(e)),
                },
                Event::AnchorRead(None) => {
                    &&& final(self).stage_spec() == Stage::Failed
                    &&& a == Action::Finish(Err(TransferError::NetworkError))
                },
                Event::AnchorRead(Some(h)) => {
                    &&& final(self).stage_spec() == Stage::TransactionSigned
                    &&& a is Submit
                    &&& a->skip_preflight == old(self).request_spec().skip_preflight
                    &&& a->tx.from() == old(self).source_spec()
                    &&& a->tx.to() == old(self).request_spec().destination@
                    &&& a->tx.lamports() == old(self).request_spec().amount
                    &&& a->tx.payer() == old(self).source_spec()
                    &&& a->tx.anchor() == Some(h@)
                    &&& a->tx.signer() == Some(old(self).source_spec())
                },
                Event::SubmitOutcome(Ok(sig)) => {
                    &&& final(self).stage_spec() == Stage::Submitted
                    &&& a is Finish
                    &&& a->Finish_0 is Ok
                    &&& a->Finish_0->Ok_0@ == sig@
                },
                Event::SubmitOutcome(Err(f)) => {
                    &&& final(self).stage_spec() == Stage::Failed
                    &&& a == Action::Finish(Err(submit_error_spec(f)))
                },
            },
    {
        match event {
            Event::BalanceRead(None) => {
                self.stage = Stage::Failed;
                Action::Finish(Err(TransferError::NetworkError))
            },
            Event::BalanceRead(Some(balance)) => {
                if check_sufficient_balance(balance, self.request.amount, self.request.min_reserve) {
                    self.stage = Stage::BalanceChecked;
                    self.checked = Ghost(Some(balance));
                    Action::QueryAnchor
                } else {
                    self.stage = Stage::Failed;
                    let required = required_balance(self.request.amount, self.request.min_reserve);
                    Action::Finish(Err(TransferError::InsufficientBalance { current: balance, required }))
                }
            },
            Event::AnchorRead(None) => {
                self.stage = Stage::Failed;
                Action::Finish(Err(TransferError::NetworkError))
            },
            Event::AnchorRead(Some(anchor)) => {
                let source = self.key.address();
                let instruction = transfer_instruction(&source, &self.request.destination, self.request.amount);
                let message = payer_message(instruction, &source);
                let mut tx = unsigned_transaction(message);
                let _ = sign_transaction(&mut tx, self.key.pair(), anchor);
                self.stage = Stage::TransactionSigned;
                Action::Submit { tx, skip_preflight: self.request.skip_preflight }
            },
            Event::SubmitOutcome(Ok(sig)) => {
                self.stage = Stage::Submitted;
                Action::Finish(Ok(sig))
            },
            Event::SubmitOutcome(Err(f)) => {
                self.stage = Stage::Failed;
                Action::Finish(Err(submit_error(f)))
            },
        }
    }
}

/// A balance that does not cover the amount plus the reserve ends the run
/// with the shortfall (the balance read and the exact requirement), and a
/// failed run takes no further event: no submission can follow.
pub proof fn lemma_insufficient_balance_never_submits(req: TransferRequest, balance: u64)
    requires
        !sufficient_spec(balance, req.amount, req.min_reserve),
    ensures
        balance_verdict(req, balance) == Some(
            TransferError::InsufficientBalance {
                current: balance,
                required: (req.amount as int + req.min_reserve as int) as u128,
            },
        ),
        forall|e: Event| !accepts_spec(Stage::Failed, e),
{
}

/// Two runs of one request, where the first passed its check and the chain
/// then debited the amount: the second run's check is made on the debited
/// balance, so it passes only if the first balance covered two amounts plus
/// the reserve.
pub proof fn lemma_second_run_sees_debit(req: TransferRequest, first_balance: u64)
    requires
        sufficient_spec(first_balance, req.amount, req.min_reserve),
    ensures
        balance_verdict(req, (first_balance - req.amount) as u64) is None <==> first_balance as int
            >= 2 * req.amount as int + req.min_reserve as int,
{
}

} // verus!

use solana_program::system_instruction;
use solana_sdk::instruction::Instruction;
use solana_sdk::message::Message;
use solana_sdk::pubkey::Pubkey;
use solana_sdk::signer::SignerError;
use solana_sdk::transaction::Transaction;
use vstd::prelude::*;

use crate::address::Address;
use crate::keypair::SigningPair;

verus! {

#[verifier::external_type_specification]
#[verifier::external_body]
pub struct ExInstruction(Instruction);

#[verifier::external_type_specification]
#[verifier::external_body]
pub struct ExMessage(Message);

#[verifier::external_type_specification]
#[verifier::external_body]
pub struct ExTransaction(Transaction);

#[verifier::external_type_specification]
#[verifier::external_body]
pub struct ExSignerError(SignerError);

/// A native transfer instruction, with what it moves and between which accounts.
pub struct TransferInstruction {
    inner: Instruction,
    from: Ghost<Seq<u8>>,
    to: Ghost<Seq<u8>>,
    lamports: Ghost<u64>,
}

/// A message holding one native transfer instruction, with its fee payer.
pub struct TransferMessage {
    inner: Message,
    from: Ghost<Seq<u8>>,
    to: Ghost<Seq<u8>>,
    lamports: Ghost<u64>,
    payer: Ghost<Seq<u8>>,
}

/// A transaction carrying one native transfer: its accounts and amount, its
/// fee payer, and, once signed, the recency anchor it is bound to and the
/// account whose key signed it.
pub struct TransferTransaction {
    inner: Transaction,
    from: Ghost<Seq<u8>>,
    to: Ghost<Seq<u8>>,
    lamports: Ghost<u64>,
    payer: Ghost<Seq<u8>>,
    anchor: Ghost<Option<Seq<u8>>>,
    signer: Ghost<Option<Seq<u8>>>,
}

impl TransferInstruction {
    pub closed spec fn from(&self) -> Seq<u8> {
        self.from@
    }

    pub closed spec fn to(&self) -> Seq<u8> {
        self.to@
    }

    pub closed spec fn lamports(&self) -> u64 {
        self.lamports@
    }
}

impl TransferMessage {
    pub closed spec fn from(&self) -> Seq<u8> {
        self.from@
    }

    pub closed spec fn to(&self) -> Seq<u8> {
        self.to@
    }

    pub closed spec fn lamports(&self) -> u64 {
        self.lamports@
    }

    pub closed spec fn payer(&self) -> Seq<u8> {
        self.payer@
    }
}

impl TransferTransaction {
    /// The account the transfer debits.
    pub closed spec fn from(&self) -> Seq<u8> {
        self.from@
    }

    /// The account the transfer credits.
    pub closed spec fn to(&self) -> Seq<u8> {
        self.to@
    }

    /// The amount moved, in the smallest unit.
    pub closed spec fn lamports(&self) -> u64 {
        self.lamports@
    }

    /// The fee payer, the first required signer.
    pub closed spec fn payer(&self) -> Seq<u8> {
        self.payer@
    }

    /// The recency anchor the signature covers, once signed.
    pub closed spec fn anchor(&self) -> Option<Seq<u8>> {
        self.anchor@
    }

    /// The account whose key pair signed, once signed.
    pub closed spec fn signer(&self) -> Option<Seq<u8>> {
        self.signer@
    }

    /// The outside transaction, for submission.
    pub fn transaction(&self) -> &Transaction {
        &self.inner
    }
}

/// Relies on `system_instruction::transfer`: the native transfer instruction
/// moving `lamports` from `from` (a signer) to `to`.
#[verifier::external_body]
pub(crate) fn transfer_instruction(from: &Address, to: &Address, lamports: u64) -> (r: TransferInstruction)
    ensures
        r.from() == from@,
        r.to() == to@,
        r.lamports() == lamports,
{
    let inner = system_instruction::transfer(
        &Pubkey::new_from_array(from.bytes),
        &Pubkey::new_from_array(to.bytes),
        lamports,
    );
    TransferInstruction { inner, from: Ghost(from@), to: Ghost(to@), lamports: Ghost(lamports) }
}

/// Relies on `Message::new`: a message holding the one instruction, with
/// `payer` as its fee payer and first required signer.
#[verifier::external_body]
pub(crate) fn payer_message(ix: TransferInstruction, payer: &Address) -> (r: TransferMessage)
    ensures
        r.from() == ix.from(),
        r.to() == ix.to(),
        r.lamports() == ix.lamports(),
        r.payer() == payer@,
{
    let inner = Message::new(&[ix.inner], Some(&Pubkey::new_from_array(payer.bytes)));
    TransferMessage { inner, from: ix.from, to: ix.to, lamports: ix.lamports, payer: Ghost(payer@) }
}

/// Relies on `Transaction::new_unsigned`: a transaction carrying the message
/// and an empty signature slot per required signer.
#[verifier::external_body]
pub(crate) fn unsigned_transaction(m: TransferMessage) -> (r: TransferTransaction)
    ensures
        r.from() == m.from(),
        r.to() == m.to(),
        r.lamports() == m.lamports(),
        r.payer() == m.payer(),
        r.anchor() is None,
        r.signer() is None,
{
    let inner = Transaction::new_unsigned(m.inner);
    TransferTransaction {
        inner, from: m.from, to: m.to, lamports: m.lamports, payer: m.payer,
        anchor: Ghost(None), signer: Ghost(None),
    }
}

/// Relies on `Transaction::try_sign`: binds the transaction to the recency
/// anchor and signs it with the key pair. Where the pair's account is the fee
/// payer and the debited account, it is the only required signer, so the
/// signer lookup and the completeness check both pass.
#[verifier::external_body]
pub(crate) fn sign_transaction(tx: &mut TransferTransaction, pair: &SigningPair, anchor: [u8; 32]) -> (r: Result<(), SignerError>)
    requires
        pair.valid(),
        pair.public() == old(tx).payer(),
        old(tx).from() == old(tx).payer(),
    ensures
        r is Ok,
        final(tx).from() == old(tx).from(),
        final(tx).to() == old(tx).to(),
        final(tx).lamports() == old(tx).lamports(),
        final(tx).payer() == old(tx).payer(),
        final(tx).anchor() == Some(anchor@),
        final(tx).signer() == Some(pair.public()),
{
    let r = tx.inner.try_sign(&[pair.keypair()], solana_sdk::hash::Hash::new_from_array(anchor));
    tx.anchor = Ghost(Some(anchor@));
    tx.signer = Ghost(Some(pair.public()));
    r
}

} // verus!

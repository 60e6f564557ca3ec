//! Transfer dispatch: which sender pays which recipient, and the decisions of
//! one transfer between the network calls that its caller performs.

use vstd::prelude::*;
use crate::base58::{base58_encoding, encode_bytes};
use crate::config::Config;
use crate::keys::{
    address_from_text, keypair_from_text, parse_address_base58, parse_keypair_base58, KeyError,
    KeypairBytes, ADDRESS_LENGTH,
};

verus! {

/// One transfer to attempt: sender keypair text, recipient text, amount in lamports.
pub struct TransferPlan {
    pub sender: String,
    pub recipient: String,
    pub lamports: u64,
}

/// One transfer per recipient, in recipient order; recipient `i` is paid by
/// sender `i mod M`, where `M` is the number of senders.
pub fn plan_transfers(config: &Config) -> (r: Vec<TransferPlan>)
    requires
        config.wf(),
    ensures
        r@.len() == config.to@.len(),
        forall|i: int|
            0 <= i < r@.len() ==> {
                &&& r@[i].sender@ == config.sender@[i % config.sender@.len() as int]@
                &&& r@[i].recipient@ == config.to@[i]@
                &&& r@[i].lamports == config.lamports
            },
{
    let m = config.sender.len();
    let mut r: Vec<TransferPlan> = Vec::new();
    let mut i: usize = 0;
    while i < config.to.len()
        invariant
            m == config.sender@.len() > 0,
            i <= config.to@.len(),
            r@.len() == i,
            forall|k: int|
                0 <= k < i ==> {
                    &&& r@[k].sender@ == config.sender@[k % m as int]@
                    &&& r@[k].recipient@ == config.to@[k]@
                    &&& r@[k].lamports == config.lamports
                },
        decreases config.to@.len() - i,
    {
        let plan = TransferPlan {
            sender: config.sender[i % m].clone(),
            recipient: config.to[i].clone(),
            lamports: config.lamports,
        };
        r.push(plan);
        i = i + 1;
    }
    r
}

/// How a transfer ended.
#[derive(Debug, Clone)]
pub enum Outcome {
    /// Confirmed; the transaction signature as base58 text.
    Success(String),
    /// The sender or recipient text could not be decoded.
    KeyDecodeError(KeyError),
    /// The sender's balance could not be read.
    BalanceQueryError(String),
    /// The sender holds less than the amount; nothing was submitted.
    InsufficientFunds { balance: u64, needed: u64 },
    /// No recent blockhash could be fetched.
    BlockhashFetchError(String),
    /// Submission or confirmation failed.
    SubmissionError(String),
}

/// Where a transfer stands.
#[derive(Debug, Clone, Copy, PartialEq, Eq, Structural)]
pub enum Phase {
    AwaitBalance,
    AwaitBlockhash,
    AwaitConfirmation,
    Done,
}

/// What the network answered to the last action.
pub enum Event {
    /// The sender's balance in lamports.
    Balance(Result<u64, String>),
    /// A recent blockhash.
    Blockhash(Result<[u8; 32], String>),
    /// The signature of the confirmed transaction.
    Confirmation(Result<[u8; 64], String>),
}

/// A transaction to build, sign with `sender`, and submit: one native transfer
/// of `lamports` to `recipient`, fee paid by the sender, anchored at `blockhash`.
pub struct TransferOrder {
    pub sender: Vec<u8>,
    pub recipient: Vec<u8>,
    pub lamports: u64,
    pub blockhash: [u8; 32],
}

/// What the caller is to do next.
pub enum Action {
    /// Read the balance of this address (base58).
    QueryBalance(String),
    /// Fetch a recent blockhash.
    FetchBlockhash,
    /// Submit this transfer and wait for confirmation.
    Submit(TransferOrder),
    /// The transfer is over.
    Finish(Outcome),
    /// The event was not the one awaited: nothing to do.
    Wait,
}

/// One transfer in progress.
pub struct TransferTask {
    pub sender: KeypairBytes,
    pub recipient: Vec<u8>,
    pub lamports: u64,
    pub phase: Phase,
    /// The sender's balance, once read.
    pub balance: Option<u64>,
}

impl TransferTask {
    /// Well formed; a transaction is under way only once the balance was found sufficient.
    pub open spec fn wf(&self) -> bool {
        &&& self.sender.wf()
        &&& self.recipient@.len() == ADDRESS_LENGTH
        &&& (self.phase == Phase::AwaitBalance ==> self.balance is None)
        &&& (self.phase == Phase::AwaitBlockhash || self.phase == Phase::AwaitConfirmation)
            ==> (self.balance matches Some(b) && b >= self.lamports)
    }

    /// Decodes the plan's sender and recipient and asks for the sender's balance;
    /// a decoding error ends the transfer at once.
    pub fn start(plan: &TransferPlan) -> (r: Result<(TransferTask, Action), Outcome>)
        ensures
            keypair_from_text(plan.sender@) matches Err(e) ==> r == Err::<
                (TransferTask, Action),
                Outcome,
            >(Outcome::KeyDecodeError(e)),
            address_from_text(plan.recipient@) matches Err(e) ==> keypair_from_text(plan.sender@) is Ok
                ==> r == Err::<(TransferTask, Action), Outcome>(Outcome::KeyDecodeError(e)),
            keypair_from_text(plan.sender@) matches Ok(k) ==> (address_from_text(plan.recipient@) matches Ok(a)
                ==> (r matches Ok((t, act)) && {
                &&& t.wf()
                &&& t.sender@ == k
                &&& t.recipient@ == a
                &&& t.lamports == plan.lamports
                &&& t.phase == Phase::AwaitBalance
                &&& act matches Action::QueryBalance(addr) && addr@ == base58_encoding(
                    t.sender.public_spec(),
                )
            })),
    {
        let sender = match parse_keypair_base58(plan.sender.as_str()) {
            Ok(kp) => kp,
            Err(e) => return Err(Outcome::KeyDecodeError(e)),
        };
        let recipient = match parse_address_base58(plan.recipient.as_str()) {
            Ok(a) => a,
            Err(e) => return Err(Outcome::KeyDecodeError(e)),
        };
        let addr = sender.address();
        let task = TransferTask {
            sender,
            recipient,
            lamports: plan.lamports,
            phase: Phase::AwaitBalance,
            balance: None,
        };
        Ok((task, Action::QueryBalance(addr)))
    }

    /// Takes the network's answer and says what to do next.
    pub fn step(&mut self, event: Event) -> (a: Action)
        requires
            old(self).wf(),
        ensures
            final(self).wf(),
            final(self).sender@ == old(self).sender@,
            final(self).recipient@ == old(self).recipient@,
            final(self).lamports == old(self).lamports,
            // a transaction is submitted only from a balance that covers the amount
            a is Submit ==> (final(self).balance matches Some(b) && b >= final(self).lamports),
            event matches Event::Balance(Ok(b)) ==> (old(self).phase == Phase::AwaitBalance ==> {
                &&& final(self).balance == Some(b)
                &&& if b < old(self).lamports {
                    &&& final(self).phase == Phase::Done
                    &&& a == Action::Finish(
                        Outcome::InsufficientFunds { balance: b, needed: old(self).lamports },
                    )
                } else {
                    final(self).phase == Phase::AwaitBlockhash && a is FetchBlockhash
                }
            }),
            event matches Event::Balance(Err(m)) ==> (old(self).phase == Phase::AwaitBalance ==> {
                &&& final(self).phase == Phase::Done
                &&& a == Action::Finish(Outcome::BalanceQueryError(m))
            }),
            event matches Event::Blockhash(Ok(h)) ==> (old(self).phase == Phase::AwaitBlockhash ==> {
                &&& final(self).phase == Phase::AwaitConfirmation
                &&& final(self).balance == old(self).balance
                &&& a matches Action::Submit(o) && {
                    &&& o.sender@ == old(self).sender@
                    &&& o.recipient@ == old(self).recipient@
                    &&& o.lamports == old(self).lamports
                    &&& o.blockhash == h
                }
            }),
            event matches Event::Blockhash(Err(m)) ==> (old(self).phase == Phase::AwaitBlockhash ==> {
                &&& final(self).phase == Phase::Done
                &&& a == Action::Finish(Outcome::BlockhashFetchError(m))
            }),
            event matches Event::Confirmation(Ok(sig)) ==> (old(self).phase == Phase::AwaitConfirmation ==> {
                &&& final(self).phase == Phase::Done
                &&& a matches Action::Finish(Outcome::Success(s)) && s@ == base58_encoding(sig@)
                    && s@.len() > 0
            }),
            event matches Event::Confirmation(Err(m)) ==> (old(self).phase == Phase::AwaitConfirmation ==> {
                &&& final(self).phase == Phase::Done
                &&& a == Action::Finish(Outcome::SubmissionError(m))
            }),
            !Self::awaited(old(self).phase, event) ==> *final(self) == *old(self) && a is Wait,
    {
        if !self.awaits(&event) {
            return Action::Wait;
        }
        match event {
            Event::Balance(Ok(b)) => {
                self.balance = Some(b);
                if b < self.lamports {
                    self.phase = Phase::Done;
                    Action::Finish(Outcome::InsufficientFunds { balance: b, needed: self.lamports })
                } else {
                    self.phase = Phase::AwaitBlockhash;
                    Action::FetchBlockhash
                }
            },
            Event::Balance(Err(m)) => {
                self.phase = Phase::Done;
                Action::Finish(Outcome::BalanceQueryError(m))
            },
            Event::Blockhash(Ok(h)) => {
                self.phase = Phase::AwaitConfirmation;
                Action::Submit(
                    TransferOrder {
                        sender: self.sender.to_bytes(),
                        recipient: self.recipient.clone(),
                        lamports: self.lamports,
                        blockhash: h,
                    },
                )
            },
            Event::Blockhash(Err(m)) => {
                self.phase = Phase::Done;
                Action::Finish(Outcome::BlockhashFetchError(m))
            },
            Event::Confirmation(Ok(sig)) => {
                self.phase = Phase::Done;
                Action::Finish(Outcome::Success(encode_bytes(&sig)))
            },
            Event::Confirmation(Err(m)) => {
                self.phase = Phase::Done;
                Action::Finish(Outcome::SubmissionError(m))
            },
        }
    }

    /// Whether `event` is the answer that `phase` waits for.
    pub open spec fn awaited(phase: Phase, event: Event) -> bool {
        match event {
            Event::Balance(_) => phase == Phase::AwaitBalance,
            Event::Blockhash(_) => phase == Phase::AwaitBlockhash,
            Event::Confirmation(_) => phase == Phase::AwaitConfirmation,
        }
    }

    /// Whether this transfer waits for `event`.
    pub fn awaits(&self, event: &Event) -> (r: bool)
        ensures
            r == Self::awaited(self.phase, *event),
    {
        match event {
            Event::Balance(_) => self.phase == Phase::AwaitBalance,
            Event::Blockhash(_) => self.phase == Phase::AwaitBlockhash,
            Event::Confirmation(_) => self.phase == Phase::AwaitConfirmation,
        }
    }

    /// The sender's address as base58 text.
    pub fn sender_address(&self) -> (r: String)
        requires
            self.wf(),
        ensures
            r@ == base58_encoding(self.sender.public_spec()),
    {
        self.sender.address()
    }

    /// The recipient's address as base58 text.
    pub fn recipient_address(&self) -> (r: String)
        ensures
            r@ == base58_encoding(self.recipient@),
    {
        encode_bytes(self.recipient.as_slice())
    }
}

} // verus!

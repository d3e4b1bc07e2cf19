use vstd::prelude::*;
use vstd::string::StringExecFns;

verus! {

/// Smallest payment that `set_message` accepts.
pub const MESSAGE_FEE: u128 = 100;

/// Smallest payment that `unlock` accepts.
pub const UNLOCK_FEE: u128 = 1000;

/// Errors that the contract's paid calls return.
#[derive(Debug, Clone, Copy, PartialEq, Eq, Structural)]
pub enum Error {
    /// The caller attached less than the call's fee.
    InsufficientBalance,
    /// The host refused the payout to the caller.
    TransferFailed,
}

/// A notice that the host publishes as a `Locked` event.
#[derive(Debug, Clone, Copy, PartialEq, Eq, Structural)]
pub enum Notice {
    /// A message was sent while the contract was locked.
    ContractLocked,
    /// An unlock was asked for while the contract was not locked.
    ContractNotLocked,
}

impl Notice {
    /// The text that the event carries.
    pub open spec fn text_spec(self) -> Seq<char> {
        match self {
            Notice::ContractLocked => "Contract is Locked!"@,
            Notice::ContractNotLocked => "Contract is Not Locked!"@,
        }
    }

    pub fn text(&self) -> (r: String)
        ensures
            r@ == self.text_spec(),
    {
        match self {
            Notice::ContractLocked => String::from_str("Contract is Locked!"),
            Notice::ContractNotLocked => String::from_str("Contract is Not Locked!"),
        }
    }
}

/// What the host has to do once `set_message` has accepted a payment.
#[derive(Debug, Clone, Copy, PartialEq, Eq, Structural)]
pub enum Action {
    /// Nothing beyond keeping the new state.
    Done,
    /// Publish the notice.
    Notify(Notice),
    /// Transfer the contract's whole balance to the caller, then hand the
    /// outcome to `settle_withdrawal`.
    WithdrawAll,
}

/// The contract's state.
pub struct Greeter {
    message: String,
    locked: bool,
    count: i32,
}

/// The state as mathematical values.
pub struct GreeterView {
    pub message: Seq<char>,
    pub locked: bool,
    pub count: int,
}

impl View for Greeter {
    type V = GreeterView;

    closed spec fn view(&self) -> GreeterView {
        GreeterView { message: self.message@, locked: self.locked, count: self.count as int }
    }
}

/// The message that replaces the caller's on a winning call.
pub open spec fn prize_message() -> Seq<char> {
    "You won!"@
}

/// An accepted message on an unlocked contract whose count is above one and a
/// multiple of five wins: it locks the contract and pays out its balance.
pub open spec fn wins(s: GreeterView) -> bool {
    !s.locked && s.count > 1 && s.count % 5 == 0
}

/// The state after `set_message(m, value)` on `s`.
pub open spec fn after_set_message(s: GreeterView, m: Seq<char>, value: u128) -> GreeterView {
    if value < MESSAGE_FEE || s.locked {
        s
    } else if wins(s) {
        GreeterView { message: prize_message(), locked: true, count: s.count + 1 }
    } else {
        GreeterView { message: m, locked: false, count: s.count + 1 }
    }
}

/// What `set_message(_, value)` returns on `s`.
pub open spec fn set_message_reply(s: GreeterView, value: u128) -> Result<Action, Error> {
    if value < MESSAGE_FEE {
        Err(Error::InsufficientBalance)
    } else if s.locked {
        Ok(Action::Notify(Notice::ContractLocked))
    } else if wins(s) {
        Ok(Action::WithdrawAll)
    } else {
        Ok(Action::Done)
    }
}

/// `set_message(_, value)` on `s` can increase the count without overflow.
pub open spec fn set_message_fits(s: GreeterView, value: u128) -> bool {
    value < MESSAGE_FEE || s.locked || s.count < i32::MAX
}

/// The state after `unlock(value)` on `s`.
pub open spec fn after_unlock(s: GreeterView, value: u128) -> GreeterView {
    if value < UNLOCK_FEE {
        s
    } else {
        GreeterView { locked: false, ..s }
    }
}

/// The state after a run of `set_message` calls, each a message and a payment.
pub open spec fn after_messages(s: GreeterView, calls: Seq<(Seq<char>, u128)>) -> GreeterView
    decreases calls.len(),
{
    if calls.len() == 0 {
        s
    } else {
        after_messages(after_set_message(s, calls[0].0, calls[0].1), calls.drop_first())
    }
}

impl Greeter {
    /// A contract that holds the given values.
    pub fn new(message: String, locked: bool, count: i32) -> (r: Self)
        ensures
            r@ == (GreeterView { message: message@, locked, count: count as int }),
    {
        Greeter { message, locked, count }
    }

    /// An unlocked contract with the message "Hello ink!" and count zero.
    pub fn default() -> (r: Self)
        ensures
            r@ == (GreeterView { message: "Hello ink!"@, locked: false, count: 0 }),
    {
        let default_message = String::from_str("Hello ink!");
        let default_lock = false;
        let default_count: i32 = 0;
        Self::new(default_message, default_lock, default_count)
    }

    /// The stored message.
    pub fn greet(&self) -> (r: String)
        ensures
            r@ == self@.message,
    {
        self.message.clone()
    }

    /// Whether the contract is locked.
    pub fn get_lock_state(&self) -> (r: bool)
        ensures
            r == self@.locked,
    {
        self.locked
    }

    /// How many messages the contract has accepted, from its starting count on.
    pub fn get_count(&self) -> (r: i32)
        ensures
            r as int == self@.count,
    {
        self.count
    }

    /// Offers a new message with a payment of `value`.
    ///
    /// A payment under the fee is refused and nothing changes. On a locked
    /// contract nothing changes and the host is asked to publish a notice. On an
    /// unlocked one the count goes up by one and the message is stored, unless
    /// the call wins: then the prize message is stored, the contract locks, and
    /// the host is asked to pay the whole balance out to the caller.
    pub fn set_message(&mut self, new_message: String, value: u128) -> (r: Result<Action, Error>)
        requires
            set_message_fits(old(self)@, value),
        ensures
            final(self)@ == after_set_message(old(self)@, new_message@, value),
            r == set_message_reply(old(self)@, value),
    {
        if value < MESSAGE_FEE {
            return Err(Error::InsufficientBalance);
        }
        if !self.locked {
            if self.count > 1 && self.count % 5 == 0 {
                self.count = self.count + 1;
                self.message = String::from_str("You won!");
                self.locked = true;
                Ok(self.withdraw_all())
            } else {
                self.count = self.count + 1;
                self.message = new_message;
                Ok(Action::Done)
            }
        } else {
            Ok(Action::Notify(Notice::ContractLocked))
        }
    }

    /// Asks for a payout of the whole balance when the contract is locked.
    fn withdraw_all(&self) -> (r: Action)
        ensures
            r == (if self@.locked { Action::WithdrawAll } else { Action::Done }),
    {
        if self.locked {
            Action::WithdrawAll
        } else {
            Action::Done
        }
    }

    /// Asks to unlock the contract with a payment of `value`.
    ///
    /// The notice comes whenever the contract is not locked at entry, also when
    /// the payment is then refused. A payment under the fee leaves the state as
    /// it was; any other unlocks the contract.
    pub fn unlock(&mut self, value: u128) -> (r: (Option<Notice>, Result<(), Error>))
        ensures
            r.0 == (if old(self)@.locked { None } else { Some(Notice::ContractNotLocked) }),
            r.1 == (if value < UNLOCK_FEE { Err(Error::InsufficientBalance) } else { Ok(()) }),
            final(self)@ == after_unlock(old(self)@, value),
    {
        let notice = if !self.locked {
            Some(Notice::ContractNotLocked)
        } else {
            None
        };
        if value < UNLOCK_FEE {
            return (notice, Err(Error::InsufficientBalance));
        }
        self.locked = false;
        (notice, Ok(()))
    }
}

/// The result of a winning `set_message` once the host has tried the payout:
/// success if the transfer went through, `TransferFailed` if it was refused.
pub fn settle_withdrawal(transferred: bool) -> (r: Result<(), Error>)
    ensures
        r == (if transferred { Ok(()) } else { Err(Error::TransferFailed) }),
{
    if transferred {
        Ok(())
    } else {
        Err(Error::TransferFailed)
    }
}

/// On a locked contract, no run of `set_message` calls changes anything: the
/// message, the count and the lock all stay as they were, whatever was paid.
pub proof fn lemma_locked_ignores_messages(s: GreeterView, calls: Seq<(Seq<char>, u128)>)
    requires
        s.locked,
    ensures
        after_messages(s, calls) == s,
    decreases calls.len(),
{
    if calls.len() > 0 {
        lemma_locked_ignores_messages(
            after_set_message(s, calls[0].0, calls[0].1),
            calls.drop_first(),
        );
    }
}

/// No run of `set_message` calls lowers the count, and a locked contract stays
/// locked through it.
pub proof fn lemma_count_never_decreases(s: GreeterView, calls: Seq<(Seq<char>, u128)>)
    ensures
        after_messages(s, calls).count >= s.count,
        s.locked ==> after_messages(s, calls).locked,
    decreases calls.len(),
{
    if calls.len() > 0 {
        lemma_count_never_decreases(
            after_set_message(s, calls[0].0, calls[0].1),
            calls.drop_first(),
        );
    }
}

/// A sufficient unlock payment reopens the contract: the next accepted message
/// is stored (or wins) instead of being ignored, and the count goes up by one.
pub proof fn lemma_unlock_reopens(s: GreeterView, value: u128, m: Seq<char>, paid: u128)
    requires
        value >= UNLOCK_FEE,
        paid >= MESSAGE_FEE,
    ensures
        !after_unlock(s, value).locked,
        after_set_message(after_unlock(s, value), m, paid).count == s.count + 1,
        !wins(after_unlock(s, value)) ==> after_set_message(after_unlock(s, value), m, paid).message == m,
{
}

} // verus!

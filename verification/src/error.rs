//! The one error of the ledger engine.

use crate::text::decimal;
use crate::text::push_decimal;
use vstd::prelude::*;
use vstd::string::*;

verus! {

/// A sender other than the network tried to send more than its balance.
#[derive(Debug)]
pub struct InsufficientBalance {
    /// The address that tried to send.
    pub sender: String,
    /// Its balance when it tried.
    pub available: u32,
    /// The amount it tried to send.
    pub requested: u32,
}

/// The sentence that reports a rejected transaction.
pub open spec fn rejection_text(sender: Seq<char>, available: u32, requested: u32) -> Seq<char> {
    "Insufficient balance. Sender "@ + sender + " has "@ + decimal(available as nat)
        + " but tried to send "@ + decimal(requested as nat)
}

impl InsufficientBalance {
    /// The error as a sentence for the user.
    pub fn message(&self) -> (text: String)
        ensures
            text@ == rejection_text(self.sender@, self.available, self.requested),
    {
        let mut text = String::new();
        text.append("Insufficient balance. Sender ");
        text.append(self.sender.as_str());
        text.append(" has ");
        push_decimal(&mut text, self.available as u64);
        text.append(" but tried to send ");
        push_decimal(&mut text, self.requested as u64);
        assert(text@ =~= rejection_text(self.sender@, self.available, self.requested));
        text
    }
}

} // verus!

//! The closed vocabulary of speech acts.

use vstd::prelude::*;
use vstd::string::*;

verus! {

/// The speech act that a message performs.
#[derive(Debug, Clone, Copy, PartialEq, Eq, Hash, Structural)]
pub enum Performative {
    Inform,
    Request,
    Query,
    Propose,
    Accept,
    Reject,
    Confirm,
    Disconfirm,
    Subscribe,
    CFP,
    Refuse,
}

impl Performative {
    /// The name under which the speech act is written out.
    pub open spec fn name(self) -> Seq<char> {
        match self {
            Performative::Inform => "Inform"@,
            Performative::Request => "Request"@,
            Performative::Query => "Query"@,
            Performative::Propose => "Propose"@,
            Performative::Accept => "Accept"@,
            Performative::Reject => "Reject"@,
            Performative::Confirm => "Confirm"@,
            Performative::Disconfirm => "Disconfirm"@,
            Performative::Subscribe => "Subscribe"@,
            Performative::CFP => "CFP"@,
            Performative::Refuse => "Refuse"@,
        }
    }

    /// Writes the speech act out by its name.
    pub fn to_string(&self) -> (text: String)
        ensures
            text@ == self.name(),
    {
        match self {
            Performative::Inform => String::from_str("Inform"),
            Performative::Request => String::from_str("Request"),
            Performative::Query => String::from_str("Query"),
            Performative::Propose => String::from_str("Propose"),
            Performative::Accept => String::from_str("Accept"),
            Performative::Reject => String::from_str("Reject"),
            Performative::Confirm => String::from_str("Confirm"),
            Performative::Disconfirm => String::from_str("Disconfirm"),
            Performative::Subscribe => String::from_str("Subscribe"),
            Performative::CFP => String::from_str("CFP"),
            Performative::Refuse => String::from_str("Refuse"),
        }
    }
}

} // verus!

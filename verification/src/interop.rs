//! Rules of the binding that offers the RPC client's operations to a
//! foreign runtime: how a failure is worded, and how the items of a
//! response stream are gathered.

use crate::error::prefixed;
use vstd::prelude::*;

verus! {

/// The five ways of talking to the peer.
#[derive(Clone, Copy, Debug, PartialEq, Eq, Structural)]
pub enum Interaction {
    MetadataPush,
    FireAndForget,
    RequestResponse,
    RequestStream,
    RequestChannel,
}

impl Interaction {
    /// The words that stand before the reason of a failure.
    pub open spec fn failure_prefix(self) -> Seq<char> {
        match self {
            Interaction::MetadataPush => "MetadataPush failed: "@,
            Interaction::FireAndForget => "FireAndForget failed: "@,
            Interaction::RequestResponse => "RequestResponse failed: "@,
            Interaction::RequestStream => "Stream error: "@,
            Interaction::RequestChannel => "Channel error: "@,
        }
    }

    /// The text that the foreign runtime is shown when this interaction
    /// failed for `reason`.
    pub fn failure_text(self, reason: &str) -> (text: String)
        ensures
            text@ == self.failure_prefix() + reason@,
    {
        match self {
            Interaction::MetadataPush => prefixed("MetadataPush failed: ", reason),
            Interaction::FireAndForget => prefixed("FireAndForget failed: ", reason),
            Interaction::RequestResponse => prefixed("RequestResponse failed: ", reason),
            Interaction::RequestStream => prefixed("Stream error: ", reason),
            Interaction::RequestChannel => prefixed("Channel error: ", reason),
        }
    }
}

/// What gathering has come to after one more item, over plain values: a
/// payload joins those gathered; a failure leaves them and is worded.
pub open spec fn gathered<T>(sofar: Seq<T>, item: Result<T, Seq<char>>, kind: Interaction) -> Result<
    Seq<T>,
    Seq<char>,
> {
    match item {
        Ok(payload) => Ok(sofar.push(payload)),
        Err(reason) => Err(kind.failure_prefix() + reason),
    }
}

/// An item of a response stream over plain values.
pub open spec fn item_view<T>(item: Result<T, String>) -> Result<T, Seq<char>> {
    match item {
        Ok(payload) => Ok(payload),
        Err(reason) => Err(reason@),
    }
}

/// Takes the next item of a response stream. A payload is appended to
/// `results`; a failure ends the gathering with its text and leaves
/// `results` as they are.
pub fn gather<T>(results: &mut Vec<T>, item: Result<T, String>, kind: Interaction) -> (outcome:
    Result<(), String>)
    ensures
        match gathered(old(results)@, item_view(item), kind) {
            Ok(all) => outcome is Ok && final(results)@ == all,
            Err(text) => outcome is Err && outcome->Err_0@ == text && final(results)@ == old(
                results,
            )@,
        },
{
    match item {
        Ok(payload) => {
            results.push(payload);
            Ok(())
        },
        Err(reason) => Err(kind.failure_text(reason.as_str())),
    }
}

/// The name under which the client shows itself.
pub fn client_label() -> (label: String)
    ensures
        label@ == "RSocket Client"@,
{
    String::from_str("RSocket Client")
}

} // verus!

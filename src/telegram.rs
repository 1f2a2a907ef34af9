//! The messaging sinks: what a publish sends and how its answer is read.
//! The calls themselves are made by the caller.
use vstd::prelude::*;

verus! {

/// Failures of a publish.
#[derive(Debug)]
pub enum SinkError {
    /// The call failed (network, authorization, parsing), with the reason.
    Request(String),
    /// The service answered that it did not apply the edit.
    Rejected,
}

pub const BOT_API: &'static str = "https://api.telegram.org/bot";

pub const EDIT_METHOD: &'static str = "/editMessageText";

/// The pinned-message sink: always edits the same message of one channel.
#[derive(Debug, Clone)]
pub struct ChannelUpdater {
    pub token: String,
    pub channel_id: i64,
    pub message_id: i64,
}

impl ChannelUpdater {
    /// The endpoint that edits a message with this bot's token.
    pub fn edit_url(&self) -> (r: String)
        ensures
            r@ == BOT_API@ + self.token@ + EDIT_METHOD@,
    {
        let mut url = String::from_str(BOT_API);
        url.append(self.token.as_str());
        url.append(EDIT_METHOD);
        url
    }

    /// Reads the `ok` flag of the service's answer.
    pub fn outcome(&self, ok: bool) -> (r: Result<(), SinkError>)
        ensures
            r is Ok <==> ok,
            !ok ==> r matches Err(SinkError::Rejected),
    {
        if ok {
            Ok(())
        } else {
            Err(SinkError::Rejected)
        }
    }
}

} // verus!

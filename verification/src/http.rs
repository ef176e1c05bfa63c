//! What is asked of the transport, and how an answer's status is judged.

use crate::failure::Failure;
use vstd::prelude::*;

verus! {

/// The agent string that every outbound call carries. The catalog turns
/// away calls that come with a default agent, or with none.
pub const USER_AGENT: &'static str = "alorg-game-of-the-day-giantbomb";

/// Whether a status stands for success: the range from 200 to 299.
pub open spec fn success_status(status: u16) -> bool {
    200 <= status <= 299
}

/// Whether a status stands for success.
pub fn is_success(status: u16) -> (yes: bool)
    ensures
        yes == success_status(status),
{
    200 <= status && status <= 299
}

/// Judges the status of an answer before anything is read of its body.
pub fn check_status(status: u16) -> (verdict: Result<(), Failure>)
    ensures
        success_status(status) ==> verdict == Ok::<(), Failure>(()),
        !success_status(status) ==> verdict == Err::<(), Failure>(Failure::UpstreamStatus(status)),
{
    if is_success(status) {
        Ok(())
    } else {
        Err(Failure::UpstreamStatus(status))
    }
}

/// One outbound call: a GET of `url`, sent under `user_agent`.
#[derive(Debug, PartialEq)]
pub struct Request {
    pub url: String,
    pub user_agent: &'static str,
}

/// A request as plain values.
pub struct RequestView {
    pub url: Seq<char>,
    pub user_agent: Seq<char>,
}

impl View for Request {
    type V = RequestView;

    open spec fn view(&self) -> RequestView {
        RequestView { url: self.url@, user_agent: self.user_agent@ }
    }
}

/// The request for `url`, under the fixed agent.
pub open spec fn get_of(url: Seq<char>) -> RequestView {
    RequestView { url, user_agent: USER_AGENT@ }
}

impl Request {
    /// A GET of `url` under the fixed agent.
    pub fn get(url: String) -> (request: Request)
        ensures
            request@ == get_of(url@),
    {
        Request { url, user_agent: USER_AGENT }
    }
}

} // verus!

//! Opens a usage dashboard in a browser. The caller launches the browser;
//! this keeps the steps and the messages.

use vstd::prelude::*;
use crate::text::{join2, join3};

verus! {

/// The steps of the usage viewer.
#[derive(Debug)]
pub enum UsageViewerState {
    /// Waiting to open the browser.
    Ready,
    /// The browser is being launched.
    Opening,
    /// The browser was launched.
    Success { message: String },
    /// The browser could not be launched.
    Error { message: String },
}

pub open spec fn opened_message(url: Seq<char>) -> Seq<char> {
    "\u{2713} Opening usage page in browser\n\nURL: "@ + url
        + "\n\nView your API usage, token consumption, and billing details."@
}

pub open spec fn failed_message(reason: Seq<char>, url: Seq<char>) -> Seq<char> {
    "Failed to open browser: "@ + reason + "\n\nPlease visit manually:\n"@ + url
}

/// How launching the browser went: `failure` is why it failed.
pub open spec fn browser_result(before: UsageViewer, failure: Option<String>, after: UsageViewer) -> bool {
    &&& after.url == before.url
    &&& failure is None ==> (after.state matches UsageViewerState::Success { message }
            && message@ == opened_message(before.url@))
    &&& failure matches Some(reason) ==> after.state matches UsageViewerState::Error {
            message,
        } && message@ == failed_message(reason@, before.url@)
}

/// The usage viewer for the dashboard at `url`.
#[derive(Debug)]
pub struct UsageViewer {
    pub state: UsageViewerState,
    pub url: String,
}

impl UsageViewer {
    /// A viewer ready to open the dashboard at `url`.
    pub fn new(url: String) -> (r: UsageViewer)
        ensures
            r.state is Ready,
            r.url@ == url@,
    {
        UsageViewer { state: UsageViewerState::Ready, url }
    }

    /// Starts opening the browser and returns the page to open.
    pub fn open_browser(&mut self) -> (url: String)
        ensures
            final(self).state is Opening,
            final(self).url == old(self).url,
            url@ == old(self).url@,
    {
        self.state = UsageViewerState::Opening;
        self.url.clone()
    }

    /// Records how launching the browser went: `failure` is why it failed.
    pub fn finish_open(&mut self, failure: Option<String>)
        ensures
            browser_result(*old(self), failure, *final(self)),
    {
        match failure {
            None => {
                let message = join3(
                    "\u{2713} Opening usage page in browser\n\nURL: ",
                    self.url.as_str(),
                    "\n\nView your API usage, token consumption, and billing details.",
                );
                self.state = UsageViewerState::Success { message };
            },
            Some(reason) => {
                let head = join3(
                    "Failed to open browser: ",
                    reason.as_str(),
                    "\n\nPlease visit manually:\n",
                );
                let message = join2(head.as_str(), self.url.as_str());
                self.state = UsageViewerState::Error { message };
            },
        }
    }

    /// Whether the viewer has finished, either way.
    pub fn is_done(&self) -> (r: bool)
        ensures
            r == (self.state is Success || self.state is Error),
    {
        match self.state {
            UsageViewerState::Success { .. } | UsageViewerState::Error { .. } => true,
            _ => false,
        }
    }

    /// The text shown on the current step.
    pub fn get_prompt(&self) -> (r: String)
        ensures
            self.state is Ready ==> r@
                == "Open the usage console in your browser to view usage statistics?"@,
            self.state is Opening ==> r@ == "Opening browser..."@,
            self.state matches UsageViewerState::Success { message } ==> r@ == message@,
            self.state matches UsageViewerState::Error { message } ==> r@ == "Error: "@
                + message@,
    {
        match &self.state {
            UsageViewerState::Ready => {
                "Open the usage console in your browser to view usage statistics?".to_owned()
            },
            UsageViewerState::Opening => "Opening browser...".to_owned(),
            UsageViewerState::Success { message } => message.clone(),
            UsageViewerState::Error { message } => join2("Error: ", message.as_str()),
        }
    }
}

} // verus!

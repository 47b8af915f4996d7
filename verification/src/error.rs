//! The ways in which a crawl ends early.

use vstd::prelude::*;

verus! {

/// Why a crawl stopped before the listing ran out.
#[derive(Clone, Copy, Debug, PartialEq, Eq, Structural)]
pub enum CrawlError {
    /// A request could not be completed: no connection, no answer, a broken body.
    Transport,
    /// A request was answered with a status outside 200..=299.
    Status(u16),
    /// A detail record is not a JSON document.
    Parse,
    /// A selector or pattern was refused by the library that evaluates it.
    Extractor,
    /// An event arrived that does not answer the last command.
    Unexpected,
    /// The page counter cannot be advanced any further.
    PageLimit,
    /// A row could not be written out.
    Write,
}

impl CrawlError {
    /// A one-line description for messages.
    pub fn describe(&self) -> (text: String)
        ensures
            text@ == match *self {
                CrawlError::Transport => "request failed"@,
                CrawlError::Status(_) => "request answered with a failure status"@,
                CrawlError::Parse => "detail record is not valid JSON"@,
                CrawlError::Extractor => "selector or pattern refused"@,
                CrawlError::Unexpected => "event does not answer the last command"@,
                CrawlError::PageLimit => "page counter exhausted"@,
                CrawlError::Write => "row could not be written"@,
            },
    {
        match self {
            CrawlError::Transport => String::from_str("request failed"),
            CrawlError::Status(_) => String::from_str("request answered with a failure status"),
            CrawlError::Parse => String::from_str("detail record is not valid JSON"),
            CrawlError::Extractor => String::from_str("selector or pattern refused"),
            CrawlError::Unexpected => String::from_str("event does not answer the last command"),
            CrawlError::PageLimit => String::from_str("page counter exhausted"),
            CrawlError::Write => String::from_str("row could not be written"),
        }
    }
}

} // verus!

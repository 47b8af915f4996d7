//! The crawl as a state machine.
//!
//! A crawl writes the header row, then asks for page 1, 2, 3, … of the
//! listing. For every vehicle on a page it asks for the detail record and
//! then for the detail page, and gives out the vehicle's row. It finishes at
//! the first page that lists no vehicle, and stops at the first failure.
//!
//! The machine performs nothing itself. [`Crawl::step`] takes what happened
//! as an [`Event`] and answers with an [`Outcome`]: a row to write, if one is
//! due, and the [`Command`] to carry out next. Whoever drives the crawl
//! writes the row, carries out the command and comes back with the event
//! that resulted.

use vstd::prelude::*;
use crate::detail::{detail_in, parse_detail, VehicleDetail, VehicleDetailView};
use crate::error::CrawlError;
use crate::listing::{listed_identifiers, vehicle_identifiers};
use crate::html::matched_texts;
use crate::page::{
    page_mileage, page_valuation, read_mileage, read_valuation, valuation_as_read,
    VALUATION_SELECTOR,
};
use crate::record::{
    header_fields, header_row, record_of, row_of, VehicleRecord, VALUATION_COLUMN,
};
use crate::region::{listing_url, record_address, record_url, SearchRegion, SearchRegionView};
use crate::text::text_views;

verus! {

/// How long to wait before asking for a detail record or a detail page.
pub const PAUSE_SECONDS: u64 = 1;

/// The first page of a listing.
pub const FIRST_PAGE: u64 = 1;

/// What a request is for.
#[derive(Clone, Debug, PartialEq, Eq)]
pub enum Request {
    /// A page of the listing; answered by `Event::Document`.
    Listing { page: u64 },
    /// The detail record of a vehicle; answered by `Event::Record`.
    Record { vin: String },
    /// The detail page of the vehicle whose record came last; answered by
    /// `Event::Document`.
    DetailPage,
}

/// What a `Request` holds.
pub enum RequestView {
    Listing { page: nat },
    Record { vin: Seq<char> },
    DetailPage,
}

impl View for Request {
    type V = RequestView;

    open spec fn view(&self) -> RequestView {
        match *self {
            Request::Listing { page } => RequestView::Listing { page: page as nat },
            Request::Record { vin } => RequestView::Record { vin: vin@ },
            Request::DetailPage => RequestView::DetailPage,
        }
    }
}

/// What the driver of a crawl is to do next.
#[derive(Clone, Debug, PartialEq, Eq)]
pub enum Command {
    /// Wait `pause_seconds`, then send a GET request to `url` and come back
    /// with the answer.
    Fetch { request: Request, url: String, pause_seconds: u64 },
    /// The listing has run out: flush what was written and report success.
    Finish,
    /// The crawl has failed: give up and report the error.
    Stop(CrawlError),
}

/// What a `Command` holds.
pub enum CommandView {
    Fetch { request: RequestView, url: Seq<char>, pause_seconds: nat },
    Finish,
    Stop(CrawlError),
}

impl View for Command {
    type V = CommandView;

    open spec fn view(&self) -> CommandView {
        match *self {
            Command::Fetch { request, url, pause_seconds } => CommandView::Fetch {
                request: request@,
                url: url@,
                pause_seconds: pause_seconds as nat,
            },
            Command::Finish => CommandView::Finish,
            Command::Stop(error) => CommandView::Stop(error),
        }
    }
}

/// The answer of the machine to one event.
#[derive(Clone, Debug, PartialEq, Eq)]
pub struct Outcome {
    /// The row to write before anything else is done, if one is due.
    pub row: Option<Vec<String>>,
    /// What to do after that.
    pub command: Command,
}

/// What an `Outcome` holds.
pub struct OutcomeView {
    pub row: Option<Seq<Seq<char>>>,
    pub command: CommandView,
}

impl View for Outcome {
    type V = OutcomeView;

    open spec fn view(&self) -> OutcomeView {
        OutcomeView {
            row: match self.row {
                Some(row) => Some(text_views(row@)),
                None => None,
            },
            command: self.command@,
        }
    }
}

/// What happened since the last command.
#[derive(Clone, Debug, PartialEq, Eq)]
pub enum Event {
    /// Nothing yet: the crawl is to begin.
    Begin,
    /// A request for a listing page or a detail page was answered.
    Document { status: u16, text: String },
    /// A request for a detail record was answered.
    Record { status: u16, body: Vec<u8> },
    /// The request got no answer, or its body could not be read.
    Failure,
}

/// What an `Event` holds.
pub enum EventView {
    Begin,
    Document { status: u16, text: Seq<char> },
    Record { status: u16, body: Seq<u8> },
    Failure,
}

impl View for Event {
    type V = EventView;

    open spec fn view(&self) -> EventView {
        match *self {
            Event::Begin => EventView::Begin,
            Event::Document { status, text } => EventView::Document { status, text: text@ },
            Event::Record { status, body } => EventView::Record { status, body: body@ },
            Event::Failure => EventView::Failure,
        }
    }
}

/// Where a crawl stands.
pub enum PhaseView {
    /// Nothing has been asked for yet.
    Idle,
    /// Page `page` of the listing has been asked for.
    AwaitListing { page: nat },
    /// The detail record of `identifiers[at]`, a vehicle of page `page`, has
    /// been asked for.
    AwaitRecord { page: nat, identifiers: Seq<Seq<char>>, at: nat },
    /// The detail page of `identifiers[at]` has been asked for; `detail` is
    /// what its record gave.
    AwaitDetailPage { page: nat, identifiers: Seq<Seq<char>>, at: nat, detail: VehicleDetailView },
    /// The listing has run out.
    Finished,
    /// The crawl has failed.
    Stopped(CrawlError),
}

/// What a `Crawl` holds.
pub struct CrawlView {
    pub region: SearchRegionView,
    pub phase: PhaseView,
}

enum Phase {
    Idle,
    AwaitListing { page: u64 },
    AwaitRecord { page: u64, identifiers: Vec<String>, at: usize },
    AwaitDetailPage { page: u64, identifiers: Vec<String>, at: usize, detail: VehicleDetail },
    Finished,
    Stopped(CrawlError),
}

impl View for Phase {
    type V = PhaseView;

    closed spec fn view(&self) -> PhaseView {
        match *self {
            Phase::Idle => PhaseView::Idle,
            Phase::AwaitListing { page } => PhaseView::AwaitListing { page: page as nat },
            Phase::AwaitRecord { page, identifiers, at } => PhaseView::AwaitRecord {
                page: page as nat,
                identifiers: text_views(identifiers@),
                at: at as nat,
            },
            Phase::AwaitDetailPage { page, identifiers, at, detail } => PhaseView::AwaitDetailPage {
                page: page as nat,
                identifiers: text_views(identifiers@),
                at: at as nat,
                detail: detail@,
            },
            Phase::Finished => PhaseView::Finished,
            Phase::Stopped(error) => PhaseView::Stopped(error),
        }
    }
}

/// A crawl of the listing for one search region.
pub struct Crawl {
    region: SearchRegion,
    phase: Phase,
}

impl View for Crawl {
    type V = CrawlView;

    closed spec fn view(&self) -> CrawlView {
        CrawlView { region: self.region@, phase: self.phase@ }
    }
}

/// Whether a status says that the request succeeded.
pub open spec fn succeeded(status: u16) -> bool {
    200 <= status <= 299
}

/// Whether a crawl stands where a crawl can stand: pages count from one and
/// fit the counter, and the vehicle in hand is one of its page.
pub open spec fn well_formed(crawl: CrawlView) -> bool {
    match crawl.phase {
        PhaseView::Idle => true,
        PhaseView::AwaitListing { page } => FIRST_PAGE <= page <= u64::MAX,
        PhaseView::AwaitRecord { page, identifiers, at } => FIRST_PAGE <= page <= u64::MAX && at
            < identifiers.len(),
        PhaseView::AwaitDetailPage { page, identifiers, at, detail } => FIRST_PAGE <= page
            <= u64::MAX && at < identifiers.len(),
        PhaseView::Finished => true,
        PhaseView::Stopped(_) => true,
    }
}

/// A crawl of `region` that has not begun.
pub open spec fn initial(region: SearchRegionView) -> CrawlView {
    CrawlView { region, phase: PhaseView::Idle }
}

/// The crawl gives up with `error`.
pub open spec fn halted(crawl: CrawlView, error: CrawlError) -> (CrawlView, OutcomeView) {
    (
        CrawlView { region: crawl.region, phase: PhaseView::Stopped(error) },
        OutcomeView { row: None, command: CommandView::Stop(error) },
    )
}

/// The command that asks for page `page` of the listing, at once.
pub open spec fn ask_listing(region: SearchRegionView, page: nat) -> CommandView {
    CommandView::Fetch {
        request: RequestView::Listing { page },
        url: listing_url(region, page),
        pause_seconds: 0,
    }
}

/// The command that asks for the detail record of `vin`, after the pause.
pub open spec fn ask_record(vin: Seq<char>) -> CommandView {
    CommandView::Fetch {
        request: RequestView::Record { vin },
        url: record_url(vin),
        pause_seconds: PAUSE_SECONDS as nat,
    }
}

/// The command that asks for the detail page at `url`, after the pause.
pub open spec fn ask_detail_page(url: Seq<char>) -> CommandView {
    CommandView::Fetch {
        request: RequestView::DetailPage,
        url,
        pause_seconds: PAUSE_SECONDS as nat,
    }
}

/// A crawl begins: the header row goes out and the first page is asked for.
pub open spec fn begun(crawl: CrawlView) -> (CrawlView, OutcomeView) {
    (
        CrawlView { region: crawl.region, phase: PhaseView::AwaitListing { page: FIRST_PAGE as nat } },
        OutcomeView {
            row: Some(header_row()),
            command: ask_listing(crawl.region, FIRST_PAGE as nat),
        },
    )
}

/// Page `page` of the listing has come: with no vehicle on it the crawl
/// finishes, else the record of its first vehicle is asked for.
pub open spec fn after_listing(crawl: CrawlView, page: nat, text: Seq<char>) -> (
    CrawlView,
    OutcomeView,
) {
    match listed_identifiers(text) {
        None => halted(crawl, CrawlError::Extractor),
        Some(identifiers) => if identifiers.len() == 0 {
            (
                CrawlView { region: crawl.region, phase: PhaseView::Finished },
                OutcomeView { row: None, command: CommandView::Finish },
            )
        } else {
            (
                CrawlView {
                    region: crawl.region,
                    phase: PhaseView::AwaitRecord { page, identifiers, at: 0 },
                },
                OutcomeView { row: None, command: ask_record(identifiers[0]) },
            )
        },
    }
}

/// The detail record of `identifiers[at]` has come: its detail page is
/// asked for, at the address that the record gives.
pub open spec fn after_record(
    crawl: CrawlView,
    page: nat,
    identifiers: Seq<Seq<char>>,
    at: nat,
    body: Seq<u8>,
) -> (CrawlView, OutcomeView) {
    match detail_in(body) {
        None => halted(crawl, CrawlError::Parse),
        Some(detail) => (
            CrawlView {
                region: crawl.region,
                phase: PhaseView::AwaitDetailPage { page, identifiers, at, detail },
            },
            OutcomeView { row: None, command: ask_detail_page(detail.detail_page_url) },
        ),
    }
}

/// The detail page of `identifiers[at]` has come: the vehicle's row goes
/// out, and the crawl moves on to the next vehicle of the page or, after
/// the last one, to the next page.
pub open spec fn after_detail_page(
    crawl: CrawlView,
    page: nat,
    identifiers: Seq<Seq<char>>,
    at: nat,
    detail: VehicleDetailView,
    text: Seq<char>,
) -> (CrawlView, OutcomeView) {
    match (page_mileage(text), page_valuation(text)) {
        (Some(mileage), Some(valuation)) => {
            let row = Some(row_of(record_of(identifiers[at as int], detail, mileage, valuation)));
            if at + 1 < identifiers.len() {
                (
                    CrawlView {
                        region: crawl.region,
                        phase: PhaseView::AwaitRecord { page, identifiers, at: (at + 1) as nat },
                    },
                    OutcomeView { row, command: ask_record(identifiers[at as int + 1]) },
                )
            } else if page >= u64::MAX {
                (
                    CrawlView {
                        region: crawl.region,
                        phase: PhaseView::Stopped(CrawlError::PageLimit),
                    },
                    OutcomeView { row, command: CommandView::Stop(CrawlError::PageLimit) },
                )
            } else {
                (
                    CrawlView {
                        region: crawl.region,
                        phase: PhaseView::AwaitListing { page: (page + 1) as nat },
                    },
                    OutcomeView { row, command: ask_listing(crawl.region, (page + 1) as nat) },
                )
            }
        },
        _ => halted(crawl, CrawlError::Extractor),
    }
}

/// Where the crawl goes on `event`, and what it answers.
///
/// An answer with a status outside 200..=299 stops the crawl, and so do a
/// request without an answer and an event that does not fit the request.
/// Once finished or stopped, a crawl stays so and repeats its last word.
pub open spec fn transition(crawl: CrawlView, event: EventView) -> (CrawlView, OutcomeView) {
    match crawl.phase {
        PhaseView::Idle => match event {
            EventView::Begin => begun(crawl),
            _ => halted(crawl, CrawlError::Unexpected),
        },
        PhaseView::AwaitListing { page } => match event {
            EventView::Document { status, text } => if succeeded(status) {
                after_listing(crawl, page, text)
            } else {
                halted(crawl, CrawlError::Status(status))
            },
            EventView::Failure => halted(crawl, CrawlError::Transport),
            _ => halted(crawl, CrawlError::Unexpected),
        },
        PhaseView::AwaitRecord { page, identifiers, at } => match event {
            EventView::Record { status, body } => if succeeded(status) {
                after_record(crawl, page, identifiers, at, body)
            } else {
                halted(crawl, CrawlError::Status(status))
            },
            EventView::Failure => halted(crawl, CrawlError::Transport),
            _ => halted(crawl, CrawlError::Unexpected),
        },
        PhaseView::AwaitDetailPage { page, identifiers, at, detail } => match event {
            EventView::Document { status, text } => if succeeded(status) {
                after_detail_page(crawl, page, identifiers, at, detail, text)
            } else {
                halted(crawl, CrawlError::Status(status))
            },
            EventView::Failure => halted(crawl, CrawlError::Transport),
            _ => halted(crawl, CrawlError::Unexpected),
        },
        PhaseView::Finished => (crawl, OutcomeView { row: None, command: CommandView::Finish }),
        PhaseView::Stopped(error) => (
            crawl,
            OutcomeView { row: None, command: CommandView::Stop(error) },
        ),
    }
}

/// Whether the valuation in the row of a vehicle is what its detail page
/// gives: where a detail page is answered with a row, the valuation column
/// holds `Unknown` exactly when the page has no valuation row, and the
/// digits and points of the first such row where that is all ASCII.
pub open spec fn valuation_column_as_read(
    crawl: CrawlView,
    event: EventView,
    outcome: OutcomeView,
) -> bool {
    match (crawl.phase, event, outcome.row) {
        (
            PhaseView::AwaitDetailPage { .. },
            EventView::Document { status, text },
            Some(row),
        ) => valuation_as_read(
            matched_texts(text, VALUATION_SELECTOR@),
            row[VALUATION_COLUMN as int],
        ),
        _ => true,
    }
}

/// Whether a status says that the request succeeded.
fn status_ok(status: u16) -> (ok: bool)
    ensures
        ok == succeeded(status),
{
    200 <= status && status <= 299
}

impl Crawl {
    #[verifier::type_invariant]
    spec fn inv(self) -> bool {
        well_formed(self@)
    }

    /// A crawl of `region` that has not begun.
    pub fn new(region: SearchRegion) -> (crawl: Crawl)
        ensures
            crawl@ == initial(region@),
    {
        Crawl { region, phase: Phase::Idle }
    }

    /// Whether the listing has run out.
    pub fn is_finished(&self) -> (finished: bool)
        ensures
            finished == (self@.phase is Finished),
    {
        match &self.phase {
            Phase::Finished => true,
            _ => false,
        }
    }

    /// The error that stopped the crawl, if one did.
    pub fn failure(&self) -> (error: Option<CrawlError>)
        ensures
            error == match self@.phase {
                PhaseView::Stopped(error) => Some(error),
                _ => None,
            },
    {
        match &self.phase {
            Phase::Stopped(error) => Some(*error),
            _ => None,
        }
    }

    /// The page of the listing that the crawl is at, while it is at one.
    pub fn page(&self) -> (page: Option<u64>)
        ensures
            match self@.phase {
                PhaseView::AwaitListing { page: at } => page matches Some(number) && number == at,
                PhaseView::AwaitRecord { page: at, .. } => page matches Some(number) && number
                    == at,
                PhaseView::AwaitDetailPage { page: at, .. } => page matches Some(number) && number
                    == at,
                _ => page is None,
            },
    {
        match &self.phase {
            Phase::AwaitListing { page } => Some(*page),
            Phase::AwaitRecord { page, .. } => Some(*page),
            Phase::AwaitDetailPage { page, .. } => Some(*page),
            _ => None,
        }
    }

    fn halt(region: SearchRegion, error: CrawlError) -> (result: (Crawl, Outcome))
        ensures
            (result.0@, result.1@) == halted(
                CrawlView { region: region@, phase: PhaseView::Idle },
                error,
            ),
    {
        (
            Crawl { region, phase: Phase::Stopped(error) },
            Outcome { row: None, command: Command::Stop(error) },
        )
    }

    fn on_listing(region: SearchRegion, page: u64, text: &str) -> (result: (Crawl, Outcome))
        requires
            FIRST_PAGE <= page,
        ensures
            (result.0@, result.1@) == after_listing(
                CrawlView { region: region@, phase: PhaseView::Idle },
                page as nat,
                text@,
            ),
    {
        match vehicle_identifiers(text) {
            Err(error) => Crawl::halt(region, error),
            Ok(identifiers) => {
                if identifiers.len() == 0 {
                    (
                        Crawl { region, phase: Phase::Finished },
                        Outcome { row: None, command: Command::Finish },
                    )
                } else {
                    let vin = identifiers[0].clone();
                    let url = record_address(identifiers[0].as_str());
                    (
                        Crawl { region, phase: Phase::AwaitRecord { page, identifiers, at: 0 } },
                        Outcome {
                            row: None,
                            command: Command::Fetch {
                                request: Request::Record { vin },
                                url,
                                pause_seconds: PAUSE_SECONDS,
                            },
                        },
                    )
                }
            },
        }
    }

    fn on_record(
        region: SearchRegion,
        page: u64,
        identifiers: Vec<String>,
        at: usize,
        body: &[u8],
    ) -> (result: (Crawl, Outcome))
        requires
            FIRST_PAGE <= page,
            at < identifiers@.len(),
        ensures
            (result.0@, result.1@) == after_record(
                CrawlView { region: region@, phase: PhaseView::Idle },
                page as nat,
                text_views(identifiers@),
                at as nat,
                body@,
            ),
    {
        match parse_detail(body) {
            Err(error) => Crawl::halt(region, error),
            Ok(detail) => {
                let url = detail.detail_page_url.clone();
                (
                    Crawl {
                        region,
                        phase: Phase::AwaitDetailPage { page, identifiers, at, detail },
                    },
                    Outcome {
                        row: None,
                        command: Command::Fetch {
                            request: Request::DetailPage,
                            url,
                            pause_seconds: PAUSE_SECONDS,
                        },
                    },
                )
            },
        }
    }

    fn on_detail_page(
        region: SearchRegion,
        page: u64,
        identifiers: Vec<String>,
        at: usize,
        detail: VehicleDetail,
        text: &str,
    ) -> (result: (Crawl, Outcome))
        requires
            FIRST_PAGE <= page,
            at < identifiers@.len(),
        ensures
            (result.0@, result.1@) == after_detail_page(
                CrawlView { region: region@, phase: PhaseView::Idle },
                page as nat,
                text_views(identifiers@),
                at as nat,
                detail@,
                text@,
            ),
            result.1@.row matches Some(row) ==> valuation_as_read(
                matched_texts(text@, VALUATION_SELECTOR@),
                row[VALUATION_COLUMN as int],
            ),
    {
        let mileage = match read_mileage(text) {
            Ok(mileage) => mileage,
            Err(error) => {
                return Crawl::halt(region, error);
            },
        };
        let valuation = match read_valuation(text) {
            Ok(valuation) => valuation,
            Err(error) => {
                return Crawl::halt(region, error);
            },
        };
        let record = VehicleRecord::assemble(identifiers[at].clone(), detail, mileage, valuation);
        let row = Some(record.fields());
        if at < identifiers.len() - 1 {
            let vin = identifiers[at + 1].clone();
            let url = record_address(identifiers[at + 1].as_str());
            (
                Crawl { region, phase: Phase::AwaitRecord { page, identifiers, at: at + 1 } },
                Outcome {
                    row,
                    command: Command::Fetch {
                        request: Request::Record { vin },
                        url,
                        pause_seconds: PAUSE_SECONDS,
                    },
                },
            )
        } else if page == u64::MAX {
            (
                Crawl { region, phase: Phase::Stopped(CrawlError::PageLimit) },
                Outcome { row, command: Command::Stop(CrawlError::PageLimit) },
            )
        } else {
            let url = region.listing_address(page + 1);
            (
                Crawl { region, phase: Phase::AwaitListing { page: page + 1 } },
                Outcome {
                    row,
                    command: Command::Fetch {
                        request: Request::Listing { page: page + 1 },
                        url,
                        pause_seconds: 0,
                    },
                },
            )
        }
    }

    /// Takes the crawl one step further: from where it stands and what
    /// happened to where it stands next, the row that is due and the
    /// command to carry out.
    pub fn step(self, event: Event) -> (result: (Crawl, Outcome))
        ensures
            (result.0@, result.1@) == transition(self@, event@),
            valuation_column_as_read(self@, event@, result.1@),
    {
        proof {
            use_type_invariant(&self);
        }
        let Crawl { region, phase } = self;
        match phase {
            Phase::Idle => match event {
                Event::Begin => {
                    let url = region.listing_address(FIRST_PAGE);
                    (
                        Crawl { region, phase: Phase::AwaitListing { page: FIRST_PAGE } },
                        Outcome {
                            row: Some(header_fields()),
                            command: Command::Fetch {
                                request: Request::Listing { page: FIRST_PAGE },
                                url,
                                pause_seconds: 0,
                            },
                        },
                    )
                },
                _ => Crawl::halt(region, CrawlError::Unexpected),
            },
            Phase::AwaitListing { page } => match event {
                Event::Document { status, text } => {
                    if status_ok(status) {
                        Crawl::on_listing(region, page, text.as_str())
                    } else {
                        Crawl::halt(region, CrawlError::Status(status))
                    }
                },
                Event::Failure => Crawl::halt(region, CrawlError::Transport),
                _ => Crawl::halt(region, CrawlError::Unexpected),
            },
            Phase::AwaitRecord { page, identifiers, at } => match event {
                Event::Record { status, body } => {
                    if status_ok(status) {
                        Crawl::on_record(region, page, identifiers, at, body.as_slice())
                    } else {
                        Crawl::halt(region, CrawlError::Status(status))
                    }
                },
                Event::Failure => Crawl::halt(region, CrawlError::Transport),
                _ => Crawl::halt(region, CrawlError::Unexpected),
            },
            Phase::AwaitDetailPage { page, identifiers, at, detail } => match event {
                Event::Document { status, text } => {
                    if status_ok(status) {
                        Crawl::on_detail_page(region, page, identifiers, at, detail, text.as_str())
                    } else {
                        Crawl::halt(region, CrawlError::Status(status))
                    }
                },
                Event::Failure => Crawl::halt(region, CrawlError::Transport),
                _ => Crawl::halt(region, CrawlError::Unexpected),
            },
            Phase::Finished => (
                Crawl { region, phase: Phase::Finished },
                Outcome { row: None, command: Command::Finish },
            ),
            Phase::Stopped(error) => (
                Crawl { region, phase: Phase::Stopped(error) },
                Outcome { row: None, command: Command::Stop(error) },
            ),
        }
    }
}

} // verus!

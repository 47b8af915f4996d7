//! Whole runs of a crawl, and what holds of every run.
//!
//! A run is a crawl from its beginning and the events that reached it, in
//! their order. The functions here say where a run has led and what it has
//! answered; the lemmas state what no sequence of events can break.

use vstd::prelude::*;
use crate::crawl::{
    ask_listing, initial, succeeded, transition, well_formed, CommandView, CrawlView, EventView,
    OutcomeView, PhaseView, RequestView, FIRST_PAGE,
};
use crate::listing::listed_identifiers;
use crate::crawl::PAUSE_SECONDS;
use crate::detail::detail_in;
use crate::page::{page_mileage, page_valuation};
use crate::record::{header_row, record_of, row_of, FIELD_COUNT, SITE};
use crate::region::SearchRegionView;
use crate::sink::csv_record;

verus! {

/// Where `crawl` stands after `events`.
pub open spec fn state_after(crawl: CrawlView, events: Seq<EventView>) -> CrawlView
    decreases events.len(),
{
    if events.len() == 0 {
        crawl
    } else {
        transition(state_after(crawl, events.drop_last()), events.last()).0
    }
}

/// What `crawl` answers to `events`, one outcome for each.
pub open spec fn outcomes(crawl: CrawlView, events: Seq<EventView>) -> Seq<OutcomeView>
    decreases events.len(),
{
    if events.len() == 0 {
        Seq::empty()
    } else {
        outcomes(crawl, events.drop_last()).push(
            transition(state_after(crawl, events.drop_last()), events.last()).1,
        )
    }
}

/// The pages of the listing that the outcomes ask for, in their order.
pub open spec fn listing_pages(answers: Seq<OutcomeView>) -> Seq<nat>
    decreases answers.len(),
{
    if answers.len() == 0 {
        Seq::empty()
    } else {
        match answers.last().command {
            CommandView::Fetch { request: RequestView::Listing { page }, .. } => listing_pages(
                answers.drop_last(),
            ).push(page),
            _ => listing_pages(answers.drop_last()),
        }
    }
}

/// The rows that the outcomes give out, in their order.
pub open spec fn rows(answers: Seq<OutcomeView>) -> Seq<Seq<Seq<char>>>
    decreases answers.len(),
{
    if answers.len() == 0 {
        Seq::empty()
    } else {
        match answers.last().row {
            Some(row) => rows(answers.drop_last()).push(row),
            None => rows(answers.drop_last()),
        }
    }
}

/// The lines that the rows make when each is written as one record.
pub open spec fn lines(written: Seq<Seq<Seq<char>>>) -> Seq<Seq<u8>> {
    Seq::new(written.len(), |i: int| csv_record(written[i]))
}

/// Whether a row is that of a vehicle: ten fields, the first of which names
/// the site.
pub open spec fn vehicle_row(row: Seq<Seq<char>>) -> bool {
    row.len() == FIELD_COUNT && row[0] == SITE@
}

/// Whether the crawl is waiting for an answer.
pub open spec fn waiting(crawl: CrawlView) -> bool {
    crawl.phase is AwaitListing || crawl.phase is AwaitRecord || crawl.phase is AwaitDetailPage
}

/// The page of the listing that a waiting crawl is at.
pub open spec fn current_page(crawl: CrawlView) -> nat {
    match crawl.phase {
        PhaseView::AwaitListing { page } => page,
        PhaseView::AwaitRecord { page, .. } => page,
        PhaseView::AwaitDetailPage { page, .. } => page,
        _ => 0,
    }
}

/// A run answers every event with one outcome, and the outcome at `at` is
/// what the crawl, having taken the events before it, answers to the event
/// at `at`.
pub proof fn lemma_outcome_at(crawl: CrawlView, events: Seq<EventView>, at: int)
    requires
        0 <= at < events.len(),
    ensures
        outcomes(crawl, events).len() == events.len(),
        outcomes(crawl, events)[at] == transition(state_after(crawl, events.take(at)), events[at]).1,
    decreases events.len(),
{
    lemma_outcomes_len(crawl, events);
    let shorter = events.drop_last();
    if at == events.len() - 1 {
        assert(events.take(at) == shorter);
    } else {
        lemma_outcome_at(crawl, shorter, at);
        assert(shorter.take(at) == events.take(at));
    }
}

/// A run answers every event with one outcome.
pub proof fn lemma_outcomes_len(crawl: CrawlView, events: Seq<EventView>)
    ensures
        outcomes(crawl, events).len() == events.len(),
    decreases events.len(),
{
    if events.len() > 0 {
        lemma_outcomes_len(crawl, events.drop_last());
    }
}

/// No event takes a crawl out of where a crawl can stand, and none takes it
/// back to before its beginning.
pub proof fn lemma_transition_keeps_well_formed(crawl: CrawlView, event: EventView)
    requires
        well_formed(crawl),
    ensures
        well_formed(transition(crawl, event).0),
        !(transition(crawl, event).0.phase is Idle),
        transition(crawl, event).0.region == crawl.region,
{
}

/// Every run from the beginning leads to where a crawl can stand, and
/// keeps its region.
pub proof fn lemma_run_keeps_well_formed(region: SearchRegionView, events: Seq<EventView>)
    ensures
        well_formed(state_after(initial(region), events)),
        state_after(initial(region), events).region == region,
        state_after(initial(region), events).phase is Idle <==> events.len() == 0,
    decreases events.len(),
{
    if events.len() > 0 {
        lemma_run_keeps_well_formed(region, events.drop_last());
        lemma_transition_keeps_well_formed(
            state_after(initial(region), events.drop_last()),
            events.last(),
        );
    }
}

/// A listing page that comes back with no vehicle on it ends the crawl: the
/// crawl is finished, no row goes out and nothing more is asked for.
pub proof fn lemma_empty_page_finishes(crawl: CrawlView, page: nat, status: u16, text: Seq<char>)
    requires
        crawl.phase == (PhaseView::AwaitListing { page }),
        succeeded(status),
        listed_identifiers(text) matches Some(identifiers) && identifiers.len() == 0,
    ensures
        transition(crawl, EventView::Document { status, text }).0.phase is Finished,
        transition(crawl, EventView::Document { status, text }).1 == (OutcomeView {
            row: None,
            command: CommandView::Finish,
        }),
{
}

/// A crawl finishes on nothing but a listing page that came back with no
/// vehicle on it.
pub proof fn lemma_finishes_only_on_empty_page(crawl: CrawlView, event: EventView)
    requires
        !(crawl.phase is Finished),
        transition(crawl, event).0.phase is Finished || transition(crawl, event).1.command
            is Finish,
    ensures
        crawl.phase is AwaitListing,
        event matches EventView::Document { status, text } && succeeded(status) && (
        listed_identifiers(text) matches Some(identifiers) && identifiers.len() == 0),
{
}

/// A listing page is asked for only by the beginning of a crawl, which asks
/// for the first, and by the detail page of the last vehicle of a page,
/// which asks for the page after it; and always at the address of that page.
pub proof fn lemma_listing_request_is_next_page(crawl: CrawlView, event: EventView)
    requires
        well_formed(crawl),
        transition(crawl, event).1.command matches CommandView::Fetch {
            request: RequestView::Listing { .. },
            ..
        },
    ensures
        crawl.phase is Idle || crawl.phase is AwaitDetailPage,
        transition(crawl, event).0.phase is AwaitListing,
        current_page(transition(crawl, event).0) == if crawl.phase is Idle {
            FIRST_PAGE as nat
        } else {
            current_page(crawl) + 1
        },
        transition(crawl, event).1.command == ask_listing(
            crawl.region,
            current_page(transition(crawl, event).0),
        ),
{
}

/// In every run, each request for a listing page goes to the address of
/// that page for the region of the crawl, and is sent at once.
pub proof fn lemma_listing_requests_carry_their_address(
    region: SearchRegionView,
    events: Seq<EventView>,
    at: int,
)
    requires
        0 <= at < events.len(),
        outcomes(initial(region), events)[at].command matches CommandView::Fetch {
            request: RequestView::Listing { .. },
            ..
        },
    ensures
        outcomes(initial(region), events)[at].command matches CommandView::Fetch {
            request: RequestView::Listing { page },
            ..
        } && outcomes(initial(region), events)[at].command == ask_listing(region, page),
{
    let start = initial(region);
    lemma_outcome_at(start, events, at);
    lemma_run_keeps_well_formed(region, events.take(at));
    lemma_listing_request_is_next_page(state_after(start, events.take(at)), events[at]);
}

/// A detail record and a detail page are asked for after the pause, a
/// listing page at once.
pub proof fn lemma_requests_are_paced(crawl: CrawlView, event: EventView)
    ensures
        transition(crawl, event).1.command matches CommandView::Fetch {
            request,
            pause_seconds,
            ..
        } ==> pause_seconds == if request is Listing {
            0
        } else {
            PAUSE_SECONDS as nat
        },
{
}

/// Without a request for a listing page, a crawl that goes on stays on the
/// page it is at.
pub proof fn lemma_page_stays(crawl: CrawlView, event: EventView)
    requires
        well_formed(crawl),
        !(transition(crawl, event).1.command matches CommandView::Fetch {
            request: RequestView::Listing { .. },
            ..
        }),
        waiting(transition(crawl, event).0),
    ensures
        waiting(crawl),
        current_page(transition(crawl, event).0) == current_page(crawl),
{
}

/// The pages that a run has asked for are 1, 2, 3, … without a gap, and a
/// run that is waiting for an answer is at the last page it asked for.
pub proof fn lemma_listing_pages_count_up(region: SearchRegionView, events: Seq<EventView>)
    ensures
        forall|i: int|
            0 <= i < listing_pages(outcomes(initial(region), events)).len() ==> listing_pages(
                outcomes(initial(region), events),
            )[i] == i + 1,
        waiting(state_after(initial(region), events)) ==> current_page(
            state_after(initial(region), events),
        ) == listing_pages(outcomes(initial(region), events)).len(),
        events.len() == 0 ==> listing_pages(outcomes(initial(region), events)).len() == 0,
    decreases events.len(),
{
    if events.len() > 0 {
        let shorter = events.drop_last();
        let before = state_after(initial(region), shorter);
        lemma_listing_pages_count_up(region, shorter);
        lemma_run_keeps_well_formed(region, shorter);
        let answers = outcomes(initial(region), events);
        assert(answers.drop_last() == outcomes(initial(region), shorter));
        assert(answers.last() == transition(before, events.last()).1);
        match answers.last().command {
            CommandView::Fetch { request: RequestView::Listing { page }, .. } => {
                lemma_listing_request_is_next_page(before, events.last());
            },
            _ => {
                if waiting(state_after(initial(region), events)) {
                    lemma_page_stays(before, events.last());
                }
            },
        }
    }
}

/// Once a crawl has finished or stopped, no event moves it: it gives out no
/// row and asks for nothing, whatever comes and however much of it.
pub proof fn lemma_ended_crawl_stays_ended(crawl: CrawlView, events: Seq<EventView>)
    requires
        crawl.phase is Finished || crawl.phase is Stopped,
    ensures
        state_after(crawl, events) == crawl,
        listing_pages(outcomes(crawl, events)).len() == 0,
        rows(outcomes(crawl, events)).len() == 0,
        forall|i: int|
            0 <= i < events.len() ==> (#[trigger] outcomes(crawl, events)[i]).row is None && !(
            outcomes(crawl, events)[i].command is Fetch),
    decreases events.len(),
{
    if events.len() > 0 {
        lemma_ended_crawl_stays_ended(crawl, events.drop_last());
        lemma_outcomes_len(crawl, events);
        assert(outcomes(crawl, events).drop_last() == outcomes(crawl, events.drop_last()));
    }
}

/// The header row is not the row of a vehicle.
pub proof fn lemma_header_is_no_vehicle_row()
    ensures
        !vehicle_row(header_row()),
{
    reveal_strlit("Site");
    reveal_strlit("Enterprise");
    assert(header_row()[0] == "Site"@);
    assert("Site"@.len() != "Enterprise"@.len());
}

/// Every row that a crawl gives out has ten fields. The row that begins a
/// crawl is the header; every other row is that of a vehicle, and goes out
/// on a detail page only.
pub proof fn lemma_row_is_header_or_vehicle(crawl: CrawlView, event: EventView)
    requires
        transition(crawl, event).1.row is Some,
    ensures
        transition(crawl, event).1.row->0.len() == FIELD_COUNT,
        crawl.phase is Idle ==> transition(crawl, event).1.row->0 == header_row(),
        !(crawl.phase is Idle) ==> crawl.phase is AwaitDetailPage && vehicle_row(
            transition(crawl, event).1.row->0,
        ),
{
}

/// In every run the header row precedes all others: if the run gives out a
/// row at all, the first event gave out the header, and every later row is
/// that of a vehicle with its ten fields.
pub proof fn lemma_header_comes_first(region: SearchRegionView, events: Seq<EventView>, at: int)
    requires
        0 <= at < events.len(),
        outcomes(initial(region), events)[at].row is Some,
    ensures
        outcomes(initial(region), events)[0].row == Some(header_row()),
        at > 0 ==> vehicle_row(outcomes(initial(region), events)[at].row->0),
        outcomes(initial(region), events)[at].row->0.len() == FIELD_COUNT,
{
    let start = initial(region);
    let before = state_after(start, events.take(at));
    lemma_outcome_at(start, events, at);
    lemma_row_is_header_or_vehicle(before, events[at]);
    lemma_run_keeps_well_formed(region, events.take(at));
    lemma_outcome_at(start, events, 0);
    assert(events.take(0) == Seq::<EventView>::empty());
    assert(state_after(start, events.take(0)) == start);
    if at > 0 {
        lemma_waiting_run_began(region, events.take(at));
        assert(events.take(at)[0] == events[0]);
    }
}

/// A run that is waiting for an answer began with the event that begins a
/// crawl.
pub proof fn lemma_waiting_run_began(region: SearchRegionView, events: Seq<EventView>)
    requires
        waiting(state_after(initial(region), events)),
    ensures
        events.len() > 0,
        events[0] is Begin,
    decreases events.len(),
{
    let start = initial(region);
    if events.len() > 0 {
        let shorter = events.drop_last();
        let before = state_after(start, shorter);
        if shorter.len() == 0 {
            assert(before == start);
        } else {
            lemma_run_keeps_well_formed(region, shorter);
            assert(waiting(before));
            lemma_waiting_run_began(region, shorter);
            assert(shorter[0] == events[0]);
        }
    }
}

/// What came back for one vehicle: the answer to the request for its detail
/// record and the answer to the request for its detail page.
pub struct VehicleAnswer {
    pub record_status: u16,
    pub body: Seq<u8>,
    pub page_status: u16,
    pub text: Seq<char>,
}

/// Whether both requests succeeded and both answers could be read.
pub open spec fn answered(answer: VehicleAnswer) -> bool {
    &&& succeeded(answer.record_status)
    &&& detail_in(answer.body) is Some
    &&& succeeded(answer.page_status)
    &&& page_mileage(answer.text) is Some
    &&& page_valuation(answer.text) is Some
}

/// The events that the answers make: for each vehicle its record, then its
/// detail page.
pub open spec fn answer_events(answers: Seq<VehicleAnswer>) -> Seq<EventView>
    decreases answers.len(),
{
    if answers.len() == 0 {
        Seq::empty()
    } else {
        answer_events(answers.drop_last()).push(
            EventView::Record { status: answers.last().record_status, body: answers.last().body },
        ).push(
            EventView::Document { status: answers.last().page_status, text: answers.last().text },
        )
    }
}

/// The row of the vehicle `vin` with what came back for it.
pub open spec fn answer_row(vin: Seq<char>, answer: VehicleAnswer) -> Seq<Seq<char>> {
    row_of(
        record_of(
            vin,
            detail_in(answer.body)->0,
            page_mileage(answer.text)->0,
            page_valuation(answer.text)->0,
        ),
    )
}

/// A page gives one row for each of its vehicles, in the order in which the
/// page lists them, duplicates included: after the answers for the first
/// `n` vehicles of a page the crawl has given out their `n` rows and no
/// other, and waits for the record of the next vehicle if there is one.
pub proof fn lemma_page_gives_one_row_for_each_vehicle(
    crawl: CrawlView,
    page: nat,
    identifiers: Seq<Seq<char>>,
    answers: Seq<VehicleAnswer>,
)
    requires
        crawl.phase == (PhaseView::AwaitRecord { page, identifiers, at: 0 }),
        answers.len() <= identifiers.len(),
        forall|j: int| 0 <= j < answers.len() ==> answered(#[trigger] answers[j]),
    ensures
        rows(outcomes(crawl, answer_events(answers))) == Seq::new(
            answers.len(),
            |j: int| answer_row(identifiers[j], answers[j]),
        ),
        answers.len() < identifiers.len() ==> state_after(crawl, answer_events(answers)) == (
        CrawlView {
            region: crawl.region,
            phase: PhaseView::AwaitRecord { page, identifiers, at: answers.len() },
        }),
    decreases answers.len(),
{
    let expected = Seq::new(answers.len(), |j: int| answer_row(identifiers[j], answers[j]));
    if answers.len() == 0 {
        assert(rows(outcomes(crawl, answer_events(answers))) == expected);
    } else {
        let earlier = answers.drop_last();
        let last = answers.last();
        let at = earlier.len();
        lemma_page_gives_one_row_for_each_vehicle(crawl, page, identifiers, earlier);
        let record = EventView::Record { status: last.record_status, body: last.body };
        let document = EventView::Document { status: last.page_status, text: last.text };
        let before = answer_events(earlier);
        let middle = before.push(record);
        let events = middle.push(document);
        assert(events == answer_events(answers));
        assert(events.drop_last() == middle);
        assert(middle.drop_last() == before);
        assert(answered(last));
        let first = state_after(crawl, before);
        let second = state_after(crawl, middle);
        assert(second == transition(first, record).0);
        let answers_middle = outcomes(crawl, middle);
        let answers_all = outcomes(crawl, events);
        assert(answers_middle.drop_last() == outcomes(crawl, before));
        assert(answers_middle.last().row is None);
        assert(rows(answers_middle) == rows(outcomes(crawl, before)));
        assert(answers_all.drop_last() == answers_middle);
        assert(answers_all.last() == transition(second, document).1);
        assert(answers_all.last().row == Some(answer_row(identifiers[at as int], last)));
        let earlier_rows = Seq::new(
            earlier.len(),
            |j: int| answer_row(identifiers[j], earlier[j]),
        );
        assert(earlier_rows.push(answer_row(identifiers[at as int], last)) =~= expected);
    }
}

/// Run again on the same answers, a crawl of the same region gives out the
/// same rows and, written as records, the same lines, byte for byte.
pub proof fn lemma_rerun_gives_same_rows(
    region: SearchRegionView,
    first: Seq<EventView>,
    second: Seq<EventView>,
)
    requires
        first == second,
    ensures
        outcomes(initial(region), first) == outcomes(initial(region), second),
        rows(outcomes(initial(region), first)) == rows(outcomes(initial(region), second)),
        lines(rows(outcomes(initial(region), first))) == lines(
            rows(outcomes(initial(region), second)),
        ),
{
}

} // verus!

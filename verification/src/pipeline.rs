//! The course of one lookup: reuse the cached report or fetch a new one.
//!
//! The lookup itself touches neither the file system nor the network. It
//! says what is to be done next, is told how that went, and decides from
//! there. Whoever drives it performs each request and reports back with the
//! matching event:
//!
//! | request       | event       |
//! |---------------|-------------|
//! | `ProbeCache`  | `Probed`    |
//! | `ReadCache`   | `CacheRead` |
//! | `RemoveCache` | `Removed`   |
//! | `Fetch`       | `Fetched`   |
//! | `Extract`     | `Extracted` |
//! | `WriteCache`  | `Written`   |
//!
//! An event that does not answer the pending request counts as that
//! request's failure.
//!
//! Every report that is fetched is written to the cache, also by a lookup
//! that was told not to use the cache: such a lookup does not look at what
//! the cache holds, but leaves the new report there. A report that cannot be
//! written is a failure of the lookup, although the record is at hand by
//! then.

use crate::cache::{fresh, is_fresh, CacheProbe, REFRESH_RATE};
use crate::error::WeatherError;
use crate::json::{parse, parsed_members};
use crate::weather::{
    outcome_view, raw_fields, record_in, record_of, text_of, Response, ResponseView,
};
use vstd::prelude::*;

verus! {

/// The address the provider's report is fetched from.
pub const PROVIDER_URL: &'static str = "https://wttr.in/?format=j1";

/// The jq program that reduces the provider's report to the eight fields of
/// a record.
pub const EXTRACTION_QUERY: &'static str =
    " . | { area: .nearest_area[0].areaName[0].value, temp: (.current_condition[0].temp_C)|tonumber, sens: (.current_condition[0].FeelsLikeC)|tonumber, max: (.weather[0].maxtempC)|tonumber, min: (.weather[0].mintempC)|tonumber, code: (.current_condition[0].weatherCode)|tonumber, winddir16Point: .current_condition[0].winddir16Point, windspeed: (.current_condition[0].windspeedKmph)|tonumber } ";

/// Work that the lookup asks for.
#[derive(Debug, PartialEq, Eq)]
pub enum Request {
    /// Look whether the cache file is there and how old it is.
    ProbeCache,
    /// Read the cache file.
    ReadCache,
    /// Remove the cache file.
    RemoveCache,
    /// Get the provider's report from `PROVIDER_URL`.
    Fetch,
    /// Run `EXTRACTION_QUERY` on the provider's report.
    Extract(String),
    /// Create the cache file anew with this text.
    WriteCache(String),
}

/// A `Request` as a mathematical value.
pub enum RequestView {
    ProbeCache,
    ReadCache,
    RemoveCache,
    Fetch,
    Extract(Seq<char>),
    WriteCache(Seq<char>),
}

impl View for Request {
    type V = RequestView;

    open spec fn view(&self) -> RequestView {
        match self {
            Request::ProbeCache => RequestView::ProbeCache,
            Request::ReadCache => RequestView::ReadCache,
            Request::RemoveCache => RequestView::RemoveCache,
            Request::Fetch => RequestView::Fetch,
            Request::Extract(report) => RequestView::Extract(report@),
            Request::WriteCache(text) => RequestView::WriteCache(text@),
        }
    }
}

/// How a request went. A text is `None`, and a flag `false`, where the work
/// failed.
#[derive(Debug, PartialEq, Eq)]
pub enum Event {
    /// What the look at the cache file told.
    Probed(CacheProbe),
    /// The text of the cache file.
    CacheRead(Option<String>),
    /// Whether the cache file was removed.
    Removed(bool),
    /// The provider's report.
    Fetched(Option<String>),
    /// What the extraction made of the report.
    Extracted(Option<String>),
    /// Whether the cache file was written.
    Written(bool),
}

/// An `Event` as a mathematical value.
pub enum EventView {
    Probed(CacheProbe),
    CacheRead(Option<Seq<char>>),
    Removed(bool),
    Fetched(Option<Seq<char>>),
    Extracted(Option<Seq<char>>),
    Written(bool),
}

impl View for Event {
    type V = EventView;

    open spec fn view(&self) -> EventView {
        match self {
            Event::Probed(probe) => EventView::Probed(*probe),
            Event::CacheRead(text) => EventView::CacheRead(text_of(*text)),
            Event::Removed(done) => EventView::Removed(*done),
            Event::Fetched(report) => EventView::Fetched(text_of(*report)),
            Event::Extracted(text) => EventView::Extracted(text_of(*text)),
            Event::Written(done) => EventView::Written(*done),
        }
    }
}

/// A lookup that waits for the outcome of its last request.
#[derive(Debug, PartialEq, Eq)]
pub enum Pipeline {
    /// Waits to hear of the cache file.
    Probing,
    /// Waits for the text of the cache file.
    Reading,
    /// Waits for the stale cache file to be removed.
    Removing,
    /// Waits for the provider's report.
    Fetching,
    /// Waits for the extraction.
    Extracting,
    /// Waits for the cache file to be written, with what the new text was
    /// found to hold.
    Writing(Result<Response, WeatherError>),
}

/// A `Pipeline` as a mathematical value.
pub enum PipelineView {
    Probing,
    Reading,
    Removing,
    Fetching,
    Extracting,
    Writing(Result<ResponseView, WeatherError>),
}

impl View for Pipeline {
    type V = PipelineView;

    open spec fn view(&self) -> PipelineView {
        match self {
            Pipeline::Probing => PipelineView::Probing,
            Pipeline::Reading => PipelineView::Reading,
            Pipeline::Removing => PipelineView::Removing,
            Pipeline::Fetching => PipelineView::Fetching,
            Pipeline::Extracting => PipelineView::Extracting,
            Pipeline::Writing(outcome) => PipelineView::Writing(outcome_view(*outcome)),
        }
    }
}

/// What a lookup has come to: more work, the record, or a failure.
#[derive(Debug, PartialEq, Eq)]
pub enum Step {
    /// The request is to be performed and its outcome handed to the lookup.
    Perform(Pipeline, Request),
    /// The lookup is over and this is the record.
    Finish(Response),
    /// The lookup is over and has failed.
    Fail(WeatherError),
}

/// A `Step` as a mathematical value.
pub enum StepView {
    Perform(PipelineView, RequestView),
    Finish(ResponseView),
    Fail(WeatherError),
}

impl View for Step {
    type V = StepView;

    open spec fn view(&self) -> StepView {
        match self {
            Step::Perform(pipeline, request) => StepView::Perform(pipeline@, request@),
            Step::Finish(record) => StepView::Finish(record@),
            Step::Fail(error) => StepView::Fail(*error),
        }
    }
}

/// The end of a lookup that has found what its text holds.
pub open spec fn delivered(outcome: Result<ResponseView, WeatherError>) -> StepView {
    match outcome {
        Ok(record) => StepView::Finish(record),
        Err(error) => StepView::Fail(error),
    }
}

/// How a lookup begins. Without a home directory there is no lookup, with
/// or without the cache. A lookup that is not to use the cache fetches at
/// once; any other looks at the cache file first.
pub open spec fn first_step(no_cache: bool, home_found: bool) -> StepView {
    if !home_found {
        StepView::Fail(WeatherError::HomeDirUnavailable)
    } else if no_cache {
        StepView::Perform(PipelineView::Fetching, RequestView::Fetch)
    } else {
        StepView::Perform(PipelineView::Probing, RequestView::ProbeCache)
    }
}

/// How a lookup goes on.
///
/// - A fresh cache file is read and the record in it is delivered.
/// - A stale one is removed; then, as where there is none, the provider's
///   report is fetched, reduced and written to the cache, and the record in
///   the new text is delivered once the text is written.
/// - A reduction that is no JSON document is not written.
pub open spec fn next_step(pipeline: PipelineView, event: EventView) -> StepView {
    match (pipeline, event) {
        (PipelineView::Probing, EventView::Probed(CacheProbe::Missing)) => StepView::Perform(
            PipelineView::Fetching,
            RequestView::Fetch,
        ),
        (PipelineView::Probing, EventView::Probed(CacheProbe::Found { age_secs })) => if fresh(
            age_secs as int,
        ) {
            StepView::Perform(PipelineView::Reading, RequestView::ReadCache)
        } else {
            StepView::Perform(PipelineView::Removing, RequestView::RemoveCache)
        },
        (PipelineView::Probing, _) => StepView::Fail(WeatherError::CacheIoError),
        (PipelineView::Reading, EventView::CacheRead(Some(text))) => delivered(record_in(text)),
        (PipelineView::Reading, _) => StepView::Fail(WeatherError::CacheIoError),
        (PipelineView::Removing, EventView::Removed(true)) => StepView::Perform(
            PipelineView::Fetching,
            RequestView::Fetch,
        ),
        (PipelineView::Removing, _) => StepView::Fail(WeatherError::CacheIoError),
        (PipelineView::Fetching, EventView::Fetched(Some(report))) => StepView::Perform(
            PipelineView::Extracting,
            RequestView::Extract(report),
        ),
        (PipelineView::Fetching, _) => StepView::Fail(WeatherError::NetworkError),
        (PipelineView::Extracting, EventView::Extracted(Some(text))) => match parsed_members(
            text,
        ) {
            Some(all) => StepView::Perform(
                PipelineView::Writing(record_of(raw_fields(all))),
                RequestView::WriteCache(text),
            ),
            None => StepView::Fail(WeatherError::ExtractionError),
        },
        (PipelineView::Extracting, _) => StepView::Fail(WeatherError::ExtractionError),
        (PipelineView::Writing(outcome), EventView::Written(true)) => delivered(outcome),
        (PipelineView::Writing(_), _) => StepView::Fail(WeatherError::CacheIoError),
    }
}

/// How far a waiting lookup has come.
pub open spec fn progress(pipeline: PipelineView) -> nat {
    match pipeline {
        PipelineView::Probing => 0,
        PipelineView::Reading => 1,
        PipelineView::Removing => 1,
        PipelineView::Fetching => 2,
        PipelineView::Extracting => 3,
        PipelineView::Writing(_) => 4,
    }
}

/// Where a request belongs in the course of a lookup.
pub open spec fn place(request: RequestView) -> nat {
    match request {
        RequestView::ProbeCache => 0,
        RequestView::ReadCache => 1,
        RequestView::RemoveCache => 1,
        RequestView::Fetch => 2,
        RequestView::Extract(_) => 3,
        RequestView::WriteCache(_) => 4,
    }
}

/// Whether a step asks for the work that its lookup then waits for.
pub open spec fn coherent(step: StepView) -> bool {
    step matches StepView::Perform(pipeline, request) ==> progress(pipeline) == place(request)
}

/// The requests that a lookup makes from `step` on when they are answered
/// by `events` in turn: the request of `step`, then the request that each
/// event leads to, until the lookup is over or the events have run out.
pub open spec fn requests(step: StepView, events: Seq<EventView>) -> Seq<RequestView>
    decreases events.len(),
{
    match step {
        StepView::Perform(pipeline, request) => if events.len() == 0 {
            seq![request]
        } else {
            seq![request] + requests(next_step(pipeline, events[0]), events.drop_first())
        },
        _ => Seq::empty(),
    }
}

/// What a lookup has come to from `step` on once `events` have answered its
/// requests in turn. A lookup that is over takes no more events.
pub open spec fn outcome(step: StepView, events: Seq<EventView>) -> StepView
    decreases events.len(),
{
    match step {
        StepView::Perform(pipeline, _) => if events.len() == 0 {
            step
        } else {
            outcome(next_step(pipeline, events[0]), events.drop_first())
        },
        _ => step,
    }
}

proof fn lemma_next_step_advances(pipeline: PipelineView, event: EventView)
    ensures
        coherent(next_step(pipeline, event)),
        next_step(pipeline, event) matches StepView::Perform(next, _) ==> progress(pipeline)
            < progress(next),
{
}

proof fn lemma_run_is_in_order(step: StepView, events: Seq<EventView>)
    requires
        coherent(step),
    ensures
        forall|k: int|
            0 <= k < requests(step, events).len() ==> (step matches StepView::Perform(pipeline, _)
                && progress(pipeline) <= place(#[trigger] requests(step, events)[k])),
        forall|i: int, j: int|
            0 <= i < j < requests(step, events).len() ==> place(
                #[trigger] requests(step, events)[i],
            ) < place(#[trigger] requests(step, events)[j]),
    decreases events.len(),
{
    if let StepView::Perform(pipeline, request) = step {
        if events.len() > 0 {
            let next = next_step(pipeline, events[0]);
            let rest = requests(next, events.drop_first());
            lemma_next_step_advances(pipeline, events[0]);
            lemma_run_is_in_order(next, events.drop_first());
            assert(requests(step, events) == seq![request] + rest);
            assert forall|k: int| 0 <= k < requests(step, events).len() implies progress(pipeline)
                <= place(#[trigger] requests(step, events)[k]) by {
                if k > 0 {
                    assert(requests(step, events)[k] == rest[k - 1]);
                }
            }
            assert forall|i: int, j: int| 0 <= i < j < requests(step, events).len() implies place(
                #[trigger] requests(step, events)[i],
            ) < place(#[trigger] requests(step, events)[j]) by {
                assert(requests(step, events)[j] == rest[j - 1]);
                if i > 0 {
                    assert(requests(step, events)[i] == rest[i - 1]);
                }
            }
        }
    }
}

/// Whatever the events, a lookup makes its requests in the order of their
/// places. So none is made twice, and no lookup looks at the cache file,
/// reads it, asks the provider or writes the file more than once.
pub proof fn lemma_requests_are_in_order(
    no_cache: bool,
    home_found: bool,
    events: Seq<EventView>,
    i: int,
    j: int,
)
    requires
        0 <= i < j < requests(first_step(no_cache, home_found), events).len(),
    ensures
        place(requests(first_step(no_cache, home_found), events)[i]) < place(
            requests(first_step(no_cache, home_found), events)[j],
        ),
{
    lemma_run_is_in_order(first_step(no_cache, home_found), events);
}

/// A lookup that is not to use the cache never looks at the cache file,
/// reads it or removes it, whatever the events.
pub proof fn lemma_no_cache_leaves_the_cache_unread(events: Seq<EventView>, k: int)
    requires
        0 <= k < requests(first_step(true, true), events).len(),
    ensures
        requests(first_step(true, true), events)[0] == RequestView::Fetch,
        requests(first_step(true, true), events)[k] != RequestView::ProbeCache,
        requests(first_step(true, true), events)[k] != RequestView::ReadCache,
        requests(first_step(true, true), events)[k] != RequestView::RemoveCache,
{
    lemma_run_is_in_order(first_step(true, true), events);
}

/// A cache file that is still fresh is read, and what the lookup delivers
/// is the record in the very text that was read. The file is not removed
/// and nothing is fetched.
pub proof fn lemma_fresh_cache_is_reused(age_secs: u64, text: Seq<char>)
    requires
        age_secs <= REFRESH_RATE,
    ensures
        requests(
            first_step(false, true),
            seq![
                EventView::Probed(CacheProbe::Found { age_secs }),
                EventView::CacheRead(Some(text)),
            ],
        ) == seq![RequestView::ProbeCache, RequestView::ReadCache],
        outcome(
            first_step(false, true),
            seq![
                EventView::Probed(CacheProbe::Found { age_secs }),
                EventView::CacheRead(Some(text)),
            ],
        ) == delivered(record_in(text)),
{
    let events = seq![
        EventView::Probed(CacheProbe::Found { age_secs }),
        EventView::CacheRead(Some(text)),
    ];
    let tail = seq![EventView::CacheRead(Some(text))];
    assert(events.drop_first() == tail);
    assert(tail.drop_first() == Seq::<EventView>::empty());
    reveal_with_fuel(requests, 3);
    reveal_with_fuel(outcome, 3);
}

/// A cache file that is stale is not read: it is removed, and once it is
/// gone the provider is asked.
pub proof fn lemma_stale_cache_is_removed(age_secs: u64)
    requires
        age_secs > REFRESH_RATE,
    ensures
        requests(
            first_step(false, true),
            seq![EventView::Probed(CacheProbe::Found { age_secs }), EventView::Removed(true)],
        ) == seq![RequestView::ProbeCache, RequestView::RemoveCache, RequestView::Fetch],
{
    let events = seq![EventView::Probed(CacheProbe::Found { age_secs }), EventView::Removed(true)];
    let tail = seq![EventView::Removed(true)];
    assert(events.drop_first() == tail);
    assert(tail.drop_first() == Seq::<EventView>::empty());
    reveal_with_fuel(requests, 4);
}

/// Without a cache file the provider is asked once, the reduced report is
/// written to the cache as it came, and the record in it is delivered.
pub proof fn lemma_cold_start_fills_the_cache(report: Seq<char>, text: Seq<char>)
    requires
        parsed_members(text) is Some,
    ensures
        requests(
            first_step(false, true),
            seq![
                EventView::Probed(CacheProbe::Missing),
                EventView::Fetched(Some(report)),
                EventView::Extracted(Some(text)),
                EventView::Written(true),
            ],
        ) == seq![
            RequestView::ProbeCache,
            RequestView::Fetch,
            RequestView::Extract(report),
            RequestView::WriteCache(text),
        ],
        outcome(
            first_step(false, true),
            seq![
                EventView::Probed(CacheProbe::Missing),
                EventView::Fetched(Some(report)),
                EventView::Extracted(Some(text)),
                EventView::Written(true),
            ],
        ) == delivered(record_in(text)),
{
    let e0 = seq![
        EventView::Probed(CacheProbe::Missing),
        EventView::Fetched(Some(report)),
        EventView::Extracted(Some(text)),
        EventView::Written(true),
    ];
    let e1 = seq![
        EventView::Fetched(Some(report)),
        EventView::Extracted(Some(text)),
        EventView::Written(true),
    ];
    let e2 = seq![EventView::Extracted(Some(text)), EventView::Written(true)];
    let e3 = seq![EventView::Written(true)];
    assert(e0.drop_first() == e1);
    assert(e1.drop_first() == e2);
    assert(e2.drop_first() == e3);
    assert(e3.drop_first() == Seq::<EventView>::empty());
    reveal_with_fuel(requests, 6);
    reveal_with_fuel(outcome, 6);
}

fn deliver(outcome: Result<Response, WeatherError>) -> (step: Step)
    ensures
        step@ == delivered(outcome_view(outcome)),
{
    match outcome {
        Ok(record) => Step::Finish(record),
        Err(error) => Step::Fail(error),
    }
}

impl Pipeline {
    /// Begins a lookup.
    pub fn start(no_cache: bool, home_found: bool) -> (step: Step)
        ensures
            step@ == first_step(no_cache, home_found),
    {
        if !home_found {
            Step::Fail(WeatherError::HomeDirUnavailable)
        } else if no_cache {
            Step::Perform(Pipeline::Fetching, Request::Fetch)
        } else {
            Step::Perform(Pipeline::Probing, Request::ProbeCache)
        }
    }

    /// Takes the outcome of the pending request and decides how to go on.
    pub fn step(self, event: Event) -> (step: Step)
        ensures
            step@ == next_step(self@, event@),
    {
        match self {
            Pipeline::Probing => match event {
                Event::Probed(CacheProbe::Missing) => Step::Perform(
                    Pipeline::Fetching,
                    Request::Fetch,
                ),
                Event::Probed(CacheProbe::Found { age_secs }) => if is_fresh(age_secs) {
                    Step::Perform(Pipeline::Reading, Request::ReadCache)
                } else {
                    Step::Perform(Pipeline::Removing, Request::RemoveCache)
                },
                _ => Step::Fail(WeatherError::CacheIoError),
            },
            Pipeline::Reading => match event {
                Event::CacheRead(Some(text)) => deliver(Response::from_json(text.as_str())),
                _ => Step::Fail(WeatherError::CacheIoError),
            },
            Pipeline::Removing => match event {
                Event::Removed(true) => Step::Perform(Pipeline::Fetching, Request::Fetch),
                _ => Step::Fail(WeatherError::CacheIoError),
            },
            Pipeline::Fetching => match event {
                Event::Fetched(Some(report)) => Step::Perform(
                    Pipeline::Extracting,
                    Request::Extract(report),
                ),
                _ => Step::Fail(WeatherError::NetworkError),
            },
            Pipeline::Extracting => match event {
                Event::Extracted(Some(text)) => match parse(text.as_str()) {
                    Ok(document) => Step::Perform(
                        Pipeline::Writing(Response::from_document(&document)),
                        Request::WriteCache(text),
                    ),
                    Err(_) => Step::Fail(WeatherError::ExtractionError),
                },
                _ => Step::Fail(WeatherError::ExtractionError),
            },
            Pipeline::Writing(outcome) => match event {
                Event::Written(true) => deliver(outcome),
                _ => Step::Fail(WeatherError::CacheIoError),
            },
        }
    }
}

} // verus!

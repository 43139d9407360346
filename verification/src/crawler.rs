//! The staged crawl of one endpoint. A crawler holds an ordered list of
//! stages and goes through them in order. Requests are made outside the
//! library: a crawl is a state that asks for one request at a time and is
//! handed the answer.

use crate::error::{Error, ErrorView};
use crate::headers::{add_header, has_name, header_entries, is_value};
use crate::reqwest_layer::Response;
use crate::queries::dataflows_path;
use crate::stage::{body_checked, rendered, Stage, StructureDocument};
use crate::structure::DataflowTypeElement;
use crate::text::texts;
use crate::urls::{join_url, parse_url, url_joined, url_parsed};
use http::HeaderMap;
use vstd::prelude::*;
use vstd::string::StringExecFns;
use vstd::utf8::{encode_utf8, is_ascii_chars_encode_utf8};

verus! {

/// The step of a stage at which a crawl failed.
#[derive(Debug, Clone, Copy, PartialEq, Eq, Structural)]
pub enum Step {
    /// Asking the stage for its URIs.
    BuildUri,
    /// Resolving a URI against the base URL.
    Resolve,
    /// Making the request.
    Transport,
    /// Archiving the exchange.
    Archive,
    /// Extracting from the answer.
    Extract,
}

impl Step {
    /// The step in words.
    pub open spec fn spec_words(self) -> Seq<char> {
        match self {
            Step::BuildUri => "naming its requests"@,
            Step::Resolve => "resolving a request"@,
            Step::Transport => "making a request"@,
            Step::Archive => "archiving an exchange"@,
            Step::Extract => "extracting from an answer"@,
        }
    }

    /// The step in words.
    pub fn words(&self) -> (out: String)
        ensures
            out@ == self.spec_words(),
    {
        match self {
            Step::BuildUri => "naming its requests".to_owned(),
            Step::Resolve => "resolving a request".to_owned(),
            Step::Transport => "making a request".to_owned(),
            Step::Archive => "archiving an exchange".to_owned(),
            Step::Extract => "extracting from an answer".to_owned(),
        }
    }
}

/// Why a crawl failed.
#[derive(Debug, Clone)]
pub enum CrawlError {
    /// The endpoint could not be read as a base URL.
    Endpoint(Error),
    /// A step of a stage failed: the index and the name of the stage, the
    /// step, and the error where the step has one to give.
    Stage { stage: usize, name: String, step: Step, cause: Option<Error> },
}

/// A crawl error as a value of specifications.
pub enum CrawlErrorView {
    Endpoint(ErrorView),
    Stage { stage: usize, name: Seq<char>, step: Step, cause: Option<ErrorView> },
}

impl View for CrawlError {
    type V = CrawlErrorView;

    open spec fn view(&self) -> CrawlErrorView {
        match self {
            CrawlError::Endpoint(e) => CrawlErrorView::Endpoint(e@),
            CrawlError::Stage { stage, name, step, cause } => CrawlErrorView::Stage {
                stage: *stage,
                name: name@,
                step: *step,
                cause: match cause {
                    Some(e) => Some(e@),
                    None => None,
                },
            },
        }
    }
}

impl CrawlErrorView {
    /// What the error says: which stage failed at which step, and why.
    pub open spec fn message(self) -> Seq<char> {
        match self {
            CrawlErrorView::Endpoint(e) => e.message(),
            CrawlErrorView::Stage { stage, name, step, cause } => {
                let what = "Stage "@ + name + " failed at "@ + step.spec_words();
                match cause {
                    Some(e) => what + ": "@ + e.message(),
                    None => what,
                }
            },
        }
    }
}

impl CrawlError {
    /// The error in words.
    pub fn message(&self) -> (out: String)
        ensures
            out@ == self@.message(),
    {
        match self {
            CrawlError::Endpoint(e) => e.message(),
            CrawlError::Stage { stage: _, name, step, cause } => {
                let words = step.words();
                let what = "Stage ".to_owned().concat(name.as_str()).concat(" failed at ").concat(
                    words.as_str(),
                );
                match cause {
                    Some(e) => {
                        let why = e.message();
                        what.concat(": ").concat(why.as_str())
                    },
                    None => what,
                }
            },
        }
    }
}

/// Where a crawl stands.
#[derive(Debug, Clone, Copy, PartialEq, Eq, Structural)]
pub enum CrawlState {
    /// Not started.
    Idle,
    /// In the stage of the given index, waiting for an answer.
    Running(usize),
    /// Every stage is done.
    Completed,
    /// A step failed; the crawl goes no further.
    Failed,
}

/// A crawl of one endpoint. While it runs it holds the URIs of its stage,
/// how many of them have been answered, and what the stage has extracted so
/// far; once completed, what the last stage extracted.
#[derive(Debug)]
pub struct Crawl {
    pub state: CrawlState,
    pub base_url: String,
    pub uris: Vec<String>,
    pub answered: usize,
    pub gathered: Vec<String>,
}

/// A crawl as a value of specifications.
pub struct CrawlView {
    pub state: CrawlState,
    pub base_url: Seq<char>,
    pub uris: Seq<Seq<char>>,
    pub answered: usize,
    pub gathered: Seq<Seq<char>>,
}

impl View for Crawl {
    type V = CrawlView;

    open spec fn view(&self) -> CrawlView {
        CrawlView {
            state: self.state,
            base_url: self.base_url@,
            uris: texts(self.uris@),
            answered: self.answered,
            gathered: texts(self.gathered@),
        }
    }
}

/// What happened outside the library, to be handed to a crawl.
#[derive(Debug)]
pub enum Event {
    /// The crawl of the given endpoint is to start.
    Start(String),
    /// The request was answered: the response, and the document read from
    /// its body where one could be read.
    Answer(Response, Option<StructureDocument>),
    /// The request got no answer.
    TransportFailed,
    /// The exchange could not be archived.
    ArchiveFailed,
}

/// What a crawl asks for.
#[derive(Debug)]
pub enum Action {
    /// Request the URL and hand back the answer.
    Fetch(String),
    /// Nothing more: the crawl has completed.
    Done,
    /// Nothing more: the crawl has failed.
    Fail(CrawlError),
    /// Nothing: the event does not fit the state of the crawl.
    Nothing,
}

/// An action as a value of specifications.
pub enum ActionView {
    Fetch(Seq<char>),
    Done,
    Fail(CrawlErrorView),
    Nothing,
}

impl View for Action {
    type V = ActionView;

    open spec fn view(&self) -> ActionView {
        match self {
            Action::Fetch(url) => ActionView::Fetch(url@),
            Action::Done => ActionView::Done,
            Action::Fail(e) => ActionView::Fail(e@),
            Action::Nothing => ActionView::Nothing,
        }
    }
}

/// A crawl that is between stages or at its end: no URIs, nothing answered.
pub open spec fn at_rest(
    state: CrawlState,
    base_url: Seq<char>,
    gathered: Seq<Seq<char>>,
) -> CrawlView {
    CrawlView { state, base_url, uris: Seq::empty(), answered: 0, gathered }
}

/// The crawl as it is, failed.
pub open spec fn failed(crawl: CrawlView) -> CrawlView {
    CrawlView { state: CrawlState::Failed, ..crawl }
}

/// The failure of a step of a stage.
pub open spec fn failure(
    stages: Seq<Stage>,
    stage: int,
    step: Step,
    cause: Option<ErrorView>,
) -> ActionView {
    ActionView::Fail(
        CrawlErrorView::Stage {
            stage: stage as usize,
            name: stages[stage].spec_name(),
            step,
            cause,
        },
    )
}

/// Asking for URI number `at` of a stage: the URI is resolved against the
/// base URL and requested. A URI that cannot be resolved fails the crawl.
pub open spec fn request(
    stages: Seq<Stage>,
    base_url: Seq<char>,
    stage: int,
    uris: Seq<Seq<char>>,
    at: int,
    gathered: Seq<Seq<char>>,
) -> (CrawlView, ActionView) {
    let crawl = CrawlView {
        state: CrawlState::Running(stage as usize),
        base_url,
        uris,
        answered: at as usize,
        gathered,
    };
    match url_joined(base_url, uris[at]) {
        Some(url) => (crawl, ActionView::Fetch(url)),
        None => (
            failed(crawl),
            failure(stages, stage, Step::Resolve, Some(ErrorView::InvalidUrl(uris[at]))),
        ),
    }
}

/// Entering a stage with what the stage before it extracted. Behind the
/// last stage the crawl is complete. A stage that names no URI is passed
/// over and hands nothing on; otherwise its first URI is asked for.
pub open spec fn enter(
    stages: Seq<Stage>,
    base_url: Seq<char>,
    stage: int,
    prior: Seq<Seq<char>>,
) -> (CrawlView, ActionView)
    decreases stages.len() - stage,
{
    if stage < 0 || stage >= stages.len() {
        (at_rest(CrawlState::Completed, base_url, prior), ActionView::Done)
    } else {
        match stages[stage].uris(prior) {
            Err(e) => (
                at_rest(CrawlState::Failed, base_url, prior),
                failure(stages, stage, Step::BuildUri, Some(e)),
            ),
            Ok(uris) => if uris.len() == 0 {
                enter(stages, base_url, stage + 1, Seq::empty())
            } else {
                request(stages, base_url, stage, uris, 0, Seq::empty())
            },
        }
    }
}

/// The stage that a crawl waits in for an answer, where it waits for one:
/// it is running in a stage of the list and has a URI that is not answered.
pub open spec fn waiting(stages: Seq<Stage>, crawl: CrawlView) -> Option<int> {
    match crawl.state {
        CrawlState::Running(stage) => if stage < stages.len() && crawl.answered
            < crawl.uris.len() {
            Some(stage as int)
        } else {
            None
        },
        _ => None,
    }
}

/// What an event makes of a crawl, and what the crawl asks for then.
///
/// A start takes an idle crawl into its first stage, with one empty text as
/// what came before; an endpoint that is no URL fails it. An answer is
/// handed to the stage that waits for it: what the stage extracts is added
/// to what it has gathered, and the next URI of the stage is asked for, or
/// the next stage entered with what was gathered. A failed extraction, a
/// request without answer and a failed archival fail the crawl. An event
/// that does not fit the state changes nothing.
pub open spec fn next(stages: Seq<Stage>, crawl: CrawlView, event: Event) -> (
    CrawlView,
    ActionView,
) {
    match event {
        Event::Start(endpoint) => if crawl.state is Idle {
            match url_parsed(endpoint@) {
                Some(base_url) => enter(stages, base_url, 0, seq![Seq::empty()]),
                None => (
                    failed(crawl),
                    ActionView::Fail(CrawlErrorView::Endpoint(ErrorView::InvalidUrl(endpoint@))),
                ),
            }
        } else {
            (crawl, ActionView::Nothing)
        },
        Event::Answer(response, document) => match waiting(stages, crawl) {
            Some(stage) => match stages[stage].extracted(response, document) {
                Err(e) => (failed(crawl), failure(stages, stage, Step::Extract, Some(e))),
                Ok(records) => if crawl.answered + 1 < crawl.uris.len() {
                    request(
                        stages,
                        crawl.base_url,
                        stage,
                        crawl.uris,
                        crawl.answered + 1,
                        crawl.gathered + records,
                    )
                } else {
                    enter(stages, crawl.base_url, stage + 1, crawl.gathered + records)
                },
            },
            None => (crawl, ActionView::Nothing),
        },
        Event::TransportFailed => match waiting(stages, crawl) {
            Some(stage) => (failed(crawl), failure(stages, stage, Step::Transport, None)),
            None => (crawl, ActionView::Nothing),
        },
        Event::ArchiveFailed => match waiting(stages, crawl) {
            Some(stage) => (failed(crawl), failure(stages, stage, Step::Archive, None)),
            None => (crawl, ActionView::Nothing),
        },
    }
}

/// A crawl that has completed or failed is at its end: no event changes it,
/// and it asks for nothing.
pub proof fn lemma_ended_crawl_stays(stages: Seq<Stage>, crawl: CrawlView, event: Event)
    requires
        crawl.state is Completed || crawl.state is Failed,
    ensures
        next(stages, crawl, event) == (crawl, ActionView::Nothing),
{
}

/// Entering a stage asks for a request only from a stage of the list, and
/// ends in completion or failure otherwise.
proof fn lemma_enter(stages: Seq<Stage>, base_url: Seq<char>, stage: int, prior: Seq<Seq<char>>)
    requires
        0 <= stage,
        stages.len() <= usize::MAX,
    ensures
        ({
            let (crawl, action) = enter(stages, base_url, stage, prior);
            match action {
                ActionView::Fetch(_) => waiting(stages, crawl) is Some,
                ActionView::Done => crawl.state is Completed,
                ActionView::Fail(_) => crawl.state is Failed,
                ActionView::Nothing => false,
            }
        }),
    decreases stages.len() - stage,
{
    if stage < stages.len() {
        match stages[stage].uris(prior) {
            Ok(uris) => {
                if uris.len() == 0 {
                    lemma_enter(stages, base_url, stage + 1, Seq::empty());
                }
            },
            Err(_) => {},
        }
    }
}

/// What a crawl asks for tells where it stands: a crawl that asks for a
/// request waits in a stage for the answer, one that is done has completed,
/// and one that reports a failure has failed. This holds after every event,
/// for every list of stages that a crawler can hold and every crawl with
/// no more URIs than a vector can hold.
pub proof fn lemma_action_tells_state(stages: Seq<Stage>, crawl: CrawlView, event: Event)
    requires
        stages.len() <= usize::MAX,
        crawl.uris.len() <= usize::MAX,
    ensures
        ({
            let (after, action) = next(stages, crawl, event);
            match action {
                ActionView::Fetch(_) => waiting(stages, after) is Some,
                ActionView::Done => after.state is Completed,
                ActionView::Fail(_) => after.state is Failed,
                ActionView::Nothing => after == crawl,
            }
        }),
{
    match event {
        Event::Start(endpoint) => {
            if crawl.state is Idle && url_parsed(endpoint@) is Some {
                lemma_enter(stages, url_parsed(endpoint@)->0, 0, seq![Seq::empty()]);
            }
        },
        Event::Answer(response, document) => {
            match waiting(stages, crawl) {
                Some(stage) => {
                    match stages[stage].extracted(response, document) {
                        Ok(records) => {
                            if crawl.answered + 1 >= crawl.uris.len() {
                                lemma_enter(
                                    stages,
                                    crawl.base_url,
                                    stage + 1,
                                    crawl.gathered + records,
                                );
                            }
                        },
                        Err(_) => {},
                    }
                },
                None => {},
            }
        },
        _ => {},
    }
}

/// Entering a stage leads to a request in that stage or a later one, at its
/// first URI.
proof fn lemma_enter_order(
    stages: Seq<Stage>,
    base_url: Seq<char>,
    stage: int,
    prior: Seq<Seq<char>>,
)
    requires
        0 <= stage,
        stages.len() <= usize::MAX,
    ensures
        waiting(stages, enter(stages, base_url, stage, prior).0) matches Some(reached) ==> stage
            <= reached && enter(stages, base_url, stage, prior).0.answered == 0,
    decreases stages.len() - stage,
{
    if stage < stages.len() {
        match stages[stage].uris(prior) {
            Ok(uris) => {
                if uris.len() == 0 {
                    lemma_enter_order(stages, base_url, stage + 1, Seq::empty());
                }
            },
            Err(_) => {},
        }
    }
}

/// Stages are gone through in their order and the URIs of a stage in
/// theirs: an answer takes a crawl that goes on either to the next URI of
/// the same stage, or to the first URI of a later stage.
pub proof fn lemma_answer_advances(
    stages: Seq<Stage>,
    crawl: CrawlView,
    response: Response,
    document: Option<StructureDocument>,
)
    requires
        stages.len() <= usize::MAX,
        crawl.uris.len() <= usize::MAX,
        waiting(stages, crawl) is Some,
        waiting(stages, next(stages, crawl, Event::Answer(response, document)).0) is Some,
    ensures
        ({
            let after = next(stages, crawl, Event::Answer(response, document)).0;
            let from = waiting(stages, crawl)->0;
            let to = waiting(stages, after)->0;
            ||| to == from && after.uris == crawl.uris && after.answered == crawl.answered + 1
            ||| to > from && after.answered == 0
        }),
{
    let stage = waiting(stages, crawl)->0;
    match stages[stage].extracted(response, document) {
        Ok(records) => {
            if crawl.answered + 1 >= crawl.uris.len() {
                lemma_enter_order(stages, crawl.base_url, stage + 1, crawl.gathered + records);
            }
        },
        Err(_) => {},
    }
}

/// A crawl of the one stage that asks for the dataflows: the start asks for
/// the dataflows of the endpoint, and the answer completes the crawl with
/// one record for each dataflow that the document lists, in their order.
pub proof fn lemma_dataflow_crawl(
    endpoint: String,
    response: Response,
    elements: Vec<DataflowTypeElement>,
)
    requires
        url_parsed(endpoint@) is Some,
        url_joined(url_parsed(endpoint@)->0, dataflows_path()) is Some,
        body_checked(response) is Ok,
    ensures
        ({
            let stages = seq![Stage::Dataflow];
            let idle = at_rest(CrawlState::Idle, Seq::empty(), Seq::empty());
            let (started, asked) = next(stages, idle, Event::Start(endpoint));
            let document = Some(StructureDocument { dataflows: Some(elements) });
            let (ended, last) = next(stages, started, Event::Answer(response, document));
            &&& started.state == CrawlState::Running(0)
            &&& asked == ActionView::Fetch(
                url_joined(url_parsed(endpoint@)->0, dataflows_path())->0,
            )
            &&& ended.state == CrawlState::Completed
            &&& last == ActionView::Done
            &&& ended.gathered == rendered(elements@)
            &&& ended.gathered.len() == elements@.len()
        }),
{
    let stages = seq![Stage::Dataflow];
    let base = url_parsed(endpoint@)->0;
    assert(stages[0].uris(seq![Seq::empty()]) == Ok::<Seq<Seq<char>>, ErrorView>(
        seq![dataflows_path()],
    ));
    reveal_with_fuel(enter, 2);
    let started = next(
        stages,
        at_rest(CrawlState::Idle, Seq::empty(), Seq::empty()),
        Event::Start(endpoint),
    ).0;
    assert(started.uris == seq![dataflows_path()]);
    assert(waiting(stages, started) == Some(0int));
    assert(Seq::<Seq<char>>::empty() + rendered(elements@) =~= rendered(elements@));
}

/// The user agent that a crawler of the given name and version presents.
pub open spec fn user_agent_of(name: Seq<char>, version: Seq<char>) -> Seq<char> {
    "Mozilla/5.0 (compatible; "@ + name + "/"@ + version + ")"@
}

/// A crawler: its name and version, the user agent made of them, whether
/// its exchanges are archived, and its stages in order.
#[derive(Debug)]
pub struct Crawler {
    name: String,
    version: String,
    user_agent: String,
    warc_write: bool,
    stages: Vec<Stage>,
}

impl Crawl {
    /// A crawl that has not started.
    pub fn new() -> (out: Crawl)
        ensures
            out@ == at_rest(CrawlState::Idle, Seq::empty(), Seq::empty()),
    {
        let out = Crawl {
            state: CrawlState::Idle,
            base_url: String::new(),
            uris: Vec::new(),
            answered: 0,
            gathered: Vec::new(),
        };
        assert(out@.uris =~= Seq::empty() && out@.gathered =~= Seq::empty());
        out
    }

    /// The same crawl, failed.
    fn fail(self) -> (out: Crawl)
        ensures
            out@ == failed(self@),
    {
        let Crawl { state: _, base_url, uris, answered, gathered } = self;
        Crawl { state: CrawlState::Failed, base_url, uris, answered, gathered }
    }
}

impl Crawler {
    /// The name of the crawler.
    pub closed spec fn spec_name(&self) -> Seq<char> {
        self.name@
    }

    /// The version of the crawler.
    pub closed spec fn spec_version(&self) -> Seq<char> {
        self.version@
    }

    /// The user agent that the crawler presents: the one made of its name
    /// and version.
    pub open spec fn spec_user_agent(&self) -> Seq<char> {
        user_agent_of(self.spec_name(), self.spec_version())
    }

    /// Whether the exchanges of the crawler are archived.
    pub closed spec fn spec_warc_write(&self) -> bool {
        self.warc_write
    }

    /// The stages of the crawler, in order.
    pub closed spec fn spec_stages(&self) -> Seq<Stage> {
        self.stages@
    }

    /// The user agent held is the one made of name and version.
    #[verifier::type_invariant]
    spec fn user_agent_is_derived(&self) -> bool {
        self.user_agent@ == user_agent_of(self.name@, self.version@)
    }

    /// A crawler of the given name, version and stages.
    pub fn new(name: String, version: String, warc_write: bool, stages: Vec<Stage>) -> (out:
        Crawler)
        ensures
            out.spec_name() == name@,
            out.spec_version() == version@,
            out.spec_warc_write() == warc_write,
            out.spec_stages() == stages@,
    {
        let user_agent = "Mozilla/5.0 (compatible; ".to_owned().concat(name.as_str()).concat(
            "/",
        ).concat(version.as_str()).concat(")");
        Crawler { name, version, user_agent, warc_write, stages }
    }

    /// The name of the crawler.
    pub fn name(&self) -> (out: &String)
        ensures
            out@ == self.spec_name(),
    {
        &self.name
    }

    /// The version of the crawler.
    pub fn version(&self) -> (out: &String)
        ensures
            out@ == self.spec_version(),
    {
        &self.version
    }

    /// The user agent that the crawler presents.
    pub fn user_agent(&self) -> (out: &String)
        ensures
            out@ == self.spec_user_agent(),
    {
        proof {
            use_type_invariant(self);
        }
        &self.user_agent
    }

    /// Whether the exchanges of the crawler are to be archived.
    pub fn warc_write(&self) -> (out: bool)
        ensures
            out == self.spec_warc_write(),
    {
        self.warc_write
    }

    /// The stages of the crawler, in order.
    pub fn stages(&self) -> (out: &Vec<Stage>)
        ensures
            out@ == self.spec_stages(),
    {
        &self.stages
    }

    /// The headers that every request of the crawler carries: it accepts
    /// JSON and presents its user agent. The headers are owed wherever a
    /// header can hold the user agent, that is where its bytes are tabs or
    /// from the space upward, but DEL; where it cannot, the header is named.
    pub fn request_headers(&self) -> (out: Result<HeaderMap, Error>)
        ensures
            out is Ok <==> is_value(encode_utf8(self.spec_user_agent())),
            match out {
                Ok(headers) => header_entries(headers) == seq![
                    ("accept"@, encode_utf8("application/json"@)),
                    ("user-agent"@, encode_utf8(self.spec_user_agent())),
                ],
                Err(Error::HeaderRefused(name)) => name@ == "user-agent"@,
                Err(_) => false,
            },
    {
        let mut headers = HeaderMap::new();
        proof {
            use_type_invariant(self);
            reveal_strlit("accept");
            reveal_strlit("user-agent");
            reveal_strlit("application/json");
            is_ascii_chars_encode_utf8("application/json"@);
        }
        if !add_header(&mut headers, "accept", "application/json") {
            return Err(Error::HeaderRefused("accept".to_owned()));
        }
        assert(!has_name(header_entries(headers), "user-agent"@)) by {
            assert("accept"@.len() != "user-agent"@.len());
        }
        if !add_header(&mut headers, "user-agent", self.user_agent.as_str()) {
            return Err(Error::HeaderRefused("user-agent".to_owned()));
        }
        Ok(headers)
    }

    /// The failure of a step of a stage of this crawler.
    fn failure(&self, stage: usize, step: Step, cause: Option<Error>) -> (out: Action)
        requires
            stage < self.stages.len(),
        ensures
            out@ == failure(
                self.stages@,
                stage as int,
                step,
                match cause {
                    Some(e) => Some(e@),
                    None => None,
                },
            ),
    {
        Action::Fail(CrawlError::Stage { stage, name: self.stages[stage].name(), step, cause })
    }

    /// Asks for URI number `at` of a stage.
    fn request(
        &self,
        base_url: String,
        stage: usize,
        uris: Vec<String>,
        at: usize,
        gathered: Vec<String>,
    ) -> (out: (Crawl, Action))
        requires
            stage < self.stages.len(),
            at < uris.len(),
        ensures
            (out.0@, out.1@) == request(
                self.stages@,
                base_url@,
                stage as int,
                texts(uris@),
                at as int,
                texts(gathered@),
            ),
    {
        match join_url(base_url.as_str(), uris[at].as_str()) {
            Ok(url) => (
                Crawl { state: CrawlState::Running(stage), base_url, uris, answered: at, gathered },
                Action::Fetch(url),
            ),
            Err(_) => {
                let cause = Error::InvalidUrl(uris[at].clone());
                (
                    Crawl { state: CrawlState::Failed, base_url, uris, answered: at, gathered },
                    self.failure(stage, Step::Resolve, Some(cause)),
                )
            },
        }
    }

    /// Enters a stage with what the stage before it extracted.
    fn enter(&self, base_url: String, first: usize, prior: Vec<String>) -> (out: (Crawl, Action))
        ensures
            (out.0@, out.1@) == enter(self.stages@, base_url@, first as int, texts(prior@)),
    {
        let ghost goal = enter(self.stages@, base_url@, first as int, texts(prior@));
        let mut stage = first;
        let mut before = prior;
        loop
            invariant
                goal == enter(self.stages@, base_url@, first as int, texts(prior@)),
                enter(self.stages@, base_url@, stage as int, texts(before@)) == goal,
            decreases self.stages.len() - stage,
        {
            if stage >= self.stages.len() {
                let done = Crawl {
                    state: CrawlState::Completed,
                    base_url,
                    uris: Vec::new(),
                    answered: 0,
                    gathered: before,
                };
                assert(done@.uris =~= Seq::empty());
                return (done, Action::Done);
            }
            match self.stages[stage].get_uri(&before) {
                Err(e) => {
                    let halted = Crawl {
                        state: CrawlState::Failed,
                        base_url,
                        uris: Vec::new(),
                        answered: 0,
                        gathered: before,
                    };
                    return (halted, self.failure(stage, Step::BuildUri, Some(e)));
                },
                Ok(uris) => {
                    if uris.len() == 0 {
                        stage = stage + 1;
                        before = Vec::new();
                    } else {
                        let gathered: Vec<String> = Vec::new();
                        assert(texts(gathered@) =~= Seq::empty());
                        return self.request(base_url, stage, uris, 0, gathered);
                    }
                },
            }
        }
    }

    /// Starts the crawl of an endpoint: the endpoint is read as the base
    /// URL, and the first stage is entered.
    pub fn crawl(&self, endpoint: String) -> (out: (Crawl, Action))
        ensures
            (out.0@, out.1@) == next(
                self.spec_stages(),
                at_rest(CrawlState::Idle, Seq::empty(), Seq::empty()),
                Event::Start(endpoint),
            ),
    {
        self.step(Crawl::new(), Event::Start(endpoint))
    }

    /// Hands an event to a crawl: the crawl moves on as the event has it,
    /// and says what it asks for next.
    pub fn step(&self, crawl: Crawl, event: Event) -> (out: (Crawl, Action))
        ensures
            (out.0@, out.1@) == next(self.spec_stages(), crawl@, event),
    {
        let waiting_in = match crawl.state {
            CrawlState::Running(stage) => if stage < self.stages.len() && crawl.answered
                < crawl.uris.len() {
                Some(stage)
            } else {
                None
            },
            _ => None,
        };
        match event {
            Event::Start(endpoint) => {
                match crawl.state {
                    CrawlState::Idle => {},
                    _ => { return (crawl, Action::Nothing); },
                }
                match parse_url(endpoint.as_str()) {
                    Ok(base_url) => {
                        let mut seed: Vec<String> = Vec::new();
                        seed.push(String::new());
                        assert(texts(seed@) =~= seq![Seq::empty()]);
                        self.enter(base_url, 0, seed)
                    },
                    Err(_) => (
                        crawl.fail(),
                        Action::Fail(CrawlError::Endpoint(Error::InvalidUrl(endpoint))),
                    ),
                }
            },
            Event::Answer(response, document) => {
                let stage = match waiting_in {
                    Some(stage) => stage,
                    None => { return (crawl, Action::Nothing); },
                };
                match self.stages[stage].extract_relevant(&response, document) {
                    Err(e) => (crawl.fail(), self.failure(stage, Step::Extract, Some(e))),
                    Ok(records) => {
                        let Crawl { state: _, base_url, uris, answered, gathered } = crawl;
                        let ghost before = texts(gathered@);
                        let ghost added = texts(records@);
                        let mut gathered = gathered;
                        let mut records = records;
                        gathered.append(&mut records);
                        assert(texts(gathered@) =~= before + added);
                        if answered + 1 < uris.len() {
                            self.request(base_url, stage, uris, answered + 1, gathered)
                        } else {
                            self.enter(base_url, stage + 1, gathered)
                        }
                    },
                }
            },
            Event::TransportFailed => match waiting_in {
                Some(stage) => (crawl.fail(), self.failure(stage, Step::Transport, None)),
                None => (crawl, Action::Nothing),
            },
            Event::ArchiveFailed => match waiting_in {
                Some(stage) => (crawl.fail(), self.failure(stage, Step::Archive, None)),
                None => (crawl, Action::Nothing),
            },
        }
    }
}

impl Default for Crawler {
    /// The crawler of this library: one stage, which asks for the
    /// dataflows; exchanges are archived.
    fn default() -> (out: Crawler)
        ensures
            out.spec_name() == "sdmxblaze"@,
            out.spec_version() == "1.0"@,
            out.spec_warc_write(),
            out.spec_stages() == seq![Stage::Dataflow],
    {
        let mut stages: Vec<Stage> = Vec::new();
        stages.push(Stage::Dataflow);
        Crawler::new("sdmxblaze".to_owned(), "1.0".to_owned(), true, stages)
    }
}

} // verus!

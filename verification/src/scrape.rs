//! The scrape orchestrator: one leased tab is driven through navigate,
//! wait-ready, extract and format, under one overall time budget.
//!
//! The orchestrator is a state machine. It names the step to perform next;
//! whoever drives it performs the step against the tab and reports what came of
//! it. The overall budget is an event like any other: when it arrives first, the
//! scrape ends with a timeout, whatever step was under way.

use crate::error::{AppError, AppResult, ErrorModel};
use crate::markdown::{convert, converted_text, markdown_of};
use crate::models::{OutputFormat, PageExtractResult, PageMetadata};
use crate::text::{decimal, decimal_text};
use vstd::prelude::*;

verus! {

/// The overall time budget of one scrape, in seconds.
pub const BROWSER_TIMEOUT_SECS: u64 = 10;

/// How long the page body may take to appear once navigation has completed,
/// in seconds.
pub const BODY_WAIT_SECS: u64 = 5;

/// The element whose presence marks a page as ready.
pub const BODY_SELECTOR: &'static str = "body";

/// The script that is evaluated in the page. It returns, as JSON text, the
/// document title (empty if absent), every `og:*` meta tag's property with its
/// content, and the outer HTML of the body element (an empty body if the page
/// has none).
pub const EXTRACTION_SCRIPT: &'static str = r#"
                JSON.stringify((() => {
                    const og = {};
                    const metaTags = document.querySelectorAll('meta[property^="og:"]');
                    for (let i = 0; i < metaTags.length; i++) {
                        const tag = metaTags[i];
                        const prop = tag.getAttribute('property');
                        const content = tag.getAttribute('content');
                        if (prop && content) {
                            og[prop] = content;
                        }
                    }
                    return {
                        title: document.title || '',
                        og_tags: og,
                        body_html: document.body ? document.body.outerHTML : '<body></body>'
                    };
                })())
            "#;

/// Where a scrape stands: the step whose outcome is awaited.
#[derive(Debug, Clone, Copy, PartialEq, Eq, Structural)]
pub enum ScrapePhase {
    /// The tab was told to load the address.
    Navigate,
    /// Navigation is under way.
    AwaitNavigation,
    /// The page body is awaited.
    AwaitBody,
    /// The extraction script is being evaluated.
    Evaluate,
    /// The script's JSON text is being parsed.
    Parse,
    /// The scrape has ended and its result was handed out.
    Finished,
}

/// How far a phase is along the way of a scrape.
pub open spec fn phase_rank(phase: ScrapePhase) -> nat {
    match phase {
        ScrapePhase::Navigate => 0,
        ScrapePhase::AwaitNavigation => 1,
        ScrapePhase::AwaitBody => 2,
        ScrapePhase::Evaluate => 3,
        ScrapePhase::Parse => 4,
        ScrapePhase::Finished => 5,
    }
}

/// What the evaluation of the extraction script gave.
#[derive(Debug)]
pub enum Evaluation {
    /// The script returned no value.
    Missing,
    /// The script returned a value that is not a string.
    NotText,
    /// The script returned this text.
    Text(String),
}

/// What happened to the step that was asked for.
#[derive(Debug)]
pub enum ScrapeEvent {
    /// The step succeeded and has nothing to hand over.
    Done,
    /// The browser failed the step, with this message.
    Failed(String),
    /// The extraction script was evaluated.
    Evaluated(Evaluation),
    /// The script's text was parsed, or could not be, with this message.
    Parsed(Result<PageExtractResult, String>),
    /// The worker that ran the step was lost, with this message.
    WorkerLost(String),
    /// The overall time budget ran out.
    TimedOut,
}

/// What to do next.
#[derive(Debug)]
pub enum ScrapeAction {
    /// Tell the tab to load this address.
    Navigate(String),
    /// Wait until navigation has completed.
    WaitUntilNavigated,
    /// Wait until an element exists, for at most so many seconds.
    WaitForElement { selector: &'static str, timeout_secs: u64 },
    /// Evaluate this script in the page.
    Evaluate(&'static str),
    /// Parse this JSON text into a page extract.
    Parse(String),
    /// Stop: this is the result of the scrape.
    Finish(AppResult<(PageMetadata, String)>),
    /// The event answers no pending step: carry on as before.
    Ignored,
}

/// An action with its texts as characters.
pub enum ActionModel {
    Navigate(Seq<char>),
    WaitUntilNavigated,
    WaitForElement { selector: Seq<char>, timeout_secs: u64 },
    Evaluate(Seq<char>),
    Parse(Seq<char>),
    Finish(Result<(PageMetadata, Seq<char>), ErrorModel>),
    Ignored,
}

/// The result of a scrape with its texts as characters.
pub open spec fn outcome_view(outcome: AppResult<(PageMetadata, String)>) -> Result<
    (PageMetadata, Seq<char>),
    ErrorModel,
> {
    match outcome {
        Ok((metadata, content)) => Ok((metadata, content@)),
        Err(error) => Err(error@),
    }
}

impl View for ScrapeAction {
    type V = ActionModel;

    open spec fn view(&self) -> ActionModel {
        match self {
            ScrapeAction::Navigate(url) => ActionModel::Navigate(url@),
            ScrapeAction::WaitUntilNavigated => ActionModel::WaitUntilNavigated,
            ScrapeAction::WaitForElement { selector, timeout_secs } => ActionModel::WaitForElement {
                selector: selector@,
                timeout_secs: *timeout_secs,
            },
            ScrapeAction::Evaluate(script) => ActionModel::Evaluate(script@),
            ScrapeAction::Parse(text) => ActionModel::Parse(text@),
            ScrapeAction::Finish(outcome) => ActionModel::Finish(outcome_view(*outcome)),
            ScrapeAction::Ignored => ActionModel::Ignored,
        }
    }
}

/// One scrape as plain values.
pub struct JobModel {
    pub url: Seq<char>,
    pub output_format: OutputFormat,
    pub timeout_secs: u64,
    pub phase: ScrapePhase,
}

/// The metadata that an extract carries.
pub open spec fn metadata_of(extract: PageExtractResult) -> PageMetadata {
    PageMetadata { title: extract.title, og_tags: extract.og_tags }
}

/// The end of a Markdown scrape, given what the conversion returned: the
/// converted text, or an internal error with the conversion's message.
pub open spec fn markdown_outcome(
    metadata: PageMetadata,
    converted: Result<Seq<char>, Seq<char>>,
) -> Result<(PageMetadata, Seq<char>), ErrorModel> {
    match converted {
        Ok(markdown) => Ok((metadata, markdown)),
        Err(message) => Err(ErrorModel::Internal("Markdown conversion failed: "@ + message)),
    }
}

/// The result of the format step: raw markup goes out unchanged, Markdown is
/// what the conversion of the body markup gives.
pub open spec fn rendered(extract: PageExtractResult, output_format: OutputFormat) -> Result<
    (PageMetadata, Seq<char>),
    ErrorModel,
> {
    match output_format {
        OutputFormat::Html => Ok((metadata_of(extract), extract.body_html@)),
        OutputFormat::Markdown => markdown_outcome(
            metadata_of(extract),
            markdown_of(extract.body_html@),
        ),
    }
}

/// The message of the timeout error of a scrape.
pub open spec fn timeout_message(url: Seq<char>, timeout_secs: u64) -> Seq<char> {
    "Timeout after "@ + decimal(timeout_secs as nat) + "s: "@ + url
}

/// The scrape ends with a browser error.
pub open spec fn browser_failure(prefix: Seq<char>, detail: Seq<char>) -> (ScrapePhase, ActionModel) {
    (ScrapePhase::Finished, ActionModel::Finish(Err(ErrorModel::Browser(prefix + detail))))
}

/// The transition of the orchestrator: the phase after an event, and what to
/// do next.
pub open spec fn step(job: JobModel, event: ScrapeEvent) -> (ScrapePhase, ActionModel) {
    if job.phase == ScrapePhase::Finished {
        (ScrapePhase::Finished, ActionModel::Ignored)
    } else {
        match event {
            ScrapeEvent::TimedOut => (
                ScrapePhase::Finished,
                ActionModel::Finish(
                    Err(ErrorModel::Timeout(timeout_message(job.url, job.timeout_secs))),
                ),
            ),
            ScrapeEvent::WorkerLost(detail) => (
                ScrapePhase::Finished,
                ActionModel::Finish(Err(ErrorModel::Internal("Task join error: "@ + detail@))),
            ),
            ScrapeEvent::Done => match job.phase {
                ScrapePhase::Navigate => (
                    ScrapePhase::AwaitNavigation,
                    ActionModel::WaitUntilNavigated,
                ),
                ScrapePhase::AwaitNavigation => (
                    ScrapePhase::AwaitBody,
                    ActionModel::WaitForElement {
                        selector: BODY_SELECTOR@,
                        timeout_secs: BODY_WAIT_SECS,
                    },
                ),
                ScrapePhase::AwaitBody => (
                    ScrapePhase::Evaluate,
                    ActionModel::Evaluate(EXTRACTION_SCRIPT@),
                ),
                _ => (job.phase, ActionModel::Ignored),
            },
            ScrapeEvent::Failed(detail) => match job.phase {
                ScrapePhase::Navigate => browser_failure("Navigation failed: "@, detail@),
                ScrapePhase::AwaitNavigation => browser_failure(
                    "Navigation wait failed: "@,
                    detail@,
                ),
                ScrapePhase::AwaitBody => browser_failure("Body element wait failed: "@, detail@),
                ScrapePhase::Evaluate => browser_failure("JS evaluation failed: "@, detail@),
                _ => (job.phase, ActionModel::Ignored),
            },
            ScrapeEvent::Evaluated(evaluation) => if job.phase == ScrapePhase::Evaluate {
                match evaluation {
                    Evaluation::Missing => browser_failure("No JS result"@, Seq::empty()),
                    Evaluation::NotText => browser_failure("Invalid JS result type"@, Seq::empty()),
                    Evaluation::Text(text) => (ScrapePhase::Parse, ActionModel::Parse(text@)),
                }
            } else {
                (job.phase, ActionModel::Ignored)
            },
            ScrapeEvent::Parsed(parsed) => if job.phase == ScrapePhase::Parse {
                match parsed {
                    Ok(extract) => (
                        ScrapePhase::Finished,
                        ActionModel::Finish(rendered(extract, job.output_format)),
                    ),
                    Err(detail) => browser_failure("JS result parse failed: "@, detail@),
                }
            } else {
                (job.phase, ActionModel::Ignored)
            },
        }
    }
}

/// Whatever step is under way, the end of the overall time budget ends the
/// scrape at once, with a timeout error that names the budget and the address.
pub proof fn lemma_timeout_ends_scrape(job: JobModel)
    requires
        job.phase != ScrapePhase::Finished,
    ensures
        step(job, ScrapeEvent::TimedOut) == (
            ScrapePhase::Finished,
            ActionModel::Finish(Err(ErrorModel::Timeout(timeout_message(job.url, job.timeout_secs)))),
        ),
{
}

/// A scrape that has ended stays ended: every later event is ignored, so its
/// result is handed out once.
pub proof fn lemma_finished_scrape_ignores_events(job: JobModel, event: ScrapeEvent)
    requires
        job.phase == ScrapePhase::Finished,
    ensures
        step(job, event) == (ScrapePhase::Finished, ActionModel::Ignored),
{
}

/// Every event that is taken in either ends the scrape or moves it one step
/// forward; an event that is ignored leaves it where it stands.
pub proof fn lemma_scrape_moves_forward(job: JobModel, event: ScrapeEvent)
    ensures
        step(job, event).1 is Ignored ==> step(job, event).0 == job.phase,
        step(job, event).1 is Finish <==> (step(job, event).0 == ScrapePhase::Finished
            && job.phase != ScrapePhase::Finished),
        phase_rank(step(job, event).0) >= phase_rank(job.phase),
{
}

/// Raw output is the body markup, unchanged, under the metadata of the
/// extract.
pub proof fn lemma_raw_output_is_unchanged(extract: PageExtractResult)
    ensures
        rendered(extract, OutputFormat::Html) == Ok::<(PageMetadata, Seq<char>), ErrorModel>(
            (metadata_of(extract), extract.body_html@),
        ),
{
}

/// The end of a Markdown scrape, given what the conversion returned.
pub fn finish_markdown(metadata: PageMetadata, converted: Result<String, String>) -> (outcome:
    AppResult<(PageMetadata, String)>)
    ensures
        outcome_view(outcome) == markdown_outcome(metadata, converted_text(converted)),
{
    match converted {
        Ok(markdown) => Ok((metadata, markdown)),
        Err(message) => Err(
            AppError::Internal(
                String::from_str("Markdown conversion failed: ").concat(message.as_str()),
            ),
        ),
    }
}

/// The format step: turns an extract into metadata and content of the
/// requested form.
pub fn render(extract: PageExtractResult, output_format: OutputFormat) -> (outcome: AppResult<
    (PageMetadata, String),
>)
    ensures
        outcome_view(outcome) == rendered(extract, output_format),
{
    let PageExtractResult { title, og_tags, body_html } = extract;
    let metadata = PageMetadata { title, og_tags };
    match output_format {
        OutputFormat::Html => Ok((metadata, body_html)),
        OutputFormat::Markdown => {
            let converted = convert(body_html.as_str());
            finish_markdown(metadata, converted)
        },
    }
}

/// One scrape of one address on one leased tab.
#[derive(Debug)]
pub struct ScrapeJob {
    url: String,
    output_format: OutputFormat,
    timeout_secs: u64,
    phase: ScrapePhase,
}

impl View for ScrapeJob {
    type V = JobModel;

    closed spec fn view(&self) -> JobModel {
        JobModel {
            url: self.url@,
            output_format: self.output_format,
            timeout_secs: self.timeout_secs,
            phase: self.phase,
        }
    }
}

/// A browser error whose message is a prefix followed by a detail.
fn browser_error(prefix: &str, detail: &str) -> (error: AppError)
    ensures
        error@ == ErrorModel::Browser(prefix@ + detail@),
{
    AppError::Browser(String::from_str(prefix).concat(detail))
}

impl ScrapeJob {
    /// Begins a scrape of `url` with the default time budget. The first
    /// action is to navigate there.
    pub fn start(url: &str, output_format: OutputFormat) -> (begun: (ScrapeJob, ScrapeAction))
        ensures
            begun.0@ == (JobModel {
                url: url@,
                output_format,
                timeout_secs: BROWSER_TIMEOUT_SECS,
                phase: ScrapePhase::Navigate,
            }),
            begun.1@ == ActionModel::Navigate(url@),
    {
        let job = ScrapeJob {
            url: String::from_str(url),
            output_format,
            timeout_secs: BROWSER_TIMEOUT_SECS,
            phase: ScrapePhase::Navigate,
        };
        (job, ScrapeAction::Navigate(String::from_str(url)))
    }

    /// The step whose outcome is awaited.
    pub fn phase(&self) -> (phase: ScrapePhase)
        ensures
            phase == self@.phase,
    {
        self.phase
    }

    /// The overall time budget, in seconds, measured from the moment the tab
    /// was leased.
    pub fn timeout_secs(&self) -> (timeout_secs: u64)
        ensures
            timeout_secs == self@.timeout_secs,
    {
        self.timeout_secs
    }

    /// Whether the scrape has ended.
    pub fn is_finished(&self) -> (finished: bool)
        ensures
            finished == (self@.phase == ScrapePhase::Finished),
    {
        match self.phase {
            ScrapePhase::Finished => true,
            _ => false,
        }
    }

    /// The timeout error of this scrape.
    fn timeout_error(&self) -> (error: AppError)
        ensures
            error@ == ErrorModel::Timeout(timeout_message(self.url@, self.timeout_secs)),
    {
        let message = String::from_str("Timeout after ").concat(
            decimal_text(self.timeout_secs).as_str(),
        ).concat("s: ").concat(self.url.as_str());
        AppError::Timeout(message)
    }

    /// Takes in what happened and says what to do next.
    pub fn advance(&mut self, event: ScrapeEvent) -> (action: ScrapeAction)
        ensures
            action@ == step(old(self)@, event).1,
            final(self)@ == (JobModel { phase: step(old(self)@, event).0, ..old(self)@ }),
    {
        if self.is_finished() {
            return ScrapeAction::Ignored;
        }
        match event {
            ScrapeEvent::TimedOut => {
                let error = self.timeout_error();
                self.phase = ScrapePhase::Finished;
                ScrapeAction::Finish(Err(error))
            },
            ScrapeEvent::WorkerLost(detail) => {
                self.phase = ScrapePhase::Finished;
                ScrapeAction::Finish(
                    Err(
                        AppError::Internal(
                            String::from_str("Task join error: ").concat(detail.as_str()),
                        ),
                    ),
                )
            },
            ScrapeEvent::Done => match self.phase {
                ScrapePhase::Navigate => {
                    self.phase = ScrapePhase::AwaitNavigation;
                    ScrapeAction::WaitUntilNavigated
                },
                ScrapePhase::AwaitNavigation => {
                    self.phase = ScrapePhase::AwaitBody;
                    ScrapeAction::WaitForElement {
                        selector: BODY_SELECTOR,
                        timeout_secs: BODY_WAIT_SECS,
                    }
                },
                ScrapePhase::AwaitBody => {
                    self.phase = ScrapePhase::Evaluate;
                    ScrapeAction::Evaluate(EXTRACTION_SCRIPT)
                },
                _ => ScrapeAction::Ignored,
            },
            ScrapeEvent::Failed(detail) => {
                let prefix = match self.phase {
                    ScrapePhase::Navigate => "Navigation failed: ",
                    ScrapePhase::AwaitNavigation => "Navigation wait failed: ",
                    ScrapePhase::AwaitBody => "Body element wait failed: ",
                    ScrapePhase::Evaluate => "JS evaluation failed: ",
                    _ => {
                        return ScrapeAction::Ignored;
                    },
                };
                self.phase = ScrapePhase::Finished;
                ScrapeAction::Finish(Err(browser_error(prefix, detail.as_str())))
            },
            ScrapeEvent::Evaluated(evaluation) => match self.phase {
                ScrapePhase::Evaluate => match evaluation {
                    Evaluation::Missing => {
                        self.phase = ScrapePhase::Finished;
                        ScrapeAction::Finish(Err(AppError::Browser(String::from_str("No JS result"))))
                    },
                    Evaluation::NotText => {
                        self.phase = ScrapePhase::Finished;
                        ScrapeAction::Finish(
                            Err(AppError::Browser(String::from_str("Invalid JS result type"))),
                        )
                    },
                    Evaluation::Text(text) => {
                        self.phase = ScrapePhase::Parse;
                        ScrapeAction::Parse(text)
                    },
                },
                _ => ScrapeAction::Ignored,
            },
            ScrapeEvent::Parsed(parsed) => match self.phase {
                ScrapePhase::Parse => {
                    self.phase = ScrapePhase::Finished;
                    match parsed {
                        Ok(extract) => ScrapeAction::Finish(render(extract, self.output_format)),
                        Err(detail) => ScrapeAction::Finish(
                            Err(browser_error("JS result parse failed: ", detail.as_str())),
                        ),
                    }
                },
                _ => ScrapeAction::Ignored,
            },
        }
    }
}

} // verus!

use vstd::prelude::*;
use crate::bullets::texts;
use crate::error::ScrapeError;
use crate::jobresult::JobRecord;
use crate::jobresult::JobResult;
use crate::json::item_text;

verus! {

/// One question for the model: the instruction, where it is not the default
/// one, and the text to analyze.
pub struct Question {
    pub prompt: Option<String>,
    pub payload: String,
}

/// The mathematical counterpart of a [`Question`].
pub ghost struct QuestionModel {
    pub prompt: Option<Seq<char>>,
    pub payload: Seq<char>,
}

impl View for Question {
    type V = QuestionModel;

    open spec fn view(&self) -> QuestionModel {
        QuestionModel { prompt: item_text(self.prompt), payload: self.payload@ }
    }
}

/// Where link discovery stands: the links are known, with the cost of
/// finding them, or the model has to be asked first.
pub enum LinkStep {
    Done(Vec<String>, u64),
    Ask(Question),
}

/// The mathematical counterpart of a [`LinkStep`].
pub ghost enum LinkStepModel {
    Done(Seq<Seq<char>>, u64),
    Ask(QuestionModel),
}

impl View for LinkStep {
    type V = LinkStepModel;

    open spec fn view(&self) -> LinkStepModel {
        match self {
            LinkStep::Done(links, cost) => LinkStepModel::Done(texts(links@), *cost),
            LinkStep::Ask(question) => LinkStepModel::Ask(question@),
        }
    }
}

/// Where the parsing of one posting stands: the record is made, or the model
/// has to be asked first.
pub enum JobStep {
    Done(JobResult),
    Ask(Question),
}

/// The mathematical counterpart of a [`JobStep`].
pub ghost enum JobStepModel {
    Done(JobRecord),
    Ask(QuestionModel),
}

impl View for JobStep {
    type V = JobStepModel;

    open spec fn view(&self) -> JobStepModel {
        match self {
            JobStep::Done(job) => JobStepModel::Done(job@),
            JobStep::Ask(question) => JobStepModel::Ask(question@),
        }
    }
}

/// The model's answer as a contract sees it: its text and the cost of the
/// call.
pub open spec fn answer_view(answer: Option<(&str, u64)>) -> Option<(Seq<char>, u64)> {
    match answer {
        Some((text, cost)) => Some((text@, cost)),
        None => None,
    }
}

/// The outcome of a discovery step as a contract sees it.
pub open spec fn link_outcome(step: Result<LinkStep, ScrapeError>) -> Result<
    LinkStepModel,
    ScrapeError,
> {
    match step {
        Ok(s) => Ok(s@),
        Err(e) => Err(e),
    }
}

/// The outcome of a parsing step as a contract sees it.
pub open spec fn job_outcome(step: Result<JobStep, ScrapeError>) -> Result<JobStepModel, ScrapeError> {
    match step {
        Ok(s) => Ok(s@),
        Err(e) => Err(e),
    }
}

/// What a site strategy decides. Fetching pages and asking the model is the
/// caller's work: each operation takes the fetched page and the model's
/// answer, if the caller has one yet, and either finishes or says what to
/// ask. Called again with the answer, it finishes or fails.
pub trait Scraper {
    /// What discovery gives for a seed address, its page and the answer.
    spec fn job_links(
        &self,
        url: Seq<char>,
        page: Seq<char>,
        answer: Option<(Seq<char>, u64)>,
    ) -> Result<LinkStepModel, ScrapeError>;

    /// What parsing gives for a posting's page and the answer.
    spec fn job_details(&self, page: Seq<char>, answer: Option<(Seq<char>, u64)>) -> Result<
        JobStepModel,
        ScrapeError,
    >;

    /// Finds the job links of a seed page.
    fn fetch_job_links(&self, url: &str, page: &str, answer: Option<(&str, u64)>) -> (step: Result<
        LinkStep,
        ScrapeError,
    >)
        ensures
            link_outcome(step) == self.job_links(url@, page@, answer_view(answer)),
            answer is Some ==> !(link_outcome(step) matches Ok(LinkStepModel::Ask(_))),
    ;

    /// Turns the page of one posting into a record.
    fn parse_job_details(&self, page: &str, answer: Option<(&str, u64)>) -> (step: Result<
        JobStep,
        ScrapeError,
    >)
        ensures
            job_outcome(step) == self.job_details(page@, answer_view(answer)),
            answer is Some ==> !(job_outcome(step) matches Ok(JobStepModel::Ask(_))),
    ;
}

} // verus!

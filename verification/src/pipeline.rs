use vstd::prelude::*;
use crate::bullets::texts;
use crate::error::ScrapeError;
use crate::jobresult::JobRecord;
use crate::jobresult::JobResult;

verus! {

/// Where a run stands.
#[derive(Clone, Copy, Debug, PartialEq, Eq, Structural)]
pub enum Stage {
    /// Nothing has been asked for yet.
    Init,
    /// The seed pages are being searched for links.
    LinkDiscovery,
    /// The discovered postings are being fetched and parsed.
    DetailFetchParse,
    /// Every posting has been accounted for; the totals can be drawn.
    Aggregate,
    /// The results are final.
    Done,
}

/// A seed page or a posting that was dropped from the run, and why.
#[derive(Clone, Debug)]
pub struct Failure {
    pub url: String,
    pub error: ScrapeError,
}

impl View for Failure {
    type V = (Seq<char>, ScrapeError);

    open spec fn view(&self) -> (Seq<char>, ScrapeError) {
        (self.url@, self.error)
    }
}

/// The mathematical counterpart of a [`Pipeline`].
pub ghost struct PipelineModel {
    pub stage: Stage,
    /// How many seed pages the run was begun with.
    pub seeds: nat,
    /// How many outcomes of the current stage are still due.
    pub awaited: nat,
    /// The discovered links, in the order in which they came in.
    pub links: Seq<Seq<char>>,
    /// The cost of each discovery that succeeded.
    pub link_costs: Seq<u64>,
    /// The seed pages whose discovery failed.
    pub failed_seeds: Seq<(Seq<char>, ScrapeError)>,
    /// The records of the postings that were parsed.
    pub results: Seq<JobRecord>,
    /// The postings that were dropped.
    pub failed_links: Seq<(Seq<char>, ScrapeError)>,
}

/// The sum of a list of costs.
pub open spec fn sum_of(costs: Seq<u64>) -> nat
    decreases costs.len(),
{
    if costs.len() == 0 {
        0
    } else {
        sum_of(costs.drop_last()) + costs.last() as nat
    }
}

/// The cost of each record, in order.
pub open spec fn costs_of(results: Seq<JobRecord>) -> Seq<u64> {
    results.map_values(|job: JobRecord| job.api_cost)
}

/// The outcome of one discovery as a contract sees it.
pub open spec fn links_view(outcome: Result<(Vec<String>, u64), ScrapeError>) -> Result<
    (Seq<Seq<char>>, u64),
    ScrapeError,
> {
    match outcome {
        Ok((links, cost)) => Ok((texts(links@), cost)),
        Err(e) => Err(e),
    }
}

/// The outcome of one posting as a contract sees it.
pub open spec fn job_view(outcome: Result<JobResult, ScrapeError>) -> Result<JobRecord, ScrapeError> {
    match outcome {
        Ok(job) => Ok(job@),
        Err(e) => Err(e),
    }
}

impl PipelineModel {
    /// A run that has not begun.
    pub open spec fn fresh() -> PipelineModel {
        PipelineModel {
            stage: Stage::Init,
            seeds: 0,
            awaited: 0,
            links: Seq::empty(),
            link_costs: Seq::empty(),
            failed_seeds: Seq::empty(),
            results: Seq::empty(),
            failed_links: Seq::empty(),
        }
    }

    /// Every task that has reported is accounted for exactly once, as a
    /// success or as a failure, and nothing of a later stage exists before
    /// that stage.
    pub open spec fn inv(self) -> bool {
        match self.stage {
            Stage::Init => self == Self::fresh(),
            Stage::LinkDiscovery => {
                &&& self.link_costs.len() + self.failed_seeds.len() + self.awaited == self.seeds
                &&& self.results.len() == 0
                &&& self.failed_links.len() == 0
            },
            Stage::DetailFetchParse => {
                &&& self.link_costs.len() + self.failed_seeds.len() == self.seeds
                &&& self.results.len() + self.failed_links.len() + self.awaited
                    == self.links.len()
            },
            Stage::Aggregate | Stage::Done => {
                &&& self.link_costs.len() + self.failed_seeds.len() == self.seeds
                &&& self.results.len() + self.failed_links.len() == self.links.len()
                &&& self.awaited == 0
            },
        }
    }

    /// Whether `begin` is due.
    pub open spec fn can_begin(self) -> bool {
        self.stage == Stage::Init
    }

    /// Whether the outcome of a discovery is due.
    pub open spec fn awaits_links(self) -> bool {
        self.stage == Stage::LinkDiscovery && self.awaited > 0
    }

    /// Whether every discovery has reported, so that the postings can be
    /// taken up.
    pub open spec fn can_begin_details(self) -> bool {
        self.stage == Stage::LinkDiscovery && self.awaited == 0
    }

    /// Whether the outcome of a posting is due.
    pub open spec fn awaits_job(self) -> bool {
        self.stage == Stage::DetailFetchParse && self.awaited > 0
    }

    /// Whether every posting has reported.
    pub open spec fn can_aggregate(self) -> bool {
        self.stage == Stage::DetailFetchParse && self.awaited == 0
    }

    /// Whether the totals can be drawn.
    pub open spec fn can_finish(self) -> bool {
        self.stage == Stage::Aggregate
    }

    /// The run after it was begun with `seeds` seed pages.
    pub open spec fn begun(self, seeds: nat) -> PipelineModel {
        if self.can_begin() {
            PipelineModel { stage: Stage::LinkDiscovery, seeds, awaited: seeds, ..self }
        } else {
            self
        }
    }

    /// The run after the discovery for `seed` reported: its links are added
    /// behind those already there and its cost is noted, or the seed is
    /// noted as failed. Nothing else changes.
    pub open spec fn links_recorded(
        self,
        seed: Seq<char>,
        outcome: Result<(Seq<Seq<char>>, u64), ScrapeError>,
    ) -> PipelineModel {
        if self.awaits_links() {
            match outcome {
                Ok((links, cost)) => PipelineModel {
                    awaited: (self.awaited - 1) as nat,
                    links: self.links + links,
                    link_costs: self.link_costs.push(cost),
                    ..self
                },
                Err(e) => PipelineModel {
                    awaited: (self.awaited - 1) as nat,
                    failed_seeds: self.failed_seeds.push((seed, e)),
                    ..self
                },
            }
        } else {
            self
        }
    }

    /// The run after the postings were taken up: one outcome is due for
    /// every discovered link.
    pub open spec fn details_begun(self) -> PipelineModel {
        if self.can_begin_details() {
            PipelineModel { stage: Stage::DetailFetchParse, awaited: self.links.len(), ..self }
        } else {
            self
        }
    }

    /// The run after the posting at `link` reported: its record is added
    /// behind those already there, or the link is noted as failed. Nothing
    /// else changes.
    pub open spec fn job_recorded(self, link: Seq<char>, outcome: Result<JobRecord, ScrapeError>)
        -> PipelineModel {
        if self.awaits_job() {
            match outcome {
                Ok(job) => PipelineModel {
                    awaited: (self.awaited - 1) as nat,
                    results: self.results.push(job),
                    ..self
                },
                Err(e) => PipelineModel {
                    awaited: (self.awaited - 1) as nat,
                    failed_links: self.failed_links.push((link, e)),
                    ..self
                },
            }
        } else {
            self
        }
    }

    /// The run after every posting has reported.
    pub open spec fn aggregated(self) -> PipelineModel {
        if self.can_aggregate() {
            PipelineModel { stage: Stage::Aggregate, ..self }
        } else {
            self
        }
    }

    /// The run after its totals were drawn.
    pub open spec fn finished(self) -> PipelineModel {
        if self.can_finish() {
            PipelineModel { stage: Stage::Done, ..self }
        } else {
            self
        }
    }

    /// The cost of the whole run: what the discoveries cost and what the
    /// records cost.
    pub open spec fn total_cost(self) -> nat {
        sum_of(self.link_costs) + sum_of(costs_of(self.results))
    }
}

/// The character sequences and errors of a list of failures.
pub open spec fn failures_view(failures: Seq<Failure>) -> Seq<(Seq<char>, ScrapeError)> {
    failures.map_values(|failure: Failure| failure@)
}

/// The records of a list of results.
pub open spec fn records_of(results: Seq<JobResult>) -> Seq<JobRecord> {
    results.map_values(|job: JobResult| job@)
}

/// The one place where the outcomes of a run's tasks come together. Tasks
/// report in any order; a task that failed is noted and dropped, and never
/// touches what the others brought.
pub struct Pipeline {
    stage: Stage,
    seeds: usize,
    awaited: usize,
    links: Vec<String>,
    link_costs: Vec<u64>,
    failed_seeds: Vec<Failure>,
    results: Vec<JobResult>,
    failed_links: Vec<Failure>,
}

impl View for Pipeline {
    type V = PipelineModel;

    closed spec fn view(&self) -> PipelineModel {
        PipelineModel {
            stage: self.stage,
            seeds: self.seeds as nat,
            awaited: self.awaited as nat,
            links: texts(self.links@),
            link_costs: self.link_costs@,
            failed_seeds: failures_view(self.failed_seeds@),
            results: records_of(self.results@),
            failed_links: failures_view(self.failed_links@),
        }
    }
}

impl Pipeline {
    /// A run that has not begun.
    pub fn new() -> (run: Self)
        ensures
            run@ == PipelineModel::fresh(),
            run@.inv(),
    {
        let run = Pipeline {
            stage: Stage::Init,
            seeds: 0,
            awaited: 0,
            links: Vec::new(),
            link_costs: Vec::new(),
            failed_seeds: Vec::new(),
            results: Vec::new(),
            failed_links: Vec::new(),
        };
        proof {
            assert(run@.links =~= Seq::<Seq<char>>::empty());
            assert(run@.failed_seeds =~= Seq::<(Seq<char>, ScrapeError)>::empty());
            assert(run@.results =~= Seq::<JobRecord>::empty());
            assert(run@.failed_links =~= Seq::<(Seq<char>, ScrapeError)>::empty());
        }
        run
    }

    /// Begins the run with `seeds` seed pages, whose discoveries are then
    /// due. Tells whether the run could begin: it can only once.
    pub fn begin(&mut self, seeds: usize) -> (accepted: bool)
        ensures
            accepted == old(self)@.can_begin(),
            final(self)@ == old(self)@.begun(seeds as nat),
            old(self)@.inv() ==> final(self)@.inv(),
    {
        if self.stage == Stage::Init {
            self.stage = Stage::LinkDiscovery;
            self.seeds = seeds;
            self.awaited = seeds;
            true
        } else {
            false
        }
    }

    /// Takes the outcome of the discovery for `seed`. A failure is noted
    /// with the seed's address and changes nothing else. Tells whether an
    /// outcome was due.
    pub fn record_links(&mut self, seed: &str, outcome: Result<(Vec<String>, u64), ScrapeError>) -> (accepted:
        bool)
        ensures
            accepted == old(self)@.awaits_links(),
            final(self)@ == old(self)@.links_recorded(seed@, links_view(outcome)),
            old(self)@.inv() ==> final(self)@.inv(),
    {
        if self.stage == Stage::LinkDiscovery && self.awaited > 0 {
            self.awaited = self.awaited - 1;
            match outcome {
                Ok((links, cost)) => {
                    let mut links = links;
                    let ghost before = self.links@;
                    let ghost added = links@;
                    self.links.append(&mut links);
                    self.link_costs.push(cost);
                    proof {
                        assert(texts(before + added) =~= texts(before) + texts(added));
                    }
                },
                Err(e) => {
                    let ghost before = self.failed_seeds@;
                    self.failed_seeds.push(Failure { url: seed.to_owned(), error: e });
                    proof {
                        assert(failures_view(self.failed_seeds@) =~= failures_view(before).push(
                            (seed@, e),
                        ));
                    }
                },
            }
            true
        } else {
            false
        }
    }

    /// Takes up the postings once every discovery has reported, and hands
    /// out the links to fetch and parse: all that were discovered, in the
    /// order in which they came in, none left out and none merged. `None`
    /// where discoveries are still due or the run is at another stage.
    pub fn begin_details(&mut self) -> (links: Option<Vec<String>>)
        ensures
            links is Some == old(self)@.can_begin_details(),
            links is Some ==> texts(links->0@) == old(self)@.links,
            final(self)@ == old(self)@.details_begun(),
            old(self)@.inv() ==> final(self)@.inv(),
    {
        if self.stage == Stage::LinkDiscovery && self.awaited == 0 {
            self.stage = Stage::DetailFetchParse;
            self.awaited = self.links.len();
            let mut links: Vec<String> = Vec::new();
            let mut i: usize = 0;
            while i < self.links.len()
                invariant
                    0 <= i <= self.links.len(),
                    links@.len() == i,
                    forall|k: int| 0 <= k < i ==> links@[k]@ == self.links@[k]@,
                decreases self.links.len() - i,
            {
                links.push(self.links[i].clone());
                i = i + 1;
            }
            proof {
                assert(texts(links@) =~= texts(self.links@));
            }
            Some(links)
        } else {
            None
        }
    }

    /// Takes the outcome of the posting at `link`. A failure is noted with
    /// the link and changes nothing else: the records that came before stay,
    /// and those still due can come. Tells whether an outcome was due.
    pub fn record_job(&mut self, link: &str, outcome: Result<JobResult, ScrapeError>) -> (accepted:
        bool)
        ensures
            accepted == old(self)@.awaits_job(),
            final(self)@ == old(self)@.job_recorded(link@, job_view(outcome)),
            old(self)@.inv() ==> final(self)@.inv(),
    {
        if self.stage == Stage::DetailFetchParse && self.awaited > 0 {
            self.awaited = self.awaited - 1;
            match outcome {
                Ok(job) => {
                    let ghost before = self.results@;
                    self.results.push(job);
                    proof {
                        assert(records_of(self.results@) =~= records_of(before).push(job@));
                    }
                },
                Err(e) => {
                    let ghost before = self.failed_links@;
                    self.failed_links.push(Failure { url: link.to_owned(), error: e });
                    proof {
                        assert(failures_view(self.failed_links@) =~= failures_view(before).push(
                            (link@, e),
                        ));
                    }
                },
            }
            true
        } else {
            false
        }
    }

    /// Closes the stage of the postings once each has reported. Tells
    /// whether it could.
    pub fn aggregate(&mut self) -> (accepted: bool)
        ensures
            accepted == old(self)@.can_aggregate(),
            final(self)@ == old(self)@.aggregated(),
            old(self)@.inv() ==> final(self)@.inv(),
    {
        if self.stage == Stage::DetailFetchParse && self.awaited == 0 {
            self.stage = Stage::Aggregate;
            true
        } else {
            false
        }
    }

    /// Ends the run. Tells whether it could: the postings' stage has to be
    /// closed.
    pub fn finish(&mut self) -> (accepted: bool)
        ensures
            accepted == old(self)@.can_finish(),
            final(self)@ == old(self)@.finished(),
            old(self)@.inv() ==> final(self)@.inv(),
    {
        if self.stage == Stage::Aggregate {
            self.stage = Stage::Done;
            true
        } else {
            false
        }
    }

    pub fn stage(&self) -> (stage: Stage)
        ensures
            stage == self@.stage,
    {
        self.stage
    }

    /// How many outcomes of the current stage are still due.
    pub fn awaited(&self) -> (awaited: usize)
        ensures
            awaited == self@.awaited,
    {
        self.awaited
    }

    /// The records that were made, in the order in which they came in.
    pub fn results(&self) -> (results: &Vec<JobResult>)
        ensures
            records_of(results@) == self@.results,
    {
        &self.results
    }

    /// The seed pages whose discovery failed.
    pub fn failed_seeds(&self) -> (failures: &Vec<Failure>)
        ensures
            failures_view(failures@) == self@.failed_seeds,
    {
        &self.failed_seeds
    }

    /// The postings that were dropped.
    pub fn failed_links(&self) -> (failures: &Vec<Failure>)
        ensures
            failures_view(failures@) == self@.failed_links,
    {
        &self.failed_links
    }
}

/// The sum of a part of a list is no more than the sum of the whole.
pub proof fn lemma_sum_of_prefix(costs: Seq<u64>, n: int)
    requires
        0 <= n <= costs.len(),
    ensures
        sum_of(costs.take(n)) <= sum_of(costs),
    decreases costs.len() - n,
{
    if n < costs.len() {
        assert(costs.take(n + 1).drop_last() =~= costs.take(n));
        lemma_sum_of_prefix(costs, n + 1);
    } else {
        assert(costs.take(n) =~= costs);
    }
}

/// Adds up a list of costs on top of `base`. `None` where the sum does not
/// fit.
pub fn add_costs(base: u64, costs: &Vec<u64>) -> (total: Option<u64>)
    ensures
        match total {
            Some(sum) => sum == base + sum_of(costs@),
            None => base + sum_of(costs@) > u64::MAX,
        },
{
    let mut sum: u64 = base;
    let mut i: usize = 0;
    proof {
        assert(costs@.take(0) =~= Seq::<u64>::empty());
    }
    while i < costs.len()
        invariant
            0 <= i <= costs.len(),
            sum == base + sum_of(costs@.take(i as int)),
        decreases costs.len() - i,
    {
        proof {
            assert(costs@.take(i + 1).drop_last() =~= costs@.take(i as int));
            lemma_sum_of_prefix(costs@, i + 1);
        }
        match sum.checked_add(costs[i]) {
            Some(next) => {
                sum = next;
            },
            None => {
                return None;
            },
        }
        i = i + 1;
    }
    proof {
        assert(costs@.take(i as int) =~= costs@);
    }
    Some(sum)
}

impl Pipeline {
    /// The cost of the whole run: what the discoveries cost and what the
    /// records cost, added up. `None` where the sum does not fit.
    pub fn total_cost(&self) -> (total: Option<u64>)
        ensures
            match total {
                Some(sum) => sum == self@.total_cost(),
                None => self@.total_cost() > u64::MAX,
            },
    {
        let mut job_costs: Vec<u64> = Vec::new();
        let mut i: usize = 0;
        while i < self.results.len()
            invariant
                0 <= i <= self.results.len(),
                job_costs@.len() == i,
                forall|k: int| 0 <= k < i ==> job_costs@[k] == self.results@[k]@.api_cost,
            decreases self.results.len() - i,
        {
            job_costs.push(self.results[i].cost());
            i = i + 1;
        }
        proof {
            assert(job_costs@ =~= costs_of(records_of(self.results@)));
        }
        match add_costs(0, &self.link_costs) {
            Some(discovery) => add_costs(discovery, &job_costs),
            None => None,
        }
    }
}

/// What one posting reported: its link and the outcome.
pub type JobReport = (Seq<char>, Result<JobRecord, ScrapeError>);

/// The record of a report, if it brought one.
pub open spec fn success_of(report: JobReport) -> Option<JobRecord> {
    match report.1 {
        Ok(job) => Some(job),
        Err(_) => None,
    }
}

/// The failure of a report, if it brought one.
pub open spec fn failure_of(report: JobReport) -> Option<(Seq<char>, ScrapeError)> {
    match report.1 {
        Ok(_) => None,
        Err(e) => Some((report.0, e)),
    }
}

/// The records among a list of reports, in order.
pub open spec fn successes(reports: Seq<JobReport>) -> Seq<JobRecord> {
    reports.filter_map(|report: JobReport| success_of(report))
}

/// The failures among a list of reports, in order.
pub open spec fn failures(reports: Seq<JobReport>) -> Seq<(Seq<char>, ScrapeError)> {
    reports.filter_map(|report: JobReport| failure_of(report))
}

impl PipelineModel {
    /// The run after a list of postings reported, one after the other.
    pub open spec fn jobs_recorded(self, reports: Seq<JobReport>) -> PipelineModel
        decreases reports.len(),
    {
        if reports.len() == 0 {
            self
        } else {
            self.jobs_recorded(reports.drop_last()).job_recorded(
                reports.last().0,
                reports.last().1,
            )
        }
    }
}

/// Failures are isolated. While outcomes are due, whatever mix of successes
/// and failures reports, in whatever order: every record that came is kept,
/// behind those already there and in the order of arrival; every failure is
/// noted and costs nothing but its own posting; and what was discovered
/// stays as it was.
pub proof fn lemma_failures_isolated(run: PipelineModel, reports: Seq<JobReport>)
    requires
        run.inv(),
        run.stage == Stage::DetailFetchParse,
        reports.len() <= run.awaited,
    ensures
        run.jobs_recorded(reports).inv(),
        run.jobs_recorded(reports).stage == Stage::DetailFetchParse,
        run.jobs_recorded(reports).awaited == run.awaited - reports.len(),
        run.jobs_recorded(reports).results == run.results + successes(reports),
        run.jobs_recorded(reports).failed_links == run.failed_links + failures(reports),
        successes(reports).len() + failures(reports).len() == reports.len(),
        run.jobs_recorded(reports).links == run.links,
        run.jobs_recorded(reports).link_costs == run.link_costs,
        run.jobs_recorded(reports).failed_seeds == run.failed_seeds,
        run.jobs_recorded(reports).seeds == run.seeds,
    decreases reports.len(),
{
    if reports.len() == 0 {
        assert(run.results + successes(reports) =~= run.results);
        assert(run.failed_links + failures(reports) =~= run.failed_links);
    } else {
        let rest = reports.drop_last();
        lemma_failures_isolated(run, rest);
        let before = run.jobs_recorded(rest);
        let after = run.jobs_recorded(reports);
        assert(before.awaits_job());
        match reports.last().1 {
            Ok(job) => {
                assert(successes(reports) =~= successes(rest) + seq![job]);
                assert(failures(reports) =~= failures(rest));
                assert(after.results =~= run.results + successes(reports));
            },
            Err(e) => {
                assert(successes(reports) =~= successes(rest));
                assert(failures(reports) =~= failures(rest) + seq![(reports.last().0, e)]);
                assert(after.failed_links =~= run.failed_links + failures(reports));
            },
        }
    }
}

/// Of `n` postings of which exactly one fails, `n - 1` records are made and
/// one failure is noted, and the run can go on to its totals.
pub proof fn lemma_one_failure_of_many(run: PipelineModel, reports: Seq<JobReport>)
    requires
        run.inv(),
        run.stage == Stage::DetailFetchParse,
        run.results.len() == 0,
        run.failed_links.len() == 0,
        reports.len() == run.awaited,
        failures(reports).len() == 1,
    ensures
        run.jobs_recorded(reports).results.len() == reports.len() - 1,
        run.jobs_recorded(reports).failed_links.len() == 1,
        run.jobs_recorded(reports).can_aggregate(),
{
    lemma_failures_isolated(run, reports);
}

/// What one discovery reported: its seed address and the outcome.
pub type LinkReport = (Seq<char>, Result<(Seq<Seq<char>>, u64), ScrapeError>);

/// The links of a report, none where it failed.
pub open spec fn links_of(report: LinkReport) -> Seq<Seq<char>> {
    match report.1 {
        Ok((links, _)) => links,
        Err(_) => Seq::empty(),
    }
}

/// The cost of a report, if it succeeded.
pub open spec fn cost_of_report(report: LinkReport) -> Option<u64> {
    match report.1 {
        Ok((_, cost)) => Some(cost),
        Err(_) => None,
    }
}

/// The failure of a report, if it brought one.
pub open spec fn failed_seed_of(report: LinkReport) -> Option<(Seq<char>, ScrapeError)> {
    match report.1 {
        Ok(_) => None,
        Err(e) => Some((report.0, e)),
    }
}

/// All links of a list of reports, in the order of the reports, each
/// report's links in their own order, none left out and none merged.
pub open spec fn found_links(reports: Seq<LinkReport>) -> Seq<Seq<char>>
    decreases reports.len(),
{
    if reports.len() == 0 {
        Seq::empty()
    } else {
        found_links(reports.drop_last()) + links_of(reports.last())
    }
}

/// The costs of the reports that succeeded, in order.
pub open spec fn found_costs(reports: Seq<LinkReport>) -> Seq<u64> {
    reports.filter_map(|report: LinkReport| cost_of_report(report))
}

/// The failures among a list of reports, in order.
pub open spec fn failed_seeds(reports: Seq<LinkReport>) -> Seq<(Seq<char>, ScrapeError)> {
    reports.filter_map(|report: LinkReport| failed_seed_of(report))
}

impl PipelineModel {
    /// The run after a list of discoveries reported, one after the other.
    pub open spec fn all_links_recorded(self, reports: Seq<LinkReport>) -> PipelineModel
        decreases reports.len(),
    {
        if reports.len() == 0 {
            self
        } else {
            self.all_links_recorded(reports.drop_last()).links_recorded(
                reports.last().0,
                reports.last().1,
            )
        }
    }
}

/// A seed page whose discovery fails does not keep the others from
/// completing: the links and costs of every discovery that succeeded are
/// kept, in the order of arrival, and each failure is noted.
pub proof fn lemma_discoveries_isolated(run: PipelineModel, reports: Seq<LinkReport>)
    requires
        run.inv(),
        run.stage == Stage::LinkDiscovery,
        reports.len() <= run.awaited,
    ensures
        run.all_links_recorded(reports).inv(),
        run.all_links_recorded(reports).stage == Stage::LinkDiscovery,
        run.all_links_recorded(reports).awaited == run.awaited - reports.len(),
        run.all_links_recorded(reports).links == run.links + found_links(reports),
        run.all_links_recorded(reports).link_costs == run.link_costs + found_costs(reports),
        run.all_links_recorded(reports).failed_seeds == run.failed_seeds + failed_seeds(reports),
        found_costs(reports).len() + failed_seeds(reports).len() == reports.len(),
    decreases reports.len(),
{
    if reports.len() == 0 {
        assert(run.links + found_links(reports) =~= run.links);
        assert(run.link_costs + found_costs(reports) =~= run.link_costs);
        assert(run.failed_seeds + failed_seeds(reports) =~= run.failed_seeds);
    } else {
        let rest = reports.drop_last();
        lemma_discoveries_isolated(run, rest);
        let before = run.all_links_recorded(rest);
        let after = run.all_links_recorded(reports);
        assert(before.awaits_links());
        match reports.last().1 {
            Ok((links, cost)) => {
                assert(found_costs(reports) =~= found_costs(rest) + seq![cost]);
                assert(failed_seeds(reports) =~= failed_seeds(rest));
                assert(after.links =~= run.links + found_links(reports));
                assert(after.link_costs =~= run.link_costs + found_costs(reports));
            },
            Err(e) => {
                assert(found_costs(reports) =~= found_costs(rest));
                assert(failed_seeds(reports) =~= failed_seeds(rest) + seq![(reports.last().0, e)]);
                assert(after.links =~= run.links + found_links(reports));
                assert(after.failed_seeds =~= run.failed_seeds + failed_seeds(reports));
            },
        }
    }
}

/// The cost of a run is additive: a record that comes in adds its own cost
/// to the total, and a failure adds nothing.
pub proof fn lemma_total_cost_additive(
    run: PipelineModel,
    link: Seq<char>,
    outcome: Result<JobRecord, ScrapeError>,
)
    requires
        run.awaits_job(),
    ensures
        run.job_recorded(link, outcome).total_cost() == run.total_cost() + (match outcome {
            Ok(job) => job.api_cost as nat,
            Err(_) => 0nat,
        }),
{
    match outcome {
        Ok(job) => {
            let after = run.results.push(job);
            assert(costs_of(after).drop_last() =~= costs_of(run.results));
        },
        Err(_) => {},
    }
}

/// The place of a stage in the course of a run.
pub open spec fn rank(stage: Stage) -> nat {
    match stage {
        Stage::Init => 0,
        Stage::LinkDiscovery => 1,
        Stage::DetailFetchParse => 2,
        Stage::Aggregate => 3,
        Stage::Done => 4,
    }
}

/// Whatever happens to a run, every task stays accounted for, and the run
/// never goes back to an earlier stage nor skips one.
pub proof fn lemma_run_stays_consistent(
    run: PipelineModel,
    seeds: nat,
    url: Seq<char>,
    links: Result<(Seq<Seq<char>>, u64), ScrapeError>,
    job: Result<JobRecord, ScrapeError>,
)
    requires
        run.inv(),
    ensures
        run.begun(seeds).inv(),
        run.links_recorded(url, links).inv(),
        run.details_begun().inv(),
        run.job_recorded(url, job).inv(),
        run.aggregated().inv(),
        run.finished().inv(),
        rank(run.stage) <= rank(run.begun(seeds).stage) <= rank(run.stage) + 1,
        run.links_recorded(url, links).stage == run.stage,
        rank(run.stage) <= rank(run.details_begun().stage) <= rank(run.stage) + 1,
        run.job_recorded(url, job).stage == run.stage,
        rank(run.stage) <= rank(run.aggregated().stage) <= rank(run.stage) + 1,
        rank(run.stage) <= rank(run.finished().stage) <= rank(run.stage) + 1,
{
}

} // verus!

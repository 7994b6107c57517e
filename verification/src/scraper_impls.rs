use vstd::prelude::*;
use vstd::string::StringExecFns;
use crate::bullets::texts;
use crate::error::ScrapeError;
use crate::html::optional_texts;
use crate::html::select_attrs;
use crate::html::select_texts;
use crate::html::selected_attrs;
use crate::html::selected_texts;
use crate::jobresult::complete_record;
use crate::jobresult::impartial_record;
use crate::jobresult::JobResult;
use crate::json::item_text;
use crate::json::parse_value;
use crate::json::parsed_object;
use crate::json::parsed_value;
use crate::json::JsonModel;
use crate::json::JsonValue;
use crate::links::resolve_link;
use crate::links::resolved_link;
use crate::links::url_parses;
use crate::scraper_trait::job_outcome;
use crate::scraper_trait::JobStep;
use crate::scraper_trait::JobStepModel;
use crate::scraper_trait::LinkStep;
use crate::scraper_trait::LinkStepModel;
use crate::scraper_trait::Question;
use crate::scraper_trait::QuestionModel;
use crate::scraper_trait::Scraper;
use crate::text::contains;
use crate::text::contains_text;
use crate::text::trim;
use crate::text::trimmed;

verus! {

/// The parts one after the other, each followed by a line feed.
pub open spec fn terminated_lines(parts: Seq<Seq<char>>) -> Seq<char>
    decreases parts.len(),
{
    if parts.len() == 0 {
        Seq::<char>::empty()
    } else {
        terminated_lines(parts.drop_last()) + parts.last() + seq!['\n']
    }
}

/// Writes the parts one after the other, each followed by a line feed.
pub fn join_terminated(parts: &Vec<String>) -> (out: String)
    ensures
        out@ == terminated_lines(texts(parts@)),
{
    let ghost lines = texts(parts@);
    let mut out = String::new();
    let mut i: usize = 0;
    proof {
        assert(lines.take(0) =~= Seq::<Seq<char>>::empty());
    }
    while i < parts.len()
        invariant
            0 <= i <= parts.len(),
            lines == texts(parts@),
            out@ == terminated_lines(lines.take(i as int)),
        decreases parts.len() - i,
    {
        proof {
            reveal_strlit("\n");
            assert("\n"@ =~= seq!['\n']);
            assert(lines.take(i + 1).drop_last() =~= lines.take(i as int));
            assert(lines.take(i + 1).last() == parts@[i as int]@);
        }
        out.append(parts[i].as_str());
        out.append("\n");
        i = i + 1;
    }
    proof {
        assert(lines.take(i as int) =~= lines);
    }
    out
}

/// What a template site's page says of a posting before the model is asked.
pub struct Posting {
    pub title: String,
    pub location: String,
    pub description: String,
}

/// The mathematical counterpart of a [`Posting`].
pub ghost struct PostingModel {
    pub title: Seq<char>,
    pub location: Seq<char>,
    pub description: Seq<char>,
}

impl View for Posting {
    type V = PostingModel;

    open spec fn view(&self) -> PostingModel {
        PostingModel {
            title: self.title@,
            location: self.location@,
            description: self.description@,
        }
    }
}

/// The character sequences of an optional list of strings.
pub open spec fn list_texts(list: Option<Vec<String>>) -> Option<Seq<Seq<char>>> {
    match list {
        Some(items) => Some(texts(items@)),
        None => None,
    }
}

/// The outcome of reading a posting as a contract sees it.
pub open spec fn posting_outcome(read: Result<Posting, ScrapeError>) -> Result<
    PostingModel,
    ScrapeError,
> {
    match read {
        Ok(posting) => Ok(posting@),
        Err(e) => Err(e),
    }
}

/// The posting that the three selections of a template page give: title and
/// location are the first match of their selections, without the white
/// space around them, and each has to be there; the description is every
/// selected piece of the content, each followed by a line feed.
pub open spec fn posting_of(
    titles: Option<Seq<Seq<char>>>,
    locations: Option<Seq<Seq<char>>>,
    pieces: Option<Seq<Seq<char>>>,
) -> Result<PostingModel, ScrapeError> {
    if titles is None {
        Err(ScrapeError::BadSelector)
    } else if titles->0.len() == 0 {
        Err(ScrapeError::MissingTitle)
    } else if locations is None {
        Err(ScrapeError::BadSelector)
    } else if locations->0.len() == 0 {
        Err(ScrapeError::MissingLocation)
    } else if pieces is None {
        Err(ScrapeError::BadSelector)
    } else {
        Ok(
            PostingModel {
                title: trimmed(titles->0[0]),
                location: trimmed(locations->0[0]),
                description: terminated_lines(pieces->0),
            },
        )
    }
}

/// Reads a posting from the three selections of a template page.
pub fn read_posting(
    titles: Option<Vec<String>>,
    locations: Option<Vec<String>>,
    pieces: Option<Vec<String>>,
) -> (read: Result<Posting, ScrapeError>)
    ensures
        posting_outcome(read) == posting_of(
            list_texts(titles),
            list_texts(locations),
            list_texts(pieces),
        ),
{
    let titles = match titles {
        Some(list) => list,
        None => { return Err(ScrapeError::BadSelector); },
    };
    if titles.len() == 0 {
        return Err(ScrapeError::MissingTitle);
    }
    let locations = match locations {
        Some(list) => list,
        None => { return Err(ScrapeError::BadSelector); },
    };
    if locations.len() == 0 {
        return Err(ScrapeError::MissingLocation);
    }
    let pieces = match pieces {
        Some(list) => list,
        None => { return Err(ScrapeError::BadSelector); },
    };
    Ok(
        Posting {
            title: trim(titles[0].as_str()),
            location: trim(locations[0].as_str()),
            description: join_terminated(&pieces),
        },
    )
}

/// The posting that a template page holds.
pub open spec fn page_posting(page: Seq<char>) -> Result<PostingModel, ScrapeError> {
    posting_of(
        selected_texts(page, ".app-title"@),
        selected_texts(page, ".location"@),
        selected_texts(page, "#content p, #content ul"@),
    )
}

/// The origin of the template site, against which its job addresses are
/// resolved.
pub open spec fn template_origin() -> Seq<char> {
    "https://boards.greenhouse.io"@
}

/// The address of an anchor where it is that of a job: the anchor has an
/// address, and the address holds `/jobs/`.
pub open spec fn job_address(href: Option<Seq<char>>) -> Option<Seq<char>> {
    match href {
        Some(address) => if contains_text(address, "/jobs/"@) {
            Some(address)
        } else {
            None
        },
        None => None,
    }
}

/// The job addresses among the anchors of a listing, in the order of the
/// anchors, each as often as it stands there.
pub open spec fn job_addresses(hrefs: Seq<Option<Seq<char>>>) -> Seq<Seq<char>> {
    hrefs.filter_map(|href: Option<Seq<char>>| job_address(href))
}

/// The link of a job address: the address resolved against the site's
/// origin, so that an address which is an absolute URL already stays as it
/// is. Where the address cannot be resolved, the link is the origin followed
/// by the address as it stands.
pub open spec fn template_link(address: Seq<char>) -> Seq<char> {
    match resolved_link(template_origin(), address) {
        Ok(link) => link,
        Err(_) => template_origin() + address,
    }
}

/// The job links of a template site's listing: one link for each of its job
/// addresses, in the same order.
pub open spec fn template_links(hrefs: Seq<Option<Seq<char>>>) -> Seq<Seq<char>> {
    job_addresses(hrefs).map_values(|address: Seq<char>| template_link(address))
}

/// Makes the link of a job address: resolves it against the site's origin,
/// and puts the origin in front of an address that cannot be resolved.
pub fn make_template_link(address: &str) -> (link: String)
    ensures
        link@ == template_link(address@),
{
    match resolve_link("https://boards.greenhouse.io", address) {
        Ok(link) => link,
        Err(_) => {
            let mut link = String::from_str("https://boards.greenhouse.io");
            link.append(address);
            link
        },
    }
}

/// Picks the job links from the addresses of a listing's anchors: one link
/// for every address that holds `/jobs/`, in the order of the anchors.
pub fn pick_template_links(hrefs: &Vec<Option<String>>) -> (links: Vec<String>)
    ensures
        texts(links@) == template_links(optional_texts(hrefs@)),
{
    let ghost model = optional_texts(hrefs@);
    let ghost pick = |href: Option<Seq<char>>| job_address(href);
    let mut links: Vec<String> = Vec::new();
    let mut i: usize = 0;
    proof {
        assert(model.take(0) =~= Seq::<Option<Seq<char>>>::empty());
        assert(job_addresses(model.take(0)) =~= Seq::<Seq<char>>::empty());
        assert(texts(links@) =~= template_links(model.take(0)));
    }
    while i < hrefs.len()
        invariant
            0 <= i <= hrefs.len(),
            model == optional_texts(hrefs@),
            pick == |href: Option<Seq<char>>| job_address(href),
            texts(links@) == template_links(model.take(i as int)),
        decreases hrefs.len() - i,
    {
        let ghost kept = job_addresses(model.take(i as int));
        let ghost before = links@;
        proof {
            model.lemma_filter_map_take_succ(pick, i as int);
            assert(model[i as int] == item_text(hrefs@[i as int]));
        }
        match &hrefs[i] {
            Some(address) => {
                if contains(address.as_str(), "/jobs/") {
                    links.push(make_template_link(address.as_str()));
                    proof {
                        assert(job_addresses(model.take(i + 1)) =~= kept.push(address@));
                        assert(texts(links@) =~= texts(before).push(template_link(address@)));
                        assert(template_links(model.take(i + 1)) =~= template_links(
                            model.take(i as int),
                        ).push(template_link(address@)));
                    }
                } else {
                    proof {
                        assert(job_addresses(model.take(i + 1)) =~= kept);
                    }
                }
            },
            None => {
                proof {
                    assert(job_addresses(model.take(i + 1)) =~= kept);
                }
            },
        }
        i = i + 1;
    }
    proof {
        assert(model.take(i as int) =~= model);
    }
    links
}

/// Every job address of a listing gives a link, and nothing else does:
/// there are as many links as job addresses, and the link at each place is
/// the job address at that place resolved against the site's origin, the
/// address itself where it is an absolute URL already, and the origin
/// followed by the address where it cannot be resolved.
pub proof fn lemma_template_links_resolved(hrefs: Seq<Option<Seq<char>>>)
    ensures
        template_links(hrefs).len() == job_addresses(hrefs).len(),
        forall|i: int|
            0 <= i < job_addresses(hrefs).len() ==> (resolved_link(
                template_origin(),
                job_addresses(hrefs)[i],
            ) matches Ok(link) ==> #[trigger] template_links(hrefs)[i] == link),
        forall|i: int|
            0 <= i < job_addresses(hrefs).len() && resolved_link(
                template_origin(),
                job_addresses(hrefs)[i],
            ) is Err ==> #[trigger] template_links(hrefs)[i] == template_origin() + job_addresses(
                hrefs,
            )[i],
        forall|i: int|
            0 <= i < job_addresses(hrefs).len() && url_parses(job_addresses(hrefs)[i])
                ==> #[trigger] template_links(hrefs)[i] == job_addresses(hrefs)[i],
{
}

/// The strategy for a site built from the Greenhouse template: links and the
/// posting's title and location are read with fixed selectors, and the model
/// is asked only for what the free text says.
#[derive(Debug, Clone, Copy)]
pub struct GreenhouseScraper {}

impl GreenhouseScraper {
    pub fn new() -> (scraper: Self) {
        GreenhouseScraper {  }
    }
}

impl Scraper for GreenhouseScraper {
    /// Discovery never asks the model and costs nothing: the links are the
    /// listing's job addresses, resolved against the site's origin. No
    /// address can make it fail.
    open spec fn job_links(
        &self,
        url: Seq<char>,
        page: Seq<char>,
        answer: Option<(Seq<char>, u64)>,
    ) -> Result<LinkStepModel, ScrapeError> {
        match selected_attrs(page, "a"@, "href"@) {
            Some(hrefs) => Ok(LinkStepModel::Done(template_links(hrefs), 0)),
            None => Err(ScrapeError::BadSelector),
        }
    }

    /// The page has to hold a title and a location. Then the model is asked
    /// about the description with the default instruction, and its answer
    /// gives industry, responsibilities and qualifications.
    open spec fn job_details(&self, page: Seq<char>, answer: Option<(Seq<char>, u64)>) -> Result<
        JobStepModel,
        ScrapeError,
    > {
        match page_posting(page) {
            Err(e) => Err(e),
            Ok(posting) => match answer {
                None => Ok(
                    JobStepModel::Ask(QuestionModel { prompt: None, payload: posting.description }),
                ),
                Some((text, cost)) => match parsed_object(text) {
                    None => Err(ScrapeError::MalformedJson),
                    Some(object) => Ok(
                        JobStepModel::Done(
                            impartial_record(
                                "Radiant"@,
                                posting.title,
                                posting.location,
                                object,
                                cost,
                            ),
                        ),
                    ),
                },
            },
        }
    }

    fn fetch_job_links(&self, url: &str, page: &str, answer: Option<(&str, u64)>) -> (step: Result<
        LinkStep,
        ScrapeError,
    >) {
        match select_attrs(page, "a", "href") {
            Some(hrefs) => Ok(LinkStep::Done(pick_template_links(&hrefs), 0)),
            None => Err(ScrapeError::BadSelector),
        }
    }

    fn parse_job_details(&self, page: &str, answer: Option<(&str, u64)>) -> (step: Result<
        JobStep,
        ScrapeError,
    >) {
        let titles = select_texts(page, ".app-title");
        let locations = select_texts(page, ".location");
        let pieces = select_texts(page, "#content p, #content ul");
        let posting = match read_posting(titles, locations, pieces) {
            Ok(posting) => posting,
            Err(e) => { return Err(e); },
        };
        match answer {
            None => Ok(JobStep::Ask(Question { prompt: None, payload: posting.description })),
            Some((text, cost)) => {
                let company = String::from_str("Radiant");
                match JobResult::from_impartial_json(
                    company,
                    posting.title,
                    posting.location,
                    text,
                    cost,
                ) {
                    Ok(job) => Ok(JobStep::Done(job)),
                    Err(e) => Err(e),
                }
            },
        }
    }
}

/// How Rust's `Debug` formatting writes a list of strings: the strings in
/// double quotes, escaped, between square brackets, separated by a comma and a
/// space.
pub uninterp spec fn debug_list(items: Seq<Seq<char>>) -> Seq<char>;

/// Formats a list of strings with std's `format!` and the `{:?}`
/// placeholder. The contract claims that the text depends on the strings
/// alone, and names it [`debug_list`].
#[verifier::external_body]
pub(crate) fn format_list(items: &Vec<String>) -> (out: String)
    ensures
        out@ == debug_list(texts(items@)),
{
    format!("{:?}", items)
}

/// The address of an anchor, the empty string where it has none.
pub open spec fn address_or_empty(href: Option<Seq<char>>) -> Seq<char> {
    match href {
        Some(address) => address,
        None => Seq::<char>::empty(),
    }
}

/// The addresses of all anchors of a listing, in order, an empty string for
/// each anchor without one.
pub open spec fn all_addresses(hrefs: Seq<Option<Seq<char>>>) -> Seq<Seq<char>> {
    hrefs.map_values(|href: Option<Seq<char>>| address_or_empty(href))
}

/// Lists the addresses of all anchors, with an empty string for each anchor
/// that has none.
pub fn list_addresses(hrefs: &Vec<Option<String>>) -> (addresses: Vec<String>)
    ensures
        texts(addresses@) == all_addresses(optional_texts(hrefs@)),
{
    let mut addresses: Vec<String> = Vec::new();
    let mut i: usize = 0;
    while i < hrefs.len()
        invariant
            0 <= i <= hrefs.len(),
            addresses@.len() == i,
            forall|k: int|
                0 <= k < i ==> addresses@[k]@ == address_or_empty(item_text(#[trigger] hrefs@[k])),
        decreases hrefs.len() - i,
    {
        let address = match &hrefs[i] {
            Some(address) => address.clone(),
            None => String::new(),
        };
        addresses.push(address);
        i = i + 1;
    }
    proof {
        assert(texts(addresses@) =~= all_addresses(optional_texts(hrefs@)));
    }
    addresses
}

/// The links that the model's choice gives, each resolved against the seed
/// address, in the order of the choice. The first element that is no string,
/// or that cannot be resolved, fails the whole.
pub open spec fn chosen_links(seed: Seq<char>, items: Seq<Option<Seq<char>>>) -> Result<
    Seq<Seq<char>>,
    ScrapeError,
>
    decreases items.len(),
{
    if items.len() == 0 {
        Ok(Seq::<Seq<char>>::empty())
    } else {
        match chosen_links(seed, items.drop_last()) {
            Err(e) => Err(e),
            Ok(links) => match items.last() {
                None => Err(ScrapeError::LinkNotText),
                Some(link) => match resolved_link(seed, link) {
                    Ok(address) => Ok(links.push(address)),
                    Err(e) => Err(e),
                },
            },
        }
    }
}

/// The character sequences of a list of links, or the failure.
pub open spec fn links_outcome(links: Result<Vec<String>, ScrapeError>) -> Result<
    Seq<Seq<char>>,
    ScrapeError,
> {
    match links {
        Ok(list) => Ok(texts(list@)),
        Err(e) => Err(e),
    }
}

/// The links that a parsed answer to the link question gives: the answer has
/// to be an array, and each element a string that can be resolved.
pub open spec fn answered_links(seed: Seq<char>, answer: JsonModel) -> Result<
    Seq<Seq<char>>,
    ScrapeError,
> {
    match answer {
        JsonModel::List(items) => chosen_links(seed, items),
        _ => Err(ScrapeError::NotAnArray),
    }
}

/// Resolves the model's choice of links against the seed address.
pub fn links_from_answer(seed: &str, answer: &JsonValue) -> (links: Result<Vec<String>, ScrapeError>)
    ensures
        links_outcome(links) == answered_links(seed@, answer@),
{
    let items = match answer {
        JsonValue::List(items) => items,
        _ => { return Err(ScrapeError::NotAnArray); },
    };
    let ghost model = optional_texts(items@);
    let mut links: Vec<String> = Vec::new();
    let mut i: usize = 0;
    proof {
        assert(model.take(0) =~= Seq::<Option<Seq<char>>>::empty());
        assert(texts(links@) =~= Seq::<Seq<char>>::empty());
    }
    while i < items.len()
        invariant
            0 <= i <= items.len(),
            model == optional_texts(items@),
            answer@ == JsonModel::List(model),
            chosen_links(seed@, model.take(i as int)) == Ok::<Seq<Seq<char>>, ScrapeError>(
                texts(links@),
            ),
        decreases items.len() - i,
    {
        proof {
            assert(model.take(i + 1).drop_last() =~= model.take(i as int));
            assert(model.take(i + 1).last() == item_text(items@[i as int]));
        }
        let ghost before = links@;
        match &items[i] {
            None => {
                proof {
                    lemma_chosen_links_fail(seed@, model, i + 1);
                }
                return Err(ScrapeError::LinkNotText);
            },
            Some(link) => {
                let resolved = resolve_link(seed, link.as_str());
                match resolved {
                    Ok(address) => {
                        links.push(address);
                        proof {
                            assert(texts(links@) =~= texts(before).push(address@));
                        }
                    },
                    Err(e) => {
                        proof {
                            lemma_chosen_links_fail(seed@, model, i + 1);
                        }
                        return Err(e);
                    },
                }
            },
        }
        i = i + 1;
    }
    proof {
        assert(model.take(i as int) =~= model);
    }
    Ok(links)
}

/// Once a part of the choice has failed, the whole fails in the same way.
proof fn lemma_chosen_links_fail(seed: Seq<char>, items: Seq<Option<Seq<char>>>, n: int)
    requires
        0 <= n <= items.len(),
        chosen_links(seed, items.take(n)) is Err,
    ensures
        chosen_links(seed, items) == chosen_links(seed, items.take(n)),
    decreases items.len() - n,
{
    if n < items.len() {
        assert(items.take(n + 1).drop_last() =~= items.take(n));
        lemma_chosen_links_fail(seed, items, n + 1);
    } else {
        assert(items.take(n) =~= items);
    }
}

/// The instruction that goes with the link question.
pub open spec fn link_prompt() -> Seq<char> {
    "Of these links, which ones most likely forwards to the details of the particular job. Respond only in a valid JSON array of strings:"@
}

/// The instruction that goes with the question about a whole posting.
pub open spec fn posting_prompt() -> Seq<char> {
    "Can you give me the company (string), job title (string), location (string), industry (string), responsibilities (array of strings), and qualifications (array of strings) of this job listing in valid JSON. Find as many responsibilities and qualifications as it says:"@
}

/// The strategy for a site of unknown make: the model picks the job links
/// among all anchors of the listing, and reads every field of a posting from
/// the text of its page.
#[derive(Debug, Clone, Copy)]
pub struct GenericScraper {}

impl GenericScraper {
    pub fn new() -> (scraper: Self) {
        GenericScraper {  }
    }
}

impl Scraper for GenericScraper {
    /// The model is asked which of the listing's addresses lead to postings.
    /// Its answer has to be a JSON array of strings; each is resolved against
    /// the seed address, and the cost is that of the one call.
    open spec fn job_links(
        &self,
        url: Seq<char>,
        page: Seq<char>,
        answer: Option<(Seq<char>, u64)>,
    ) -> Result<LinkStepModel, ScrapeError> {
        match selected_attrs(page, "a"@, "href"@) {
            None => Err(ScrapeError::BadSelector),
            Some(hrefs) => match answer {
                None => Ok(
                    LinkStepModel::Ask(
                        QuestionModel {
                            prompt: Some(link_prompt()),
                            payload: debug_list(all_addresses(hrefs)),
                        },
                    ),
                ),
                Some((text, cost)) => match parsed_value(text) {
                    None => Err(ScrapeError::MalformedJson),
                    Some(value) => match answered_links(url, value) {
                        Ok(links) => Ok(LinkStepModel::Done(links, cost)),
                        Err(e) => Err(e),
                    },
                },
            },
        }
    }

    /// The model is asked about the text of the page's body, and its answer
    /// gives every field of the record.
    open spec fn job_details(&self, page: Seq<char>, answer: Option<(Seq<char>, u64)>) -> Result<
        JobStepModel,
        ScrapeError,
    > {
        match selected_texts(page, "body"@) {
            None => Err(ScrapeError::BadSelector),
            Some(bodies) => match answer {
                None => Ok(
                    JobStepModel::Ask(
                        QuestionModel {
                            prompt: Some(posting_prompt()),
                            payload: terminated_lines(bodies),
                        },
                    ),
                ),
                Some((text, cost)) => match parsed_object(text) {
                    None => Err(ScrapeError::MalformedJson),
                    Some(object) => Ok(JobStepModel::Done(complete_record(object, cost))),
                },
            },
        }
    }

    fn fetch_job_links(&self, url: &str, page: &str, answer: Option<(&str, u64)>) -> (step: Result<
        LinkStep,
        ScrapeError,
    >) {
        let hrefs = match select_attrs(page, "a", "href") {
            Some(hrefs) => hrefs,
            None => { return Err(ScrapeError::BadSelector); },
        };
        match answer {
            None => {
                let addresses = list_addresses(&hrefs);
                let prompt = String::from_str(
                    "Of these links, which ones most likely forwards to the details of the particular job. Respond only in a valid JSON array of strings:",
                );
                Ok(LinkStep::Ask(Question { prompt: Some(prompt), payload: format_list(&addresses) }))
            },
            Some((text, cost)) => {
                let value = match parse_value(text) {
                    Ok(value) => value,
                    Err(_) => { return Err(ScrapeError::MalformedJson); },
                };
                match links_from_answer(url, &value) {
                    Ok(links) => Ok(LinkStep::Done(links, cost)),
                    Err(e) => Err(e),
                }
            },
        }
    }

    fn parse_job_details(&self, page: &str, answer: Option<(&str, u64)>) -> (step: Result<
        JobStep,
        ScrapeError,
    >) {
        let bodies = match select_texts(page, "body") {
            Some(bodies) => bodies,
            None => { return Err(ScrapeError::BadSelector); },
        };
        match answer {
            None => {
                let prompt = String::from_str(
                    "Can you give me the company (string), job title (string), location (string), industry (string), responsibilities (array of strings), and qualifications (array of strings) of this job listing in valid JSON. Find as many responsibilities and qualifications as it says:",
                );
                Ok(
                    JobStep::Ask(
                        Question { prompt: Some(prompt), payload: join_terminated(&bodies) },
                    ),
                )
            },
            Some((text, cost)) => match JobResult::from_complete_json(text, cost) {
                Ok(job) => Ok(JobStep::Done(job)),
                Err(e) => Err(e),
            },
        }
    }
}

/// Discovery on a template site never costs anything and never fails on
/// account of the page: it is finished at once, at cost zero, whatever
/// addresses the anchors hold.
pub proof fn lemma_template_discovery_free(
    scraper: GreenhouseScraper,
    url: Seq<char>,
    page: Seq<char>,
    answer: Option<(Seq<char>, u64)>,
)
    ensures
        match scraper.job_links(url, page, answer) {
            Ok(LinkStepModel::Done(_, cost)) => cost == 0,
            Ok(LinkStepModel::Ask(_)) => false,
            Err(e) => e == ScrapeError::BadSelector && selected_attrs(page, "a"@, "href"@) is None,
        },
{
}

/// Parsing the same page with the same answer twice gives the same: two
/// outcomes of `parse_job_details` on equal inputs agree in every field of
/// the record, or in the question, or in the failure.
pub proof fn lemma_parse_is_repeatable<S: Scraper>(
    scraper: &S,
    page: Seq<char>,
    answer: Option<(Seq<char>, u64)>,
    first: Result<JobStep, ScrapeError>,
    second: Result<JobStep, ScrapeError>,
)
    ensures
        job_outcome(first) == scraper.job_details(page, answer) && job_outcome(second)
            == scraper.job_details(page, answer) ==> job_outcome(first) == job_outcome(second),
{
}

} // verus!

use vstd::prelude::*;
use vstd::string::StringExecFns;
use crate::bullets::bullets_of;
use crate::bullets::list_to_bullets;
use crate::bullets::placeholder;
use crate::bullets::texts;
use crate::error::ScrapeError;
use crate::json::parse_object;
use crate::json::parsed_object;
use crate::json::JsonModel;
use crate::json::JsonObject;
use crate::json::JsonValue;
use crate::text::decimal;
use crate::text::decimal_text;

verus! {

/// The normalized record of one job posting, with the cost of the model calls
/// that produced it. The cost counts ten-millionths of a dollar.
#[derive(Debug, Clone)]
pub struct JobResult {
    company: String,
    title: String,
    industry: String,
    responsibilities: Vec<String>,
    qualifications: Vec<String>,
    location: String,
    other: Vec<String>,
    pub api_cost: u64,
}

/// The mathematical counterpart of a [`JobResult`].
pub ghost struct JobRecord {
    pub company: Seq<char>,
    pub title: Seq<char>,
    pub industry: Seq<char>,
    pub responsibilities: Seq<Seq<char>>,
    pub qualifications: Seq<Seq<char>>,
    pub location: Seq<char>,
    pub other: Seq<Seq<char>>,
    pub api_cost: u64,
}

/// The string under `key`, or the empty string where the object has no such
/// member or the member is no string.
pub open spec fn text_member(object: Map<Seq<char>, JsonModel>, key: Seq<char>) -> Seq<char> {
    if object.contains_key(key) {
        match object[key] {
            JsonModel::Text(s) => s,
            _ => Seq::<char>::empty(),
        }
    } else {
        Seq::<char>::empty()
    }
}

/// The strings of the array under `key`, in order, elements that are no
/// strings left out; the empty list where the object has no such member or
/// the member is no array.
pub open spec fn list_member(object: Map<Seq<char>, JsonModel>, key: Seq<char>) -> Seq<Seq<char>> {
    if object.contains_key(key) {
        match object[key] {
            JsonModel::List(items) => items.filter_map(|item: Option<Seq<char>>| item),
            _ => Seq::<Seq<char>>::empty(),
        }
    } else {
        Seq::<Seq<char>>::empty()
    }
}

/// The record that an object gives when company, title and location are
/// known beforehand.
pub open spec fn impartial_record(
    company: Seq<char>,
    title: Seq<char>,
    location: Seq<char>,
    object: Map<Seq<char>, JsonModel>,
    api_cost: u64,
) -> JobRecord {
    JobRecord {
        company,
        title,
        industry: text_member(object, "industry"@),
        responsibilities: list_member(object, "responsibilities"@),
        qualifications: list_member(object, "qualifications"@),
        location,
        other: seq![placeholder()],
        api_cost,
    }
}

/// The record that an object gives when every field is read from it.
pub open spec fn complete_record(object: Map<Seq<char>, JsonModel>, api_cost: u64) -> JobRecord {
    impartial_record(
        text_member(object, "company"@),
        text_member(object, "title"@),
        text_member(object, "location"@),
        object,
        api_cost,
    )
}

/// What reading a record from a JSON text gives, with company, title and
/// location known beforehand: a failure exactly where the text is no JSON
/// object, else the record of the object.
pub open spec fn made_of_impartial(
    company: Seq<char>,
    title: Seq<char>,
    location: Seq<char>,
    json: Seq<char>,
    api_cost: u64,
    made: Result<JobResult, ScrapeError>,
) -> bool {
    match parsed_object(json) {
        Some(object) => made is Ok && made->Ok_0@ == impartial_record(
            company,
            title,
            location,
            object,
            api_cost,
        ),
        None => made == Err::<JobResult, ScrapeError>(ScrapeError::MalformedJson),
    }
}

/// What reading a whole record from a JSON text gives: a failure exactly
/// where the text is no JSON object, else the record of the object.
pub open spec fn made_of_complete(json: Seq<char>, api_cost: u64, made: Result<JobResult, ScrapeError>) -> bool {
    match parsed_object(json) {
        Some(object) => made is Ok && made->Ok_0@ == complete_record(object, api_cost),
        None => made == Err::<JobResult, ScrapeError>(ScrapeError::MalformedJson),
    }
}

/// Reads the string under `key`, with the empty string as the default.
pub fn text_of(object: &JsonObject, key: &str) -> (text: String)
    ensures
        text@ == text_member(object@, key@),
{
    match object.get(key) {
        Some(JsonValue::Text(s)) => s.clone(),
        _ => String::new(),
    }
}

/// Reads the strings of the array under `key`, with the empty list as the
/// default.
pub fn list_of(object: &JsonObject, key: &str) -> (list: Vec<String>)
    ensures
        texts(list@) == list_member(object@, key@),
{
    let mut list: Vec<String> = Vec::new();
    match object.get(key) {
        Some(JsonValue::List(items)) => {
            let ghost model = items@.map_values(|item: Option<String>| crate::json::item_text(item));
            let ghost keep = |item: Option<Seq<char>>| item;
            let mut i: usize = 0;
            proof {
                assert(model.take(0) =~= Seq::<Option<Seq<char>>>::empty());
                assert(texts(list@) =~= model.take(0).filter_map(keep));
            }
            while i < items.len()
                invariant
                    0 <= i <= items@.len(),
                    model == items@.map_values(|item: Option<String>| crate::json::item_text(item)),
                    keep == |item: Option<Seq<char>>| item,
                    texts(list@) == model.take(i as int).filter_map(keep),
                decreases items.len() - i,
            {
                proof {
                    model.lemma_filter_map_take_succ(keep, i as int);
                }
                let ghost before = list@;
                match &items[i] {
                    Some(s) => {
                        list.push(s.clone());
                        proof {
                            assert(texts(list@) =~= texts(before) + seq![s@]);
                        }
                    },
                    None => {},
                }
                i = i + 1;
            }
            proof {
                assert(model.take(i as int) =~= model);
            }
        },
        _ => {
            proof {
                assert(texts(list@) =~= Seq::<Seq<char>>::empty());
            }
        },
    }
    list
}

impl View for JobResult {
    type V = JobRecord;

    closed spec fn view(&self) -> JobRecord {
        JobRecord {
            company: self.company@,
            title: self.title@,
            industry: self.industry@,
            responsibilities: texts(self.responsibilities@),
            qualifications: texts(self.qualifications@),
            location: self.location@,
            other: texts(self.other@),
            api_cost: self.api_cost,
        }
    }
}

impl JobResult {
    /// A record of the given fields, with no cost attributed to it.
    pub fn new(
        company: String,
        title: String,
        industry: String,
        responsibilities: Vec<String>,
        qualifications: Vec<String>,
        location: String,
        other: Vec<String>,
    ) -> (job: Self)
        ensures
            job@ == (JobRecord {
                company: company@,
                title: title@,
                industry: industry@,
                responsibilities: texts(responsibilities@),
                qualifications: texts(qualifications@),
                location: location@,
                other: texts(other@),
                api_cost: 0,
            }),
    {
        JobResult {
            company,
            title,
            industry,
            responsibilities,
            qualifications,
            location,
            other,
            api_cost: 0,
        }
    }

    /// The record of an object of which industry, responsibilities and
    /// qualifications are read; the other fields are given.
    pub fn from_impartial_object(
        company: String,
        title: String,
        location: String,
        object: &JsonObject,
        api_cost: u64,
    ) -> (job: Self)
        ensures
            job@ == impartial_record(company@, title@, location@, object@, api_cost),
    {
        let industry = text_of(object, "industry");
        let responsibilities = list_of(object, "responsibilities");
        let qualifications = list_of(object, "qualifications");
        let mut other: Vec<String> = Vec::new();
        other.push(String::from_str("N/A"));
        proof {
            reveal_strlit("N/A");
            assert("N/A"@ =~= placeholder());
            assert(texts(other@) =~= seq![placeholder()]);
        }
        JobResult {
            company,
            title,
            industry,
            responsibilities,
            qualifications,
            location,
            other,
            api_cost,
        }
    }

    /// The record of an object of which every field is read.
    pub fn from_complete_object(object: &JsonObject, api_cost: u64) -> (job: Self)
        ensures
            job@ == complete_record(object@, api_cost),
    {
        let company = text_of(object, "company");
        let title = text_of(object, "title");
        let location = text_of(object, "location");
        Self::from_impartial_object(company, title, location, object, api_cost)
    }

    /// Reads industry, responsibilities and qualifications from a JSON text.
    /// Fails exactly where the text is no JSON object; a member that is
    /// missing or of another kind gives the default.
    pub fn from_impartial_json(
        company: String,
        title: String,
        location: String,
        json_str: &str,
        api_cost: u64,
    ) -> (made: Result<Self, ScrapeError>)
        ensures
            made_of_impartial(company@, title@, location@, json_str@, api_cost, made),
    {
        match parse_object(json_str) {
            Ok(object) => Ok(
                Self::from_impartial_object(company, title, location, &object, api_cost),
            ),
            Err(_) => Err(ScrapeError::MalformedJson),
        }
    }

    /// Reads every field from a JSON text. Fails exactly where the text is no
    /// JSON object; a member that is missing or of another kind gives the
    /// default.
    pub fn from_complete_json(json_str: &str, api_cost: u64) -> (made: Result<Self, ScrapeError>)
        ensures
            made_of_complete(json_str@, api_cost, made),
    {
        match parse_object(json_str) {
            Ok(object) => Ok(Self::from_complete_object(&object, api_cost)),
            Err(_) => Err(ScrapeError::MalformedJson),
        }
    }

    /// The record as the seven columns of a table row: company, title,
    /// industry, responsibilities, qualifications, location, other. The
    /// three lists are rendered as bullet lines.
    pub fn to_csv_record(&self) -> (row: Vec<String>)
        ensures
            texts(row@) == csv_columns(self@),
    {
        let mut row: Vec<String> = Vec::new();
        row.push(self.company.clone());
        row.push(self.title.clone());
        row.push(self.industry.clone());
        row.push(list_to_bullets(&self.responsibilities));
        row.push(list_to_bullets(&self.qualifications));
        row.push(self.location.clone());
        row.push(list_to_bullets(&self.other));
        proof {
            assert(texts(row@) =~= csv_columns(self@));
        }
        row
    }

    /// The record as one line of text: the seven columns separated by
    /// commas, and a line feed at the end. Nothing is quoted or escaped.
    pub fn as_csv(&self) -> (line: String)
        ensures
            line@ == csv_line(self@),
    {
        proof {
            reveal_strlit(",");
            reveal_strlit("\n");
            assert(","@ =~= seq![',']);
            assert("\n"@ =~= seq!['\n']);
        }
        let mut line = self.company.clone();
        line.append(",");
        line.append(self.title.as_str());
        line.append(",");
        line.append(self.industry.as_str());
        line.append(",");
        line.append(list_to_bullets(&self.responsibilities).as_str());
        line.append(",");
        line.append(list_to_bullets(&self.qualifications).as_str());
        line.append(",");
        line.append(self.location.as_str());
        line.append(",");
        line.append(list_to_bullets(&self.other).as_str());
        line.append("\n");
        line
    }

    /// A one-line summary: company, title, industry and location, and how
    /// many items each of the three lists holds.
    pub fn as_string(&self) -> (summary: String)
        ensures
            summary@ == summary_of(self@),
    {
        let mut summary = self.company.clone();
        summary.append(" - ");
        summary.append(self.title.as_str());
        summary.append(" - ");
        summary.append(self.industry.as_str());
        summary.append(" @ ");
        summary.append(self.location.as_str());
        summary.append(": ");
        summary.append(decimal_text(self.responsibilities.len()).as_str());
        summary.append(" Responsibilities, ");
        summary.append(decimal_text(self.qualifications.len()).as_str());
        summary.append(" Qualifications, ");
        summary.append(decimal_text(self.other.len()).as_str());
        summary.append(" Other");
        summary
    }

    /// The cost of the model calls behind this record.
    pub fn cost(&self) -> (cost: u64)
        ensures
            cost == self@.api_cost,
    {
        self.api_cost
    }

    pub fn company(&self) -> (company: &String)
        ensures
            company@ == self@.company,
    {
        &self.company
    }

    pub fn title(&self) -> (title: &String)
        ensures
            title@ == self@.title,
    {
        &self.title
    }

    pub fn industry(&self) -> (industry: &String)
        ensures
            industry@ == self@.industry,
    {
        &self.industry
    }

    pub fn responsibilities(&self) -> (responsibilities: &Vec<String>)
        ensures
            texts(responsibilities@) == self@.responsibilities,
    {
        &self.responsibilities
    }

    pub fn qualifications(&self) -> (qualifications: &Vec<String>)
        ensures
            texts(qualifications@) == self@.qualifications,
    {
        &self.qualifications
    }

    pub fn location(&self) -> (location: &String)
        ensures
            location@ == self@.location,
    {
        &self.location
    }

    pub fn other(&self) -> (other: &Vec<String>)
        ensures
            texts(other@) == self@.other,
    {
        &self.other
    }
}

/// The seven columns of a record's table row.
pub open spec fn csv_columns(job: JobRecord) -> Seq<Seq<char>> {
    seq![
        job.company,
        job.title,
        job.industry,
        bullets_of(job.responsibilities),
        bullets_of(job.qualifications),
        job.location,
        bullets_of(job.other),
    ]
}

/// The line of text of a record: its columns with commas between them, and a
/// line feed at the end.
pub open spec fn csv_line(job: JobRecord) -> Seq<char> {
    job.company + seq![','] + job.title + seq![','] + job.industry + seq![','] + bullets_of(
        job.responsibilities,
    ) + seq![','] + bullets_of(job.qualifications) + seq![','] + job.location + seq![',']
        + bullets_of(job.other) + seq!['\n']
}

/// The one-line summary of a record.
pub open spec fn summary_of(job: JobRecord) -> Seq<char> {
    job.company + " - "@ + job.title + " - "@ + job.industry + " @ "@ + job.location + ": "@
        + decimal(job.responsibilities.len()) + " Responsibilities, "@ + decimal(
        job.qualifications.len(),
    ) + " Qualifications, "@ + decimal(job.other.len()) + " Other"@
}

/// A member that the object lacks gives the default: the empty string for a
/// text, the empty list for a list.
pub proof fn lemma_missing_member_defaults(object: Map<Seq<char>, JsonModel>, key: Seq<char>)
    ensures
        !object.contains_key(key) ==> text_member(object, key) == Seq::<char>::empty(),
        !object.contains_key(key) ==> list_member(object, key) == Seq::<Seq<char>>::empty(),
{
}

/// Whatever members a JSON object lacks, the record made of it has the
/// default in the place of each field whose member is missing.
pub proof fn lemma_missing_fields_default(object: Map<Seq<char>, JsonModel>, api_cost: u64)
    ensures
        !object.contains_key("company"@) ==> complete_record(object, api_cost).company == Seq::<
            char,
        >::empty(),
        !object.contains_key("title"@) ==> complete_record(object, api_cost).title == Seq::<
            char,
        >::empty(),
        !object.contains_key("location"@) ==> complete_record(object, api_cost).location == Seq::<
            char,
        >::empty(),
        !object.contains_key("industry"@) ==> complete_record(object, api_cost).industry == Seq::<
            char,
        >::empty(),
        !object.contains_key("responsibilities"@) ==> complete_record(
            object,
            api_cost,
        ).responsibilities == Seq::<Seq<char>>::empty(),
        !object.contains_key("qualifications"@) ==> complete_record(
            object,
            api_cost,
        ).qualifications == Seq::<Seq<char>>::empty(),
        complete_record(object, api_cost).other == seq![placeholder()],
{
}

/// A text that is a JSON object never fails to give a record, whatever
/// members the object lacks.
pub proof fn lemma_object_gives_record(
    json: Seq<char>,
    api_cost: u64,
    made: Result<JobResult, ScrapeError>,
)
    ensures
        made_of_complete(json, api_cost, made) ==> (made is Ok <==> parsed_object(json) is Some),
{
}

/// Reading the same text twice, at the same cost, gives records that agree
/// in every field, or the same failure.
pub proof fn lemma_same_text_same_record(
    json: Seq<char>,
    api_cost: u64,
    first: Result<JobResult, ScrapeError>,
    second: Result<JobResult, ScrapeError>,
)
    ensures
        made_of_complete(json, api_cost, first) && made_of_complete(json, api_cost, second) ==> {
            &&& first is Ok <==> second is Ok
            &&& first is Ok ==> first->Ok_0@ == second->Ok_0@
            &&& first is Err ==> first->Err_0 == second->Err_0
        },
{
}

} // verus!

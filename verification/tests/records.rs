use rust_scraping::error::ScrapeError;
use rust_scraping::jobresult::list_of;
use rust_scraping::jobresult::text_of;
use rust_scraping::jobresult::JobResult;
use rust_scraping::json::JsonObject;
use rust_scraping::json::JsonValue;

fn strings(items: &[&str]) -> Vec<String> {
    items.iter().map(|s| s.to_string()).collect()
}

fn sample() -> JobResult {
    JobResult::new(
        "Acme".to_string(),
        "Engineer".to_string(),
        "Software".to_string(),
        strings(&["Build", "Test"]),
        strings(&["Rust"]),
        "Berlin".to_string(),
        strings(&["N/A"]),
    )
}

#[test]
fn new_keeps_the_fields_and_costs_nothing() {
    let job = sample();
    assert_eq!(job.company(), "Acme");
    assert_eq!(job.title(), "Engineer");
    assert_eq!(job.industry(), "Software");
    assert_eq!(job.responsibilities(), &strings(&["Build", "Test"]));
    assert_eq!(job.qualifications(), &strings(&["Rust"]));
    assert_eq!(job.location(), "Berlin");
    assert_eq!(job.other(), &strings(&["N/A"]));
    assert_eq!(job.api_cost, 0);
    assert_eq!(job.cost(), 0);
}

#[test]
fn complete_json_gives_every_field() {
    let json = "{\"company\":\"Acme\",\"title\":\"Engineer\",\"location\":\"Berlin\",\
                \"industry\":\"Software\",\"responsibilities\":[\"Build\",\"Test\"],\
                \"qualifications\":[\"Rust\"]}";
    let job = JobResult::from_complete_json(json, 1250).unwrap();
    assert_eq!(job.company(), "Acme");
    assert_eq!(job.title(), "Engineer");
    assert_eq!(job.location(), "Berlin");
    assert_eq!(job.industry(), "Software");
    assert_eq!(job.responsibilities(), &strings(&["Build", "Test"]));
    assert_eq!(job.qualifications(), &strings(&["Rust"]));
    assert_eq!(job.other(), &strings(&["N/A"]));
    assert_eq!(job.api_cost, 1250);
}

#[test]
fn missing_members_give_defaults() {
    let job = JobResult::from_complete_json("{}", 7).unwrap();
    assert_eq!(job.company(), "");
    assert_eq!(job.title(), "");
    assert_eq!(job.location(), "");
    assert_eq!(job.industry(), "");
    assert!(job.responsibilities().is_empty());
    assert!(job.qualifications().is_empty());
    assert_eq!(job.other(), &strings(&["N/A"]));
    assert_eq!(job.api_cost, 7);
}

#[test]
fn members_of_another_kind_give_defaults() {
    let json = "{\"company\":5,\"title\":null,\"location\":[\"x\"],\"industry\":{\"a\":1},\
                \"responsibilities\":\"Build\",\"qualifications\":{\"a\":[\"b\"]}}";
    let job = JobResult::from_complete_json(json, 0).unwrap();
    assert_eq!(job.company(), "");
    assert_eq!(job.title(), "");
    assert_eq!(job.location(), "");
    assert_eq!(job.industry(), "");
    assert!(job.responsibilities().is_empty());
    assert!(job.qualifications().is_empty());
}

#[test]
fn list_elements_that_are_no_strings_are_left_out() {
    let json = "{\"responsibilities\":[\"a\",1,null,\"b\",[\"c\"],{\"d\":\"e\"},\"\"],\
                \"qualifications\":[true]}";
    let job = JobResult::from_complete_json(json, 0).unwrap();
    assert_eq!(job.responsibilities(), &strings(&["a", "b", ""]));
    assert!(job.qualifications().is_empty());
}

#[test]
fn a_repeated_member_counts_once() {
    let job = JobResult::from_complete_json("{\"title\":\"first\",\"title\":\"second\"}", 0).unwrap();
    assert_eq!(job.title(), "second");
}

#[test]
fn escapes_in_json_strings_are_resolved() {
    let job = JobResult::from_complete_json("{\"title\":\"a\\n\\\"b\\\" \\u00e9\"}", 0).unwrap();
    assert_eq!(job.title(), "a\n\"b\" \u{e9}");
}

#[test]
fn text_that_is_no_json_object_fails() {
    for text in ["", "not json", "[1,2]", "\"text\"", "5", "null", "{\"a\":1", "{} trailing"] {
        let made = JobResult::from_complete_json(text, 3);
        assert_eq!(made.err(), Some(ScrapeError::MalformedJson));
        let made = JobResult::from_impartial_json(
            "c".to_string(),
            "t".to_string(),
            "l".to_string(),
            text,
            3,
        );
        assert_eq!(made.err(), Some(ScrapeError::MalformedJson));
    }
}

#[test]
fn impartial_json_takes_the_given_fields() {
    let json = "{\"company\":\"Other\",\"title\":\"Other\",\"location\":\"Other\",\
                \"industry\":\"Space\",\"responsibilities\":[\"Launch\"],\
                \"qualifications\":[\"Physics\",\"Patience\"]}";
    let job = JobResult::from_impartial_json(
        "Radiant".to_string(),
        "Pilot".to_string(),
        "El Segundo".to_string(),
        json,
        42,
    )
    .unwrap();
    assert_eq!(job.company(), "Radiant");
    assert_eq!(job.title(), "Pilot");
    assert_eq!(job.location(), "El Segundo");
    assert_eq!(job.industry(), "Space");
    assert_eq!(job.responsibilities(), &strings(&["Launch"]));
    assert_eq!(job.qualifications(), &strings(&["Physics", "Patience"]));
    assert_eq!(job.other(), &strings(&["N/A"]));
    assert_eq!(job.api_cost, 42);
}

#[test]
fn impartial_json_defaults_missing_members() {
    let job =
        JobResult::from_impartial_json("c".to_string(), "t".to_string(), "l".to_string(), "{}", 0)
            .unwrap();
    assert_eq!(job.industry(), "");
    assert!(job.responsibilities().is_empty());
    assert!(job.qualifications().is_empty());
}

#[test]
fn parsing_twice_gives_the_same_record() {
    let json = "{\"company\":\"Acme\",\"responsibilities\":[\"Build\"],\"extra\":1}";
    let first = JobResult::from_complete_json(json, 9).unwrap();
    let second = JobResult::from_complete_json(json, 9).unwrap();
    assert_eq!(first.to_csv_record(), second.to_csv_record());
    assert_eq!(first.as_string(), second.as_string());
    assert_eq!(first.other(), second.other());
    assert_eq!(first.api_cost, second.api_cost);
}

#[test]
fn objects_are_read_member_by_member() {
    let object = JsonObject {
        entries: vec![
            ("industry".to_string(), JsonValue::Text("Space".to_string())),
            (
                "responsibilities".to_string(),
                JsonValue::List(vec![Some("Launch".to_string()), None, Some("Land".to_string())]),
            ),
            ("qualifications".to_string(), JsonValue::Other),
        ],
    };
    assert_eq!(text_of(&object, "industry"), "Space");
    assert_eq!(text_of(&object, "responsibilities"), "");
    assert_eq!(text_of(&object, "missing"), "");
    assert_eq!(list_of(&object, "responsibilities"), strings(&["Launch", "Land"]));
    assert_eq!(list_of(&object, "industry"), Vec::<String>::new());
    assert_eq!(list_of(&object, "qualifications"), Vec::<String>::new());
    assert!(object.get("missing").is_none());
    assert!(matches!(object.get("qualifications"), Some(JsonValue::Other)));
    let job = JobResult::from_complete_object(&object, 5);
    assert_eq!(job.company(), "");
    assert_eq!(job.industry(), "Space");
    assert_eq!(job.responsibilities(), &strings(&["Launch", "Land"]));
    assert_eq!(job.api_cost, 5);
    let job = JobResult::from_impartial_object(
        "c".to_string(),
        "t".to_string(),
        "l".to_string(),
        &object,
        6,
    );
    assert_eq!(job.company(), "c");
    assert_eq!(job.title(), "t");
    assert_eq!(job.location(), "l");
    assert_eq!(job.industry(), "Space");
    assert_eq!(job.api_cost, 6);
}

#[test]
fn csv_record_has_seven_columns() {
    let row = sample().to_csv_record();
    assert_eq!(
        row,
        strings(&[
            "Acme",
            "Engineer",
            "Software",
            "\u{e2}\u{20ac}\u{a2} Build\n\u{e2}\u{20ac}\u{a2} Test",
            "\u{e2}\u{20ac}\u{a2} Rust",
            "Berlin",
            "",
        ])
    );
}

#[test]
fn csv_record_renders_other_without_blank_items() {
    let job = JobResult::new(
        String::new(),
        String::new(),
        String::new(),
        Vec::new(),
        Vec::new(),
        String::new(),
        strings(&["", "Remote", ".", " ", "N/A", "Visa"]),
    );
    let row = job.to_csv_record();
    assert_eq!(row.len(), 7);
    assert_eq!(row[6], "\u{e2}\u{20ac}\u{a2} Remote\n\u{e2}\u{20ac}\u{a2} Visa");
    assert_eq!(row[3], "");
}

#[test]
fn csv_line_joins_the_columns_with_commas() {
    assert_eq!(
        sample().as_csv(),
        "Acme,Engineer,Software,\u{e2}\u{20ac}\u{a2} Build\n\u{e2}\u{20ac}\u{a2} Test,\u{e2}\u{20ac}\u{a2} Rust,Berlin,\n"
    );
}

#[test]
fn summary_counts_the_lists() {
    assert_eq!(
        sample().as_string(),
        "Acme - Engineer - Software @ Berlin: 2 Responsibilities, 1 Qualifications, 1 Other"
    );
    let many: Vec<String> = (0..12).map(|i| i.to_string()).collect();
    let job = JobResult::new(
        String::new(),
        String::new(),
        String::new(),
        many,
        Vec::new(),
        String::new(),
        Vec::new(),
    );
    assert_eq!(job.as_string(), " -  -  @ : 12 Responsibilities, 0 Qualifications, 0 Other");
}

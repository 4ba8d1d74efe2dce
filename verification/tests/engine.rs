//! End-to-end exercises of the query builder and the paginator, driven
//! with fixture pages in place of a live endpoint.

use airtable_client::FetchOutcome;
use airtable_client::Pull;
use airtable_client::Record;
use airtable_client::RecordPage;
use airtable_client::SRecord;
use airtable_client::SortDirection;
use airtable_client::new;

#[derive(Clone, Debug, PartialEq, Eq)]
struct Task {
    id: String,
    name: String,
}

impl Task {
    fn named(name: &str) -> Task {
        Task { id: String::new(), name: String::from(name) }
    }
}

impl Record for Task {
    fn id_model(&self) -> String {
        self.id.clone()
    }

    fn with_id(&self, id: String) -> Task {
        Task { id, name: self.name.clone() }
    }

    fn set_id(&mut self, id: String) {
        self.id = id;
    }

    fn id(&self) -> &str {
        &self.id
    }
}

fn page(entries: &[(&str, &str)], offset: &str) -> RecordPage<Task> {
    RecordPage {
        records: entries
            .iter()
            .map(|(id, name)| SRecord { id: String::from(*id), fields: Task::named(name) })
            .collect(),
        offset: String::from(offset),
    }
}

fn pairs(ps: &[(String, String)]) -> Vec<(&str, &str)> {
    ps.iter().map(|(k, v)| (k.as_str(), v.as_str())).collect()
}

#[test]
fn direction_tokens() {
    assert_eq!(SortDirection::Ascending.to_string(), "asc");
    assert_eq!(SortDirection::Descending.to_string(), "desc");
}

#[test]
fn numerals() {
    assert_eq!(airtable_client::numeral::u64_to_dec(0), "0");
    assert_eq!(airtable_client::numeral::u64_to_dec(7), "7");
    assert_eq!(airtable_client::numeral::u64_to_dec(10), "10");
    assert_eq!(airtable_client::numeral::u64_to_dec(1203), "1203");
}

#[test]
fn urls_and_auth_header() {
    let base = new::<Task>("secret", "app123", "Tasks");
    assert_eq!(base.table_url(), "https://api.airtable.com/v0/app123/Tasks");
    assert_eq!(base.record_url("rec9"), "https://api.airtable.com/v0/app123/Tasks/rec9");
    assert_eq!(base.auth_header(), "Bearer secret");
}

#[test]
fn success_status_is_2xx() {
    assert!(airtable_client::query::is_success(200));
    assert!(airtable_client::query::is_success(204));
    assert!(airtable_client::query::is_success(299));
    assert!(!airtable_client::query::is_success(199));
    assert!(!airtable_client::query::is_success(300));
    assert!(!airtable_client::query::is_success(404));
    assert!(!airtable_client::query::is_success(500));
}

#[test]
fn sort_entries_keep_call_order_with_zero_based_indices() {
    let base = new::<Task>("k", "a", "t");
    let q = base
        .query()
        .sort("Name", SortDirection::Ascending)
        .sort("Age", SortDirection::Descending);
    let ps = q.request_params(&String::from("cur"));
    assert_eq!(
        pairs(&ps),
        vec![
            ("offset", "cur"),
            ("sort[0][field]", "Name"),
            ("sort[0][direction]", "asc"),
            ("sort[1][field]", "Age"),
            ("sort[1][direction]", "desc"),
        ]
    );
}

#[test]
fn view_and_formula_overwrite_sort_accumulates() {
    let base = new::<Task>("k", "a", "t");
    let q = base
        .query()
        .view("First")
        .formula("{Done} = 0")
        .view("Second")
        .formula("{Done} = 1")
        .sort("Name", SortDirection::Ascending)
        .sort("Name", SortDirection::Descending);
    let ps = q.request_params(&String::from(""));
    assert_eq!(
        pairs(&ps),
        vec![
            ("offset", ""),
            ("view", "Second"),
            ("filterByFormula", "{Done} = 1"),
            ("sort[0][field]", "Name"),
            ("sort[0][direction]", "asc"),
            ("sort[1][field]", "Name"),
            ("sort[1][direction]", "desc"),
        ]
    );
}

#[test]
fn single_page_yields_records_in_order_then_ends() {
    let base = new::<Task>("k", "a", "t");
    let mut p = base.query().finalize();
    let out = p.run_script(vec![FetchOutcome::Success(page(
        &[("r1", "alpha"), ("r2", "beta"), ("r3", "gamma")],
        "",
    ))]);
    let names: Vec<&str> = out.iter().map(|t| t.name.as_str()).collect();
    assert_eq!(names, vec!["alpha", "beta", "gamma"]);
    assert!(matches!(p.poll(), Pull::Finished));
    assert!(matches!(p.poll(), Pull::Finished));
}

#[test]
fn multi_page_yields_pages_in_order_without_drops_or_duplicates() {
    let base = new::<Task>("k", "a", "t");
    let mut p = base.query().finalize();
    let out = p.run_script(vec![
        FetchOutcome::Success(page(&[("r1", "alpha"), ("r2", "beta")], "tok")),
        FetchOutcome::Success(page(&[("r3", "gamma")], "")),
    ]);
    let seen: Vec<(&str, &str)> =
        out.iter().map(|t| (t.id(), t.name.as_str())).collect();
    assert_eq!(seen, vec![("r1", "alpha"), ("r2", "beta"), ("r3", "gamma")]);
    assert!(matches!(p.poll(), Pull::Finished));
}

#[test]
fn empty_page_with_absent_cursor_exhausts_permanently() {
    let base = new::<Task>("k", "a", "t");
    let mut p = base.query().finalize();
    let out = p.run_script(vec![FetchOutcome::Success(page(&[], ""))]);
    assert!(out.is_empty());
    assert!(matches!(p.poll(), Pull::Finished));
    // Even offering more pages cannot restart an exhausted paginator.
    let more = p.run_script(vec![FetchOutcome::Success(page(&[("r9", "late")], ""))]);
    assert!(more.is_empty());
    assert!(matches!(p.poll(), Pull::Finished));
}

#[test]
fn failed_first_fetch_masks_as_empty_listing() {
    let base = new::<Task>("k", "a", "t");
    let mut p = base.query().finalize();
    let out = p.run_script(vec![FetchOutcome::Failure]);
    assert!(out.is_empty());
    assert!(matches!(p.poll(), Pull::Finished));
}

#[test]
fn failure_after_one_page_truncates_the_stream() {
    let base = new::<Task>("k", "a", "t");
    let mut p = base.query().finalize();
    let out = p.run_script(vec![
        FetchOutcome::Success(page(&[("r1", "alpha")], "tok")),
        FetchOutcome::Failure,
    ]);
    let names: Vec<&str> = out.iter().map(|t| t.name.as_str()).collect();
    assert_eq!(names, vec!["alpha"]);
    assert!(matches!(p.poll(), Pull::Finished));
}

#[test]
fn identifier_comes_from_envelope_not_fields_payload() {
    let base = new::<Task>("k", "a", "t");
    let mut p = base.query().finalize();
    // The fields payload carries its own (stale) identifier; the envelope id wins.
    let stale = Task { id: String::from("embedded"), name: String::from("alpha") };
    let out = p.run_script(vec![FetchOutcome::Success(RecordPage {
        records: vec![SRecord { id: String::from("rec42"), fields: stale }],
        offset: String::new(),
    })]);
    assert_eq!(out.len(), 1);
    assert_eq!(out[0].id(), "rec42");
    assert_eq!(out[0].name, "alpha");
}

#[test]
fn grid_view_two_page_scenario() {
    let base = new::<Task>("key", "app", "Table");
    let mut p = base
        .query()
        .view("Grid")
        .sort("Name", SortDirection::Ascending)
        .finalize();

    // First pull: nothing buffered, so a fetch of the first page is due.
    assert!(matches!(p.poll(), Pull::NeedFetch));
    assert_eq!(
        pairs(&p.request_params()),
        vec![
            ("offset", ""),
            ("view", "Grid"),
            ("sort[0][field]", "Name"),
            ("sort[0][direction]", "asc"),
        ]
    );
    p.feed_page(page(&[("r1", "A")], "tok"));

    let first = match p.poll() {
        Pull::Item(t) => t,
        _ => panic!("expected a record from page one"),
    };
    assert_eq!((first.id(), first.name.as_str()), ("r1", "A"));

    // Buffer exhausted, cursor resumes at "tok": the page-two request.
    assert!(matches!(p.poll(), Pull::NeedFetch));
    assert_eq!(
        pairs(&p.request_params()),
        vec![
            ("offset", "tok"),
            ("view", "Grid"),
            ("sort[0][field]", "Name"),
            ("sort[0][direction]", "asc"),
        ]
    );
    p.feed_page(page(&[("r2", "B")], ""));

    let second = match p.poll() {
        Pull::Item(t) => t,
        _ => panic!("expected a record from page two"),
    };
    assert_eq!((second.id(), second.name.as_str()), ("r2", "B"));
    assert!(matches!(p.poll(), Pull::Finished));
}

#[test]
fn awaiting_fetch_tracks_buffer_and_cursor() {
    let base = new::<Task>("k", "a", "t");
    let mut p = base.query().finalize();
    assert!(p.awaiting_fetch());
    p.feed_page(page(&[("r1", "alpha")], ""));
    assert!(!p.awaiting_fetch());
    assert!(matches!(p.poll(), Pull::Item(_)));
    assert!(!p.awaiting_fetch());
    assert!(matches!(p.poll(), Pull::Finished));
}

#[test]
fn numerals_largest_value() {
    assert_eq!(
        airtable_client::numeral::u64_to_dec(u64::MAX),
        "18446744073709551615"
    );
}

#[test]
fn running_out_of_responses_leaves_the_cursor_in_place() {
    let base = new::<Task>("k", "a", "t");
    let mut p = base.query().finalize();
    // No response arrives at all: nothing is yielded, but the paginator is
    // not exhausted — the first page is still owed.
    let out = p.run_script(vec![]);
    assert!(out.is_empty());
    assert!(matches!(p.poll(), Pull::NeedFetch));
    let late = p.run_script(vec![FetchOutcome::Success(page(&[("r1", "alpha")], ""))]);
    assert_eq!(late.len(), 1);
    assert_eq!(late[0].id(), "r1");
    assert!(matches!(p.poll(), Pull::Finished));
}

#[test]
fn into_records_sets_each_identifier() {
    let envelopes = vec![
        SRecord { id: String::from("x1"), fields: Task::named("one") },
        SRecord { id: String::from("x2"), fields: Task::named("two") },
    ];
    let out = airtable_client::page::into_records(envelopes);
    assert_eq!(out.len(), 2);
    assert_eq!(out[0].id(), "x1");
    assert_eq!(out[0].name, "one");
    assert_eq!(out[1].id(), "x2");
    assert_eq!(out[1].name, "two");
}

//! The report document that every plugin answers with: a title over sections of
//! two-column tables and plain lines.
use crate::json::{
    close_node, encode_value, json_bytes, json_len, known, value_entries, value_items, value_json,
    JsonView, Node,
};
use crate::text::{sorts_before, views};
use vstd::prelude::*;

verus! {

// ------------------------------------------------------------------- models --

/// The two columns of a row.
pub type RowView = (Seq<char>, Seq<char>);

/// What a section shows.
#[verifier::ext_equal]
pub enum BodyView {
    Table { columns: RowView, rows: Seq<RowView> },
    Lines { lines: Seq<Seq<char>> },
}

/// A section under its title.
#[verifier::ext_equal]
pub struct SectionView {
    pub title: Seq<char>,
    pub body: BodyView,
}

/// A whole report.
#[verifier::ext_equal]
pub struct ReportView {
    pub schema_version: u32,
    pub title: Seq<char>,
    pub sections: Seq<SectionView>,
}

/// A table under the columns of a summary.
pub open spec fn table_view(title: Seq<char>, rows: Seq<RowView>) -> SectionView {
    SectionView { title, body: BodyView::Table { columns: ("Field"@, "Value"@), rows } }
}

/// Plain lines under a title.
pub open spec fn lines_view(title: Seq<char>, lines: Seq<Seq<char>>) -> SectionView {
    SectionView { title, body: BodyView::Lines { lines } }
}

/// A report in the version that is spoken here.
pub open spec fn report_view(title: Seq<char>, sections: Seq<SectionView>) -> ReportView {
    ReportView { schema_version: 1, title, sections }
}

/// The rows once `field` has its row, which an empty value does not get.
pub open spec fn with_row(rows: Seq<RowView>, field: Seq<char>, value: Seq<char>) -> Seq<RowView> {
    if value.len() == 0 {
        rows
    } else {
        rows.push((field, value))
    }
}

/// The rows of a list of pairs.
pub open spec fn row_views(rows: Seq<(String, String)>) -> Seq<RowView> {
    rows.map_values(|row: (String, String)| (row.0@, row.1@))
}

/// The views of a list of sections.
pub open spec fn section_views(sections: Seq<Section>) -> Seq<SectionView> {
    sections.map_values(|section: Section| section@)
}

// ---------------------------------------------------------------- documents --

/// What a section shows: a table of two columns, or lines.
#[derive(Debug, PartialEq)]
pub enum Body {
    Table { columns: (String, String), rows: Vec<(String, String)> },
    Lines { lines: Vec<String> },
}

/// A section under its title.
#[derive(Debug, PartialEq)]
pub struct Section {
    pub title: String,
    pub body: Body,
}

/// A whole report.
#[derive(Debug, PartialEq)]
pub struct Report {
    pub schema_version: u32,
    pub title: String,
    pub sections: Vec<Section>,
}

impl Section {
    pub open spec fn view(&self) -> SectionView {
        SectionView {
            title: self.title@,
            body: match self.body {
                Body::Table { columns, rows } => BodyView::Table {
                    columns: (columns.0@, columns.1@),
                    rows: row_views(rows@),
                },
                Body::Lines { lines } => BodyView::Lines { lines: views(lines@) },
            },
        }
    }
}

impl Report {
    pub open spec fn view(&self) -> ReportView {
        ReportView {
            schema_version: self.schema_version,
            title: self.title@,
            sections: section_views(self.sections@),
        }
    }
}

pub broadcast proof fn row_views_push(rows: Seq<(String, String)>, row: (String, String))
    ensures
        #[trigger] row_views(rows.push(row)) == row_views(rows).push((row.0@, row.1@)),
{
    assert(row_views(rows.push(row)) =~= row_views(rows).push((row.0@, row.1@)));
}

pub broadcast proof fn row_views_empty()
    ensures
        #[trigger] row_views(Seq::empty()) == Seq::<RowView>::empty(),
{
    assert(row_views(Seq::empty()) =~= Seq::<RowView>::empty());
}

pub broadcast proof fn section_views_push(sections: Seq<Section>, section: Section)
    ensures
        #[trigger] section_views(sections.push(section)) == section_views(sections).push(section@),
{
    assert(section_views(sections.push(section)) =~= section_views(sections).push(section@));
}

pub broadcast proof fn section_views_empty()
    ensures
        #[trigger] section_views(Seq::empty()) == Seq::<SectionView>::empty(),
{
    assert(section_views(Seq::empty()) =~= Seq::<SectionView>::empty());
}

pub broadcast group group_report {
    row_views_push,
    row_views_empty,
    section_views_push,
    section_views_empty,
}

/// A table under the columns of a summary.
pub fn table(title: &str, rows: Vec<(String, String)>) -> (section: Section)
    ensures
        section@ == table_view(title@, row_views(rows@)),
{
    Section {
        title: title.to_owned(),
        body: Body::Table { columns: ("Field".to_owned(), "Value".to_owned()), rows },
    }
}

/// Plain lines under a title.
pub fn lines(title: &str, list: Vec<String>) -> (section: Section)
    ensures
        section@ == lines_view(title@, views(list@)),
{
    Section { title: title.to_owned(), body: Body::Lines { lines: list } }
}

/// A section of a single line.
pub fn single_line(title: &str, line: &str) -> (section: Section)
    ensures
        section@ == lines_view(title@, seq![line@]),
{
    let mut list: Vec<String> = Vec::new();
    list.push(line.to_owned());
    assert(views(list@) =~= seq![line@]);
    lines(title, list)
}

/// A row, unless the value is empty.
pub fn row(field: &str, value: String) -> (pair: Option<(String, String)>)
    ensures
        match pair {
            Some(pair) => value@.len() > 0 && pair.0@ == field@ && pair.1@ == value@,
            None => value@.len() == 0,
        },
{
    if value.as_str().is_empty() {
        None
    } else {
        Some((field.to_owned(), value))
    }
}

/// Adds the row of `field`, unless the value is empty.
pub fn add_row(rows: &mut Vec<(String, String)>, field: &str, value: String)
    ensures
        row_views(final(rows)@) == with_row(row_views(old(rows)@), field@, value@),
{
    broadcast use group_report;

    if let Some(pair) = row(field, value) {
        rows.push(pair);
    }
}

/// Adds the row of `field`, whatever its value is.
pub fn put_row(rows: &mut Vec<(String, String)>, field: &str, value: String)
    ensures
        row_views(final(rows)@) == row_views(old(rows)@).push((field@, value@)),
{
    broadcast use group_report;

    rows.push((field.to_owned(), value));
}

/// A report in the version that is spoken here.
pub fn document(title: &str, sections: Vec<Section>) -> (report: Report)
    ensures
        report@ == report_view(title@, section_views(sections@)),
{
    Report { schema_version: 1, title: title.to_owned(), sections }
}

// ------------------------------------------------------------------ as JSON --

/// A row as JSON.
pub open spec fn row_json(row: RowView) -> JsonView {
    JsonView::Array(seq![JsonView::Text(row.0), JsonView::Text(row.1)])
}

/// Texts as JSON.
pub open spec fn texts_json(texts: Seq<Seq<char>>) -> JsonView {
    JsonView::Array(texts.map_values(|text: Seq<char>| JsonView::Text(text)))
}

/// Rows as JSON.
pub open spec fn rows_json(rows: Seq<RowView>) -> JsonView {
    JsonView::Array(rows.map_values(|row: RowView| row_json(row)))
}

/// A section as JSON.
pub open spec fn section_json(section: SectionView) -> JsonView {
    match section.body {
        BodyView::Table { columns, rows } => JsonView::Object(
            seq![
                ("columns"@, row_json(columns)),
                ("rows"@, rows_json(rows)),
                ("title"@, JsonView::Text(section.title)),
            ],
        ),
        BodyView::Lines { lines } => JsonView::Object(
            seq![("lines"@, texts_json(lines)), ("title"@, JsonView::Text(section.title))],
        ),
    }
}

/// Sections as JSON.
pub open spec fn sections_json(sections: Seq<SectionView>) -> Seq<JsonView> {
    sections.map_values(|section: SectionView| section_json(section))
}

/// A report as JSON.
pub open spec fn report_json(report: ReportView) -> JsonView {
    JsonView::Object(
        seq![
            ("schema_version"@, JsonView::Number(Some(report.schema_version as i64))),
            ("sections"@, JsonView::Array(sections_json(report.sections))),
            ("title"@, JsonView::Text(report.title)),
        ],
    )
}

proof fn keys_in_order()
    ensures
        sorts_before("columns"@, "rows"@),
        sorts_before("columns"@, "title"@),
        sorts_before("rows"@, "title"@),
        sorts_before("lines"@, "title"@),
        sorts_before("schema_version"@, "sections"@),
        sorts_before("schema_version"@, "title"@),
        sorts_before("sections"@, "title"@),
{
    reveal_strlit("columns");
    reveal_strlit("rows");
    reveal_strlit("title");
    reveal_strlit("lines");
    reveal_strlit("schema_version");
    reveal_strlit("sections");
    reveal_with_fuel(sorts_before, 2);
}

proof fn row_known(row: RowView)
    ensures
        known(row_json(row)),
{
    reveal_with_fuel(known, 2);
}

proof fn section_known(section: SectionView)
    ensures
        known(section_json(section)),
{
    reveal_with_fuel(known, 2);
    match section.body {
        BodyView::Table { columns, rows } => {
            row_known(columns);
            let items = rows_json(rows)->Array_0;
            assert forall|i: int| 0 <= i < items.len() implies known(#[trigger] items[i]) by {
                row_known(rows[i]);
            }
            assert(known(rows_json(rows)));
        },
        BodyView::Lines { lines } => {
            assert(known(texts_json(lines)));
        },
    }
}

proof fn report_known(report: ReportView)
    ensures
        known(report_json(report)),
{
    reveal_with_fuel(known, 2);
    let items = sections_json(report.sections);
    assert forall|i: int| 0 <= i < items.len() implies known(#[trigger] items[i]) by {
        section_known(report.sections[i]);
    }
    assert(known(JsonView::Array(items)));
}

fn text_value(text: &String) -> (value: serde_json::Value)
    ensures
        value_json(value) == JsonView::Text(text@),
{
    close_node(Node::Text(text.clone()))
}

fn row_value(row: &(String, String)) -> (value: serde_json::Value)
    ensures
        value_json(value) == row_json((row.0@, row.1@)),
{
    let mut items: Vec<serde_json::Value> = Vec::new();
    items.push(text_value(&row.0));
    items.push(text_value(&row.1));
    assert(value_items(items@) =~= seq![JsonView::Text(row.0@), JsonView::Text(row.1@)]);
    close_node(Node::Array(items))
}

fn rows_value(rows: &Vec<(String, String)>) -> (value: serde_json::Value)
    ensures
        value_json(value) == rows_json(row_views(rows@)),
{
    let mut items: Vec<serde_json::Value> = Vec::new();
    let mut at: usize = 0;
    while at < rows.len()
        invariant
            at <= rows@.len(),
            items@.len() == at,
            forall|i: int|
                0 <= i < at ==> value_json(#[trigger] items@[i]) == row_json(
                    (rows@[i].0@, rows@[i].1@),
                ),
        decreases rows@.len() - at,
    {
        items.push(row_value(&rows[at]));
        at = at + 1;
    }
    assert(value_items(items@) =~= rows_json(row_views(rows@))->Array_0);
    close_node(Node::Array(items))
}

fn texts_value(texts: &Vec<String>) -> (value: serde_json::Value)
    ensures
        value_json(value) == texts_json(views(texts@)),
{
    let mut items: Vec<serde_json::Value> = Vec::new();
    let mut at: usize = 0;
    while at < texts.len()
        invariant
            at <= texts@.len(),
            items@.len() == at,
            forall|i: int|
                0 <= i < at ==> value_json(#[trigger] items@[i]) == JsonView::Text(texts@[i]@),
        decreases texts@.len() - at,
    {
        items.push(text_value(&texts[at]));
        at = at + 1;
    }
    assert(value_items(items@) =~= texts_json(views(texts@))->Array_0);
    close_node(Node::Array(items))
}

fn section_value(section: &Section) -> (value: serde_json::Value)
    ensures
        value_json(value) == section_json(section@),
{
    proof {
        keys_in_order();
    }
    let mut entries: Vec<(String, serde_json::Value)> = Vec::new();
    match &section.body {
        Body::Table { columns, rows } => {
            entries.push(("columns".to_owned(), row_value(columns)));
            entries.push(("rows".to_owned(), rows_value(rows)));
        },
        Body::Lines { lines } => {
            entries.push(("lines".to_owned(), texts_value(lines)));
        },
    }
    entries.push(("title".to_owned(), text_value(&section.title)));
    assert(value_entries(entries@) =~= section_json(section@)->Object_0);
    close_node(Node::Object(entries))
}

fn report_value(report: &Report) -> (value: serde_json::Value)
    ensures
        value_json(value) == report_json(report@),
{
    proof {
        keys_in_order();
    }
    let mut items: Vec<serde_json::Value> = Vec::new();
    let mut at: usize = 0;
    while at < report.sections.len()
        invariant
            at <= report.sections@.len(),
            items@.len() == at,
            forall|i: int|
                0 <= i < at ==> value_json(#[trigger] items@[i]) == section_json(
                    report.sections@[i]@,
                ),
        decreases report.sections@.len() - at,
    {
        items.push(section_value(&report.sections[at]));
        at = at + 1;
    }
    assert(value_items(items@) =~= sections_json(report@.sections));
    let mut entries: Vec<(String, serde_json::Value)> = Vec::new();
    entries.push(
        (
            "schema_version".to_owned(),
            close_node(Node::Number(Some(report.schema_version as i64))),
        ),
    );
    entries.push(("sections".to_owned(), close_node(Node::Array(items))));
    entries.push(("title".to_owned(), text_value(&report.title)));
    assert(value_entries(entries@) =~= report_json(report@)->Object_0);
    close_node(Node::Object(entries))
}

/// The length of a section once written as JSON.
pub open spec fn section_len(section: SectionView) -> nat {
    json_len(section_json(section))
}

/// The length of a section once written as JSON.
pub fn serialized_len(section: &Section) -> (length: usize)
    ensures
        length == section_len(section@),
{
    proof {
        section_known(section@);
    }
    match encode_value(&section_value(section)) {
        Ok(bytes) => bytes.len(),
        Err(_) => usize::MAX,
    }
}

/// The length of a report once written as JSON.
pub open spec fn report_len(report: ReportView) -> nat {
    json_len(report_json(report))
}

/// The length of a report once written as JSON.
pub fn serialized_report_len(report: &Report) -> (length: usize)
    ensures
        length == report_len(report@),
{
    proof {
        report_known(report@);
    }
    match encode_value(&report_value(report)) {
        Ok(bytes) => bytes.len(),
        Err(_) => usize::MAX,
    }
}

/// A report written as JSON, its keys in alphabetical order.
pub fn report_bytes(report: &Report) -> (bytes: Result<Vec<u8>, String>)
    ensures
        bytes is Ok,
        bytes->Ok_0@ == json_bytes(report_json(report@)),
        bytes->Ok_0@.len() == report_len(report@),
{
    proof {
        report_known(report@);
    }
    encode_value(&report_value(report))
}

} // verus!

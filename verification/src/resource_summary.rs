//! A summary of the selected object.
use crate::json::{
    as_entries, in_order, parts_are_tidy, seen, text_or_empty, text_or_nothing, tidy, Json, JsonView,
};
use crate::report::{
    document, group_report, put_row, report_view, row_views, section_views, table, table_view, Body,
    BodyView, Report, ReportView, RowView, Section, SectionView,
};
use crate::text::{sorts_before, text_view};
use crate::text_map::{stands_for, text_at, TextMap};
use vstd::prelude::*;

verus! {

/// A request for a summary.
pub struct Request {
    pub schema_version: u32,
    pub context: Option<String>,
    pub inputs: TextMap<String>,
    pub object: Option<Json>,
}

/// What the selected object is.
pub open spec fn object_of(request: &Request) -> JsonView {
    match request.object {
        Some(object) => object@,
        None => JsonView::Null,
    }
}

/// What is selected.
pub open spec fn selection_rows(context: Option<Seq<char>>, object: JsonView) -> Seq<RowView> {
    seq![
        (
            "Context"@,
            match context {
                Some(context) => context,
                None => "inferred"@,
            },
        ),
        ("Kind"@, text_or_empty(object.get("kind"@))),
        ("Namespace"@, text_or_empty(object.at("metadata"@, "namespace"@))),
        ("Name"@, text_or_empty(object.at("metadata"@, "name"@))),
    ]
}

/// The labels of an object.
pub open spec fn label_rows(object: JsonView) -> Seq<RowView> {
    match as_entries(object.at("metadata"@, "labels"@)) {
        Some(labels) => labels.map_values(
            |label: (Seq<char>, JsonView)| (label.0, text_or_empty(Some(label.1))),
        ),
        None => Seq::empty(),
    }
}

/// The section of an object's labels.
pub open spec fn labels_section(object: JsonView) -> SectionView {
    SectionView {
        title: "Labels"@,
        body: BodyView::Table { columns: ("Label"@, "Value"@), rows: label_rows(object) },
    }
}

/// The summary that a request asks for. Labels are shown only in detail.
pub open spec fn summary_of(request: &Request) -> Result<ReportView, Seq<char>> {
    if request.schema_version != 1 {
        Err("unsupported request schema_version"@)
    } else {
        let object = object_of(request);
        let selection = seq![
            table_view("Selection"@, selection_rows(text_view(request.context), object)),
        ];
        Ok(
            report_view(
                "Resource summary"@,
                if text_at(request.inputs@, "detail"@) == Some("true"@) {
                    selection.push(labels_section(object))
                } else {
                    selection
                },
            ),
        )
    }
}

/// The labels of an object that was read are shown once each and in the order of
/// their keys, however its document was written.
pub proof fn labels_are_shown_in_order(object: JsonView)
    requires
        tidy(object),
    ensures
        forall|i: int, j: int|
            0 <= i < j < label_rows(object).len() ==> sorts_before(
                (#[trigger] label_rows(object)[i]).0,
                (#[trigger] label_rows(object)[j]).0,
            ),
{
    parts_are_tidy(object, "metadata"@);
    if let Some(metadata) = object.get("metadata"@) {
        parts_are_tidy(metadata, "labels"@);
        if let Some(JsonView::Object(labels)) = metadata.get("labels"@) {
            assert(in_order(labels));
            let rows = label_rows(object);
            assert forall|i: int, j: int| 0 <= i < j < rows.len() implies sorts_before(
                (#[trigger] rows[i]).0,
                (#[trigger] rows[j]).0,
            ) by {
                assert(rows[i].0 == labels[i].0 && rows[j].0 == labels[j].0);
            }
        }
    }
}

fn labels(found: Option<&Json>) -> (rows: Vec<(String, String)>)
    ensures
        row_views(rows@) == match as_entries(seen(found)) {
            Some(labels) => labels.map_values(
                |label: (Seq<char>, JsonView)| (label.0, text_or_empty(Some(label.1))),
            ),
            None => Seq::<RowView>::empty(),
        },
{
    let mut rows: Vec<(String, String)> = Vec::new();
    assert(row_views(rows@) =~= Seq::<RowView>::empty());
    let entries = match found {
        Some(Json::Object(entries)) => entries,
        _ => {
            return rows;
        },
    };
    let ghost list = found->0@->Object_0;
    let mut at: usize = 0;
    while at < entries.len()
        invariant
            at <= entries@.len(),
            list.len() == entries@.len(),
            forall|i: int|
                0 <= i < list.len() ==> #[trigger] list[i] == (entries@[i].0@, entries@[i].1@),
            rows@.len() == at,
            forall|i: int|
                0 <= i < at ==> ((#[trigger] rows@[i]).0@, rows@[i].1@) == (
                    list[i].0,
                    text_or_empty(Some(list[i].1)),
                ),
        decreases entries@.len() - at,
    {
        let value = text_or_nothing(Some(&entries[at].1));
        rows.push((entries[at].0.clone(), value));
        at = at + 1;
    }
    assert(row_views(rows@) =~= list.map_values(
        |label: (Seq<char>, JsonView)| (label.0, text_or_empty(Some(label.1))),
    ));
    rows
}

/// The summary that a request asks for.
pub fn report(request: &Request) -> (written: Result<Report, String>)
    ensures
        match written {
            Ok(written) => summary_of(request) == Ok::<ReportView, Seq<char>>(written@),
            Err(message) => summary_of(request) == Err::<ReportView, Seq<char>>(message@),
        },
{
    broadcast use group_report;

    if request.schema_version != 1 {
        return Err("unsupported request schema_version".to_owned());
    }
    let nothing = Json::Null;
    let object = match &request.object {
        Some(object) => object,
        None => &nothing,
    };
    let mut rows: Vec<(String, String)> = Vec::new();
    let context = match &request.context {
        Some(context) => context.clone(),
        None => "inferred".to_owned(),
    };
    put_row(&mut rows, "Context", context);
    put_row(&mut rows, "Kind", text_or_nothing(object.get("kind")));
    put_row(&mut rows, "Namespace", text_or_nothing(object.at("metadata", "namespace")));
    put_row(&mut rows, "Name", text_or_nothing(object.at("metadata", "name")));
    assert(row_views(rows@) =~= selection_rows(text_view(request.context), object@));
    let mut sections: Vec<Section> = Vec::new();
    sections.push(table("Selection", rows));
    if stands_for(&request.inputs, "detail", "true") {
        sections.push(
            Section {
                title: "Labels".to_owned(),
                body: Body::Table {
                    columns: ("Label".to_owned(), "Value".to_owned()),
                    rows: labels(object.at("metadata", "labels")),
                },
            },
        );
    }
    assert(section_views(sections@) =~= summary_of(request)->Ok_0.sections);
    Ok(document("Resource summary", sections))
}

} // verus!

//! What Velero's reports and commands say of the objects and the requests they are
//! about.
use crate::encoding::quoted;
use crate::laws::reading::{
    beginnings_stay, cell, counted, decimals_are_spelled, given, giving, group_cells, lines_begin,
    listed, listed_of_sum, made_of, rows_in, selections_have_what_is_made, spelled, told,
    two_numbers, unless_empty,
};
use crate::numbers::decimal;
use crate::report::{ReportView, SectionView};
use crate::sequences::{
    count_matches, first_match, first_match_found, first_match_is_there, first_match_missing,
    first_match_none, selected,
};
use crate::text::{begins, joined, text_lines, trimmed, views};
use crate::text_map::{text_at, text_or};
use crate::velero::{
    action_of, details_of, fetch_of, is_available, is_location, location_of, locations_arguments_of,
    rendered_of, replayed_of, spoken, suits, trigger_arguments_of, Action, FetchView, Request,
    Resource, Source, Status,
};
use vstd::prelude::*;
use vstd::utf8::{decode_utf8, valid_utf8};

verus! {

/// A text, or a word where it is empty.
pub open spec fn or_word(text: Seq<char>, word: Seq<char>) -> Seq<char> {
    if text.len() == 0 {
        word
    } else {
        text
    }
}

/// Whether a report tells progress: nothing while nothing is counted, and
/// otherwise how many items of how many.
pub open spec fn tells_progress(told: Option<Seq<char>>, items: u64, total: u64) -> bool {
    match told {
        None => total == 0,
        Some(text) => total > 0 && two_numbers(text, items as nat, " of "@, total as nat, " items"@),
    }
}

proof fn progress_is_told(items: u64, total: u64)
    ensures
        total > 0 ==> two_numbers(
            decimal(items as nat) + " of "@ + decimal(total as nat) + " items"@,
            items as nat,
            " of "@,
            total as nat,
            " items"@,
        ),
        (decimal(items as nat) + " of "@ + decimal(total as nat) + " items"@).len() > 0,
{
    broadcast use decimals_are_spelled;

    reveal_strlit(" items");
    assert(spelled(decimal(items as nat)) == Some(items as nat));
    assert(spelled(decimal(total as nat)) == Some(total as nat));
}

/// The object that an inspection looks at: the saved one where there is one, the
/// selected one otherwise.
pub open spec fn looked_at(request: &Request, source: &Source) -> Resource {
    match source {
        Source::Replayed(resource) => *resource,
        _ => request.object->0,
    }
}

proof fn inspection_names()
    ensures
        "Verdict"@.len() == 7 && "Verdict"@[0] == 'V',
        "Context"@.len() == 7 && "Context"@[0] == 'C',
        "Namespace"@.len() == 9 && "Namespace"@[0] == 'N',
        "Backup"@.len() == 6 && "Backup"@[0] == 'B',
        "Restore"@.len() == 7 && "Restore"@[0] == 'R',
        "From schedule"@.len() == 13,
        "From backup"@.len() == 11,
        "Storage location"@.len() == 16 && "Storage location"@[0] == 'S',
        "Started"@.len() == 7 && "Started"@[0] == 'S',
        "Completed"@.len() == 9 && "Completed"@[0] == 'C',
        "Expires"@.len() == 7 && "Expires"@[0] == 'E',
        "TTL"@.len() == 3,
        "Volume snapshots"@.len() == 16 && "Volume snapshots"@[0] == 'V',
        "Progress"@.len() == 8 && "Progress"@[0] == 'P',
        "Errors"@.len() == 6 && "Errors"@[0] == 'E',
        "Warnings"@.len() == 8 && "Warnings"@[0] == 'W',
{
    reveal_strlit("Verdict");
    reveal_strlit("Context");
    reveal_strlit("Namespace");
    reveal_strlit("Backup");
    reveal_strlit("Restore");
    reveal_strlit("From schedule");
    reveal_strlit("From backup");
    reveal_strlit("Storage location");
    reveal_strlit("Started");
    reveal_strlit("Completed");
    reveal_strlit("Expires");
    reveal_strlit("TTL");
    reveal_strlit("Volume snapshots");
    reveal_strlit("Progress");
    reveal_strlit("Errors");
    reveal_strlit("Warnings");
}

proof fn shown_words()
    ensures
        "no phase yet"@.len() > 0,
        "enabled"@.len() > 0,
        "disabled"@.len() > 0,
{
    reveal_strlit("no phase yet");
    reveal_strlit("enabled");
    reveal_strlit("disabled");
}

/// The inspection of a backup tells of each thing that Velero recorded under the
/// name of that thing, and leaves out what Velero has not filled in.
#[verifier::spinoff_prover]
#[verifier::rlimit(40)]
pub proof fn backups_are_told_as_recorded(request: &Request, source: &Source)
    requires
        suits(Action::Inspect, source),
        rendered_of(Action::Inspect, request, source) is Ok,
        looked_at(request, source).kind@ == "Backup"@,
    ensures
        ({
            let report = rendered_of(Action::Inspect, request, source)->Ok_0;
            let backup = looked_at(request, source);
            &&& told(report, "Verdict"@) == Some(or_word(backup.status.phase@, "no phase yet"@))
            &&& told(report, "Context"@) == Some(or_word(request.context@, "inferred"@))
            &&& told(report, "Namespace"@) == Some(backup.metadata.namespace@)
            &&& report.title == "Velero backup"@
            &&& told(report, "Backup"@) == Some(backup.metadata.name@)
            &&& told(report, "Restore"@) is None
            &&& told(report, "From schedule"@) == unless_empty(
                text_or(backup.metadata.labels@, "velero.io/schedule-name"@),
            )
            &&& told(report, "Storage location"@) == unless_empty(backup.spec.storage_location@)
            &&& told(report, "Started"@) == unless_empty(backup.status.start_timestamp@)
            &&& told(report, "Completed"@) == unless_empty(backup.status.completion_timestamp@)
            &&& told(report, "Expires"@) == unless_empty(backup.status.expiration@)
            &&& told(report, "TTL"@) == unless_empty(backup.spec.ttl@)
            &&& told(report, "Volume snapshots"@) == match backup.spec.snapshot_volumes {
                Some(on) => Some(
                    if on {
                        "enabled"@
                    } else {
                        "disabled"@
                    },
                ),
                None => None,
            }
            &&& tells_progress(
                told(report, "Progress"@),
                backup.status.progress.items_backed_up,
                backup.status.progress.total_items,
            )
            &&& counted(report, "Errors"@) == Some(backup.status.errors as nat)
            &&& counted(report, "Warnings"@) == Some(backup.status.warnings as nat)
        }),
{
    broadcast use {group_cells, decimals_are_spelled};

    inspection_names();
    shown_words();
    let backup = looked_at(request, source);
    progress_is_told(
        backup.status.progress.items_backed_up,
        backup.status.progress.total_items,
    );
    assert(spelled(decimal(backup.status.errors as nat)) is Some);
    assert(spelled(decimal(backup.status.warnings as nat)) is Some);
}

/// The inspection of a restore tells of each thing that Velero recorded under the
/// name of that thing, and leaves out what Velero has not filled in.
#[verifier::spinoff_prover]
#[verifier::rlimit(40)]
pub proof fn restores_are_told_as_recorded(request: &Request, source: &Source)
    requires
        suits(Action::Inspect, source),
        rendered_of(Action::Inspect, request, source) is Ok,
        looked_at(request, source).kind@ == "Restore"@,
    ensures
        ({
            let report = rendered_of(Action::Inspect, request, source)->Ok_0;
            let restore = looked_at(request, source);
            &&& told(report, "Verdict"@) == Some(or_word(restore.status.phase@, "no phase yet"@))
            &&& told(report, "Context"@) == Some(or_word(request.context@, "inferred"@))
            &&& told(report, "Namespace"@) == Some(restore.metadata.namespace@)
            &&& report.title == "Velero restore"@
            &&& told(report, "Restore"@) == Some(restore.metadata.name@)
            &&& told(report, "Backup"@) is None
            &&& told(report, "From backup"@) == unless_empty(restore.spec.backup_name@)
            &&& told(report, "From schedule"@) == unless_empty(restore.spec.schedule_name@)
            &&& told(report, "Started"@) == unless_empty(restore.status.start_timestamp@)
            &&& told(report, "Completed"@) == unless_empty(restore.status.completion_timestamp@)
            &&& tells_progress(
                told(report, "Progress"@),
                restore.status.progress.items_restored,
                restore.status.progress.total_items,
            )
            &&& counted(report, "Errors"@) == Some(restore.status.errors as nat)
            &&& counted(report, "Warnings"@) == Some(restore.status.warnings as nat)
        }),
{
    broadcast use {group_cells, decimals_are_spelled};

    inspection_names();
    shown_words();
    let restore = looked_at(request, source);
    progress_is_told(
        restore.status.progress.items_restored,
        restore.status.progress.total_items,
    );
    assert(spelled(decimal(restore.status.errors as nat)) is Some);
    assert(spelled(decimal(restore.status.warnings as nat)) is Some);
}

proof fn section_names()
    ensures
        "Summary"@.len() == 7 && "Summary"@[0] == 'S',
        "Included namespaces"@.len() == 19 && "Included namespaces"@[0] == 'I',
        "Excluded namespaces"@.len() == 19 && "Excluded namespaces"@[0] == 'E',
        "Validation errors"@.len() == 17,
        "Failure"@.len() == 7 && "Failure"@[0] == 'F',
        "Command"@.len() == 7 && "Command"@[0] == 'C',
        "Notice"@.len() == 6,
        "velero output"@.len() == 13,
        "Next"@.len() == 4,
{
    reveal_strlit("Summary");
    reveal_strlit("Included namespaces");
    reveal_strlit("Excluded namespaces");
    reveal_strlit("Validation errors");
    reveal_strlit("Failure");
    reveal_strlit("Command");
    reveal_strlit("Notice");
    reveal_strlit("velero output");
    reveal_strlit("Next");
}

/// Under the summary of an inspection stand the namespaces, the validation errors
/// and the failure, each only where Velero filled it in; a backup of all
/// namespaces says so.
pub proof fn inspections_list_what_velero_filled_in(request: &Request, source: &Source)
    requires
        suits(Action::Inspect, source),
        rendered_of(Action::Inspect, request, source) is Ok,
    ensures
        ({
            let sections = (rendered_of(Action::Inspect, request, source)->Ok_0).sections;
            let resource = looked_at(request, source);
            &&& listed(sections, "Included namespaces"@) == Some(
                if resource.spec.included_namespaces@.len() == 0 {
                    seq!["<all>"@]
                } else {
                    views(resource.spec.included_namespaces@)
                },
            )
            &&& listed(sections, "Excluded namespaces"@) == if resource.spec.excluded_namespaces@.len()
                == 0 {
                None
            } else {
                Some(views(resource.spec.excluded_namespaces@))
            }
            &&& listed(sections, "Validation errors"@) == if resource.status.validation_errors@.len()
                == 0 {
                None
            } else {
                Some(views(resource.status.validation_errors@))
            }
            &&& listed(sections, "Failure"@) == if resource.status.failure_reason@.len() == 0 {
                None
            } else {
                Some(seq![resource.status.failure_reason@])
            }
        }),
{
    broadcast use group_cells;

    section_names();
    let resource = looked_at(request, source);
    let sections = (rendered_of(Action::Inspect, request, source)->Ok_0).sections;
    let details = details_of(&resource.spec, &resource.status);
    let first = seq![sections[0]];
    assert(sections =~= first + details);
    listed_of_sum(first, details, "Included namespaces"@);
    listed_of_sum(first, details, "Excluded namespaces"@);
    listed_of_sum(first, details, "Validation errors"@);
    listed_of_sum(first, details, "Failure"@);
    assert(first =~= Seq::empty().push(sections[0]));
    reveal_with_fuel(listed, 2);
}

/// Whether an object is the one a request names, and Velero's.
pub open spec fn is_selected(resource: Resource, request: &Request) -> bool {
    &&& begins(resource.api_version@, "velero.io/"@)
    &&& resource.metadata.name@ == request.name@ && request.name@.len() > 0
    &&& resource.metadata.namespace@ == request.namespace@ && request.namespace@.len() > 0
}

/// An inspection is owed exactly where the object is a Backup or a Restore of
/// Velero's that is the selected one.
pub proof fn inspections_are_owed(request: &Request, resource: Resource)
    requires
        request.object == Some(resource),
    ensures
        rendered_of(Action::Inspect, request, &Source::Selected) is Ok <==> (is_selected(
            resource,
            request,
        ) && (resource.kind@ == "Backup"@ || resource.kind@ == "Restore"@)),
        fetch_of(Action::Trigger, request) is Ok <==> (is_selected(resource, request)
            && resource.kind@ == "Schedule"@),
{
    let kinds = seq!["Backup"@, "Restore"@];
    assert(kinds[0] == "Backup"@ && kinds[1] == "Restore"@);
    let one = seq!["Schedule"@];
    assert(one[0] == "Schedule"@);
}

/// A trigger that is owed runs Velero where the request says nothing of a dry run
/// or exactly "false", and pretends otherwise. What is run names the schedule, the
/// namespace and the context of the request.
pub proof fn triggers_name_the_schedule(request: &Request)
    requires
        fetch_of(Action::Trigger, request) is Ok,
    ensures
        match text_at(request.inputs@, "dry_run"@) {
            None => fetch_of(Action::Trigger, request)->Ok_0 is Velero,
            Some(value) => (value == "false"@) == (fetch_of(Action::Trigger, request)->Ok_0
                is Velero) && (value != "false"@) == (fetch_of(Action::Trigger, request)->Ok_0
                is Pretend),
        },
        fetch_of(Action::Trigger, request) matches Ok(FetchView::Velero { arguments }) ==> {
            &&& arguments.len() >= 4
            &&& arguments.take(2) == seq!["backup"@, "create"@]
            &&& given(arguments, "--from-schedule"@, request.name@)
            &&& text_or(request.inputs@, "namespace"@).len() == 0 ==> given(
                arguments,
                "--namespace"@,
                request.namespace@,
            )
            &&& text_or(request.inputs@, "namespace"@).len() > 0 ==> given(
                arguments,
                "--namespace"@,
                text_or(request.inputs@, "namespace"@),
            )
            &&& request.context@.len() > 0 ==> given(
                arguments,
                "--kubecontext"@,
                request.context@,
            )
            &&& arguments.len() == if request.context@.len() == 0 {
                6int
            } else {
                8int
            }
        },
{
    reveal_strlit("--kubecontext");
    reveal_strlit("--namespace");
    reveal_strlit("--from-schedule");
    reveal_strlit("backup");
    reveal_strlit("create");
    let arguments = trigger_arguments_of(request);
    assert(arguments.take(2) =~= seq!["backup"@, "create"@]);
    giving(arguments, 2);
    giving(arguments, 4);
    if request.context@.len() > 0 {
        giving(arguments, 6);
    } else {
        assert(arguments.len() == 6);
    }
}

/// The locations are read from the namespace of the inputs, or from Velero's own,
/// in the context of the request, and a saved list is read instead where one is
/// named.
pub proof fn locations_are_read_from_velero(request: &Request)
    ensures
        text_or(request.inputs@, "replay"@).len() > 0 ==> fetch_of(Action::Locations, request)
            == Ok::<FetchView, Seq<char>>(
            FetchView::Replay { path: text_or(request.inputs@, "replay"@) },
        ),
        text_or(request.inputs@, "replay"@).len() == 0 ==> (fetch_of(Action::Locations, request)
            matches Ok(FetchView::Kubectl { arguments }) && {
            &&& arguments.len() >= 6
            &&& arguments.take(2) == seq!["get"@, "backupstoragelocations.velero.io"@]
            &&& given(arguments, "--output"@, "json"@)
            &&& given(
                arguments,
                "--namespace"@,
                or_word(text_or(request.inputs@, "namespace"@), "velero"@),
            )
            &&& request.context@.len() > 0 ==> given(arguments, "--context"@, request.context@)
        }),
        text_or(request.inputs@, "replay"@).len() > 0 ==> fetch_of(Action::Inspect, request)
            == Ok::<FetchView, Seq<char>>(
            FetchView::Replay { path: text_or(request.inputs@, "replay"@) },
        ),
{
    reveal_strlit("velero");
    let arguments = locations_arguments_of(request);
    assert(arguments.take(2) =~= seq!["get"@, "backupstoragelocations.velero.io"@]);
    giving(arguments, 2);
    giving(arguments, 4);
    if request.context@.len() > 0 {
        giving(arguments, 6);
    }
}

proof fn trigger_names()
    ensures
        "Verdict"@.len() == 7 && "Verdict"@[0] == 'V',
        "Context"@.len() == 7 && "Context"@[0] == 'C',
        "Namespace"@.len() == 9,
        "Schedule"@.len() == 8,
        "Cron"@.len() == 4,
        "Paused"@.len() == 6,
        "Schedule phase"@.len() == 14,
        "Last backup"@.len() == 11,
{
    reveal_strlit("Verdict");
    reveal_strlit("Context");
    reveal_strlit("Namespace");
    reveal_strlit("Schedule");
    reveal_strlit("Cron");
    reveal_strlit("Paused");
    reveal_strlit("Schedule phase");
    reveal_strlit("Last backup");
}

/// The report of a trigger tells whether a backup was requested, and of the
/// schedule under the name of each thing. The command that it shows is the one
/// that is run.
pub proof fn triggers_are_told_as_they_went(request: &Request, output: Vec<u8>)
    requires
        rendered_of(Action::Trigger, request, &Source::Output(output)) is Ok,
    ensures
        ({
            let report = rendered_of(Action::Trigger, request, &Source::Output(output))->Ok_0;
            let schedule = request.object->0;
            let ran = fetch_of(Action::Trigger, request)->Ok_0 is Velero;
            &&& fetch_of(Action::Trigger, request) is Ok
            &&& told(report, "Verdict"@) == Some(
                if ran {
                    "backup requested"@
                } else {
                    "dry run, nothing was triggered"@
                },
            )
            &&& told(report, "Context"@) == Some(or_word(request.context@, "inferred"@))
            &&& told(report, "Schedule"@) == Some(schedule.metadata.name@)
            &&& text_or(request.inputs@, "namespace"@).len() == 0 ==> told(report, "Namespace"@)
                == Some(schedule.metadata.namespace@)
            &&& told(report, "Cron"@) == unless_empty(schedule.spec.schedule@)
            &&& told(report, "Paused"@) == if schedule.spec.paused {
                Some("yes"@)
            } else {
                None
            }
            &&& told(report, "Schedule phase"@) == unless_empty(schedule.status.phase@)
            &&& told(report, "Last backup"@) == unless_empty(schedule.status.last_backup@)
            &&& fetch_of(Action::Trigger, request) matches Ok(FetchView::Velero { arguments })
                ==> listed(report.sections, "Command"@) == Some(
                seq!["velero"@ + " "@ + joined(arguments, " "@)],
            )
            &&& ran <==> listed(report.sections, "velero output"@) is Some
            &&& ran <==> listed(report.sections, "Notice"@) is None
        }),
{
    broadcast use group_cells;

    trigger_names();
    section_names();
    reveal_strlit("backup requested");
    reveal_strlit("dry run, nothing was triggered");
    reveal_strlit("yes");
    let report = rendered_of(Action::Trigger, request, &Source::Output(output))->Ok_0;
    let first = report.sections[0];
    let second = report.sections[1];
    assert(seq![first, second] =~= Seq::<SectionView>::empty().push(first).push(second));
}

/// What Velero said is shown line by line without the blank ones, and that it said
/// nothing is said.
pub proof fn triggers_pass_on_what_velero_said(request: &Request, output: Vec<u8>)
    requires
        rendered_of(Action::Trigger, request, &Source::Output(output)) is Ok,
        fetch_of(Action::Trigger, request) matches Ok(needed) && needed is Velero,
    ensures
        ({
            let report = rendered_of(Action::Trigger, request, &Source::Output(output))->Ok_0;
            let said = text_lines(decode_utf8(output@));
            let shown = listed(report.sections, "velero output"@)->0;
            &&& valid_utf8(output@)
            &&& forall|i: int|
                0 <= i < said.len() ==> trimmed(#[trigger] said[i]).len() > 0 ==> shown.contains(
                    said[i],
                )
            &&& shown != seq!["<no output>"@] ==> forall|j: int|
                0 <= j < shown.len() ==> said.contains(#[trigger] shown[j]) && trimmed(
                    shown[j],
                ).len() > 0
            &&& shown.len() > 0
        }),
{
    broadcast use group_cells;

    section_names();
    triggers_are_told_as_they_went(request, output);
    let said = text_lines(decode_utf8(output@));
    let read = |line: Seq<char>| spoken(line);
    selections_have_what_is_made(said, read);
    let kept = selected(said, read);
    assert forall|i: int| 0 <= i < said.len() && trimmed(#[trigger] said[i]).len() > 0 implies
        kept.contains(said[i]) by {
        assert(read(said[i]) == Some(said[i]));
    }
    assert forall|j: int| 0 <= j < kept.len() implies said.contains(#[trigger] kept[j]) && trimmed(
        kept[j],
    ).len() > 0 by {
        assert(made_of(said, read, kept[j]));
        let at = choose|i: int| 0 <= i < said.len() && read(#[trigger] said[i]) == Some(kept[j]);
        assert(said[at] == kept[j]);
    }
}

proof fn location_names()
    ensures
        "Phase"@.len() == 5,
        "Provider"@.len() == 8,
        "Bucket"@.len() == 6 && "Bucket"@[0] == 'B',
        "Prefix"@.len() == 6 && "Prefix"@[0] == 'P',
        "Access mode"@.len() == 11 && "Access mode"@[0] == 'A',
        "Default"@.len() == 7 && "Default"@[0] == 'D',
        "Validation every"@.len() == 16,
        "Last validated"@.len() == 14,
        "Last synced"@.len() == 11 && "Last synced"@[0] == 'L',
        "Message"@.len() == 7 && "Message"@[0] == 'M',
{
    reveal_strlit("Phase");
    reveal_strlit("Provider");
    reveal_strlit("Bucket");
    reveal_strlit("Prefix");
    reveal_strlit("Access mode");
    reveal_strlit("Default");
    reveal_strlit("Validation every");
    reveal_strlit("Last validated");
    reveal_strlit("Last synced");
    reveal_strlit("Message");
}

/// Every location has a section of its own under its name, in the order they were
/// listed, which tells of each thing under the name of that thing.
pub proof fn locations_are_told_as_recorded(request: &Request, items: Vec<Resource>, at: int)
    requires
        rendered_of(Action::Locations, request, &Source::Listed(items)) is Ok,
        0 <= at < items@.len(),
    ensures
        ({
            let report = rendered_of(Action::Locations, request, &Source::Listed(items))->Ok_0;
            let item = items@[at];
            let rows = rows_in(report.sections[at + 1]);
            &&& report.sections.len() == items@.len() + 1
            &&& report.sections[at + 1].title == item.metadata.name@
            &&& cell(rows, "Phase"@) == Some(or_word(item.status.phase@, "no phase yet"@))
            &&& cell(rows, "Provider"@) == unless_empty(item.spec.provider@)
            &&& cell(rows, "Bucket"@) == unless_empty(item.spec.object_storage.bucket@)
            &&& cell(rows, "Prefix"@) == unless_empty(item.spec.object_storage.prefix@)
            &&& cell(rows, "Access mode"@) == unless_empty(item.spec.access_mode@)
            &&& cell(rows, "Default"@) == if item.spec.default {
                Some("yes"@)
            } else {
                None
            }
            &&& cell(rows, "Validation every"@) == unless_empty(item.spec.validation_frequency@)
            &&& cell(rows, "Last validated"@) == unless_empty(item.status.last_validation_time@)
            &&& cell(rows, "Last synced"@) == unless_empty(item.status.last_synced_time@)
            &&& cell(rows, "Message"@) == unless_empty(item.status.message@)
        }),
{
    broadcast use group_cells;

    location_names();
    shown_words();
    reveal_strlit("yes");
    let report = rendered_of(Action::Locations, request, &Source::Listed(items))->Ok_0;
    assert(report.sections[at + 1] == location_of(items@[at]));
}

/// The summary of the locations says how many of how many are available, and which
/// one is the default.
pub proof fn locations_are_summed_up(request: &Request, items: Vec<Resource>)
    requires
        rendered_of(Action::Locations, request, &Source::Listed(items)) is Ok,
        items@.len() > 0,
    ensures
        ({
            let report = rendered_of(Action::Locations, request, &Source::Listed(items))->Ok_0;
            &&& two_numbers(
                told(report, "Verdict"@)->0,
                count_matches(items@, |item: Resource| item.status.phase@ == "Available"@),
                " of "@,
                items@.len(),
                " available"@,
            )
            &&& told(report, "Context"@) == Some(or_word(request.context@, "inferred"@))
            &&& told(report, "Namespace"@) == Some(
                or_word(text_or(request.inputs@, "namespace"@), "velero"@),
            )
            &&& forall|i: int|
                0 <= i < items@.len() && (#[trigger] items@[i]).spec.default
                    && items@[i].metadata.name@.len() > 0 && (forall|j: int|
                    0 <= j < i ==> !(#[trigger] items@[j]).spec.default) ==> told(
                    report,
                    "Default"@,
                ) == Some(items@[i].metadata.name@)
            &&& (forall|i: int| 0 <= i < items@.len() ==> !(#[trigger] items@[i]).spec.default)
                ==> told(report, "Default"@) == Some("none"@)
        }),
{
    broadcast use {group_cells, decimals_are_spelled};

    inspection_names();
    location_names();
    reveal_strlit("none");
    reveal_strlit("velero");
    reveal_strlit(" available");
    let raw = |item: Resource| item.status.phase@ == "Available"@;
    let named = |item: Resource| is_available(item);
    assert(raw =~= named);
    let available = count_matches(items@, raw);
    assert(spelled(decimal(available)) == Some(available));
    assert(spelled(decimal(items@.len())) == Some(items@.len()));
    let test = |item: Resource| item.spec.default;
    assert forall|i: int|
        0 <= i < items@.len() && (#[trigger] items@[i]).spec.default && (forall|j: int|
            0 <= j < i ==> !(#[trigger] items@[j]).spec.default) implies first_match(items@, test)
        == Some(items@[i]) by {
        first_match_found(items@, test, i);
    }
    if forall|i: int| 0 <= i < items@.len() ==> !(#[trigger] items@[i]).spec.default {
        first_match_missing(items@, test);
    }
}

/// What is counted under a name depends on nothing that has another name: with
/// more warnings a restore has the errors that it had, and the other way round.
pub proof fn restores_count_apart(request: &Request, one: Resource, number: u64)
    requires
        rendered_of(Action::Inspect, request, &Source::Replayed(one)) is Ok,
        one.kind@ == "Restore"@,
    ensures
        ({
            let report = rendered_of(Action::Inspect, request, &Source::Replayed(one))->Ok_0;
            let warned = Resource { status: Status { warnings: number, ..one.status }, ..one };
            let failed = Resource { status: Status { errors: number, ..one.status }, ..one };
            &&& rendered_of(Action::Inspect, request, &Source::Replayed(warned)) matches Ok(other)
                && counted(other, "Errors"@) == counted(report, "Errors"@) && counted(
                other,
                "Warnings"@,
            ) == Some(number as nat)
            &&& rendered_of(Action::Inspect, request, &Source::Replayed(failed)) matches Ok(other)
                && counted(other, "Warnings"@) == counted(report, "Warnings"@) && counted(
                other,
                "Errors"@,
            ) == Some(number as nat)
        }),
{
    let warned = Resource { status: Status { warnings: number, ..one.status }, ..one };
    let failed = Resource { status: Status { errors: number, ..one.status }, ..one };
    restores_are_told_as_recorded(request, &Source::Replayed(one));
    restores_are_told_as_recorded(request, &Source::Replayed(warned));
    restores_are_told_as_recorded(request, &Source::Replayed(failed));
}

proof fn action_words()
    ensures
        "inspect"@.len() == 7 && "inspect"@[0] == 'i',
        "trigger"@.len() == 7 && "trigger"@[0] == 't',
        "locations"@.len() == 9,
        "inspect"@ != "trigger"@,
{
    reveal_strlit("inspect");
    reveal_strlit("trigger");
    reveal_strlit("locations");
    assert("inspect"@[0] != "trigger"@[0]);
}

/// The words that name an action, and nothing else, are understood.
pub proof fn actions_are_named(arguments: Seq<Seq<char>>)
    ensures
        action_of(arguments) == Ok::<Action, Seq<char>>(Action::Trigger) <==> arguments == seq![
            "trigger"@,
        ],
        action_of(arguments) == Ok::<Action, Seq<char>>(Action::Locations) <==> arguments == seq![
            "locations"@,
        ],
        action_of(arguments) == Ok::<Action, Seq<char>>(Action::Inspect) <==> arguments.len() == 0
            || arguments == seq!["inspect"@],
{
    action_words();
    if arguments.len() == 1 {
        assert(arguments =~= seq![arguments[0]]);
    }
}

/// A refusal says what is wrong with the selection: that there is none, that it
/// has no namespace, that it is of another kind, or that the object is another
/// than the request names.
pub proof fn refusals_say_what_is_wrong(request: &Request, resource: Resource)
    requires
        request.object == Some(resource),
    ensures
        ({
            let refused = fetch_of(Action::Trigger, request);
            &&& request.name@.len() == 0 ==> refused == Err::<FetchView, Seq<char>>(
                "no "@ + "Schedule"@ + " selected"@,
            )
            &&& request.name@.len() > 0 && request.namespace@.len() == 0 ==> refused == Err::<
                FetchView,
                Seq<char>,
            >(request.name@ + " has no namespace"@)
            &&& request.name@.len() > 0 && request.namespace@.len() > 0 && !(begins(
                resource.api_version@,
                "velero.io/"@,
            ) && resource.kind@ == "Schedule"@) ==> (refused matches Err(message) && begins(
                message,
                request.namespace@ + "/"@ + request.name@ + " is a "@ + or_word(
                    resource.kind@,
                    "<no kind>"@,
                ) + " from "@ + or_word(resource.api_version@, "<no apiVersion>"@),
            ))
        }),
{
    let one = seq!["Schedule"@];
    assert(one[0] == "Schedule"@);
    assert(joined(one, " or "@) == "Schedule"@);
    reveal_strlit(" is ");
    reveal_strlit("a ");
    reveal_strlit(" is a ");
    assert(" is "@ + "a "@ =~= " is a "@);
    let place = request.namespace@ + "/"@ + request.name@;
    let kind = or_word(resource.kind@, "<no kind>"@);
    let version = or_word(resource.api_version@, "<no apiVersion>"@);
    let start = place + " is a "@ + kind + " from "@ + version;
    assert(place + " is "@ + ("a "@ + kind + " from "@ + version) =~= start);
    lines_begin(start, ", not a velero.io "@);
    beginnings_stay(start + ", not a velero.io "@, "Schedule"@, start);
}

/// Saved output is used as it was read, unless it is larger than 1 MiB.
pub proof fn saved_output_is_replayed(path: Seq<char>, bytes: Seq<u8>)
    ensures
        bytes.len() <= 1048576 <==> replayed_of(path, bytes) is Ok,
        replayed_of(path, bytes) matches Ok(contents) ==> contents == bytes,
{
}

/// Locations are reported exactly where all that is listed are storage locations
/// of Velero's. The first that is none is named otherwise.
pub proof fn only_locations_are_reported(request: &Request, items: Vec<Resource>)
    ensures
        rendered_of(Action::Locations, request, &Source::Listed(items)) is Ok <==> forall|i: int|
            0 <= i < items@.len() ==> begins((#[trigger] items@[i]).api_version@, "velero.io/"@)
                && items@[i].kind@ == "BackupStorageLocation"@,
        rendered_of(Action::Locations, request, &Source::Listed(items)) matches Ok(report)
            ==> report.title == "Backup storage locations"@,
        rendered_of(Action::Locations, request, &Source::Listed(items)) matches Err(message)
            ==> exists|i: int|
            0 <= i < items@.len() && message == "a "@ + or_word(
                (#[trigger] items@[i]).kind@,
                "<no kind>"@,
            ) + " from "@ + or_word(items@[i].api_version@, "<no apiVersion>"@)
                + " is not a backupstoragelocations.velero.io"@,
{
    let test = |item: Resource| !is_location(item);
    if first_match(items@, test) is None {
        first_match_none(items@, test);
        assert forall|i: int| 0 <= i < items@.len() implies begins(
            (#[trigger] items@[i]).api_version@,
            "velero.io/"@,
        ) && items@[i].kind@ == "BackupStorageLocation"@ by {
            assert(!test(items@[i]));
        }
    } else {
        let at = first_match_is_there(items@, test);
        assert(!is_location(items@[at]));
    }
}

/// An object that has another name or is in another namespace than the request
/// names is refused with both, the one that it has first.
pub proof fn mismatches_name_both(request: &Request, resource: Resource)
    requires
        request.object == Some(resource),
        begins(resource.api_version@, "velero.io/"@),
        resource.kind@ == "Schedule"@,
        request.name@.len() > 0,
        request.namespace@.len() > 0,
    ensures
        resource.metadata.name@ != request.name@ ==> fetch_of(Action::Trigger, request) == Err::<
            FetchView,
            Seq<char>,
        >(
            "the selected object is "@ + "name"@ + " "@ + quoted(resource.metadata.name@)
                + ", the request names "@ + quoted(request.name@),
        ),
        resource.metadata.name@ == request.name@ && resource.metadata.namespace@
            != request.namespace@ ==> fetch_of(Action::Trigger, request) == Err::<
            FetchView,
            Seq<char>,
        >(
            "the selected object is "@ + "namespace"@ + " "@ + quoted(resource.metadata.namespace@)
                + ", the request names "@ + quoted(request.namespace@),
        ),
{
    let one = seq!["Schedule"@];
    assert(one[0] == "Schedule"@);
}

/// Without an object nothing can be inspected or triggered, and the name that was
/// asked for is said.
pub proof fn actions_need_an_object(request: &Request, output: Vec<u8>)
    requires
        request.object is None,
    ensures
        rendered_of(Action::Inspect, request, &Source::Selected) == Err::<ReportView, Seq<char>>(
            "the request has no object for "@ + quoted(request.name@) + "; cannot verify it"@,
        ),
        fetch_of(Action::Trigger, request) == Err::<FetchView, Seq<char>>(
            "the request has no object for "@ + quoted(request.name@) + "; cannot verify it"@,
        ),
{
}

/// What Velero wrote is reported only where it is text.
pub proof fn output_has_to_be_text(request: &Request, output: Vec<u8>)
    requires
        fetch_of(Action::Trigger, request) is Ok,
    ensures
        rendered_of(Action::Trigger, request, &Source::Output(output)) is Ok <==> valid_utf8(
            output@,
        ),
        rendered_of(Action::Trigger, request, &Source::Output(output)) matches Err(message)
            ==> begins(message, "velero"@ + " wrote output that is not UTF-8: "@),
        rendered_of(Action::Trigger, request, &Source::Output(output)) matches Ok(report)
            ==> report.title == "Trigger backup schedule"@,
{
    broadcast use lines_begin;
}

} // verus!

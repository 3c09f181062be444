//! What a worker guarantees over a whole job and a whole run, stated over
//! the state machine of `pipeline`.

use vstd::prelude::*;
use crate::article::{ArticleView, is_relevant, is_valid, lemma_relevant_only, relevant_only};
use crate::parser::{ParserMessage, ParserState};
use crate::pipeline::{
    ParserView, Stage, WorkerAction, WorkerEventView, abandoned, advanced, advanced_all,
    article_count, collected, download_url, extracted_filename, file_name, filtered, fresh,
    lemma_collected_valid, local_download_filename, md5_file_name, output_filename,
    parsed_document, pending_action, percent_messages, received, reinit, restarted,
    well_formed,
};
use crate::progress::{lemma_percent_steps_increase, lemma_percentage_bound, percent_steps};
use crate::text::{lemma_zero_padded_injective, same_trimmed, zero_padded};

verus! {

/// One step of a worker: whatever can change its state.
pub enum WorkerStep {
    /// An outcome that the caller hands back.
    Outcome(WorkerEventView),
    /// A claim, and what it returned.
    Claim(Option<u32>),
    /// The worker is set up for a job.
    SetUp(u32),
    /// The articles that are not relevant are dropped.
    Filter,
    /// The reports are taken out.
    Take,
}

/// The worker after one step.
pub open spec fn stepped(v: ParserView, step: WorkerStep) -> ParserView {
    match step {
        WorkerStep::Outcome(e) => advanced(v, e),
        WorkerStep::Claim(claimed) => restarted(v, claimed),
        WorkerStep::SetUp(index) => reinit(v, index),
        WorkerStep::Filter => filtered(v),
        WorkerStep::Take => ParserView { outbox: seq![], ..v },
    }
}

/// The worker after the steps `steps`, one after the other.
pub open spec fn stepped_all(v: ParserView, steps: Seq<WorkerStep>) -> ParserView
    decreases steps.len(),
{
    if steps.len() == 0 {
        v
    } else {
        stepped(stepped_all(v, steps.drop_last()), steps.last())
    }
}

/// A worker between two jobs, or at its end, takes no outcome: its state
/// stays as it is, and with it the action that it waits for.
pub proof fn lemma_no_outcome_between_jobs(v: ParserView, events: Seq<WorkerEventView>)
    requires
        v.stage == Stage::Idle || v.stage == Stage::Done,
    ensures
        advanced_all(v, events) == v,
    decreases events.len(),
{
    if events.len() > 0 {
        lemma_no_outcome_between_jobs(v, events.drop_last());
    }
}

/// A job whose output exists already is skipped: the worker reports
/// nothing, holds what it held, and waits to claim the next job. Whatever
/// outcomes are handed to it before that claim, it asks for no download, no
/// checksum, no extraction and no writing.
pub proof fn lemma_existing_output_skips_job(v: ParserView, later: Seq<WorkerEventView>)
    requires
        v.stage == Stage::Probing,
    ensures
        advanced(v, WorkerEventView::ArtifactProbed { present: true }) == (ParserView {
            stage: Stage::Idle,
            ..v
        }),
        advanced_all(advanced(v, WorkerEventView::ArtifactProbed { present: true }), later)
            == advanced(v, WorkerEventView::ArtifactProbed { present: true }),
        pending_action(
            advanced_all(
                advanced(v, WorkerEventView::ArtifactProbed { present: true }),
                later,
            ).stage,
        ) == WorkerAction::Restart,
{
    lemma_no_outcome_between_jobs(
        advanced(v, WorkerEventView::ArtifactProbed { present: true }),
        later,
    );
}

/// Whether a step is the answer that the output of a job does not exist.
pub open spec fn finds_no_output(step: WorkerStep) -> bool {
    step matches WorkerStep::Outcome(WorkerEventView::ArtifactProbed { present }) && !present
}

/// A run over jobs whose outputs all exist asks for nothing but claims and
/// probes: as long as no probe answers that an output is missing, a worker
/// never waits for a download, a checksum, an extraction, a document or a
/// write, whatever else it is handed.
pub proof fn lemma_run_over_existing_outputs_only_probes(
    id: u32,
    temp_dir: Seq<char>,
    jobs: i32,
    steps: Seq<WorkerStep>,
)
    requires
        forall|i: int| 0 <= i < steps.len() ==> !finds_no_output(#[trigger] steps[i]),
    ensures
        ({
            let action = pending_action(stepped_all(fresh(id, temp_dir, jobs), steps).stage);
            ||| action == WorkerAction::Restart
            ||| action == WorkerAction::Probe
            ||| action == WorkerAction::Stop
        }),
    decreases steps.len(),
{
    if steps.len() > 0 {
        let before = steps.drop_last();
        assert forall|i: int| 0 <= i < before.len() implies !finds_no_output(
            #[trigger] before[i],
        ) by {
            assert(before[i] == steps[i]);
        }
        lemma_run_over_existing_outputs_only_probes(id, temp_dir, jobs, before);
        assert(!finds_no_output(steps[steps.len() - 1]));
    }
}

/// A download whose checksum differs from the reference ends the job: the
/// worker reports the wrong checksum and nothing else, and waits to claim
/// the next job. Whatever outcomes are handed to it before that claim, it
/// asks for no extraction, no parsing and no writing, and reports nothing
/// more.
pub proof fn lemma_checksum_mismatch_ends_job(
    v: ParserView,
    reference: Seq<char>,
    computed: Seq<char>,
    later: Seq<WorkerEventView>,
)
    requires
        v.stage == Stage::Verifying,
        !same_trimmed(reference, computed),
    ensures
        advanced(v, WorkerEventView::ChecksumFetched { reference, computed }) == abandoned(
            v,
            ParserState::ErrorChecksumWrong,
        ),
        advanced(v, WorkerEventView::ChecksumFetched { reference, computed }).outbox
            == v.outbox.push(
            ParserMessage { id: v.id, new_state: ParserState::ErrorChecksumWrong },
        ),
        advanced_all(advanced(v, WorkerEventView::ChecksumFetched { reference, computed }), later)
            == advanced(v, WorkerEventView::ChecksumFetched { reference, computed }),
        pending_action(
            advanced_all(
                advanced(v, WorkerEventView::ChecksumFetched { reference, computed }),
                later,
            ).stage,
        ) == WorkerAction::Restart,
{
    lemma_no_outcome_between_jobs(
        advanced(v, WorkerEventView::ChecksumFetched { reference, computed }),
        later,
    );
}

/// Every step keeps a well-formed worker well-formed.
pub proof fn lemma_step_keeps_well_formed(v: ParserView, step: WorkerStep)
    requires
        well_formed(v),
    ensures
        well_formed(stepped(v, step)),
{
    match step {
        WorkerStep::Outcome(e) => {
            if v.stage == Stage::Parsing {
                match e {
                    WorkerEventView::DocumentRead { text } => {
                        match parsed_document(text) {
                            Some(doc) => {
                                lemma_collected_valid(doc, doc.len() as int);
                                lemma_relevant_only(collected(doc, doc.len() as int));
                            },
                            None => {
                                lemma_relevant_only(Seq::empty());
                            },
                        }
                    },
                    WorkerEventView::DocumentUnreadable => {
                        lemma_relevant_only(Seq::empty());
                    },
                    _ => {},
                }
            }
        },
        WorkerStep::Filter => {
            if v.stage == Stage::Persisting {
                lemma_relevant_only(v.articles);
            }
        },
        _ => {},
    }
}

/// Whatever a worker has gone through since it was made, the articles that
/// it is about to write out are valid and relevant: an article without a
/// title or without a DOI is never among them.
pub proof fn lemma_only_valid_articles_are_written(
    id: u32,
    temp_dir: Seq<char>,
    jobs: i32,
    steps: Seq<WorkerStep>,
)
    ensures
        well_formed(stepped_all(fresh(id, temp_dir, jobs), steps)),
        stepped_all(fresh(id, temp_dir, jobs), steps).stage == Stage::Persisting ==> forall|i: int|
            0 <= i < stepped_all(fresh(id, temp_dir, jobs), steps).articles.len() ==> is_valid(
                #[trigger] stepped_all(fresh(id, temp_dir, jobs), steps).articles[i],
            ) && is_relevant(stepped_all(fresh(id, temp_dir, jobs), steps).articles[i]),
    decreases steps.len(),
{
    if steps.len() > 0 {
        lemma_only_valid_articles_are_written(id, temp_dir, jobs, steps.drop_last());
        lemma_step_keeps_well_formed(
            stepped_all(fresh(id, temp_dir, jobs), steps.drop_last()),
            steps.last(),
        );
    }
}

/// A step other than the taking of the reports only adds reports: what
/// was in the outbox stays, in its place.
pub proof fn lemma_step_only_adds_reports(v: ParserView, step: WorkerStep)
    requires
        step != WorkerStep::Take,
    ensures
        v.outbox.len() <= stepped(v, step).outbox.len(),
        forall|i: int| 0 <= i < v.outbox.len() ==> stepped(v, step).outbox[i] == v.outbox[i],
{
}

/// The number that a worker reports with a finished job is the number of
/// articles that it held for writing, and a finished job is reported in no
/// other way: among the reports that a step adds, a finished job occurs
/// only where the step is the outcome of a completed write, and its number
/// is that of the articles that were written.
pub proof fn lemma_finished_count_is_written_count(v: ParserView, step: WorkerStep)
    requires
        v.articles.len() <= usize::MAX,
    ensures
        forall|i: int|
            v.outbox.len() <= i < stepped(v, step).outbox.len() ==> (#[trigger] stepped(
                v,
                step,
            ).outbox[i].new_state matches ParserState::FinishedInputFile(n) ==> {
                &&& v.stage == Stage::Persisting
                &&& step == WorkerStep::Outcome(WorkerEventView::ArtifactWritten)
                &&& n == v.articles.len()
            }),
        v.stage == Stage::Persisting && step == WorkerStep::Outcome(
            WorkerEventView::ArtifactWritten,
        ) ==> {
            &&& stepped(v, step).outbox == v.outbox.push(
                ParserMessage {
                    id: v.id,
                    new_state: ParserState::FinishedInputFile(v.articles.len() as usize),
                },
            )
            &&& stepped(v, step).articles == v.articles
        },
{
}

/// Dropping what is not relevant from articles that are all relevant
/// drops nothing.
proof fn lemma_nothing_to_drop(articles: Seq<ArticleView>)
    requires
        forall|i: int| 0 <= i < articles.len() ==> is_relevant(#[trigger] articles[i]),
    ensures
        relevant_only(articles) == articles,
    decreases articles.len(),
{
    reveal(Seq::filter);
    if articles.len() > 0 {
        let front = articles.drop_last();
        assert forall|i: int| 0 <= i < front.len() implies is_relevant(#[trigger] front[i]) by {
            assert(front[i] == articles[i]);
        }
        lemma_nothing_to_drop(front);
        assert(front.push(articles.last()) =~= articles);
    }
}

/// While a worker waits for its articles to be written, nothing but the
/// outcome of the writing changes them: the articles that are written are
/// the articles that the worker counts when it reports the job as finished.
pub proof fn lemma_written_articles_stay(v: ParserView, step: WorkerStep)
    requires
        well_formed(v),
        v.stage == Stage::Persisting,
    ensures
        stepped(v, step).stage == Stage::Persisting ==> stepped(v, step).articles == v.articles,
        step is Outcome ==> stepped(v, step).articles == v.articles,
{
    if step is Filter {
        lemma_nothing_to_drop(v.articles);
    }
}

/// The stage whose percentage a report carries, if it carries one.
pub open spec fn report_stage(state: ParserState) -> Option<Stage> {
    match state {
        ParserState::Downloading(_) => Some(Stage::Downloading),
        ParserState::Extracting(_) => Some(Stage::Extracting),
        ParserState::Processing(_) => Some(Stage::Parsing),
        _ => None,
    }
}

/// The percentage that a report carries; zero where it carries none.
pub open spec fn report_percent(state: ParserState) -> nat {
    match state {
        ParserState::Downloading(p) => p as nat,
        ParserState::Extracting(p) => p as nat,
        ParserState::Processing(p) => p as nat,
        _ => 0,
    }
}

/// The percentages of each stage rise strictly from report to report, and
/// none is above 100.
pub open spec fn percentages_rise(log: Seq<ParserMessage>) -> bool {
    &&& forall|i: int|
        0 <= i < log.len() ==> report_percent(#[trigger] log[i].new_state) <= 100
    &&& forall|i: int, j: int|
        0 <= i < j < log.len() && report_stage(log[i].new_state) is Some && report_stage(
            log[i].new_state,
        ) == report_stage(log[j].new_state) ==> report_percent(#[trigger] log[i].new_state)
            < report_percent(#[trigger] log[j].new_state)
}

/// The place of a stage in the course of a job. A worker between jobs has
/// all stages behind it.
pub open spec fn stage_rank(stage: Stage) -> nat {
    match stage {
        Stage::Probing => 0,
        Stage::Downloading => 1,
        Stage::Verifying => 2,
        Stage::Extracting => 3,
        Stage::Parsing => 4,
        Stage::Persisting => 5,
        Stage::Idle => 6,
        Stage::Done => 6,
    }
}

/// What holds of the reports of a job while it runs: the percentages rise,
/// every percentage of the current stage is at most the last one reported,
/// and no later stage has reported yet.
pub open spec fn job_reports_in_order(v: ParserView, log: Seq<ParserMessage>) -> bool {
    &&& percentages_rise(log)
    &&& v.stage == Stage::Parsing ==> v.last_percent == 0
    &&& forall|i: int|
        0 <= i < log.len() ==> (#[trigger] report_stage(log[i].new_state) matches Some(s) ==> {
            ||| stage_rank(s) < stage_rank(v.stage)
            ||| s == v.stage && report_percent(log[i].new_state) <= v.last_percent
        })
}

/// The reports of the parsing stage rise, start above zero and end at 100
/// or below.
proof fn lemma_percent_messages_rise(id: u32, count: nat)
    ensures
        forall|i: int|
            0 <= i < percent_messages(id, percent_steps(count, count)).len() ==> {
                &&& report_stage(
                    #[trigger] percent_messages(id, percent_steps(count, count))[i].new_state,
                ) == Some(Stage::Parsing)
                &&& 0 < report_percent(
                    percent_messages(id, percent_steps(count, count))[i].new_state,
                ) <= 100
            },
        forall|i: int, j: int|
            0 <= i < j < percent_messages(id, percent_steps(count, count)).len()
                ==> report_percent(
                #[trigger] percent_messages(id, percent_steps(count, count))[i].new_state,
            ) < report_percent(
                #[trigger] percent_messages(id, percent_steps(count, count))[j].new_state,
            ),
{
    lemma_percent_steps_increase(count, count);
    lemma_percentage_bound(count, count);
}

/// An outcome of a stage other than the parsing, which adds two reports at
/// most, keeps the reports of a job in order.
proof fn lemma_one_report_keeps_order(v: ParserView, from: int, e: WorkerEventView)
    requires
        0 <= from <= v.outbox.len(),
        job_reports_in_order(v, v.outbox.skip(from)),
        v.stage != Stage::Parsing,
    ensures
        from <= advanced(v, e).outbox.len(),
        job_reports_in_order(advanced(v, e), advanced(v, e).outbox.skip(from)),
{
    let next = advanced(v, e);
    let log = v.outbox.skip(from);
    let next_log = next.outbox.skip(from);
    lemma_percentage_bound(0, 0);
    if next.outbox.len() == v.outbox.len() {
        assert(next_log =~= log);
    } else if next.outbox.len() == v.outbox.len() + 1 {
        assert(next_log =~= log.push(next.outbox[v.outbox.len() as int]));
        match e {
            WorkerEventView::DownloadChunk { len } => {
                lemma_percentage_bound(received(v.processed, len as nat), v.total);
            },
            _ => {},
        }
    } else {
        assert(next.outbox.len() == v.outbox.len() + 2);
        assert(next_log =~= log.push(next.outbox[v.outbox.len() as int]).push(
            next.outbox[v.outbox.len() as int + 1],
        ));
    }
}

/// An outcome keeps the reports of a job in order.
proof fn lemma_outcome_keeps_order(v: ParserView, from: int, e: WorkerEventView)
    requires
        0 <= from <= v.outbox.len(),
        job_reports_in_order(v, v.outbox.skip(from)),
    ensures
        from <= advanced(v, e).outbox.len(),
        job_reports_in_order(advanced(v, e), advanced(v, e).outbox.skip(from)),
{
    let next = advanced(v, e);
    let log = v.outbox.skip(from);
    let next_log = next.outbox.skip(from);
    lemma_percentage_bound(0, 0);
    match v.stage {
        Stage::Parsing => {
            match e {
                WorkerEventView::DocumentRead { text } => {
                    match parsed_document(text) {
                        Some(doc) => {
                            let count = article_count(doc, doc.len() as int);
                            let steps = percent_messages(v.id, percent_steps(count, count));
                            lemma_percent_messages_rise(v.id, count);
                            let writing = ParserMessage {
                                id: v.id,
                                new_state: ParserState::WritingFile,
                            };
                            assert(next_log =~= (log + steps).push(writing));
                            assert forall|i: int| 0 <= i < next_log.len() implies report_percent(
                                #[trigger] next_log[i].new_state,
                            ) <= 100 by {
                                if i < log.len() {
                                    assert(next_log[i] == log[i]);
                                } else if i < log.len() + steps.len() {
                                    assert(next_log[i] == steps[i - log.len()]);
                                }
                            }
                            assert forall|i: int, j: int|
                                0 <= i < j < next_log.len() && report_stage(next_log[i].new_state)
                                    is Some && report_stage(next_log[i].new_state) == report_stage(
                                    next_log[j].new_state,
                                ) implies report_percent(#[trigger] next_log[i].new_state)
                                < report_percent(#[trigger] next_log[j].new_state) by {
                                if j < log.len() {
                                    assert(next_log[i] == log[i]);
                                    assert(next_log[j] == log[j]);
                                } else if j < log.len() + steps.len() {
                                    assert(next_log[j] == steps[j - log.len()]);
                                    if i < log.len() {
                                        assert(next_log[i] == log[i]);
                                    } else {
                                        assert(next_log[i] == steps[i - log.len()]);
                                    }
                                }
                            }
                            assert forall|i: int| 0 <= i < next_log.len() implies (
                            #[trigger] report_stage(next_log[i].new_state) matches Some(s) ==> {
                                ||| stage_rank(s) < stage_rank(next.stage)
                                ||| s == next.stage && report_percent(next_log[i].new_state)
                                    <= next.last_percent
                            }) by {
                                if i < log.len() {
                                    assert(next_log[i] == log[i]);
                                } else if i < log.len() + steps.len() {
                                    assert(next_log[i] == steps[i - log.len()]);
                                }
                            }
                        },
                        None => {
                            assert(next_log =~= log.push(
                                ParserMessage {
                                    id: v.id,
                                    new_state: ParserState::ErrorParsingFailed,
                                },
                            ).push(
                                ParserMessage { id: v.id, new_state: ParserState::WritingFile },
                            ));
                        },
                    }
                },
                WorkerEventView::DocumentUnreadable => {
                    assert(next_log =~= log.push(
                        ParserMessage { id: v.id, new_state: ParserState::ErrorParsingFailed },
                    ).push(ParserMessage { id: v.id, new_state: ParserState::WritingFile }));
                },
                _ => {},
            }
        },
        _ => {
            lemma_one_report_keeps_order(v, from, e);
        },
    }
}

/// From the moment a worker sets out on a job, its reports are in order.
proof fn lemma_job_reports_in_order(v: ParserView, index: u32, events: Seq<WorkerEventView>)
    ensures
        v.outbox.len() <= advanced_all(reinit(v, index), events).outbox.len(),
        job_reports_in_order(
            advanced_all(reinit(v, index), events),
            advanced_all(reinit(v, index), events).outbox.skip(v.outbox.len() as int),
        ),
    decreases events.len(),
{
    let from = v.outbox.len() as int;
    if events.len() == 0 {
        let start = reinit(v, index);
        assert(start.outbox.skip(from) =~= seq![
            ParserMessage { id: v.id, new_state: ParserState::Restarting },
        ]);
    } else {
        lemma_job_reports_in_order(v, index, events.drop_last());
        lemma_outcome_keeps_order(
            advanced_all(reinit(v, index), events.drop_last()),
            from,
            events.last(),
        );
    }
}

/// Over the life of a job, the percentages that the worker reports for a
/// stage rise strictly from report to report and lie between 0 and 100:
/// this holds of the reports that the worker adds from the moment it sets
/// out on the job `index`, whatever outcomes are handed to it.
pub proof fn lemma_percentages_rise(v: ParserView, index: u32, events: Seq<WorkerEventView>)
    ensures
        v.outbox.len() <= advanced_all(reinit(v, index), events).outbox.len(),
        percentages_rise(advanced_all(reinit(v, index), events).outbox.skip(v.outbox.len() as int)),
{
    lemma_job_reports_in_order(v, index, events);
}

/// What stands between the same two texts is the same if the whole is.
proof fn lemma_middle_is_same(
    front: Seq<char>,
    left: Seq<char>,
    right: Seq<char>,
    back: Seq<char>,
)
    requires
        front + left + back == front + right + back,
    ensures
        left == right,
{
    let with_left = front + left + back;
    let with_right = front + right + back;
    assert(with_left.len() == front.len() + left.len() + back.len());
    assert(with_right.len() == front.len() + right.len() + back.len());
    assert(left =~= with_left.subrange(front.len() as int, (front.len() + left.len()) as int));
    assert(right =~= with_right.subrange(front.len() as int, (front.len() + right.len()) as int));
}

/// Two jobs share no path: the name of the document, the address of the
/// archive, the three staging files and the output file of one job differ
/// from those of any other job.
pub proof fn lemma_jobs_share_no_path(temp_dir: Seq<char>, a: u32, b: u32)
    requires
        a != b,
    ensures
        file_name(a) != file_name(b),
        download_url(a) != download_url(b),
        local_download_filename(temp_dir, a) != local_download_filename(temp_dir, b),
        md5_file_name(temp_dir, a) != md5_file_name(temp_dir, b),
        extracted_filename(temp_dir, a) != extracted_filename(temp_dir, b),
        output_filename(a) != output_filename(b),
{
    if file_name(a) == file_name(b) {
        lemma_middle_is_same(
            "pubmed24n"@,
            zero_padded(a as nat, 4),
            zero_padded(b as nat, 4),
            ".xml"@,
        );
        lemma_zero_padded_injective(a as nat, b as nat, 4);
    }
    if download_url(a) == download_url(b) {
        lemma_middle_is_same(
            "https://ftp.ncbi.nlm.nih.gov/pubmed/baseline/"@,
            file_name(a),
            file_name(b),
            ".gz"@,
        );
    }
    if local_download_filename(temp_dir, a) == local_download_filename(temp_dir, b) {
        lemma_middle_is_same(temp_dir + "/"@, file_name(a), file_name(b), ".gz"@);
    }
    if md5_file_name(temp_dir, a) == md5_file_name(temp_dir, b) {
        lemma_middle_is_same(temp_dir + "/"@, file_name(a), file_name(b), ".gz.md5"@);
    }
    if extracted_filename(temp_dir, a) == extracted_filename(temp_dir, b) {
        assert(temp_dir + "/"@ + file_name(a) + Seq::<char>::empty() =~= extracted_filename(
            temp_dir,
            a,
        ));
        assert(temp_dir + "/"@ + file_name(b) + Seq::<char>::empty() =~= extracted_filename(
            temp_dir,
            b,
        ));
        lemma_middle_is_same(temp_dir + "/"@, file_name(a), file_name(b), Seq::empty());
    }
    if output_filename(a) == output_filename(b) {
        lemma_middle_is_same("results_"@, file_name(a), file_name(b), ".json"@);
    }
}

} // verus!

//! The worker as a state machine over plain values: the state after a claim
//! and after each outcome that the caller hands back, the reports that go
//! out, and the action that the worker waits for.

use vstd::prelude::*;
use crate::article::{ArticleView, article_of, is_relevant, is_valid, relevant_only};
use crate::parser::{ParserMessage, ParserState};
use crate::progress::{percent_steps, percentage};
use crate::text::{same_trimmed, zero_padded};
use crate::xml::{NodeView, parsed_xml};

verus! {

/// Where a worker stands.
#[derive(Clone, Copy, Debug, PartialEq, Eq, Structural)]
pub enum Stage {
    /// Between two jobs: the next job is to be claimed.
    Idle,
    /// A job is set up; it is not known yet whether its output exists.
    Probing,
    /// The archive is being fetched.
    Downloading,
    /// The archive is held against its checksum.
    Verifying,
    /// The archive is being unpacked.
    Extracting,
    /// The document is being read and its records taken out.
    Parsing,
    /// The records are being written out.
    Persisting,
    /// The jobs are used up: the worker has ended.
    Done,
}

/// What the caller is to do next for a worker.
#[derive(Clone, Copy, Debug, PartialEq, Eq, Structural)]
pub enum WorkerAction {
    /// Let the worker claim its next job.
    Restart,
    /// Create the staging directory and say whether the output file exists.
    Probe,
    /// Fetch the archive into the local download file, chunk by chunk.
    Download,
    /// Fetch the reference checksum and compute that of the download.
    FetchChecksum,
    /// Unpack the download into the extracted file.
    Extract,
    /// Read the extracted file.
    ReadDocument,
    /// Write the worker's articles to the output file and remove the
    /// staging directory.
    WriteOutput,
    /// Nothing: the worker has ended.
    Stop,
}

/// What the caller hands back to a worker.
#[derive(Clone, Debug, PartialEq, Eq)]
pub enum WorkerEvent {
    /// Whether the output file of the job exists.
    ArtifactProbed { present: bool },
    /// The response has come; `total_size` is the announced length in
    /// bytes, or zero where none was announced.
    DownloadStarted { total_size: u64 },
    /// `len` more bytes were received and stored.
    DownloadChunk { len: u64 },
    /// The archive is complete.
    DownloadFinished,
    /// The archive could not be fetched or stored.
    DownloadFailed,
    /// The reference checksum as fetched, and the checksum of the download.
    ChecksumFetched { reference: String, computed: String },
    /// The reference checksum could not be fetched.
    ChecksumFailed,
    /// The download was opened for unpacking.
    ArchiveOpened,
    /// The download was unpacked in memory.
    ArchiveDecoded,
    /// The unpacked document was stored.
    ArchiveWritten,
    /// The download could not be opened, or the document not stored.
    ExtractionFailed,
    /// The text of the extracted file.
    DocumentRead { text: String },
    /// The extracted file could not be read.
    DocumentUnreadable,
    /// The output file was written.
    ArtifactWritten,
    /// The output file could not be written.
    WriteFailed,
}

/// A `WorkerEvent` with its texts as sequences of characters.
pub enum WorkerEventView {
    ArtifactProbed { present: bool },
    DownloadStarted { total_size: u64 },
    DownloadChunk { len: u64 },
    DownloadFinished,
    DownloadFailed,
    ChecksumFetched { reference: Seq<char>, computed: Seq<char> },
    ChecksumFailed,
    ArchiveOpened,
    ArchiveDecoded,
    ArchiveWritten,
    ExtractionFailed,
    DocumentRead { text: Seq<char> },
    DocumentUnreadable,
    ArtifactWritten,
    WriteFailed,
}

impl View for WorkerEvent {
    type V = WorkerEventView;

    open spec fn view(&self) -> WorkerEventView {
        match *self {
            WorkerEvent::ArtifactProbed { present } => WorkerEventView::ArtifactProbed { present },
            WorkerEvent::DownloadStarted { total_size } => WorkerEventView::DownloadStarted {
                total_size,
            },
            WorkerEvent::DownloadChunk { len } => WorkerEventView::DownloadChunk { len },
            WorkerEvent::DownloadFinished => WorkerEventView::DownloadFinished,
            WorkerEvent::DownloadFailed => WorkerEventView::DownloadFailed,
            WorkerEvent::ChecksumFetched { reference, computed } => {
                WorkerEventView::ChecksumFetched { reference: reference@, computed: computed@ }
            },
            WorkerEvent::ChecksumFailed => WorkerEventView::ChecksumFailed,
            WorkerEvent::ArchiveOpened => WorkerEventView::ArchiveOpened,
            WorkerEvent::ArchiveDecoded => WorkerEventView::ArchiveDecoded,
            WorkerEvent::ArchiveWritten => WorkerEventView::ArchiveWritten,
            WorkerEvent::ExtractionFailed => WorkerEventView::ExtractionFailed,
            WorkerEvent::DocumentRead { text } => WorkerEventView::DocumentRead { text: text@ },
            WorkerEvent::DocumentUnreadable => WorkerEventView::DocumentUnreadable,
            WorkerEvent::ArtifactWritten => WorkerEventView::ArtifactWritten,
            WorkerEvent::WriteFailed => WorkerEventView::WriteFailed,
        }
    }
}

/// A worker as plain values.
pub struct ParserView {
    /// The worker's id, which its reports carry.
    pub id: u32,
    /// The number of jobs of the allocator that the worker claims from.
    pub jobs: i32,
    /// The staging directory.
    pub temp_dir: Seq<char>,
    /// Where the worker stands.
    pub stage: Stage,
    /// Where the archive of the job is fetched from.
    pub download_url: Seq<char>,
    /// Where the archive is stored.
    pub local_download_filename: Seq<char>,
    /// Where the reference checksum is stored.
    pub md5_file_name: Seq<char>,
    /// Where the unpacked document is stored.
    pub extracted_filename: Seq<char>,
    /// Where the records of the job are written.
    pub output_filename: Seq<char>,
    /// The records of the job.
    pub articles: Seq<ArticleView>,
    /// The bytes received so far.
    pub processed: nat,
    /// The bytes announced; zero where none were.
    pub total: nat,
    /// The last percentage reported in the current stage.
    pub last_percent: nat,
    /// The reports that have not been taken yet, oldest first.
    pub outbox: Seq<ParserMessage>,
}

/// The name of the document of a job: the index in four digits, or more
/// where four do not hold it.
pub open spec fn file_name(index: u32) -> Seq<char> {
    "pubmed24n"@ + zero_padded(index as nat, 4) + ".xml"@
}

/// Where the archive of a job is fetched from.
pub open spec fn download_url(index: u32) -> Seq<char> {
    "https://ftp.ncbi.nlm.nih.gov/pubmed/baseline/"@ + file_name(index) + ".gz"@
}

/// Where the reference checksum of an archive is fetched from.
pub open spec fn checksum_url(url: Seq<char>) -> Seq<char> {
    url + ".md5"@
}

/// Where the archive of a job is stored.
pub open spec fn local_download_filename(temp_dir: Seq<char>, index: u32) -> Seq<char> {
    temp_dir + "/"@ + file_name(index) + ".gz"@
}

/// Where the reference checksum of a job is stored.
pub open spec fn md5_file_name(temp_dir: Seq<char>, index: u32) -> Seq<char> {
    temp_dir + "/"@ + file_name(index) + ".gz.md5"@
}

/// Where the unpacked document of a job is stored.
pub open spec fn extracted_filename(temp_dir: Seq<char>, index: u32) -> Seq<char> {
    temp_dir + "/"@ + file_name(index)
}

/// Where the records of a job are written.
pub open spec fn output_filename(index: u32) -> Seq<char> {
    "results_"@ + file_name(index) + ".json"@
}

/// The action that a worker in `stage` waits for.
pub open spec fn pending_action(stage: Stage) -> WorkerAction {
    match stage {
        Stage::Idle => WorkerAction::Restart,
        Stage::Probing => WorkerAction::Probe,
        Stage::Downloading => WorkerAction::Download,
        Stage::Verifying => WorkerAction::FetchChecksum,
        Stage::Extracting => WorkerAction::Extract,
        Stage::Parsing => WorkerAction::ReadDocument,
        Stage::Persisting => WorkerAction::WriteOutput,
        Stage::Done => WorkerAction::Stop,
    }
}

/// The report of a percentage in a stage.
pub open spec fn percent_report(stage: Stage, percent: u8) -> ParserState {
    match stage {
        Stage::Downloading => ParserState::Downloading(percent),
        Stage::Extracting => ParserState::Extracting(percent),
        _ => ParserState::Processing(percent),
    }
}

/// The worker after it has reported `state`.
pub open spec fn reported(v: ParserView, state: ParserState) -> ParserView {
    ParserView { outbox: v.outbox.push(ParserMessage { id: v.id, new_state: state }), ..v }
}

/// The worker after it has come to `percent` in its stage: the percentage
/// is reported if it is above the last one reported, and not otherwise.
pub open spec fn marked(v: ParserView, percent: nat) -> ParserView {
    if percent > v.last_percent {
        ParserView { last_percent: percent, ..reported(v, percent_report(v.stage, percent as u8)) }
    } else {
        v
    }
}

/// The worker after it has entered a stage that reports percentages: the
/// stage starts at zero, and says so.
pub open spec fn entered(v: ParserView, stage: Stage) -> ParserView {
    ParserView {
        stage,
        processed: 0,
        total: 0,
        last_percent: 0,
        ..reported(v, percent_report(stage, 0))
    }
}

/// The worker after it has given up its job with the report `error`.
pub open spec fn abandoned(v: ParserView, error: ParserState) -> ParserView {
    ParserView { stage: Stage::Idle, ..reported(v, error) }
}

/// The worker after it has been set up for the job `index`.
pub open spec fn reinit(v: ParserView, index: u32) -> ParserView {
    ParserView {
        stage: Stage::Probing,
        download_url: download_url(index),
        local_download_filename: local_download_filename(v.temp_dir, index),
        md5_file_name: md5_file_name(v.temp_dir, index),
        extracted_filename: extracted_filename(v.temp_dir, index),
        output_filename: output_filename(index),
        articles: seq![],
        processed: 0,
        total: 0,
        last_percent: 0,
        ..reported(v, ParserState::Restarting)
    }
}

/// The worker after a claim that returned `claimed`. Only a worker between
/// two jobs takes a claim: it sets out on the job, or ends if there is none.
pub open spec fn restarted(v: ParserView, claimed: Option<u32>) -> ParserView {
    if v.stage != Stage::Idle {
        v
    } else {
        match claimed {
            Some(index) => reinit(v, index),
            None => ParserView { stage: Stage::Done, ..reported(v, ParserState::Done) },
        }
    }
}

/// A byte count raised by `by`, kept at the largest `u64` once it is
/// reached.
pub open spec fn received(count: nat, by: nat) -> nat {
    if count + by > u64::MAX {
        u64::MAX as nat
    } else {
        count + by
    }
}

/// The number of `PubmedArticle` elements among the first `upto` nodes.
pub open spec fn article_count(doc: Seq<NodeView>, upto: int) -> nat
    decreases upto,
{
    if upto <= 0 {
        0
    } else if doc[upto - 1].name == "PubmedArticle"@ {
        article_count(doc, upto - 1) + 1
    } else {
        article_count(doc, upto - 1)
    }
}

/// The valid articles among those of the `PubmedArticle` elements that lie
/// in the first `upto` nodes, in the order of the document.
pub open spec fn collected(doc: Seq<NodeView>, upto: int) -> Seq<ArticleView>
    decreases upto,
{
    if upto <= 0 {
        seq![]
    } else {
        let before = collected(doc, upto - 1);
        if doc[upto - 1].name == "PubmedArticle"@ && is_valid(article_of(doc, upto - 1)) {
            before.push(article_of(doc, upto - 1))
        } else {
            before
        }
    }
}

/// Every article that was collected from a document is valid.
pub proof fn lemma_collected_valid(doc: Seq<NodeView>, upto: int)
    ensures
        forall|i: int|
            0 <= i < collected(doc, upto).len() ==> is_valid(#[trigger] collected(doc, upto)[i]),
    decreases upto,
{
    if upto > 0 {
        lemma_collected_valid(doc, upto - 1);
        let before = collected(doc, upto - 1);
        assert forall|i: int| 0 <= i < collected(doc, upto).len() implies is_valid(
            #[trigger] collected(doc, upto)[i],
        ) by {
            if i < before.len() {
                assert(collected(doc, upto)[i] == before[i]);
            }
        }
    }
}

/// The reports of the percentages `steps` of the parsing stage.
pub open spec fn percent_messages(id: u32, steps: Seq<u8>) -> Seq<ParserMessage> {
    steps.map_values(|p: u8| ParserMessage { id, new_state: ParserState::Processing(p) })
}

/// The worker after it has taken the articles out of `doc`: it holds the
/// valid ones and has reported each rise of the percentage of elements
/// worked off.
pub open spec fn collected_from(v: ParserView, doc: Seq<NodeView>) -> ParserView {
    let count = article_count(doc, doc.len() as int);
    ParserView {
        articles: collected(doc, doc.len() as int),
        outbox: v.outbox + percent_messages(v.id, percent_steps(count, count)),
        ..v
    }
}

/// The options under which documents are parsed: a document may declare a
/// DTD, and may have as many nodes as the parser can count.
pub open spec fn parsed_document(text: Seq<char>) -> Option<Seq<NodeView>> {
    parsed_xml(text, true, u32::MAX)
}

/// The worker after the parsing of a text: with the articles of the
/// document, or with none and the report of the failure where the text is
/// no document.
pub open spec fn processed(v: ParserView, doc: Option<Seq<NodeView>>) -> ParserView {
    match doc {
        Some(d) => collected_from(v, d),
        None => reported(ParserView { articles: seq![], ..v }, ParserState::ErrorParsingFailed),
    }
}

/// The worker after it has dropped the articles that are not relevant.
pub open spec fn filtered(v: ParserView) -> ParserView {
    ParserView { articles: relevant_only(v.articles), ..v }
}

/// The worker after it has set out to write its articles.
pub open spec fn persisting(v: ParserView) -> ParserView {
    reported(ParserView { stage: Stage::Persisting, ..v }, ParserState::WritingFile)
}

/// The step of a worker that waits to learn whether its output exists. A
/// job whose output exists is skipped without a report.
pub open spec fn probing(v: ParserView, e: WorkerEventView) -> ParserView {
    match e {
        WorkerEventView::ArtifactProbed { present } => if present {
            ParserView { stage: Stage::Idle, ..v }
        } else {
            entered(v, Stage::Downloading)
        },
        _ => v,
    }
}

/// The step of a worker that downloads.
pub open spec fn downloading(v: ParserView, e: WorkerEventView) -> ParserView {
    match e {
        WorkerEventView::DownloadStarted { total_size } => ParserView {
            total: total_size as nat,
            ..v
        },
        WorkerEventView::DownloadChunk { len } => {
            let done = received(v.processed, len as nat);
            marked(ParserView { processed: done, ..v }, percentage(done, v.total))
        },
        WorkerEventView::DownloadFinished => reported(
            ParserView { stage: Stage::Verifying, ..marked(v, 100) },
            ParserState::CheckMd5,
        ),
        WorkerEventView::DownloadFailed => abandoned(v, ParserState::ErrorDownloadFailed),
        _ => v,
    }
}

/// The step of a worker that verifies the checksum. The two checksums are
/// compared without the white space around them.
pub open spec fn verifying(v: ParserView, e: WorkerEventView) -> ParserView {
    match e {
        WorkerEventView::ChecksumFetched { reference, computed } => if same_trimmed(
            reference,
            computed,
        ) {
            entered(v, Stage::Extracting)
        } else {
            abandoned(v, ParserState::ErrorChecksumWrong)
        },
        WorkerEventView::ChecksumFailed => abandoned(v, ParserState::ErrorChecksumWrong),
        _ => v,
    }
}

/// The step of a worker that extracts.
pub open spec fn extracting(v: ParserView, e: WorkerEventView) -> ParserView {
    match e {
        WorkerEventView::ArchiveOpened => marked(v, 10),
        WorkerEventView::ArchiveDecoded => marked(v, 90),
        WorkerEventView::ArchiveWritten => entered(marked(v, 100), Stage::Parsing),
        WorkerEventView::ExtractionFailed => abandoned(v, ParserState::ErrorExtractionFailed),
        _ => v,
    }
}

/// The step of a worker that parses. A text that is no document, or none
/// at all, is reported and leaves the job with no articles; the job goes
/// on to be written out all the same.
pub open spec fn parsing(v: ParserView, e: WorkerEventView) -> ParserView {
    match e {
        WorkerEventView::DocumentRead { text } => persisting(
            filtered(processed(v, parsed_document(text))),
        ),
        WorkerEventView::DocumentUnreadable => persisting(filtered(processed(v, None))),
        _ => v,
    }
}

/// The step of a worker that writes its articles out.
pub open spec fn writing(v: ParserView, e: WorkerEventView) -> ParserView {
    match e {
        WorkerEventView::ArtifactWritten => ParserView {
            stage: Stage::Idle,
            ..reported(v, ParserState::FinishedInputFile(v.articles.len() as usize))
        },
        WorkerEventView::WriteFailed => abandoned(v, ParserState::ErrorWritingFailed),
        _ => v,
    }
}

/// The worker after the outcome `e`. An outcome that does not belong to the
/// worker's stage changes nothing, and a worker between jobs or at its end
/// takes no outcome.
pub open spec fn advanced(v: ParserView, e: WorkerEventView) -> ParserView {
    match v.stage {
        Stage::Idle => v,
        Stage::Probing => probing(v, e),
        Stage::Downloading => downloading(v, e),
        Stage::Verifying => verifying(v, e),
        Stage::Extracting => extracting(v, e),
        Stage::Parsing => parsing(v, e),
        Stage::Persisting => writing(v, e),
        Stage::Done => v,
    }
}

/// The worker after the outcomes `events`, one after the other.
pub open spec fn advanced_all(v: ParserView, events: Seq<WorkerEventView>) -> ParserView
    decreases events.len(),
{
    if events.len() == 0 {
        v
    } else {
        advanced(advanced_all(v, events.drop_last()), events.last())
    }
}

/// What is asked of a worker's state: what a worker is about to write out
/// are valid and relevant articles.
pub open spec fn well_formed(v: ParserView) -> bool {
    v.stage == Stage::Persisting ==> forall|i: int|
        0 <= i < v.articles.len() ==> is_valid(#[trigger] v.articles[i]) && is_relevant(
            v.articles[i],
        )
}

/// A worker that has just been made: between jobs, with nothing held and
/// nothing reported.
pub open spec fn fresh(id: u32, temp_dir: Seq<char>, jobs: i32) -> ParserView {
    ParserView {
        id,
        jobs,
        temp_dir,
        stage: Stage::Idle,
        download_url: Seq::empty(),
        local_download_filename: Seq::empty(),
        md5_file_name: Seq::empty(),
        extracted_filename: Seq::empty(),
        output_filename: Seq::empty(),
        articles: seq![],
        processed: 0,
        total: 0,
        last_percent: 0,
        outbox: seq![],
    }
}

} // verus!

//! The worker: one job at a time, one stage after the other.
//!
//! A `Parser` decides and reports; it does no network or disk work itself.
//! `try_restart` claims the next job. After that the caller performs the
//! action that the worker waits for and hands each outcome to `run`, until
//! the action is `Restart` again, or `Stop`.

use std::sync::Arc;
use vstd::prelude::*;
use crate::allocator::JobAllocator;
use crate::article::{Article, article_of, article_views, gathered, relevant_only};
use crate::pipeline::{
    ParserView, Stage, WorkerAction, WorkerEvent, WorkerEventView, abandoned, advanced,
    article_count, checksum_url, collected, collected_from, downloading, entered, extracting,
    filtered, fresh, marked, parsed_document, pending_action, percent_messages, persisting,
    probing, reinit, reported, restarted, verifying, writing,
};
use crate::progress::{lemma_percentage_monotonic, percent_of, percent_steps, percentage};
use crate::text::{decimal, eq_trimmed, push_decimal, push_zero_padded, remove_char, without_char};
use crate::xml::{XmlDocument, XmlError, subtree_end};

verus! {

/// What a worker reports about itself.
#[derive(Clone, Copy, Debug, PartialEq, Eq, Structural)]
pub enum ParserState {
    Restarting,
    Waiting,
    Downloading(u8),
    CheckMd5,
    Extracting(u8),
    Processing(u8),
    WritingFile,
    FinishedInputFile(usize),
    Done,
    ErrorDownloadFailed,
    ErrorChecksumWrong,
    ErrorExtractionFailed,
    ErrorParsingFailed,
    ErrorWritingFailed,
    Terminate,
}

/// A status report: the worker it comes from and its new state.
#[derive(Clone, Copy, Debug, PartialEq, Eq, Structural)]
pub struct ParserMessage {
    pub id: u32,
    pub new_state: ParserState,
}

/// A worker.
pub struct Parser {
    id: u32,
    download_url: String,
    local_download_filename: String,
    md5_file_name: String,
    extracted_filename: String,
    article_data: Vec<Article>,
    output_filename: String,
    counter_arc: Arc<JobAllocator>,
    temp_dir: String,
    stage: Stage,
    processed: u64,
    total: u64,
    last_reported_percentage: u8,
    outbox: Vec<ParserMessage>,
}

impl View for Parser {
    type V = ParserView;

    closed spec fn view(&self) -> ParserView {
        ParserView {
            id: self.id,
            jobs: self.counter_arc.jobs(),
            temp_dir: self.temp_dir@,
            stage: self.stage,
            download_url: self.download_url@,
            local_download_filename: self.local_download_filename@,
            md5_file_name: self.md5_file_name@,
            extracted_filename: self.extracted_filename@,
            output_filename: self.output_filename@,
            articles: article_views(self.article_data@),
            processed: self.processed as nat,
            total: self.total as nat,
            last_percent: self.last_reported_percentage as nat,
            outbox: self.outbox@,
        }
    }
}

/// The prefix of the name of a worker's staging directory.
pub open spec fn staging_prefix(id: u32) -> Seq<char> {
    "dir"@ + decimal(id as nat)
}

/// Reads the subtree of `node` in the order of the document: an `Article`
/// element gives the title and the abstract, a `PubmedData` element the
/// identifiers.
fn read_article(doc: &XmlDocument, node: usize) -> (article: Article)
    ensures
        article@ == article_of(doc@, node as int),
{
    let mut article = Article::new();
    if node >= doc.len() {
        return article;
    }
    let end: usize = doc.subtree_end(node);
    let mut child: usize = node;
    while child < end
        invariant
            end == subtree_end(doc@, node as int),
            end <= doc@.len(),
            node <= child <= end,
            article@ == gathered(doc@, node as int, child as int),
        decreases end - child,
    {
        if doc.node(child).is_named("Article") {
            article.set_from_article_data(doc, child);
        } else if doc.node(child).is_named("PubmedData") {
            article.set_from_pubmed_data(doc, child);
        }
        child += 1;
    }
    article
}

impl Parser {
    /// The prefix of the name of the staging directory of the worker `id`.
    pub fn staging_prefix(id: u32) -> (prefix: String)
        ensures
            prefix@ == staging_prefix(id),
    {
        let mut prefix = String::from_str("dir");
        push_decimal(&mut prefix, id as u64);
        prefix
    }

    /// A worker with the id `id` that claims its jobs from `arc` and stages
    /// its files in the directory `staging_path`, written without its dots.
    pub fn initialize(arc: Arc<JobAllocator>, id: u32, staging_path: &str) -> (parser: Parser)
        ensures
            parser@ == fresh(id, without_char(staging_path@, '.'), arc.jobs()),
    {
        let parser = Parser {
            download_url: String::new(),
            local_download_filename: String::new(),
            md5_file_name: String::new(),
            extracted_filename: String::new(),
            article_data: Vec::new(),
            output_filename: String::new(),
            counter_arc: arc,
            temp_dir: remove_char(staging_path, '.'),
            stage: Stage::Idle,
            processed: 0,
            total: 0,
            last_reported_percentage: 0,
            outbox: Vec::new(),
            id,
        };
        assert(parser@.articles =~= seq![]);
        assert(parser@.outbox =~= seq![]);
        parser
    }

    /// The worker's id.
    pub fn id(&self) -> (id: u32)
        ensures
            id == self@.id,
    {
        self.id
    }

    /// Where the worker stands.
    pub fn stage(&self) -> (stage: Stage)
        ensures
            stage == self@.stage,
    {
        self.stage
    }

    /// The action that the worker waits for.
    pub fn pending_action(&self) -> (action: WorkerAction)
        ensures
            action == pending_action(self@.stage),
    {
        match self.stage {
            Stage::Idle => WorkerAction::Restart,
            Stage::Probing => WorkerAction::Probe,
            Stage::Downloading => WorkerAction::Download,
            Stage::Verifying => WorkerAction::FetchChecksum,
            Stage::Extracting => WorkerAction::Extract,
            Stage::Parsing => WorkerAction::ReadDocument,
            Stage::Persisting => WorkerAction::WriteOutput,
            Stage::Done => WorkerAction::Stop,
        }
    }

    /// The staging directory.
    pub fn temp_dir(&self) -> (path: &String)
        ensures
            path@ == self@.temp_dir,
    {
        &self.temp_dir
    }

    /// Where the archive of the job is fetched from.
    pub fn download_url(&self) -> (url: &String)
        ensures
            url@ == self@.download_url,
    {
        &self.download_url
    }

    /// Where the reference checksum of the job is fetched from.
    pub fn checksum_url(&self) -> (url: String)
        ensures
            url@ == checksum_url(self@.download_url),
    {
        let mut url = self.download_url.clone();
        url.append(".md5");
        url
    }

    /// Where the archive is stored.
    pub fn local_download_filename(&self) -> (path: &String)
        ensures
            path@ == self@.local_download_filename,
    {
        &self.local_download_filename
    }

    /// Where the reference checksum is stored.
    pub fn md5_file_name(&self) -> (path: &String)
        ensures
            path@ == self@.md5_file_name,
    {
        &self.md5_file_name
    }

    /// Where the unpacked document is stored.
    pub fn extracted_filename(&self) -> (path: &String)
        ensures
            path@ == self@.extracted_filename,
    {
        &self.extracted_filename
    }

    /// Where the records of the job are written.
    pub fn output_filename(&self) -> (path: &String)
        ensures
            path@ == self@.output_filename,
    {
        &self.output_filename
    }

    /// The records of the job.
    pub fn articles(&self) -> (articles: &Vec<Article>)
        ensures
            article_views(articles@) == self@.articles,
    {
        &self.article_data
    }

    /// Hands out the reports that have not been taken yet, oldest first.
    pub fn take_messages(&mut self) -> (messages: Vec<ParserMessage>)
        ensures
            messages@ == old(self)@.outbox,
            final(self)@ == (ParserView { outbox: seq![], ..old(self)@ }),
    {
        let mut messages: Vec<ParserMessage> = Vec::new();
        std::mem::swap(&mut self.outbox, &mut messages);
        assert(self@.outbox =~= seq![]);
        messages
    }

    /// Reports `state`.
    fn report_state(&mut self, state: ParserState)
        ensures
            final(self)@ == reported(old(self)@, state),
    {
        self.outbox.push(ParserMessage { id: self.id, new_state: state });
    }

    /// Reports `percent`, if it is above the last percentage reported in
    /// this stage.
    fn mark(&mut self, percent: u8)
        ensures
            final(self)@ == marked(old(self)@, percent as nat),
    {
        if percent > self.last_reported_percentage {
            let state = match self.stage {
                Stage::Downloading => ParserState::Downloading(percent),
                Stage::Extracting => ParserState::Extracting(percent),
                _ => ParserState::Processing(percent),
            };
            self.report_state(state);
            self.last_reported_percentage = percent;
        }
    }

    /// Enters a stage that reports percentages.
    fn enter(&mut self, stage: Stage)
        ensures
            final(self)@ == entered(old(self)@, stage),
    {
        let state = match stage {
            Stage::Downloading => ParserState::Downloading(0),
            Stage::Extracting => ParserState::Extracting(0),
            _ => ParserState::Processing(0),
        };
        self.report_state(state);
        self.stage = stage;
        self.processed = 0;
        self.total = 0;
        self.last_reported_percentage = 0;
    }

    /// Gives the job up with the report `error`.
    fn abandon(&mut self, error: ParserState)
        ensures
            final(self)@ == abandoned(old(self)@, error),
    {
        self.report_state(error);
        self.stage = Stage::Idle;
    }

    /// Claims the next job and sets out on it, or ends the worker if the
    /// jobs are used up. A worker in the middle of a job claims nothing.
    /// Which job the claim returns is decided by the allocator.
    pub fn try_restart(&mut self) -> (action: WorkerAction)
        ensures
            action == pending_action(final(self)@.stage),
            exists|claimed: Option<u32>|
                {
                    &&& claimed matches Some(index) ==> index < old(self)@.jobs
                    &&& final(self)@ == restarted(old(self)@, claimed)
                },
    {
        if self.stage != Stage::Idle {
            assert(self@ == restarted(old(self)@, None));
            return self.pending_action();
        }
        let claimed: Option<u32> = self.counter_arc.claim();
        let action = self.restart_with(claimed);
        assert(self@ == restarted(old(self)@, claimed));
        action
    }

    /// What `try_restart` does once the claim has returned `claimed`.
    pub fn restart_with(&mut self, claimed: Option<u32>) -> (action: WorkerAction)
        ensures
            action == pending_action(final(self)@.stage),
            final(self)@ == restarted(old(self)@, claimed),
    {
        if self.stage == Stage::Idle {
            match claimed {
                Some(index) => {
                    self.reinit_for_index(index);
                },
                None => {
                    self.report_state(ParserState::Done);
                    self.stage = Stage::Done;
                },
            }
        }
        self.pending_action()
    }

    /// Sets the worker up for the job `index`: its paths are derived from
    /// the index, it holds no articles, and it reports that it starts anew.
    pub fn reinit_for_index(&mut self, index: u32)
        ensures
            final(self)@ == reinit(old(self)@, index),
    {
        let mut fname = String::from_str("pubmed24n");
        push_zero_padded(&mut fname, index as u64, 4);
        fname.append(".xml");
        self.report_state(ParserState::Restarting);

        let mut url = String::from_str("https://ftp.ncbi.nlm.nih.gov/pubmed/baseline/");
        url.append(fname.as_str());
        url.append(".gz");
        self.download_url = url;

        let mut local = self.temp_dir.clone();
        local.append("/");
        local.append(fname.as_str());
        local.append(".gz");
        self.local_download_filename = local;

        let mut md5 = self.temp_dir.clone();
        md5.append("/");
        md5.append(fname.as_str());
        md5.append(".gz.md5");
        self.md5_file_name = md5;

        let mut extracted = self.temp_dir.clone();
        extracted.append("/");
        extracted.append(fname.as_str());
        self.extracted_filename = extracted;

        self.article_data = Vec::new();

        let mut output = String::from_str("results_");
        output.append(fname.as_str());
        output.append(".json");
        self.output_filename = output;

        self.stage = Stage::Probing;
        self.processed = 0;
        self.total = 0;
        self.last_reported_percentage = 0;
        assert(self@.articles =~= seq![]);
    }

    /// Takes the outcome `event` of the action that the worker waits for,
    /// and says which action it waits for then.
    pub fn run(&mut self, event: WorkerEvent) -> (action: WorkerAction)
        ensures
            final(self)@ == advanced(old(self)@, event@),
            action == pending_action(final(self)@.stage),
    {
        match self.stage {
            Stage::Idle => {},
            Stage::Probing => {
                match event {
                    WorkerEvent::ArtifactProbed { present } => {
                        self.check_if_file_is_present(present);
                    },
                    _ => {},
                }
            },
            Stage::Downloading => {
                self.download(&event);
            },
            Stage::Verifying => {
                self.check_md5(&event);
            },
            Stage::Extracting => {
                self.extract(&event);
            },
            Stage::Parsing => {
                match event {
                    WorkerEvent::DocumentRead { text } => {
                        let processing_state = self.process(text.as_str());
                        if processing_state.is_err() {
                            self.report_state(ParserState::ErrorParsingFailed);
                        }
                        self.filter_articles();
                        self.begin_writing();
                    },
                    WorkerEvent::DocumentUnreadable => {
                        self.article_data = Vec::new();
                        assert(self@.articles =~= seq![]);
                        self.report_state(ParserState::ErrorParsingFailed);
                        self.filter_articles();
                        self.begin_writing();
                    },
                    _ => {},
                }
            },
            Stage::Persisting => {
                self.write_output(&event);
            },
            Stage::Done => {},
        }
        self.pending_action()
    }

    /// Takes the answer to whether the output of the job exists: a job
    /// whose output exists is skipped, any other is downloaded.
    fn check_if_file_is_present(&mut self, present: bool)
        requires
            old(self)@.stage == Stage::Probing,
        ensures
            final(self)@ == probing(old(self)@, WorkerEventView::ArtifactProbed { present }),
    {
        if present {
            self.stage = Stage::Idle;
        } else {
            self.enter(Stage::Downloading);
        }
    }

    /// The step of the download.
    fn download(&mut self, event: &WorkerEvent)
        requires
            old(self)@.stage == Stage::Downloading,
        ensures
            final(self)@ == downloading(old(self)@, event@),
    {
        match event {
            WorkerEvent::DownloadStarted { total_size } => {
                self.total = *total_size;
            },
            WorkerEvent::DownloadChunk { len } => {
                self.processed = self.processed.saturating_add(*len);
                let new_percentage: u8 = percent_of(self.processed, self.total);
                self.mark(new_percentage);
            },
            WorkerEvent::DownloadFinished => {
                self.mark(100);
                self.stage = Stage::Verifying;
                self.report_state(ParserState::CheckMd5);
            },
            WorkerEvent::DownloadFailed => {
                self.abandon(ParserState::ErrorDownloadFailed);
            },
            _ => {},
        }
    }

    /// The step of the checksum: the job goes on if the two checksums are
    /// the same but for the white space around them, and is given up
    /// otherwise.
    fn check_md5(&mut self, event: &WorkerEvent)
        requires
            old(self)@.stage == Stage::Verifying,
        ensures
            final(self)@ == verifying(old(self)@, event@),
    {
        match event {
            WorkerEvent::ChecksumFetched { reference, computed } => {
                if eq_trimmed(reference.as_str(), computed.as_str()) {
                    self.enter(Stage::Extracting);
                } else {
                    self.abandon(ParserState::ErrorChecksumWrong);
                }
            },
            WorkerEvent::ChecksumFailed => {
                self.abandon(ParserState::ErrorChecksumWrong);
            },
            _ => {},
        }
    }

    /// The step of the extraction.
    fn extract(&mut self, event: &WorkerEvent)
        requires
            old(self)@.stage == Stage::Extracting,
        ensures
            final(self)@ == extracting(old(self)@, event@),
    {
        match event {
            WorkerEvent::ArchiveOpened => {
                self.mark(10);
            },
            WorkerEvent::ArchiveDecoded => {
                self.mark(90);
            },
            WorkerEvent::ArchiveWritten => {
                self.mark(100);
                self.enter(Stage::Parsing);
            },
            WorkerEvent::ExtractionFailed => {
                self.abandon(ParserState::ErrorExtractionFailed);
            },
            _ => {},
        }
    }

    /// Parses `xml_data` and takes the valid articles out of the document.
    /// Returns their number, or the failure where the text is no document;
    /// the worker then holds no articles.
    fn process(&mut self, xml_data: &str) -> (count: Result<usize, XmlError>)
        ensures
            match parsed_document(xml_data@) {
                Some(doc) => count == Ok::<usize, XmlError>(
                    collected(doc, doc.len() as int).len() as usize,
                ) && final(self)@ == collected_from(old(self)@, doc),
                None => count == Err::<usize, XmlError>(XmlError::Malformed) && final(self)@ == (
                ParserView { articles: seq![], ..old(self)@ }),
            },
    {
        match XmlDocument::parse_with_options(xml_data, true, u32::MAX) {
            Ok(doc) => {
                let (articles, mut reports) = Parser::collect_articles(&doc, self.id);
                self.article_data = articles;
                self.outbox.append(&mut reports);
                Ok(self.article_data.len())
            },
            Err(e) => {
                self.article_data = Vec::new();
                assert(self@.articles =~= seq![]);
                Err(e)
            },
        }
    }

    /// Takes the valid articles out of `doc`, one `PubmedArticle` element
    /// after the other, and makes a report in the name of the worker `id`
    /// whenever the percentage of elements worked off rises. Returns the
    /// articles and the reports.
    pub fn collect_articles(doc: &XmlDocument, id: u32) -> (found: (
        Vec<Article>,
        Vec<ParserMessage>,
    ))
        ensures
            article_views(found.0@) == collected(doc@, doc@.len() as int),
            found.1@ == percent_messages(
                id,
                percent_steps(
                    article_count(doc@, doc@.len() as int),
                    article_count(doc@, doc@.len() as int),
                ),
            ),
    {
        let n: usize = doc.len();
        let mut total_n_articles: usize = 0;
        let mut i: usize = 0;
        while i < n
            invariant
                n == doc@.len(),
                i <= n,
                total_n_articles <= i,
                total_n_articles == article_count(doc@, i as int),
            decreases n - i,
        {
            if doc.node(i).is_named("PubmedArticle") {
                total_n_articles += 1;
            }
            i += 1;
        }
        let mut articles: Vec<Article> = Vec::new();
        let mut reports: Vec<ParserMessage> = Vec::new();
        let mut last_reported_percentage: u8 = 0;
        let mut processed_articles: usize = 0;
        i = 0;
        assert(article_views(articles@) =~= collected(doc@, 0));
        assert(reports@ =~= percent_messages(id, percent_steps(total_n_articles as nat, 0)));
        while i < n
            invariant
                n == doc@.len(),
                i <= n,
                total_n_articles == article_count(doc@, n as int),
                processed_articles == article_count(doc@, i as int),
                processed_articles <= i,
                article_views(articles@) == collected(doc@, i as int),
                last_reported_percentage == percentage(
                    processed_articles as nat,
                    total_n_articles as nat,
                ),
                reports@ == percent_messages(
                    id,
                    percent_steps(total_n_articles as nat, processed_articles as nat),
                ),
            decreases n - i,
        {
            if doc.node(i).is_named("PubmedArticle") {
                let article = read_article(doc, i);
                let ghost before = articles@;
                if article.is_valid() {
                    articles.push(article);
                    assert(article_views(articles@) =~= article_views(before).push(article@));
                }
                processed_articles += 1;
                let new_percentage: u8 = percent_of(
                    processed_articles as u64,
                    total_n_articles as u64,
                );
                proof {
                    lemma_percentage_monotonic(
                        (processed_articles - 1) as nat,
                        processed_articles as nat,
                        total_n_articles as nat,
                    );
                }
                let ghost steps = percent_steps(
                    total_n_articles as nat,
                    (processed_articles - 1) as nat,
                );
                if new_percentage > last_reported_percentage {
                    last_reported_percentage = new_percentage;
                    let report = ParserMessage {
                        id,
                        new_state: ParserState::Processing(new_percentage),
                    };
                    reports.push(report);
                    assert(percent_messages(id, steps.push(new_percentage)) =~= percent_messages(
                        id,
                        steps,
                    ).push(report));
                }
            }
            i += 1;
        }
        (articles, reports)
    }

    /// The article that the `PubmedArticle` element at `node` describes.
    pub fn process_one_pubmed_article(&self, doc: &XmlDocument, node: usize) -> (article: Article)
        ensures
            article@ == article_of(doc@, node as int),
    {
        read_article(doc, node)
    }

    /// Drops the articles that are not relevant.
    pub fn filter_articles(&mut self)
        ensures
            final(self)@ == filtered(old(self)@),
    {
        let mut all: Vec<Article> = Vec::new();
        std::mem::swap(&mut self.article_data, &mut all);
        proof {
            reveal(Seq::filter);
        }
        assert(article_views(self.article_data@) =~= relevant_only(article_views(all@.take(0))));
        for article in it: all
            invariant
                it.seq() == old(self).article_data@,
                article_views(self.article_data@) == relevant_only(
                    article_views(it.seq().take(it.index() as int)),
                ),
                self@ == (ParserView { articles: self@.articles, ..old(self)@ }),
        {
            proof {
                reveal(Seq::filter);
                let next = article_views(it.seq().take(it.index() + 1));
                assert(next.drop_last() =~= article_views(it.seq().take(it.index() as int)));
                assert(next.last() == article@);
            }
            let ghost before = self.article_data@;
            if article.is_article_relevant() {
                self.article_data.push(article);
                assert(article_views(self.article_data@) =~= article_views(before).push(
                    article@,
                ));
            }
        }
        assert(old(self).article_data@.take(old(self).article_data@.len() as int)
            =~= old(self).article_data@);
    }

    /// Sets out to write the articles.
    fn begin_writing(&mut self)
        ensures
            final(self)@ == persisting(old(self)@),
    {
        self.stage = Stage::Persisting;
        self.report_state(ParserState::WritingFile);
    }

    /// The step of the writing: a job whose output was written reports the
    /// number of articles in it.
    fn write_output(&mut self, event: &WorkerEvent)
        requires
            old(self)@.stage == Stage::Persisting,
        ensures
            final(self)@ == writing(old(self)@, event@),
    {
        match event {
            WorkerEvent::ArtifactWritten => {
                self.report_state(ParserState::FinishedInputFile(self.article_data.len()));
                self.stage = Stage::Idle;
            },
            WorkerEvent::WriteFailed => {
                self.abandon(ParserState::ErrorWritingFailed);
            },
            _ => {},
        }
    }
}

} // verus!

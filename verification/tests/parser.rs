use pubmed_pipeline::allocator::JobAllocator;
use pubmed_pipeline::article::Article;
use pubmed_pipeline::parser::{Parser, ParserMessage, ParserState};
use pubmed_pipeline::pipeline::{Stage, WorkerAction, WorkerEvent};
use pubmed_pipeline::xml::XmlDocument;
use std::sync::Arc;

const DOCUMENT: &str = "<?xml version=\"1.0\"?>\
<PubmedArticleSet>\
<PubmedArticle><MedlineCitation><Article>\
<ArticleTitle>Lung cancer screening</ArticleTitle>\
<Abstract><AbstractText>A tumor study.</AbstractText></Abstract>\
</Article></MedlineCitation>\
<PubmedData><ArticleIdList>\
<ArticleId IdType=\"pubmed\">123</ArticleId>\
<ArticleId IdType=\"doi\">10.1/abc</ArticleId>\
<ArticleId IdType=\"pmc\">PMC9</ArticleId>\
<ArticleId IdType=\"pii\">S1</ArticleId>\
</ArticleIdList></PubmedData></PubmedArticle>\
<PubmedArticle><MedlineCitation><Article>\
<ArticleTitle>Heart rhythm</ArticleTitle>\
<Abstract><AbstractText>About cancer, in passing.</AbstractText></Abstract>\
</Article></MedlineCitation>\
<PubmedData><ArticleIdList>\
<ArticleId IdType=\"doi\">10.1/heart</ArticleId>\
</ArticleIdList></PubmedData></PubmedArticle>\
<PubmedArticle><MedlineCitation><Article>\
<ArticleTitle>An oncology paper without identifier</ArticleTitle>\
<Abstract><AbstractText>tumor</AbstractText></Abstract>\
</Article></MedlineCitation>\
<PubmedData><ArticleIdList>\
<ArticleId IdType=\"pubmed\">7</ArticleId>\
</ArticleIdList></PubmedData></PubmedArticle>\
</PubmedArticleSet>";

fn worker(total_jobs: i32, id: u32) -> Parser {
    Parser::initialize(Arc::new(JobAllocator::new(total_jobs)), id, "/tmp/dir0.abc")
}

fn states(messages: Vec<ParserMessage>) -> Vec<ParserState> {
    messages.into_iter().map(|m| m.new_state).collect()
}

fn lung_cancer() -> Article {
    Article {
        title: "Lung cancer screening".to_string(),
        pmid: "123".to_string(),
        doi: "10.1/abc".to_string(),
        pmc: "PMC9".to_string(),
        pii: "S1".to_string(),
        paper_abstract: "A tumor study.".to_string(),
    }
}

fn heart() -> Article {
    Article {
        title: "Heart rhythm".to_string(),
        pmid: String::new(),
        doi: "10.1/heart".to_string(),
        pmc: String::new(),
        pii: String::new(),
        paper_abstract: "About cancer, in passing.".to_string(),
    }
}

fn checksums(reference: &str, computed: &str) -> WorkerEvent {
    WorkerEvent::ChecksumFetched {
        reference: reference.to_string(),
        computed: computed.to_string(),
    }
}

fn to_parsing(parser: &mut Parser) {
    assert_eq!(parser.try_restart(), WorkerAction::Probe);
    parser.run(WorkerEvent::ArtifactProbed { present: false });
    parser.run(WorkerEvent::DownloadFinished);
    parser.run(checksums("a", "a"));
    assert_eq!(parser.run(WorkerEvent::ArchiveWritten), WorkerAction::ReadDocument);
    parser.take_messages();
}

#[test]
fn a_new_worker_waits_to_claim() {
    let mut parser = worker(1, 4);
    assert_eq!(parser.id(), 4);
    assert_eq!(parser.stage(), Stage::Idle);
    assert_eq!(parser.pending_action(), WorkerAction::Restart);
    assert_eq!(parser.temp_dir(), "/tmp/dir0abc");
    assert_eq!(parser.articles().len(), 0);
    assert_eq!(parser.take_messages(), vec![]);
}

#[test]
fn the_staging_prefix_names_the_worker() {
    assert_eq!(Parser::staging_prefix(0), "dir0");
    assert_eq!(Parser::staging_prefix(17), "dir17");
}

#[test]
fn paths_are_derived_from_the_job_index() {
    let mut parser = worker(1, 0);
    parser.reinit_for_index(7);
    assert_eq!(
        parser.download_url(),
        "https://ftp.ncbi.nlm.nih.gov/pubmed/baseline/pubmed24n0007.xml.gz"
    );
    assert_eq!(
        parser.checksum_url(),
        "https://ftp.ncbi.nlm.nih.gov/pubmed/baseline/pubmed24n0007.xml.gz.md5"
    );
    assert_eq!(parser.local_download_filename(), "/tmp/dir0abc/pubmed24n0007.xml.gz");
    assert_eq!(parser.md5_file_name(), "/tmp/dir0abc/pubmed24n0007.xml.gz.md5");
    assert_eq!(parser.extracted_filename(), "/tmp/dir0abc/pubmed24n0007.xml");
    assert_eq!(parser.output_filename(), "results_pubmed24n0007.xml.json");
    assert_eq!(parser.stage(), Stage::Probing);
    assert_eq!(states(parser.take_messages()), vec![ParserState::Restarting]);
}

#[test]
fn paths_keep_indices_of_more_than_four_digits() {
    let mut parser = worker(1, 0);
    parser.reinit_for_index(1218);
    assert_eq!(parser.output_filename(), "results_pubmed24n1218.xml.json");
    parser.reinit_for_index(0);
    assert_eq!(parser.output_filename(), "results_pubmed24n0000.xml.json");
    parser.reinit_for_index(123456);
    assert_eq!(parser.output_filename(), "results_pubmed24n123456.xml.json");
}

#[test]
fn a_job_runs_through_all_stages() {
    let mut parser = worker(1, 3);
    assert_eq!(parser.try_restart(), WorkerAction::Probe);
    assert_eq!(parser.output_filename(), "results_pubmed24n0000.xml.json");
    assert_eq!(
        parser.run(WorkerEvent::ArtifactProbed { present: false }),
        WorkerAction::Download
    );
    assert_eq!(
        parser.run(WorkerEvent::DownloadStarted { total_size: 200 }),
        WorkerAction::Download
    );
    assert_eq!(parser.run(WorkerEvent::DownloadChunk { len: 50 }), WorkerAction::Download);
    assert_eq!(parser.run(WorkerEvent::DownloadChunk { len: 1 }), WorkerAction::Download);
    assert_eq!(parser.run(WorkerEvent::DownloadChunk { len: 49 }), WorkerAction::Download);
    assert_eq!(parser.run(WorkerEvent::DownloadChunk { len: 100 }), WorkerAction::Download);
    assert_eq!(parser.run(WorkerEvent::DownloadFinished), WorkerAction::FetchChecksum);
    assert_eq!(parser.run(checksums("abc\n", " abc")), WorkerAction::Extract);
    assert_eq!(parser.run(WorkerEvent::ArchiveOpened), WorkerAction::Extract);
    assert_eq!(parser.run(WorkerEvent::ArchiveDecoded), WorkerAction::Extract);
    assert_eq!(parser.run(WorkerEvent::ArchiveWritten), WorkerAction::ReadDocument);
    assert_eq!(
        parser.run(WorkerEvent::DocumentRead { text: DOCUMENT.to_string() }),
        WorkerAction::WriteOutput
    );
    assert_eq!(parser.articles(), &vec![lung_cancer()]);
    assert_eq!(parser.run(WorkerEvent::ArtifactWritten), WorkerAction::Restart);
    let expected = vec![
        ParserState::Restarting,
        ParserState::Downloading(0),
        ParserState::Downloading(25),
        ParserState::Downloading(50),
        ParserState::Downloading(100),
        ParserState::CheckMd5,
        ParserState::Extracting(0),
        ParserState::Extracting(10),
        ParserState::Extracting(90),
        ParserState::Extracting(100),
        ParserState::Processing(0),
        ParserState::Processing(33),
        ParserState::Processing(66),
        ParserState::Processing(100),
        ParserState::WritingFile,
        ParserState::FinishedInputFile(1),
    ];
    let messages = parser.take_messages();
    assert!(messages.iter().all(|m| m.id == 3));
    assert_eq!(states(messages), expected);
    assert_eq!(parser.try_restart(), WorkerAction::Stop);
    assert_eq!(states(parser.take_messages()), vec![ParserState::Done]);
    assert_eq!(parser.stage(), Stage::Done);
}

#[test]
fn a_job_whose_output_exists_is_skipped_without_a_report() {
    let mut parser = worker(2, 0);
    assert_eq!(parser.try_restart(), WorkerAction::Probe);
    parser.take_messages();
    assert_eq!(parser.run(WorkerEvent::ArtifactProbed { present: true }), WorkerAction::Restart);
    assert_eq!(parser.take_messages(), vec![]);
    assert_eq!(parser.run(WorkerEvent::DownloadFinished), WorkerAction::Restart);
    assert_eq!(parser.run(WorkerEvent::ArtifactWritten), WorkerAction::Restart);
    assert_eq!(parser.take_messages(), vec![]);
    assert_eq!(parser.try_restart(), WorkerAction::Probe);
    assert_eq!(parser.output_filename(), "results_pubmed24n0000.xml.json");
}

#[test]
fn a_download_without_announced_length_reports_start_and_end() {
    let mut parser = worker(1, 0);
    parser.try_restart();
    parser.run(WorkerEvent::ArtifactProbed { present: false });
    parser.run(WorkerEvent::DownloadStarted { total_size: 0 });
    parser.run(WorkerEvent::DownloadChunk { len: 1000 });
    parser.run(WorkerEvent::DownloadChunk { len: 1000 });
    parser.run(WorkerEvent::DownloadFinished);
    assert_eq!(
        states(parser.take_messages()),
        vec![
            ParserState::Restarting,
            ParserState::Downloading(0),
            ParserState::Downloading(100),
            ParserState::CheckMd5,
        ]
    );
}

#[test]
fn a_download_beyond_its_announced_length_stays_at_one_hundred() {
    let mut parser = worker(1, 0);
    parser.try_restart();
    parser.run(WorkerEvent::ArtifactProbed { present: false });
    parser.run(WorkerEvent::DownloadStarted { total_size: 10 });
    parser.run(WorkerEvent::DownloadChunk { len: 9 });
    parser.run(WorkerEvent::DownloadChunk { len: 9 });
    parser.run(WorkerEvent::DownloadChunk { len: u64::MAX });
    parser.run(WorkerEvent::DownloadChunk { len: 9 });
    parser.run(WorkerEvent::DownloadFinished);
    assert_eq!(
        states(parser.take_messages()),
        vec![
            ParserState::Restarting,
            ParserState::Downloading(0),
            ParserState::Downloading(90),
            ParserState::Downloading(100),
            ParserState::CheckMd5,
        ]
    );
}

#[test]
fn a_failed_download_ends_the_job() {
    let mut parser = worker(1, 0);
    parser.try_restart();
    parser.run(WorkerEvent::ArtifactProbed { present: false });
    parser.run(WorkerEvent::DownloadChunk { len: 5 });
    assert_eq!(parser.run(WorkerEvent::DownloadFailed), WorkerAction::Restart);
    assert_eq!(
        states(parser.take_messages()),
        vec![
            ParserState::Restarting,
            ParserState::Downloading(0),
            ParserState::ErrorDownloadFailed,
        ]
    );
    assert_eq!(parser.stage(), Stage::Idle);
}

#[test]
fn a_wrong_checksum_ends_the_job_before_extraction() {
    let mut parser = worker(1, 0);
    parser.try_restart();
    parser.run(WorkerEvent::ArtifactProbed { present: false });
    parser.run(WorkerEvent::DownloadFinished);
    parser.take_messages();
    assert_eq!(parser.run(checksums("abc", "abd")), WorkerAction::Restart);
    assert_eq!(states(parser.take_messages()), vec![ParserState::ErrorChecksumWrong]);
    assert_eq!(parser.run(WorkerEvent::ArchiveOpened), WorkerAction::Restart);
    assert_eq!(parser.run(WorkerEvent::ArchiveWritten), WorkerAction::Restart);
    assert_eq!(
        parser.run(WorkerEvent::DocumentRead { text: DOCUMENT.to_string() }),
        WorkerAction::Restart
    );
    assert_eq!(parser.run(WorkerEvent::ArtifactWritten), WorkerAction::Restart);
    assert_eq!(parser.take_messages(), vec![]);
    assert_eq!(parser.articles().len(), 0);
}

#[test]
fn checksums_are_compared_without_surrounding_white_space() {
    for (reference, computed, same) in [
        ("d41d8cd9", "d41d8cd9", true),
        ("d41d8cd9\n", "d41d8cd9", true),
        ("  d41d8cd9", "d41d8cd9\r\n", true),
        ("d41d8cd9", "D41D8CD9", false),
        ("d41d 8cd9", "d41d8cd9", false),
        ("", "d41d8cd9", false),
    ] {
        let mut parser = worker(1, 0);
        parser.try_restart();
        parser.run(WorkerEvent::ArtifactProbed { present: false });
        parser.run(WorkerEvent::DownloadFinished);
        let action = parser.run(checksums(reference, computed));
        assert_eq!(action == WorkerAction::Extract, same);
        assert_eq!(action == WorkerAction::Restart, !same);
    }
}

#[test]
fn a_checksum_that_cannot_be_fetched_counts_as_wrong() {
    let mut parser = worker(1, 0);
    parser.try_restart();
    parser.run(WorkerEvent::ArtifactProbed { present: false });
    parser.run(WorkerEvent::DownloadFinished);
    parser.take_messages();
    assert_eq!(parser.run(WorkerEvent::ChecksumFailed), WorkerAction::Restart);
    assert_eq!(states(parser.take_messages()), vec![ParserState::ErrorChecksumWrong]);
}

#[test]
fn a_failed_extraction_ends_the_job() {
    let mut parser = worker(1, 0);
    parser.try_restart();
    parser.run(WorkerEvent::ArtifactProbed { present: false });
    parser.run(WorkerEvent::DownloadFinished);
    parser.run(checksums("a", "a"));
    parser.run(WorkerEvent::ArchiveOpened);
    parser.take_messages();
    assert_eq!(parser.run(WorkerEvent::ExtractionFailed), WorkerAction::Restart);
    assert_eq!(states(parser.take_messages()), vec![ParserState::ErrorExtractionFailed]);
}

#[test]
fn extraction_marks_are_reported_once_and_in_rising_order() {
    let mut parser = worker(1, 0);
    parser.try_restart();
    parser.run(WorkerEvent::ArtifactProbed { present: false });
    parser.run(WorkerEvent::DownloadFinished);
    parser.run(checksums("a", "a"));
    parser.take_messages();
    parser.run(WorkerEvent::ArchiveDecoded);
    parser.run(WorkerEvent::ArchiveOpened);
    parser.run(WorkerEvent::ArchiveDecoded);
    parser.run(WorkerEvent::ArchiveWritten);
    assert_eq!(
        states(parser.take_messages()),
        vec![
            ParserState::Extracting(90),
            ParserState::Extracting(100),
            ParserState::Processing(0),
        ]
    );
}

#[test]
fn a_text_that_is_no_document_is_reported_and_written_out_empty() {
    let mut parser = worker(1, 0);
    to_parsing(&mut parser);
    assert_eq!(
        parser.run(WorkerEvent::DocumentRead { text: "<a><b></a>".to_string() }),
        WorkerAction::WriteOutput
    );
    assert_eq!(parser.articles().len(), 0);
    assert_eq!(parser.run(WorkerEvent::ArtifactWritten), WorkerAction::Restart);
    assert_eq!(
        states(parser.take_messages()),
        vec![
            ParserState::ErrorParsingFailed,
            ParserState::WritingFile,
            ParserState::FinishedInputFile(0),
        ]
    );
}

#[test]
fn an_unreadable_document_is_reported_and_written_out_empty() {
    let mut parser = worker(1, 0);
    to_parsing(&mut parser);
    assert_eq!(parser.run(WorkerEvent::DocumentUnreadable), WorkerAction::WriteOutput);
    assert_eq!(parser.articles().len(), 0);
    assert_eq!(
        states(parser.take_messages()),
        vec![ParserState::ErrorParsingFailed, ParserState::WritingFile]
    );
}

#[test]
fn a_failed_write_ends_the_job_without_a_count() {
    let mut parser = worker(1, 0);
    to_parsing(&mut parser);
    parser.run(WorkerEvent::DocumentRead { text: DOCUMENT.to_string() });
    parser.take_messages();
    assert_eq!(parser.run(WorkerEvent::WriteFailed), WorkerAction::Restart);
    assert_eq!(states(parser.take_messages()), vec![ParserState::ErrorWritingFailed]);
}

#[test]
fn an_outcome_of_another_stage_changes_nothing() {
    let mut parser = worker(1, 0);
    assert_eq!(parser.run(WorkerEvent::DownloadFinished), WorkerAction::Restart);
    parser.try_restart();
    parser.take_messages();
    assert_eq!(parser.run(WorkerEvent::DownloadFinished), WorkerAction::Probe);
    assert_eq!(parser.run(WorkerEvent::ArtifactWritten), WorkerAction::Probe);
    assert_eq!(parser.run(checksums("a", "a")), WorkerAction::Probe);
    assert_eq!(parser.take_messages(), vec![]);
    parser.run(WorkerEvent::ArtifactProbed { present: false });
    assert_eq!(parser.run(WorkerEvent::ArchiveWritten), WorkerAction::Download);
    assert_eq!(parser.run(WorkerEvent::ArtifactProbed { present: true }), WorkerAction::Download);
    assert_eq!(states(parser.take_messages()), vec![ParserState::Downloading(0)]);
}

#[test]
fn a_worker_in_the_middle_of_a_job_claims_nothing() {
    let allocator = Arc::new(JobAllocator::new(2));
    let mut parser = Parser::initialize(Arc::clone(&allocator), 0, "d");
    assert_eq!(parser.try_restart(), WorkerAction::Probe);
    assert_eq!(parser.output_filename(), "results_pubmed24n0001.xml.json");
    assert_eq!(parser.try_restart(), WorkerAction::Probe);
    assert_eq!(parser.restart_with(Some(9)), WorkerAction::Probe);
    assert_eq!(parser.output_filename(), "results_pubmed24n0001.xml.json");
    assert_eq!(allocator.claim(), Some(0));
}

#[test]
fn a_worker_that_has_ended_stays_ended() {
    let mut parser = worker(0, 0);
    assert_eq!(parser.try_restart(), WorkerAction::Stop);
    assert_eq!(parser.try_restart(), WorkerAction::Stop);
    assert_eq!(parser.restart_with(Some(1)), WorkerAction::Stop);
    assert_eq!(parser.run(WorkerEvent::ArtifactProbed { present: false }), WorkerAction::Stop);
    assert_eq!(states(parser.take_messages()), vec![ParserState::Done]);
}

#[test]
fn restart_with_sets_out_on_the_claimed_job() {
    let mut parser = worker(0, 2);
    assert_eq!(parser.restart_with(Some(12)), WorkerAction::Probe);
    assert_eq!(parser.output_filename(), "results_pubmed24n0012.xml.json");
    assert_eq!(
        parser.take_messages(),
        vec![ParserMessage { id: 2, new_state: ParserState::Restarting }]
    );
}

#[test]
fn a_new_job_starts_without_the_articles_of_the_last() {
    let mut parser = worker(2, 0);
    to_parsing(&mut parser);
    parser.run(WorkerEvent::DocumentRead { text: DOCUMENT.to_string() });
    assert_eq!(parser.articles().len(), 1);
    parser.run(WorkerEvent::ArtifactWritten);
    assert_eq!(parser.try_restart(), WorkerAction::Probe);
    assert_eq!(parser.articles().len(), 0);
}

#[test]
fn collect_articles_keeps_the_valid_articles() {
    let doc = XmlDocument::parse_with_options(DOCUMENT, true, u32::MAX).unwrap();
    let (articles, reports) = Parser::collect_articles(&doc, 6);
    assert_eq!(articles, vec![lung_cancer(), heart()]);
    assert!(reports.iter().all(|m| m.id == 6));
    assert_eq!(
        states(reports),
        vec![
            ParserState::Processing(33),
            ParserState::Processing(66),
            ParserState::Processing(100),
        ]
    );
}

#[test]
fn collect_articles_reports_nothing_for_a_document_without_articles() {
    let doc = XmlDocument::parse_with_options("<PubmedArticleSet/>", true, u32::MAX).unwrap();
    let (articles, reports) = Parser::collect_articles(&doc, 0);
    assert_eq!(articles, vec![]);
    assert_eq!(reports, vec![]);
}

#[test]
fn collect_articles_reports_each_rise_of_the_percentage_once() {
    let mut text = String::from("<PubmedArticleSet>");
    for _ in 0..250 {
        text.push_str("<PubmedArticle/>");
    }
    text.push_str("</PubmedArticleSet>");
    let doc = XmlDocument::parse_with_options(&text, true, u32::MAX).unwrap();
    let (articles, reports) = Parser::collect_articles(&doc, 0);
    assert_eq!(articles, vec![]);
    let expected: Vec<ParserState> = (1..=100).map(ParserState::Processing).collect();
    assert_eq!(states(reports), expected);
}

#[test]
fn collect_articles_counts_nested_elements_too() {
    let text = "<PubmedArticleSet><PubmedArticle><PubmedArticle/></PubmedArticle>\
                <PubmedArticle/><PubmedArticle/></PubmedArticleSet>";
    let doc = XmlDocument::parse_with_options(text, true, u32::MAX).unwrap();
    let (_, reports) = Parser::collect_articles(&doc, 0);
    assert_eq!(
        states(reports),
        vec![
            ParserState::Processing(25),
            ParserState::Processing(50),
            ParserState::Processing(75),
            ParserState::Processing(100),
        ]
    );
}

#[test]
fn filter_articles_changes_nothing_once_the_articles_are_filtered() {
    let mut parser = worker(1, 0);
    to_parsing(&mut parser);
    parser.run(WorkerEvent::DocumentRead { text: DOCUMENT.to_string() });
    assert_eq!(parser.articles(), &vec![lung_cancer()]);
    parser.filter_articles();
    assert_eq!(parser.articles(), &vec![lung_cancer()]);
    assert_eq!(parser.stage(), Stage::Persisting);
}

#[test]
fn articles_that_are_valid_but_not_relevant_are_not_written() {
    let mut parser = worker(1, 0);
    to_parsing(&mut parser);
    parser.run(WorkerEvent::DocumentRead { text: DOCUMENT.to_string() });
    assert!(parser.articles().iter().all(|a| a.is_valid() && a.is_article_relevant()));
    assert!(!parser.articles().contains(&heart()));
    assert!(heart().is_valid());
}

#[test]
fn process_one_pubmed_article_reads_one_subtree() {
    let doc = XmlDocument::parse_with_options(DOCUMENT, true, u32::MAX).unwrap();
    let parser = worker(1, 0);
    let positions: Vec<usize> =
        (0..doc.len()).filter(|&i| doc.nodes[i].name == "PubmedArticle").collect();
    assert_eq!(positions.len(), 3);
    assert_eq!(parser.process_one_pubmed_article(&doc, positions[0]), lung_cancer());
    assert_eq!(parser.process_one_pubmed_article(&doc, positions[1]), heart());
    let third = parser.process_one_pubmed_article(&doc, positions[2]);
    assert_eq!(third.title, "An oncology paper without identifier");
    assert_eq!(third.doi, "");
    assert_eq!(third.pmid, "7");
    assert!(!third.is_valid());
    assert_eq!(parser.process_one_pubmed_article(&doc, doc.len()), Article::new());
}

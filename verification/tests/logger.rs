use pubmed_pipeline::logger::{Logger, ViewCommand};
use pubmed_pipeline::parser::{ParserMessage, ParserState};

fn message(id: u32, new_state: ParserState) -> ParserMessage {
    ParserMessage { id, new_state }
}

fn spinner(index: usize, text: &str) -> ViewCommand {
    ViewCommand::Spinner { index, message: text.to_string() }
}

fn bar(index: usize, text: &str, position: u64) -> ViewCommand {
    ViewCommand::Progress { index, message: text.to_string(), position }
}

fn line(text: &str) -> ViewCommand {
    ViewCommand::PrintLine { text: text.to_string() }
}

fn overall(position: u64, text: &str) -> ViewCommand {
    ViewCommand::Overall { position, message: text.to_string() }
}

#[test]
fn a_new_logger_has_every_worker_waiting() {
    let logger = Logger::new(3, 1219);
    assert_eq!(logger.number_of_processes(), 3);
    assert_eq!(logger.number_of_files(), 1219);
    assert_eq!(logger.finished_files(), 0);
    assert_eq!(logger.found_articles(), 0);
    assert_eq!(logger.last_state(0), Some(ParserState::Waiting));
    assert_eq!(logger.last_state(2), Some(ParserState::Waiting));
    assert_eq!(logger.last_state(3), None);
}

#[test]
fn a_logger_without_workers_knows_no_slot() {
    let mut logger = Logger::new(0, 5);
    assert_eq!(logger.last_state(0), None);
    assert_eq!(logger.update_view(0), vec![]);
    let reply = logger.handle_message(message(0, ParserState::CheckMd5));
    assert_eq!(reply.commands, vec![]);
    assert!(!reply.finished);
}

#[test]
fn each_state_has_its_text() {
    let mut logger = Logger::new(2, 10);
    let cases = vec![
        (ParserState::Restarting, vec![ViewCommand::ResetElapsed { index: 1 }]),
        (ParserState::Waiting, vec![spinner(1, "Waiting")]),
        (ParserState::WritingFile, vec![spinner(1, "Writing output file... ")]),
        (ParserState::CheckMd5, vec![spinner(1, "Check Md5 Checksum")]),
        (
            ParserState::Done,
            vec![ViewCommand::Finish { index: 1, message: "Done".to_string() }],
        ),
        (ParserState::Downloading(42), vec![bar(1, "Process 2:Downloading", 42)]),
        (ParserState::Extracting(90), vec![bar(1, "Process 2:Extracting", 90)]),
        (ParserState::Processing(100), vec![bar(1, "Process 2:Processing", 100)]),
        (ParserState::ErrorChecksumWrong, vec![line("1Process: Checksum is wrong!")]),
        (ParserState::ErrorWritingFailed, vec![line("1Process: Writing file failed!")]),
        (ParserState::ErrorDownloadFailed, vec![line("1Process: Downloading data failed!")]),
        (ParserState::ErrorParsingFailed, vec![line("1Process: Parsing failed!")]),
        (
            ParserState::ErrorExtractionFailed,
            vec![line("1Process: Extracting archive failed!")],
        ),
    ];
    for (state, expected) in cases {
        let reply = logger.handle_message(message(1, state));
        assert_eq!(reply.commands, expected);
        assert!(!reply.finished);
        assert_eq!(logger.last_state(1), Some(state));
        assert_eq!(logger.update_view(1), expected);
    }
    assert_eq!(logger.last_state(0), Some(ParserState::Waiting));
}

#[test]
fn bar_labels_count_workers_from_one() {
    let mut logger = Logger::new(12, 10);
    let reply = logger.handle_message(message(0, ParserState::Downloading(0)));
    assert_eq!(reply.commands, vec![bar(0, "Process 1:Downloading", 0)]);
    let reply = logger.handle_message(message(11, ParserState::Downloading(7)));
    assert_eq!(reply.commands, vec![bar(11, "Process 12:Downloading", 7)]);
}

#[test]
fn helper_commands_carry_their_texts() {
    assert_eq!(Logger::set_message("hello", 3), spinner(3, "hello"));
    assert_eq!(Logger::print_progress_bar("Stage", 9, 55), bar(9, "Process 10:Stage", 55));
    assert_eq!(Logger::print_error_message("It broke!", 10), line("10Process: It broke!"));
    assert_eq!(
        Logger::finish_parser_progress(4),
        ViewCommand::Finish { index: 4, message: "Done".to_string() }
    );
}

#[test]
fn a_finished_job_is_counted_with_its_articles() {
    let mut logger = Logger::new(2, 10);
    let reply = logger.handle_message(message(0, ParserState::FinishedInputFile(5)));
    assert_eq!(reply.commands, vec![overall(1, "Found 5 articles.")]);
    assert!(!reply.finished);
    assert_eq!(logger.finished_files(), 1);
    assert_eq!(logger.found_articles(), 5);
    assert_eq!(logger.last_state(0), Some(ParserState::FinishedInputFile(5)));
    let reply = logger.handle_message(message(1, ParserState::FinishedInputFile(0)));
    assert_eq!(reply.commands, vec![overall(2, "Found 5 articles.")]);
    let reply = logger.handle_message(message(0, ParserState::FinishedInputFile(37)));
    assert_eq!(reply.commands, vec![overall(3, "Found 42 articles.")]);
    assert_eq!(logger.finished_files(), 3);
    assert_eq!(logger.found_articles(), 42);
}

#[test]
fn a_finished_job_is_counted_once_however_often_the_view_is_redrawn() {
    let mut logger = Logger::new(1, 10);
    logger.handle_message(message(0, ParserState::FinishedInputFile(5)));
    for _ in 0..35 {
        logger.begin_cycle();
        assert_eq!(logger.update_view(0), vec![]);
    }
    assert_eq!(logger.finished_files(), 1);
    assert_eq!(logger.found_articles(), 5);
}

#[test]
fn totals_stop_at_the_largest_count() {
    let mut logger = Logger::new(1, 10);
    logger.handle_message(message(0, ParserState::FinishedInputFile(usize::MAX - 1)));
    assert_eq!(logger.found_articles(), usize::MAX - 1);
    logger.handle_message(message(0, ParserState::FinishedInputFile(5)));
    assert_eq!(logger.found_articles(), usize::MAX);
    assert_eq!(logger.finished_files(), 2);
}

#[test]
fn errors_do_not_touch_the_totals() {
    let mut logger = Logger::new(1, 10);
    logger.handle_message(message(0, ParserState::FinishedInputFile(2)));
    logger.handle_message(message(0, ParserState::ErrorDownloadFailed));
    logger.handle_message(message(0, ParserState::ErrorChecksumWrong));
    assert_eq!(logger.finished_files(), 1);
    assert_eq!(logger.found_articles(), 2);
    assert_eq!(logger.last_state(0), Some(ParserState::ErrorChecksumWrong));
}

#[test]
fn a_report_of_an_unknown_worker_shows_nothing() {
    let mut logger = Logger::new(2, 10);
    let reply = logger.handle_message(message(2, ParserState::Downloading(5)));
    assert_eq!(reply.commands, vec![]);
    assert!(!reply.finished);
    assert_eq!(logger.last_state(0), Some(ParserState::Waiting));
    assert_eq!(logger.last_state(1), Some(ParserState::Waiting));
    let reply = logger.handle_message(message(u32::MAX, ParserState::ErrorParsingFailed));
    assert_eq!(reply.commands, vec![]);
}

#[test]
fn a_finished_job_of_an_unknown_worker_is_counted() {
    let mut logger = Logger::new(2, 10);
    let reply = logger.handle_message(message(7, ParserState::FinishedInputFile(4)));
    assert_eq!(reply.commands, vec![overall(1, "Found 4 articles.")]);
    assert_eq!(logger.finished_files(), 1);
    assert_eq!(logger.found_articles(), 4);
}

#[test]
fn terminate_ends_the_logger_and_keeps_its_state() {
    let mut logger = Logger::new(2, 10);
    logger.handle_message(message(1, ParserState::Downloading(5)));
    logger.handle_message(message(0, ParserState::FinishedInputFile(3)));
    let reply = logger.handle_message(message(0, ParserState::Terminate));
    assert!(reply.finished);
    assert_eq!(reply.commands, vec![overall(1, "Found 3 articles."), line("Shutting down.")]);
    assert_eq!(logger.last_state(0), Some(ParserState::FinishedInputFile(3)));
    assert_eq!(logger.last_state(1), Some(ParserState::Downloading(5)));
    assert_eq!(logger.finished_files(), 1);
}

#[test]
fn every_tenth_cycle_redraws_the_whole_view() {
    let mut logger = Logger::new(2, 10);
    logger.handle_message(message(1, ParserState::Extracting(10)));
    for _ in 0..9 {
        assert_eq!(logger.begin_cycle(), vec![]);
    }
    assert_eq!(
        logger.begin_cycle(),
        vec![
            ViewCommand::ClearConsole,
            overall(0, "Found 0 articles."),
            spinner(0, "Waiting"),
            bar(1, "Process 2:Extracting", 10),
        ]
    );
    for _ in 0..9 {
        assert_eq!(logger.begin_cycle(), vec![]);
    }
    assert_eq!(logger.begin_cycle().len(), 4);
}

#[test]
fn a_redraw_shows_the_totals_so_far() {
    let mut logger = Logger::new(1, 10);
    logger.handle_message(message(0, ParserState::FinishedInputFile(12)));
    logger.handle_message(message(0, ParserState::Done));
    let mut last = vec![];
    for _ in 0..10 {
        last = logger.begin_cycle();
    }
    assert_eq!(
        last,
        vec![
            ViewCommand::ClearConsole,
            overall(1, "Found 12 articles."),
            ViewCommand::Finish { index: 0, message: "Done".to_string() },
        ]
    );
}

#[test]
fn the_aggregate_slot_shows_files_and_articles() {
    let mut logger = Logger::new(1, 10);
    assert_eq!(logger.update_overall_progress_bar(), overall(0, "Found 0 articles."));
    logger.handle_message(message(0, ParserState::FinishedInputFile(1000)));
    assert_eq!(logger.update_overall_progress_bar(), overall(1, "Found 1000 articles."));
}

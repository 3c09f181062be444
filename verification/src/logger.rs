//! The aggregator: the latest state of every worker, the totals of the run,
//! and what the console is to show after each report.

use vstd::prelude::*;
use crate::parser::{ParserMessage, ParserState};
use crate::text::{decimal, push_decimal};

verus! {

/// One change to the console.
#[derive(Debug, PartialEq, Eq)]
pub enum ViewCommand {
    /// Wipe the terminal and move the cursor home.
    ClearConsole,
    /// Restart the elapsed time of a worker's slot.
    ResetElapsed { index: usize },
    /// Show a message in a worker's slot, as a spinner.
    Spinner { index: usize, message: String },
    /// Show a message and a position (of 100) in a worker's slot, as a bar.
    Progress { index: usize, message: String, position: u64 },
    /// Mark a worker's slot as finished, with a last message.
    Finish { index: usize, message: String },
    /// Print a line of its own.
    PrintLine { text: String },
    /// Remove all slots from the console.
    ClearBars,
    /// Set the position and the message of the aggregate slot.
    Overall { position: u64, message: String },
}

/// A `ViewCommand` with its texts as sequences of characters.
pub enum ViewCommandView {
    ClearConsole,
    ResetElapsed { index: usize },
    Spinner { index: usize, message: Seq<char> },
    Progress { index: usize, message: Seq<char>, position: u64 },
    Finish { index: usize, message: Seq<char> },
    PrintLine { text: Seq<char> },
    ClearBars,
    Overall { position: u64, message: Seq<char> },
}

impl View for ViewCommand {
    type V = ViewCommandView;

    open spec fn view(&self) -> ViewCommandView {
        match *self {
            ViewCommand::ClearConsole => ViewCommandView::ClearConsole,
            ViewCommand::ResetElapsed { index } => ViewCommandView::ResetElapsed { index },
            ViewCommand::Spinner { index, message } => ViewCommandView::Spinner {
                index,
                message: message@,
            },
            ViewCommand::Progress { index, message, position } => ViewCommandView::Progress {
                index,
                message: message@,
                position,
            },
            ViewCommand::Finish { index, message } => ViewCommandView::Finish {
                index,
                message: message@,
            },
            ViewCommand::PrintLine { text } => ViewCommandView::PrintLine { text: text@ },
            ViewCommand::ClearBars => ViewCommandView::ClearBars,
            ViewCommand::Overall { position, message } => ViewCommandView::Overall {
                position,
                message: message@,
            },
        }
    }
}

/// The views of a list of commands.
pub open spec fn command_views(commands: Seq<ViewCommand>) -> Seq<ViewCommandView> {
    commands.map_values(|c: ViewCommand| c@)
}

/// The label of a bar: `Process `, the slot's number counted from one, a
/// colon, and the name of the stage.
pub open spec fn bar_label(index: usize, stage: Seq<char>) -> Seq<char> {
    "Process "@ + decimal((index + 1) as nat) + ":"@ + stage
}

/// The line that reports a failure: the slot's number counted from zero,
/// `Process: `, and what went wrong.
pub open spec fn error_line(index: usize, what: Seq<char>) -> Seq<char> {
    decimal(index as nat) + "Process: "@ + what
}

/// The message of the aggregate slot.
pub open spec fn found_label(found: nat) -> Seq<char> {
    "Found "@ + decimal(found) + " articles."@
}

/// What a worker's slot shows for a state.
pub open spec fn slot_view(state: ParserState, index: usize) -> Seq<ViewCommandView> {
    match state {
        ParserState::Restarting => seq![ViewCommandView::ResetElapsed { index }],
        ParserState::Waiting => seq![ViewCommandView::Spinner { index, message: "Waiting"@ }],
        ParserState::FinishedInputFile(_) => seq![],
        ParserState::WritingFile => seq![
            ViewCommandView::Spinner { index, message: "Writing output file... "@ },
        ],
        ParserState::Done => seq![ViewCommandView::Finish { index, message: "Done"@ }],
        ParserState::CheckMd5 => seq![
            ViewCommandView::Spinner { index, message: "Check Md5 Checksum"@ },
        ],
        ParserState::Downloading(progress) => seq![
            ViewCommandView::Progress {
                index,
                message: bar_label(index, "Downloading"@),
                position: progress as u64,
            },
        ],
        ParserState::Processing(progress) => seq![
            ViewCommandView::Progress {
                index,
                message: bar_label(index, "Processing"@),
                position: progress as u64,
            },
        ],
        ParserState::Extracting(progress) => seq![
            ViewCommandView::Progress {
                index,
                message: bar_label(index, "Extracting"@),
                position: progress as u64,
            },
        ],
        ParserState::ErrorChecksumWrong => seq![
            ViewCommandView::PrintLine { text: error_line(index, "Checksum is wrong!"@) },
        ],
        ParserState::ErrorWritingFailed => seq![
            ViewCommandView::PrintLine { text: error_line(index, "Writing file failed!"@) },
        ],
        ParserState::ErrorDownloadFailed => seq![
            ViewCommandView::PrintLine { text: error_line(index, "Downloading data failed!"@) },
        ],
        ParserState::ErrorParsingFailed => seq![
            ViewCommandView::PrintLine { text: error_line(index, "Parsing failed!"@) },
        ],
        ParserState::ErrorExtractionFailed => seq![
            ViewCommandView::PrintLine { text: error_line(index, "Extracting archive failed!"@) },
        ],
        ParserState::Terminate => seq![
            ViewCommandView::ClearBars,
            ViewCommandView::PrintLine { text: "All processes have terminated."@ },
        ],
    }
}

/// What the aggregate slot shows.
pub open spec fn overall_view(v: LoggerView) -> ViewCommandView {
    ViewCommandView::Overall {
        position: v.finished_files as u64,
        message: found_label(v.found_articles),
    }
}

/// What the slots of the first `upto` workers show, in the order of the
/// workers.
pub open spec fn slot_views(v: LoggerView, upto: int) -> Seq<ViewCommandView>
    decreases upto,
{
    if upto <= 0 {
        seq![]
    } else {
        slot_views(v, upto - 1) + slot_view(v.states[upto - 1], (upto - 1) as usize)
    }
}

/// A full redraw: the terminal is wiped, then the aggregate slot and every
/// worker's slot are shown again.
pub open spec fn full_redraw(v: LoggerView) -> Seq<ViewCommandView> {
    seq![ViewCommandView::ClearConsole, overall_view(v)] + slot_views(v, v.states.len() as int)
}

/// The number of cycles after which the whole view is drawn again.
pub const REDRAW_EVERY: usize = 10;

/// Whether the cycle that starts now draws the whole view again.
pub open spec fn redraw_due(v: LoggerView) -> bool {
    v.cycle + 1 >= REDRAW_EVERY
}

/// The state after the start of a cycle. Only the cycle count changes.
pub open spec fn cycle_begun(v: LoggerView) -> LoggerView {
    LoggerView { cycle: if redraw_due(v) { 0 } else { v.cycle + 1 }, ..v }
}

/// What the start of a cycle shows.
pub open spec fn cycle_commands(v: LoggerView) -> Seq<ViewCommandView> {
    if redraw_due(v) {
        full_redraw(v)
    } else {
        seq![]
    }
}

/// A count raised by `by`, kept at the largest `usize` once it is reached.
pub open spec fn raised(count: nat, by: nat) -> nat {
    if count + by > usize::MAX {
        usize::MAX as nat
    } else {
        count + by
    }
}

/// The state after a report. `Terminate` changes nothing. Any other report
/// replaces the state of its worker, if the aggregator knows that worker.
/// A finished job is counted, with its records, whoever reports it.
pub open spec fn received(v: LoggerView, m: ParserMessage) -> LoggerView {
    if m.new_state is Terminate {
        v
    } else {
        let states = if (m.id as int) < v.states.len() {
            v.states.update(m.id as int, m.new_state)
        } else {
            v.states
        };
        match m.new_state {
            ParserState::FinishedInputFile(n) => LoggerView {
                states,
                finished_files: raised(v.finished_files, 1),
                found_articles: raised(v.found_articles, n as nat),
                ..v
            },
            _ => LoggerView { states, ..v },
        }
    }
}

/// What is shown after the report `m`, where `after` is the state that the
/// report has led to.
pub open spec fn reply_commands(after: LoggerView, m: ParserMessage) -> Seq<ViewCommandView> {
    match m.new_state {
        ParserState::Terminate => seq![
            overall_view(after),
            ViewCommandView::PrintLine { text: "Shutting down."@ },
        ],
        ParserState::FinishedInputFile(_) => seq![overall_view(after)],
        state => if (m.id as int) < after.states.len() {
            slot_view(state, m.id as usize)
        } else {
            seq![]
        },
    }
}

/// What the aggregator answers to a report.
pub struct LoggerReply {
    /// The changes to the console, in order.
    pub commands: Vec<ViewCommand>,
    /// Whether the aggregator is to stop.
    pub finished: bool,
}

/// The aggregator's state.
pub struct Logger {
    n_progs: usize,
    number_of_files: usize,
    last_parser_states: Vec<ParserState>,
    finished_files: usize,
    found_articles: usize,
    clear_counter: usize,
}

/// The aggregator's state as plain values.
pub struct LoggerView {
    /// The latest state of each worker, by worker id.
    pub states: Seq<ParserState>,
    /// The number of jobs of the run.
    pub number_of_files: nat,
    /// The number of jobs that were written out.
    pub finished_files: nat,
    /// The number of records that were written out, over all jobs.
    pub found_articles: nat,
    /// The number of cycles since the last full redraw.
    pub cycle: nat,
}

impl View for Logger {
    type V = LoggerView;

    closed spec fn view(&self) -> LoggerView {
        LoggerView {
            states: self.last_parser_states@,
            number_of_files: self.number_of_files as nat,
            finished_files: self.finished_files as nat,
            found_articles: self.found_articles as nat,
            cycle: self.clear_counter as nat,
        }
    }
}

impl Logger {
    #[verifier::type_invariant]
    spec fn well_formed(&self) -> bool {
        &&& self.last_parser_states.len() == self.n_progs
        &&& self.clear_counter < REDRAW_EVERY
    }

    /// A new aggregator for `number_of_processes` workers and
    /// `number_of_files` jobs: every worker is waiting, nothing is counted yet.
    pub fn new(number_of_processes: usize, number_of_files: usize) -> (logger: Logger)
        ensures
            logger@.states == Seq::new(number_of_processes as nat, |i: int| ParserState::Waiting),
            logger@.number_of_files == number_of_files,
            logger@.finished_files == 0,
            logger@.found_articles == 0,
            logger@.cycle == 0,
    {
        let mut last_parser_states: Vec<ParserState> = Vec::new();
        let mut i: usize = 0;
        while i < number_of_processes
            invariant
                i <= number_of_processes,
                last_parser_states@ == Seq::new(i as nat, |k: int| ParserState::Waiting),
            decreases number_of_processes - i,
        {
            last_parser_states.push(ParserState::Waiting);
            i += 1;
            assert(last_parser_states@ =~= Seq::new(i as nat, |k: int| ParserState::Waiting));
        }
        Logger {
            n_progs: number_of_processes,
            number_of_files,
            last_parser_states,
            finished_files: 0,
            found_articles: 0,
            clear_counter: 0,
        }
    }

    /// Puts `message` into the slot `index`, shown as a spinner.
    pub fn set_message(message: &str, index: usize) -> (command: ViewCommand)
        ensures
            command@ == (ViewCommandView::Spinner { index, message: message@ }),
    {
        ViewCommand::Spinner { index, message: String::from_str(message) }
    }

    /// Shows the slot `index` as a bar at `progress`, labelled with the
    /// slot's number and the stage.
    pub fn print_progress_bar(message: &str, index: usize, progress: u8) -> (command:
        ViewCommand)
        requires
            index < usize::MAX,
        ensures
            command@ == (ViewCommandView::Progress {
                index,
                message: bar_label(index, message@),
                position: progress as u64,
            }),
    {
        let mut label = String::from_str("Process ");
        push_decimal(&mut label, (index + 1) as u64);
        label.append(":");
        label.append(message);
        ViewCommand::Progress { index, message: label, position: progress as u64 }
    }

    /// The line that reports a failure of the worker `index`.
    pub fn print_error_message(message: &str, index: usize) -> (command: ViewCommand)
        ensures
            command@ == (ViewCommandView::PrintLine { text: error_line(index, message@) }),
    {
        let mut line = String::new();
        push_decimal(&mut line, index as u64);
        line.append("Process: ");
        line.append(message);
        assert(line@ =~= error_line(index, message@));
        ViewCommand::PrintLine { text: line }
    }

    /// Marks the slot `index` as finished.
    pub fn finish_parser_progress(index: usize) -> (command: ViewCommand)
        ensures
            command@ == (ViewCommandView::Finish { index, message: "Done"@ }),
    {
        ViewCommand::Finish { index, message: String::from_str("Done") }
    }

    /// The number of workers.
    pub fn number_of_processes(&self) -> (n: usize)
        ensures
            n == self@.states.len(),
    {
        proof {
            use_type_invariant(self);
        }
        self.n_progs
    }

    /// The number of jobs of the run.
    pub fn number_of_files(&self) -> (n: usize)
        ensures
            n == self@.number_of_files,
    {
        self.number_of_files
    }

    /// The number of jobs written out so far.
    pub fn finished_files(&self) -> (n: usize)
        ensures
            n == self@.finished_files,
    {
        self.finished_files
    }

    /// The number of records written out so far.
    pub fn found_articles(&self) -> (n: usize)
        ensures
            n == self@.found_articles,
    {
        self.found_articles
    }

    /// The latest state of the worker `index`, if there is such a worker.
    pub fn last_state(&self, index: usize) -> (state: Option<ParserState>)
        ensures
            state == if index < self@.states.len() {
                Some(self@.states[index as int])
            } else {
                None::<ParserState>
            },
    {
        proof {
            use_type_invariant(self);
        }
        if index < self.n_progs {
            Some(self.last_parser_states[index])
        } else {
            None
        }
    }

    /// Counts one finished job with `articles` records.
    fn update_article_and_file_counts(&mut self, articles: usize)
        ensures
            final(self)@ == (LoggerView {
                finished_files: raised(old(self)@.finished_files, 1),
                found_articles: raised(old(self)@.found_articles, articles as nat),
                ..old(self)@
            }),
    {
        proof {
            use_type_invariant(&*self);
        }
        self.finished_files = self.finished_files.saturating_add(1);
        self.found_articles = self.found_articles.saturating_add(articles);
    }

    /// The aggregate slot: as many jobs done, as many records found.
    pub fn update_overall_progress_bar(&self) -> (command: ViewCommand)
        ensures
            command@ == overall_view(self@),
    {
        let mut message = String::from_str("Found ");
        push_decimal(&mut message, self.found_articles as u64);
        message.append(" articles.");
        ViewCommand::Overall { position: self.finished_files as u64, message }
    }

    /// What the slot of the worker `index` shows for its latest state.
    /// Nothing, if there is no such worker.
    pub fn update_view(&self, index: usize) -> (commands: Vec<ViewCommand>)
        ensures
            command_views(commands@) == if index < self@.states.len() {
                slot_view(self@.states[index as int], index)
            } else {
                seq![]
            },
    {
        proof {
            use_type_invariant(self);
        }
        let mut commands: Vec<ViewCommand> = Vec::new();
        if index < self.n_progs {
            match self.last_parser_states[index] {
                ParserState::Restarting => commands.push(ViewCommand::ResetElapsed { index }),
                ParserState::Waiting => commands.push(Logger::set_message("Waiting", index)),
                ParserState::FinishedInputFile(_) => {},
                ParserState::WritingFile => commands.push(
                    Logger::set_message("Writing output file... ", index),
                ),
                ParserState::Done => commands.push(Logger::finish_parser_progress(index)),
                ParserState::CheckMd5 => commands.push(
                    Logger::set_message("Check Md5 Checksum", index),
                ),
                ParserState::Downloading(progress) => commands.push(
                    Logger::print_progress_bar("Downloading", index, progress),
                ),
                ParserState::Processing(progress) => commands.push(
                    Logger::print_progress_bar("Processing", index, progress),
                ),
                ParserState::Extracting(progress) => commands.push(
                    Logger::print_progress_bar("Extracting", index, progress),
                ),
                ParserState::ErrorChecksumWrong => commands.push(
                    Logger::print_error_message("Checksum is wrong!", index),
                ),
                ParserState::ErrorWritingFailed => commands.push(
                    Logger::print_error_message("Writing file failed!", index),
                ),
                ParserState::ErrorDownloadFailed => commands.push(
                    Logger::print_error_message("Downloading data failed!", index),
                ),
                ParserState::ErrorParsingFailed => commands.push(
                    Logger::print_error_message("Parsing failed!", index),
                ),
                ParserState::ErrorExtractionFailed => commands.push(
                    Logger::print_error_message("Extracting archive failed!", index),
                ),
                ParserState::Terminate => {
                    commands.push(ViewCommand::ClearBars);
                    commands.push(
                        ViewCommand::PrintLine {
                            text: String::from_str("All processes have terminated."),
                        },
                    );
                },
            }
        }
        assert(command_views(commands@) =~= if index < self@.states.len() {
            slot_view(self@.states[index as int], index)
        } else {
            seq![]
        });
        commands
    }

    /// Starts a cycle of the aggregator's loop. Every tenth cycle draws the
    /// whole view again; the others show nothing.
    pub fn begin_cycle(&mut self) -> (commands: Vec<ViewCommand>)
        ensures
            final(self)@ == cycle_begun(old(self)@),
            command_views(commands@) == cycle_commands(old(self)@),
    {
        proof {
            use_type_invariant(&*self);
        }
        let mut commands: Vec<ViewCommand> = Vec::new();
        if self.clear_counter + 1 >= REDRAW_EVERY {
            commands.push(ViewCommand::ClearConsole);
            commands.push(self.update_overall_progress_bar());
            let mut i: usize = 0;
            while i < self.n_progs
                invariant
                    i <= self.n_progs,
                    self.n_progs == self@.states.len(),
                    command_views(commands@) == seq![
                        ViewCommandView::ClearConsole,
                        overall_view(self@),
                    ] + slot_views(self@, i as int),
                decreases self.n_progs - i,
            {
                let mut slot = self.update_view(i);
                let ghost before = commands@;
                let ghost added = slot@;
                commands.append(&mut slot);
                i += 1;
                assert(command_views(commands@) =~= command_views(before) + command_views(added));
                assert(command_views(commands@) =~= seq![
                    ViewCommandView::ClearConsole,
                    overall_view(self@),
                ] + slot_views(self@, i as int));
            }
            self.clear_counter = 0;
        } else {
            self.clear_counter = self.clear_counter + 1;
        }
        commands
    }

    /// Takes in one report: records the worker's new state, counts a
    /// finished job, and says what the console is to show. `Terminate` ends
    /// the aggregator and changes nothing else.
    pub fn handle_message(&mut self, message: ParserMessage) -> (reply: LoggerReply)
        ensures
            final(self)@ == received(old(self)@, message),
            command_views(reply.commands@) == reply_commands(final(self)@, message),
            reply.finished == (message.new_state is Terminate),
            final(self)@.finished_files >= old(self)@.finished_files,
            final(self)@.found_articles >= old(self)@.found_articles,
            final(self)@.states.len() == old(self)@.states.len(),
    {
        proof {
            use_type_invariant(&*self);
        }
        let mut commands: Vec<ViewCommand> = Vec::new();
        let index: usize = message.id as usize;
        match message.new_state {
            ParserState::Terminate => {
                commands.push(self.update_overall_progress_bar());
                commands.push(ViewCommand::PrintLine { text: String::from_str("Shutting down.") });
                assert(command_views(commands@) =~= reply_commands(self@, message));
                LoggerReply { commands, finished: true }
            },
            ParserState::FinishedInputFile(articles) => {
                if index < self.n_progs {
                    self.last_parser_states[index] = message.new_state;
                }
                self.update_article_and_file_counts(articles);
                commands.push(self.update_overall_progress_bar());
                assert(command_views(commands@) =~= reply_commands(self@, message));
                LoggerReply { commands, finished: false }
            },
            _ => {
                if index < self.n_progs {
                    self.last_parser_states[index] = message.new_state;
                }
                let commands = self.update_view(index);
                LoggerReply { commands, finished: false }
            },
        }
    }
}

/// The totals of the run never fall: after any report, the number of
/// finished jobs and the number of articles found are at least what they
/// were, and the aggregator knows the same workers.
pub proof fn lemma_totals_never_fall(v: LoggerView, m: ParserMessage)
    requires
        v.finished_files <= usize::MAX,
        v.found_articles <= usize::MAX,
    ensures
        received(v, m).finished_files >= v.finished_files,
        received(v, m).found_articles >= v.found_articles,
        received(v, m).states.len() == v.states.len(),
        cycle_begun(v).finished_files == v.finished_files,
        cycle_begun(v).found_articles == v.found_articles,
        cycle_begun(v).states == v.states,
{
}

/// A finished job is counted once, with its articles, as long as the
/// totals are below the largest number that they can hold.
pub proof fn lemma_finished_job_is_counted(v: LoggerView, id: u32, articles: usize)
    requires
        v.finished_files + 1 <= usize::MAX,
        v.found_articles + articles <= usize::MAX,
    ensures
        received(
            v,
            ParserMessage { id, new_state: ParserState::FinishedInputFile(articles) },
        ).finished_files == v.finished_files + 1,
        received(
            v,
            ParserMessage { id, new_state: ParserState::FinishedInputFile(articles) },
        ).found_articles == v.found_articles + articles,
{
}

/// The aggregator keeps the latest state of each worker and nothing older:
/// a report other than `Terminate` from a worker that the aggregator knows
/// becomes the state of that worker, and the states of the other workers
/// stay as they are.
pub proof fn lemma_latest_state_wins(v: LoggerView, m: ParserMessage, other: int)
    requires
        m.new_state != ParserState::Terminate,
        (m.id as int) < v.states.len(),
        0 <= other < v.states.len(),
        other != m.id,
    ensures
        received(v, m).states[m.id as int] == m.new_state,
        received(v, m).states[other] == v.states[other],
{
}

} // verus!

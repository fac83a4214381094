//! What passes between the library and the program that hosts it.
//!
//! The library never touches the filesystem or starts a process. It hands the
//! host a [`Step`] to perform and is told in a [`Reply`] what came of it.

use vstd::prelude::*;

verus! {

/// A process for the host to run.
pub struct Command {
    /// The binary to start.
    pub program: String,
    /// Its arguments, in order.
    pub args: Vec<String>,
    /// The directory to start it in; the host's own when `None`.
    pub working_dir: Option<String>,
    /// Variables taken out of the child's environment.
    pub env_remove: Vec<String>,
    /// Variables set in the child's environment, as name and value.
    pub env_set: Vec<(String, String)>,
    /// Text to write to the child's input stream, which is then closed; the
    /// child has no input when `None`.
    pub input: Option<String>,
}

pub struct CommandView {
    pub program: Seq<char>,
    pub args: Seq<Seq<char>>,
    pub working_dir: Option<Seq<char>>,
    pub env_remove: Seq<Seq<char>>,
    pub env_set: Seq<(Seq<char>, Seq<char>)>,
    pub input: Option<Seq<char>>,
}

impl View for Command {
    type V = CommandView;

    open spec fn view(&self) -> CommandView {
        CommandView {
            program: self.program@,
            args: self.args.deep_view(),
            working_dir: self.working_dir.deep_view(),
            env_remove: self.env_remove.deep_view(),
            env_set: self.env_set.deep_view(),
            input: self.input.deep_view(),
        }
    }
}

/// What came of running a [`Command`].
pub enum ProcessResult {
    /// The process could not be started; the text says why.
    NotStarted(String),
    /// The process started, but its input stream did not take the payload.
    InputFailed(String),
    /// The process started, but waiting for it or reading its streams failed.
    OutputFailed(String),
    /// The process ran to its end.
    Exited {
        /// Whether its exit status reports success.
        success: bool,
        /// All it wrote to its output stream.
        stdout: Vec<u8>,
        /// All it wrote to its diagnostic stream.
        stderr: Vec<u8>,
    },
}

pub enum ProcessResultView {
    NotStarted(Seq<char>),
    InputFailed(Seq<char>),
    OutputFailed(Seq<char>),
    Exited { success: bool, stdout: Seq<u8>, stderr: Seq<u8> },
}

impl View for ProcessResult {
    type V = ProcessResultView;

    open spec fn view(&self) -> ProcessResultView {
        match self {
            ProcessResult::NotStarted(why) => ProcessResultView::NotStarted(why@),
            ProcessResult::InputFailed(why) => ProcessResultView::InputFailed(why@),
            ProcessResult::OutputFailed(why) => ProcessResultView::OutputFailed(why@),
            ProcessResult::Exited { success, stdout, stderr } => ProcessResultView::Exited {
                success: *success,
                stdout: stdout@,
                stderr: stderr@,
            },
        }
    }
}

impl ProcessResultView {
    /// The process ran to its end and reported success.
    pub open spec fn succeeded(self) -> bool {
        self matches ProcessResultView::Exited { success, .. } && success
    }
}

impl ProcessResult {
    /// Whether the process ran to its end and reported success.
    pub fn succeeded(&self) -> (yes: bool)
        ensures
            yes == self@.succeeded(),
    {
        match self {
            ProcessResult::Exited { success, .. } => *success,
            _ => false,
        }
    }
}

/// What the host found under one name while it listed a directory.
pub enum Listed {
    /// The entry could not be read; the text says why.
    Unreadable(String),
    /// An entry: its name, unless the name is no text, and whether it is a
    /// directory.
    Entry { name: Option<String>, is_dir: bool },
}

pub enum ListedView {
    Unreadable(Seq<char>),
    Entry { name: Option<Seq<char>>, is_dir: bool },
}

impl View for Listed {
    type V = ListedView;

    open spec fn view(&self) -> ListedView {
        match self {
            Listed::Unreadable(why) => ListedView::Unreadable(why@),
            Listed::Entry { name, is_dir } => ListedView::Entry {
                name: name.deep_view(),
                is_dir: *is_dir,
            },
        }
    }
}

impl DeepView for Listed {
    type V = ListedView;

    open spec fn deep_view(&self) -> ListedView {
        self@
    }
}

/// One thing for the host to do.
pub enum Step {
    /// Find out whether anything exists at the path.
    Probe(String),
    /// List what the directory at the path holds.
    List(String),
    /// Create the directory at the path, and every missing directory above it.
    CreateDir(String),
    /// Write the content to a new file at the path.
    Write { path: String, content: String },
    /// Run the process, feed it its input, and wait for it to end.
    Run(Command),
}

pub enum StepView {
    Probe(Seq<char>),
    List(Seq<char>),
    CreateDir(Seq<char>),
    Write { path: Seq<char>, content: Seq<char> },
    Run(CommandView),
}

impl View for Step {
    type V = StepView;

    open spec fn view(&self) -> StepView {
        match self {
            Step::Probe(path) => StepView::Probe(path@),
            Step::List(path) => StepView::List(path@),
            Step::CreateDir(path) => StepView::CreateDir(path@),
            Step::Write { path, content } => StepView::Write { path: path@, content: content@ },
            Step::Run(command) => StepView::Run(command@),
        }
    }
}

/// What came of a [`Step`].
pub enum Reply {
    /// Answers [`Step::Probe`]: whether something exists there.
    Exists(bool),
    /// Answers [`Step::List`]: what the directory holds, in the order in
    /// which the host came upon it.
    Listing(Vec<Listed>),
    /// Answers [`Step::CreateDir`] and [`Step::Write`]: it was done.
    Done,
    /// Answers [`Step::List`], [`Step::CreateDir`] and [`Step::Write`]: it
    /// could not be done; the text says why.
    Failed(String),
    /// Answers [`Step::Run`].
    Ran(ProcessResult),
}

pub enum ReplyView {
    Exists(bool),
    Listing(Seq<ListedView>),
    Done,
    Failed(Seq<char>),
    Ran(ProcessResultView),
}

impl View for Reply {
    type V = ReplyView;

    open spec fn view(&self) -> ReplyView {
        match self {
            Reply::Exists(exists) => ReplyView::Exists(*exists),
            Reply::Listing(entries) => ReplyView::Listing(entries.deep_view()),
            Reply::Done => ReplyView::Done,
            Reply::Failed(why) => ReplyView::Failed(why@),
            Reply::Ran(result) => ReplyView::Ran(result@),
        }
    }
}

} // verus!

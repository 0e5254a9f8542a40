//! Task records: the lifecycle stage of a submitted command, the output
//! captured from a completed process, and the record tying them together.

use vstd::prelude::*;

verus! {

/// Lifecycle stage of one submitted command.
#[derive(Clone, Copy, PartialEq, Eq, Structural, Debug)]
pub enum CommandStatus {
    InQueue,
    Running,
    Finished,
}

impl CommandStatus {
    /// The label under which each stage is displayed.
    pub fn label(&self) -> (r: &'static str)
        ensures
            *self == CommandStatus::InQueue ==> r@ == "In Queue"@,
            *self == CommandStatus::Running ==> r@ == "Running"@,
            *self == CommandStatus::Finished ==> r@ == "Finished"@,
    {
        match *self {
            CommandStatus::InQueue => "In Queue",
            CommandStatus::Running => "Running",
            CommandStatus::Finished => "Finished",
        }
    }
}

/// What a completed process left behind: whether it exited successfully,
/// its exit code if the platform reported one, and the bytes captured from
/// its standard output and standard error.
pub struct CapturedOutput {
    pub exit_ok: bool,
    pub exit_code: Option<i32>,
    pub stdout: Vec<u8>,
    pub stderr: Vec<u8>,
}

/// Mathematical model of a `CapturedOutput`.
pub ghost struct OutputModel {
    pub exit_ok: bool,
    pub exit_code: Option<i32>,
    pub stdout: Seq<u8>,
    pub stderr: Seq<u8>,
}

impl View for CapturedOutput {
    type V = OutputModel;

    open spec fn view(&self) -> OutputModel {
        OutputModel {
            exit_ok: self.exit_ok,
            exit_code: self.exit_code,
            stdout: self.stdout@,
            stderr: self.stderr@,
        }
    }
}

/// Copies a byte vector element by element.
fn copy_bytes(src: &Vec<u8>) -> (r: Vec<u8>)
    ensures
        r@ == src@,
{
    let mut r: Vec<u8> = Vec::new();
    let mut i: usize = 0;
    while i < src.len()
        invariant
            i <= src.len(),
            r@ == src@.subrange(0, i as int),
        decreases src.len() - i,
    {
        r.push(src[i]);
        i = i + 1;
    }
    assert(src@.subrange(0, src@.len() as int) =~= src@);
    r
}

impl CapturedOutput {
    /// A copy that denotes the same output.
    pub fn duplicate(&self) -> (r: CapturedOutput)
        ensures
            r@ == self@,
    {
        CapturedOutput {
            exit_ok: self.exit_ok,
            exit_code: self.exit_code,
            stdout: copy_bytes(&self.stdout),
            stderr: copy_bytes(&self.stderr),
        }
    }
}

/// The record describing one submission: the command string verbatim, the
/// time execution began, the time it ended (absent while running), the
/// lifecycle stage, and the captured output (absent until the process exits).
/// Times are wall-clock instants in milliseconds.
pub struct Task {
    pub command: String,
    pub start_time: i64,
    pub finish_time: Option<i64>,
    pub status: CommandStatus,
    pub output: Option<CapturedOutput>,
}

/// Mathematical model of a `Task`.
pub ghost struct TaskModel {
    pub command: Seq<char>,
    pub start_time: i64,
    pub finish_time: Option<i64>,
    pub status: CommandStatus,
    pub output: Option<OutputModel>,
}

impl View for Task {
    type V = TaskModel;

    open spec fn view(&self) -> TaskModel {
        TaskModel {
            command: self.command@,
            start_time: self.start_time,
            finish_time: self.finish_time,
            status: self.status,
            output: match self.output {
                Some(ref o) => Some(o@),
                None => None,
            },
        }
    }
}

impl TaskModel {
    /// Shape of a record while its command is executing: stamped with a start
    /// time only, no finish time and no output yet.
    pub open spec fn is_running_record(self) -> bool {
        &&& self.status == CommandStatus::Running
        &&& self.finish_time is None
        &&& self.output is None
    }

    /// Shape of a record once its command has completed: finish time and
    /// output present, and the finish time no earlier than the start time.
    pub open spec fn is_finished_record(self) -> bool {
        &&& self.status == CommandStatus::Finished
        &&& self.finish_time is Some
        &&& self.output is Some
        &&& self.start_time <= self.finish_time->0
    }
}

} // verus!

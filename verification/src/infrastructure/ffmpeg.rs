//! The external encoder: its frame list, its arguments, the reading of
//! its outcome, and the run of one conversion.
use vstd::prelude::*;
use vstd::string::StringExecFns;
use crate::domain::common::{DomainError, DomainResult};
use crate::domain::video_creation::{
    job_id_text,
    JobView,
    RequestView,
    progress_at,
    VideoCreationJob,
    VideoCreationJobId,
    VideoCreationRepository,
    VideoCreationRequest,
    VideoCreationStatus,
};
use crate::shared::clock::Timestamp;
use crate::shared::paths::{is_absolute_path, joined_path, path_is_absolute, path_join};
use crate::shared::text::{append_decimal, joined, decimal, texts};

verus! {

/// The directive that names an image in the frame list.
pub open spec fn file_line(path: Seq<char>) -> Seq<char> {
    "file '"@ + path + "'\n"@
}

/// The directive that gives the time until the next entry.
pub open spec fn duration_line(duration_seconds: u32) -> Seq<char> {
    "duration "@ + decimal(duration_seconds as nat) + "\n"@
}

/// The frame-list entries of the images in order: each image is named
/// and followed by its display time.
pub open spec fn timed_entries(paths: Seq<Seq<char>>, duration_seconds: u32) -> Seq<char>
    decreases paths.len(),
{
    if paths.len() == 0 {
        Seq::empty()
    } else {
        timed_entries(paths.drop_last(), duration_seconds) + file_line(paths.last())
            + duration_line(duration_seconds)
    }
}

/// The frame list for the images in order. A duration directive covers
/// the gap before the next entry, so the last image is named once more
/// at the end, without a duration, to give it its display time. No
/// images make an empty list.
pub open spec fn frame_list_text(paths: Seq<Seq<char>>, duration_seconds: u32) -> Seq<char> {
    if paths.len() == 0 {
        Seq::empty()
    } else {
        timed_entries(paths, duration_seconds) + file_line(paths.last())
    }
}

/// Appends the directive that names `path`.
fn append_file_line(out: &mut String, path: &str)
    ensures
        final(out)@ == old(out)@ + file_line(path@),
{
    out.append("file '");
    out.append(path);
    out.append("'\n");
}

/// Builds the frame list for images given by their absolute paths, in
/// order, each shown for `duration_seconds`.
pub fn build_frame_list(absolute_paths: &Vec<String>, duration_seconds: u32) -> (r: String)
    ensures
        r@ == frame_list_text(texts(absolute_paths@), duration_seconds),
{
    let ghost paths = texts(absolute_paths@);
    let mut content = String::new();
    let mut i: usize = 0;
    while i < absolute_paths.len()
        invariant
            i <= absolute_paths.len(),
            paths == texts(absolute_paths@),
            content@ == timed_entries(paths.subrange(0, i as int), duration_seconds),
        decreases absolute_paths.len() - i,
    {
        append_file_line(&mut content, absolute_paths[i].as_str());
        content.append("duration ");
        append_decimal(&mut content, duration_seconds as u128);
        content.append("\n");
        proof {
            let upto = paths.subrange(0, i + 1);
            assert(upto.drop_last() =~= paths.subrange(0, i as int));
        }
        i = i + 1;
    }
    assert(paths.subrange(0, i as int) =~= paths);
    if absolute_paths.len() > 0 {
        let last = absolute_paths.len() - 1;
        append_file_line(&mut content, absolute_paths[last].as_str());
    }
    content
}

/// The location that a path stands for, or the cause for which it has
/// none: an absolute path stands for itself, a relative one for the
/// path taken from the working directory; without a working directory a
/// relative path has no location, for the cause for which there is no
/// working directory.
pub open spec fn location_of(
    path: Seq<char>,
    absolute: bool,
    working_dir: Result<String, String>,
) -> Result<Seq<char>, Seq<char>> {
    if absolute {
        Ok(path)
    } else {
        match working_dir {
            Ok(dir) => Ok(joined_path(dir@, path)),
            Err(cause) => Err(cause@),
        }
    }
}

/// Whether `r` gives the location `expected`, or fails as an I/O
/// failure with the cause that `expected` gives.
pub open spec fn gives_location(r: DomainResult<String>, expected: Result<Seq<char>, Seq<char>>) -> bool {
    match expected {
        Ok(location) => r is Ok && r->Ok_0@ == location,
        Err(cause) => r is Err && r->Err_0 is IoError && r->Err_0->IoError_0@ == cause,
    }
}

/// The location that a path stands for: an absolute path stands for
/// itself, a relative one is taken from the working directory. Without a
/// working directory a relative path cannot be resolved, and the cause
/// is reported as an I/O failure.
pub fn resolve_location(path: &str, absolute: bool, working_dir: &Result<String, String>) -> (r:
    DomainResult<String>)
    ensures
        gives_location(r, location_of(path@, absolute, *working_dir)),
{
    if absolute {
        Ok(String::from_str(path))
    } else {
        match working_dir {
            Ok(dir) => Ok(path_join(dir.as_str(), path)),
            Err(cause) => Err(DomainError::IoError(cause.clone())),
        }
    }
}

/// Resolves a path as written by the caller against the working
/// directory, by the platform's path syntax: a path that is absolute is
/// handed back as it is; one that is not is joined to the working
/// directory, and without a working directory the call fails as an I/O
/// failure with the cause for which there is none.
pub fn resolve_path(path: &str, working_dir: &Result<String, String>) -> (r: DomainResult<String>)
    ensures
        gives_location(r, location_of(path@, is_absolute_path(path@), *working_dir)),
{
    resolve_location(path, path_is_absolute(path), working_dir)
}

/// The scaling filter for frames of `width` by `height`.
pub open spec fn scale_filter(width: u32, height: u32) -> Seq<char> {
    "scale="@ + decimal(width as nat) + ":"@ + decimal(height as nat)
}

/// The arguments with which the encoder is invoked: read the frame list
/// as a concatenation, scale to `width` by `height`, encode with the
/// fixed codec and pixel format at one frame per second, overwrite, and
/// write to `output_path`.
pub open spec fn encoder_arguments(
    list_file: Seq<char>,
    width: u32,
    height: u32,
    output_path: Seq<char>,
) -> Seq<Seq<char>> {
    seq![
        "-f"@,
        "concat"@,
        "-safe"@,
        "0"@,
        "-i"@,
        list_file,
        "-vf"@,
        scale_filter(width, height),
        "-c:v"@,
        "libx264"@,
        "-pix_fmt"@,
        "yuv420p"@,
        "-r"@,
        "1"@,
        "-y"@,
        output_path,
    ]
}

/// Builder of encoder invocations: collects the arguments in the order
/// in which they are given.
#[derive(Debug)]
pub struct FFmpegCommandBuilder {
    arguments: Vec<String>,
}

impl View for FFmpegCommandBuilder {
    type V = Seq<Seq<char>>;

    closed spec fn view(&self) -> Seq<Seq<char>> {
        texts(self.arguments@)
    }
}

impl FFmpegCommandBuilder {
    /// A builder without arguments.
    pub fn new() -> (r: Self)
        ensures
            r@ == Seq::<Seq<char>>::empty(),
    {
        let r = FFmpegCommandBuilder { arguments: Vec::new() };
        r
    }

    /// Adds one argument.
    fn arg(self, argument: String) -> (r: Self)
        ensures
            r@ == self@.push(argument@),
    {
        let mut arguments = self.arguments;
        arguments.push(argument);
        let r = FFmpegCommandBuilder { arguments };
        r
    }

    /// Reads `file_path` as a concatenation list, without the check for
    /// safe paths.
    pub fn input_concat_file(self, file_path: &str) -> (r: Self)
        ensures
            r@ == self@ + seq!["-f"@, "concat"@, "-safe"@, "0"@, "-i"@, file_path@],
    {
        let r = self.arg(String::from_str("-f")).arg(String::from_str("concat")).arg(
            String::from_str("-safe"),
        ).arg(String::from_str("0")).arg(String::from_str("-i")).arg(String::from_str(file_path));
        r
    }

    /// Scales the frames to `width` by `height`.
    pub fn scale(self, width: u32, height: u32) -> (r: Self)
        ensures
            r@ == self@ + seq!["-vf"@, scale_filter(width, height)],
    {
        let mut filter = String::from_str("scale=");
        append_decimal(&mut filter, width as u128);
        filter.append(":");
        append_decimal(&mut filter, height as u128);
        let r = self.arg(String::from_str("-vf")).arg(filter);
        r
    }

    /// Encodes the video with `codec`.
    pub fn codec(self, codec: &str) -> (r: Self)
        ensures
            r@ == self@ + seq!["-c:v"@, codec@],
    {
        let r = self.arg(String::from_str("-c:v")).arg(String::from_str(codec));
        r
    }

    /// Uses the pixel format `format`.
    pub fn pixel_format(self, format: &str) -> (r: Self)
        ensures
            r@ == self@ + seq!["-pix_fmt"@, format@],
    {
        let r = self.arg(String::from_str("-pix_fmt")).arg(String::from_str(format));
        r
    }

    /// Writes `fps` frames per second.
    pub fn framerate(self, fps: u32) -> (r: Self)
        ensures
            r@ == self@ + seq!["-r"@, decimal(fps as nat)],
    {
        let mut rate = String::new();
        append_decimal(&mut rate, fps as u128);
        let r = self.arg(String::from_str("-r")).arg(rate);
        r
    }

    /// Overwrites an existing output file.
    pub fn overwrite(self) -> (r: Self)
        ensures
            r@ == self@ + seq!["-y"@],
    {
        let r = self.arg(String::from_str("-y"));
        r
    }

    /// Writes the video to `path`.
    pub fn output(self, path: &str) -> (r: Self)
        ensures
            r@ == self@ + seq![path@],
    {
        let r = self.arg(String::from_str(path));
        r
    }

    /// The arguments collected, in order.
    pub fn into_arguments(self) -> (r: Vec<String>)
        ensures
            texts(r@) == self@,
    {
        self.arguments
    }
}

impl Default for FFmpegCommandBuilder {
    fn default() -> (r: Self)
        ensures
            r@ == Seq::<Seq<char>>::empty(),
    {
        FFmpegCommandBuilder::new()
    }
}

/// The arguments of one conversion, from the fixed template.
pub fn build_encoder_arguments(list_file: &str, width: u32, height: u32, output_path: &str) -> (r:
    Vec<String>)
    ensures
        texts(r@) == encoder_arguments(list_file@, width, height, output_path@),
{
    proof {
        reveal_strlit("1");
        assert(decimal(1) =~= "1"@);
    }
    let builder = FFmpegCommandBuilder::new().input_concat_file(list_file).scale(
        width,
        height,
    ).codec("libx264").pixel_format("yuv420p").framerate(1).overwrite().output(output_path);
    builder.into_arguments()
}

/// How an invocation of the encoder ended.
#[derive(Debug)]
pub enum EncoderOutcome {
    /// The process could not be launched; the cause is given.
    LaunchFailed(String),
    /// The process ran and exited, successfully or not, and wrote the
    /// given text to its standard error.
    Exited { success: bool, stderr: String },
}

impl EncoderOutcome {
    /// Whether the encoder ran and reported success.
    pub open spec fn succeeded(self) -> bool {
        self matches EncoderOutcome::Exited { success, .. } && success
    }

    /// The cause that is reported of an invocation that did not succeed.
    pub open spec fn failure_text(self) -> Seq<char> {
        match self {
            EncoderOutcome::LaunchFailed(cause) => "Failed to execute FFmpeg: "@ + cause@,
            EncoderOutcome::Exited { stderr, .. } => "FFmpeg failed: "@ + stderr@,
        }
    }
}

/// Reads the outcome of an invocation: success where the encoder exited
/// successfully; otherwise an I/O failure that carries the cause of the
/// launch failure or the encoder's standard-error text.
pub fn interpret_outcome(outcome: &EncoderOutcome) -> (r: DomainResult<()>)
    ensures
        outcome.succeeded() ==> r is Ok,
        !outcome.succeeded() ==> (r matches Err(DomainError::IoError(detail)) && detail@
            == outcome.failure_text()),
{
    match outcome {
        EncoderOutcome::LaunchFailed(cause) => Err(
            DomainError::IoError(joined("Failed to execute FFmpeg: ", cause.as_str())),
        ),
        EncoderOutcome::Exited { success, stderr } => {
            if *success {
                Ok(())
            } else {
                Err(DomainError::IoError(joined("FFmpeg failed: ", stderr.as_str())))
            }
        },
    }
}

/// What a conversion waits for.
#[derive(Debug, Clone, Copy, PartialEq, Eq, Structural)]
pub enum CreationPhase {
    /// The frame list is to be written.
    AwaitingFrameList,
    /// The encoder is to be run; the frame list is on disk.
    AwaitingEncoder,
    /// The frame list is to be removed.
    AwaitingCleanup,
    /// The output file is to be looked for.
    AwaitingOutputProbe,
    /// Nothing: the conversion has ended.
    Finished,
}

/// The outside work that a conversion asks for next.
#[derive(Debug)]
pub enum CreationAction {
    /// Write this text to a fresh temporary file.
    WriteFrameList(String),
    /// Run the encoder with these arguments; they name the frame list
    /// `list_file`.
    RunEncoder { arguments: Vec<String>, list_file: String },
    /// Remove the frame list at this path.
    RemoveFrameList(String),
    /// Look whether a file exists at this path.
    ProbeOutput(String),
    /// Nothing is left to do.
    Finish,
}

/// What the outside work came to.
#[derive(Debug)]
pub enum CreationEvent {
    /// The frame list was written to the file at this path.
    FrameListWritten(String),
    /// The frame list could not be written, for this cause.
    FrameListFailed(String),
    /// The encoder was invoked and ended so.
    EncoderFinished(EncoderOutcome),
    /// The frame list is gone, or could not be removed.
    FrameListRemoved,
    /// The output file exists, or does not.
    OutputProbed(bool),
}

/// What an event says, without its texts.
#[derive(Debug, Clone, Copy, PartialEq, Eq, Structural)]
pub enum EventKind {
    FrameListWritten,
    FrameListFailed,
    EncoderSucceeded,
    EncoderFailed,
    FrameListRemoved,
    OutputPresent,
    OutputAbsent,
}

impl CreationEvent {
    /// What the event says, without its texts.
    pub open spec fn kind(self) -> EventKind {
        match self {
            CreationEvent::FrameListWritten(_) => EventKind::FrameListWritten,
            CreationEvent::FrameListFailed(_) => EventKind::FrameListFailed,
            CreationEvent::EncoderFinished(outcome) => if outcome.succeeded() {
                EventKind::EncoderSucceeded
            } else {
                EventKind::EncoderFailed
            },
            CreationEvent::FrameListRemoved => EventKind::FrameListRemoved,
            CreationEvent::OutputProbed(present) => if present {
                EventKind::OutputPresent
            } else {
                EventKind::OutputAbsent
            },
        }
    }
}

/// Whether a conversion in the phase `phase` waits for an event of the
/// kind `kind`.
pub open spec fn expects(phase: CreationPhase, kind: EventKind) -> bool {
    match phase {
        CreationPhase::AwaitingFrameList => kind is FrameListWritten || kind is FrameListFailed,
        CreationPhase::AwaitingEncoder => kind is EncoderSucceeded || kind is EncoderFailed,
        CreationPhase::AwaitingCleanup => kind is FrameListRemoved,
        CreationPhase::AwaitingOutputProbe => kind is OutputPresent || kind is OutputAbsent,
        CreationPhase::Finished => false,
    }
}

/// The statuses that a job has passed through, with `status` added
/// where it differs from the last of them.
pub open spec fn recorded(history: Seq<VideoCreationStatus>, status: VideoCreationStatus) -> Seq<
    VideoCreationStatus,
> {
    if history.len() > 0 && history.last() == status {
        history
    } else {
        history.push(status)
    }
}

/// The course of a conversion, without its texts and times: the phase,
/// the job's status, the statuses it has passed through, and whether
/// the frame list is on disk.
pub struct RunCore {
    pub phase: CreationPhase,
    pub status: VideoCreationStatus,
    pub history: Seq<VideoCreationStatus>,
    pub frame_list_on_disk: bool,
}

/// The course of a conversion whose job has started and whose frame
/// list is about to be written.
pub open spec fn started_core() -> RunCore {
    RunCore {
        phase: CreationPhase::AwaitingFrameList,
        status: VideoCreationStatus::InProgress,
        history: seq![VideoCreationStatus::Pending, VideoCreationStatus::InProgress],
        frame_list_on_disk: false,
    }
}

/// The course with the job failed.
pub open spec fn failed(core: RunCore, phase: CreationPhase) -> RunCore {
    RunCore {
        phase,
        status: VideoCreationStatus::Failed,
        history: recorded(core.history, VideoCreationStatus::Failed),
        ..core
    }
}

/// The course of a conversion after an event. An event that the
/// conversion does not wait for changes nothing.
///
/// Once the frame list is written the encoder runs. Whatever the encoder
/// comes to, the frame list is removed next, and only then is the output
/// looked for: an encoder that reports success completes the job, but an
/// output that is absent fails it all the same.
pub open spec fn step_core(core: RunCore, kind: EventKind) -> RunCore {
    match (core.phase, kind) {
        (CreationPhase::AwaitingFrameList, EventKind::FrameListWritten) => RunCore {
            phase: CreationPhase::AwaitingEncoder,
            frame_list_on_disk: true,
            ..core
        },
        (CreationPhase::AwaitingFrameList, EventKind::FrameListFailed) => failed(
            core,
            CreationPhase::Finished,
        ),
        (CreationPhase::AwaitingEncoder, EventKind::EncoderSucceeded) => RunCore {
            phase: CreationPhase::AwaitingCleanup,
            status: VideoCreationStatus::Completed,
            history: recorded(core.history, VideoCreationStatus::Completed),
            ..core
        },
        (CreationPhase::AwaitingEncoder, EventKind::EncoderFailed) => failed(
            core,
            CreationPhase::AwaitingCleanup,
        ),
        (CreationPhase::AwaitingCleanup, EventKind::FrameListRemoved) => RunCore {
            phase: CreationPhase::AwaitingOutputProbe,
            frame_list_on_disk: false,
            ..core
        },
        (CreationPhase::AwaitingOutputProbe, EventKind::OutputPresent) => RunCore {
            phase: CreationPhase::Finished,
            ..core
        },
        (CreationPhase::AwaitingOutputProbe, EventKind::OutputAbsent) => failed(
            core,
            CreationPhase::Finished,
        ),
        _ => core,
    }
}

/// The course of a conversion after a sequence of events.
pub open spec fn run_core(core: RunCore, kinds: Seq<EventKind>) -> RunCore
    decreases kinds.len(),
{
    if kinds.len() == 0 {
        core
    } else {
        step_core(run_core(core, kinds.drop_last()), kinds.last())
    }
}

/// The events that a conversion took up, out of those that arrived: an
/// event that the conversion did not wait for when it arrived is left
/// out.
pub open spec fn taken_up(core: RunCore, kinds: Seq<EventKind>) -> Seq<EventKind>
    decreases kinds.len(),
{
    if kinds.len() == 0 {
        Seq::empty()
    } else {
        let before = taken_up(core, kinds.drop_last());
        if expects(run_core(core, kinds.drop_last()).phase, kinds.last()) {
            before.push(kinds.last())
        } else {
            before
        }
    }
}

/// Whether a started conversion that took up the events `taken` can
/// stand at `core`. The course of a conversion is fixed by the events it
/// took up:
///
/// - none yet: the frame list is awaited, the job is in progress;
/// - the frame list written: the encoder is awaited, the list is on disk;
/// - then the encoder ended: the cleanup is awaited, the list is on
///   disk, and the job is completed if the encoder succeeded and failed
///   if it did not;
/// - then the frame list removed: the output is looked for, the list is
///   off the disk;
/// - then the output probed: the conversion has finished, and an absent
///   output has failed the job;
/// - or the frame list not written: the conversion has finished at once,
///   the job failed.
pub open spec fn follows(core: RunCore, taken: Seq<EventKind>) -> bool {
    let pending = VideoCreationStatus::Pending;
    let running = VideoCreationStatus::InProgress;
    let completed = VideoCreationStatus::Completed;
    let failed = VideoCreationStatus::Failed;
    let written = EventKind::FrameListWritten;
    let succeeded = EventKind::EncoderSucceeded;
    let broke = EventKind::EncoderFailed;
    let removed = EventKind::FrameListRemoved;
    let present = EventKind::OutputPresent;
    let absent = EventKind::OutputAbsent;
    &&& core.history.len() > 0 && core.history.last() == core.status
    &&& core.frame_list_on_disk <==> (core.phase is AwaitingEncoder || core.phase
        is AwaitingCleanup)
    &&& match core.phase {
        CreationPhase::AwaitingFrameList => taken == Seq::<EventKind>::empty() && core.history
            == seq![pending, running],
        CreationPhase::AwaitingEncoder => taken == seq![written] && core.history == seq![
            pending,
            running,
        ],
        CreationPhase::AwaitingCleanup => {
            ||| taken == seq![written, succeeded] && core.history == seq![
                pending,
                running,
                completed,
            ]
            ||| taken == seq![written, broke] && core.history == seq![pending, running, failed]
        },
        CreationPhase::AwaitingOutputProbe => {
            ||| taken == seq![written, succeeded, removed] && core.history == seq![
                pending,
                running,
                completed,
            ]
            ||| taken == seq![written, broke, removed] && core.history == seq![
                pending,
                running,
                failed,
            ]
        },
        CreationPhase::Finished => {
            ||| taken == seq![written, succeeded, removed, present] && core.history == seq![
                pending,
                running,
                completed,
            ]
            ||| taken == seq![written, succeeded, removed, absent] && core.history == seq![
                pending,
                running,
                completed,
                failed,
            ]
            ||| taken == seq![written, broke, removed, present] && core.history == seq![
                pending,
                running,
                failed,
            ]
            ||| taken == seq![written, broke, removed, absent] && core.history == seq![
                pending,
                running,
                failed,
            ]
            ||| taken == seq![EventKind::FrameListFailed] && core.history == seq![
                pending,
                running,
                failed,
            ]
        },
    }
}

/// An event that a conversion waits for takes it on along its course;
/// any other event changes nothing.
pub proof fn lemma_step_follows(core: RunCore, taken: Seq<EventKind>, kind: EventKind)
    requires
        follows(core, taken),
    ensures
        expects(core.phase, kind) ==> follows(step_core(core, kind), taken.push(kind)),
        !expects(core.phase, kind) ==> step_core(core, kind) == core,
{
    let pending = VideoCreationStatus::Pending;
    let running = VideoCreationStatus::InProgress;
    let completed = VideoCreationStatus::Completed;
    let failed = VideoCreationStatus::Failed;
    let written = EventKind::FrameListWritten;
    let succeeded = EventKind::EncoderSucceeded;
    let broke = EventKind::EncoderFailed;
    let removed = EventKind::FrameListRemoved;
    let present = EventKind::OutputPresent;
    let absent = EventKind::OutputAbsent;
    if expects(core.phase, kind) {
        let grown = taken.push(kind);
        if core.history == seq![pending, running] {
            assert(recorded(core.history, failed) =~= seq![pending, running, failed]);
            assert(recorded(core.history, completed) =~= seq![pending, running, completed]);
        } else if core.history == seq![pending, running, completed] {
            assert(recorded(core.history, failed) =~= seq![pending, running, completed, failed]);
        }
        match core.phase {
            CreationPhase::AwaitingFrameList => {},
            CreationPhase::AwaitingEncoder => {
                assert(grown =~= seq![written, kind]);
            },
            CreationPhase::AwaitingCleanup => {
                if taken == seq![written, succeeded] {
                    assert(grown =~= seq![written, succeeded, removed]);
                } else {
                    assert(grown =~= seq![written, broke, removed]);
                }
            },
            CreationPhase::AwaitingOutputProbe => {
                if taken == seq![written, succeeded, removed] {
                    assert(grown =~= seq![written, succeeded, removed, kind]);
                } else {
                    assert(grown =~= seq![written, broke, removed, kind]);
                }
            },
            CreationPhase::Finished => {},
        }
    }
}

/// Whatever events arrive, in whatever order, a started conversion
/// stands where the events that it took up have led it.
pub proof fn lemma_runs_follow_their_events(kinds: Seq<EventKind>)
    ensures
        follows(run_core(started_core(), kinds), taken_up(started_core(), kinds)),
    decreases kinds.len(),
{
    if kinds.len() > 0 {
        let earlier = kinds.drop_last();
        lemma_runs_follow_their_events(earlier);
        lemma_step_follows(
            run_core(started_core(), earlier),
            taken_up(started_core(), earlier),
            kinds.last(),
        );
    }
}

/// What holds of every conversion that has finished, whatever events
/// arrived and in whatever order.
///
/// - The frame list is not on disk: if it was written, its removal was
///   taken up after the encoder ended and before the conversion finished.
/// - The job has ended, completed or failed.
/// - If the encoder succeeded and the output was there, the job went
///   from pending to in progress to completed, and nowhere else.
/// - If the encoder failed, the job went from pending to in progress to
///   failed, and nowhere else, whether or not an output was found.
/// - If the frame list could not be written, the encoder was not run and
///   the job went from pending to in progress to failed.
/// - If the encoder succeeded but the output was absent, the job is
///   failed all the same: it went on from completed to failed.
pub proof fn lemma_finished_runs(kinds: Seq<EventKind>)
    requires
        run_core(started_core(), kinds).phase is Finished,
    ensures
        ({
            let end = run_core(started_core(), kinds);
            let taken = taken_up(started_core(), kinds);
            let pending = VideoCreationStatus::Pending;
            let running = VideoCreationStatus::InProgress;
            let completed = VideoCreationStatus::Completed;
            let failed = VideoCreationStatus::Failed;
            let written = EventKind::FrameListWritten;
            let succeeded = EventKind::EncoderSucceeded;
            let broke = EventKind::EncoderFailed;
            let removed = EventKind::FrameListRemoved;
            let present = EventKind::OutputPresent;
            let absent = EventKind::OutputAbsent;
            &&& !end.frame_list_on_disk
            &&& end.status.is_terminal()
            &&& end.history.last() == end.status
            &&& {
                ||| taken == seq![written, succeeded, removed, present] && end.history == seq![
                    pending,
                    running,
                    completed,
                ]
                ||| taken == seq![written, succeeded, removed, absent] && end.history == seq![
                    pending,
                    running,
                    completed,
                    failed,
                ]
                ||| taken == seq![written, broke, removed, present] && end.history == seq![
                    pending,
                    running,
                    failed,
                ]
                ||| taken == seq![written, broke, removed, absent] && end.history == seq![
                    pending,
                    running,
                    failed,
                ]
                ||| taken == seq![EventKind::FrameListFailed] && end.history == seq![
                    pending,
                    running,
                    failed,
                ]
            }
        }),
{
    lemma_runs_follow_their_events(kinds);
}

/// The frame list leaves the disk before a conversion finishes: while
/// it is on disk no event finishes the conversion, only its removal
/// takes it off the disk, and whatever the encoder comes to, the
/// removal is what follows.
pub proof fn lemma_cleanup_precedes_finish(core: RunCore, taken: Seq<EventKind>, kind: EventKind)
    requires
        follows(core, taken),
        core.frame_list_on_disk,
    ensures
        !(step_core(core, kind).phase is Finished),
        !step_core(core, kind).frame_list_on_disk ==> kind is FrameListRemoved && core.phase
            is AwaitingCleanup,
        core.phase is AwaitingEncoder && expects(core.phase, kind) ==> step_core(core, kind).phase
            is AwaitingCleanup,
{
}

/// Where the output is absent the job ends failed, whatever the encoder
/// reported and whatever the job's status was.
pub proof fn lemma_absent_output_fails(core: RunCore)
    requires
        core.phase is AwaitingOutputProbe,
    ensures
        step_core(core, EventKind::OutputAbsent).status is Failed,
        step_core(core, EventKind::OutputAbsent).phase is Finished,
{
}

/// One conversion under way: the job, the outside work asked for next,
/// the statuses that the job was stored with, and the failure of the
/// store, if it failed.
#[derive(Debug)]
pub struct CreationRun {
    pub job: VideoCreationJob,
    pub pending: CreationAction,
    pub output_path: String,
    pub history: Vec<VideoCreationStatus>,
    pub failure: Option<DomainError>,
}

impl CreationAction {
    /// The phase in which this work is asked for.
    pub open spec fn phase(self) -> CreationPhase {
        match self {
            CreationAction::WriteFrameList(_) => CreationPhase::AwaitingFrameList,
            CreationAction::RunEncoder { .. } => CreationPhase::AwaitingEncoder,
            CreationAction::RemoveFrameList(_) => CreationPhase::AwaitingCleanup,
            CreationAction::ProbeOutput(_) => CreationPhase::AwaitingOutputProbe,
            CreationAction::Finish => CreationPhase::Finished,
        }
    }

    /// The frame list that this work reads or removes.
    pub open spec fn frame_list(self) -> Option<Seq<char>> {
        match self {
            CreationAction::RunEncoder { list_file, .. } => Some(list_file@),
            CreationAction::RemoveFrameList(list_file) => Some(list_file@),
            _ => None,
        }
    }
}

impl CreationRun {
    /// The phase of the conversion.
    pub open spec fn phase(self) -> CreationPhase {
        self.pending.phase()
    }

    /// The course of the conversion, without its texts and times.
    pub open spec fn course(self) -> RunCore {
        RunCore {
            phase: self.phase(),
            status: self.job.status,
            history: self.history@,
            frame_list_on_disk: self.pending.frame_list() is Some,
        }
    }

    /// The phase of the conversion.
    pub fn current_phase(&self) -> (r: CreationPhase)
        ensures
            r == self.phase(),
    {
        match &self.pending {
            CreationAction::WriteFrameList(_) => CreationPhase::AwaitingFrameList,
            CreationAction::RunEncoder { .. } => CreationPhase::AwaitingEncoder,
            CreationAction::RemoveFrameList(_) => CreationPhase::AwaitingCleanup,
            CreationAction::ProbeOutput(_) => CreationPhase::AwaitingOutputProbe,
            CreationAction::Finish => CreationPhase::Finished,
        }
    }

    /// Whether the conversion has ended.
    pub fn is_finished(&self) -> (r: bool)
        ensures
            r == (self.phase() is Finished),
    {
        match &self.pending {
            CreationAction::Finish => true,
            _ => false,
        }
    }

    /// What the conversion came to: the job as it ended, or the failure
    /// of the store.
    pub fn into_result(self) -> (r: DomainResult<VideoCreationJob>)
        ensures
            self.failure is None ==> r == Ok::<VideoCreationJob, DomainError>(self.job),
            self.failure matches Some(e) ==> r == Err::<VideoCreationJob, DomainError>(e),
    {
        match self.failure {
            Some(e) => Err(e),
            None => Ok(self.job),
        }
    }
}

/// Adds `status` to the statuses passed through, where it differs from
/// the last of them.
fn record(history: &mut Vec<VideoCreationStatus>, status: VideoCreationStatus)
    ensures
        final(history)@ == recorded(old(history)@, status),
{
    let n = history.len();
    if n == 0 || history[n - 1] != status {
        history.push(status);
    }
}

/// The text of the message with which a job fails whose output file is
/// missing.
pub open spec fn output_missing_text() -> Seq<char> {
    "Output video file was not created"@
}

/// Whether `after` is `before` failed with the message `text`: the
/// status is failed, the message and the time of the end are set, and
/// nothing else has changed.
pub open spec fn job_failed(before: VideoCreationJob, after: VideoCreationJob, text: Seq<char>) -> bool {
    &&& after.completed_at is Some
    &&& after.error_message matches Some(message) && message@ == text
    &&& after == (VideoCreationJob {
        status: VideoCreationStatus::Failed,
        error_message: after.error_message,
        completed_at: after.completed_at,
        ..before
    })
}

/// Whether `after` is `before` completed: the status is completed, the
/// time of the end is set, every frame is done, and nothing else has
/// changed.
pub open spec fn job_completed(before: VideoCreationJob, after: VideoCreationJob) -> bool {
    &&& after.completed_at is Some
    &&& after == (VideoCreationJob {
        status: VideoCreationStatus::Completed,
        completed_at: after.completed_at,
        progress: Some(
            progress_at(before.request.image_paths.len(), before.request.image_paths.len()),
        ),
        ..before
    })
}

/// The text of the message with which a job fails for an I/O failure
/// with the cause `cause`.
pub open spec fn io_failure_text(cause: Seq<char>) -> Seq<char> {
    "IO error: "@ + cause
}

/// How an event that a conversion waits for takes it from `before` to
/// `after`.
///
/// - The frame list written: the encoder is to be run on it, with the
///   arguments of the fixed template.
/// - The frame list not written: the job fails with the cause, and the
///   conversion ends without running the encoder.
/// - The encoder ended: a job in progress completes if the encoder
///   reports success, and the job fails with the cause if it does not;
///   either way the frame list is to be removed next.
/// - The frame list removed: the output is to be looked for at the
///   output path; a conversion whose store has failed ends instead.
/// - The output probed: the conversion ends; if the output is absent the
///   job fails, whatever the encoder reported.
pub open spec fn advanced(before: CreationRun, event: CreationEvent, after: CreationRun) -> bool {
    &&& after.output_path == before.output_path
    &&& before.failure is Some ==> after.failure == before.failure
    &&& match (before.pending, event) {
        (CreationAction::WriteFrameList(_), CreationEvent::FrameListWritten(written)) => {
            &&& after.job == before.job
            &&& after.history == before.history
            &&& after.failure == before.failure
            &&& after.pending matches CreationAction::RunEncoder { arguments, list_file }
            &&& after.pending->list_file@ == written@
            &&& texts(after.pending->arguments@) == encoder_arguments(
                written@,
                before.job.request.image_spec.width,
                before.job.request.image_spec.height,
                before.output_path@,
            )
        },
        (CreationAction::WriteFrameList(_), CreationEvent::FrameListFailed(cause)) => {
            &&& after.pending is Finish
            &&& job_failed(before.job, after.job, io_failure_text(cause@))
        },
        (
            CreationAction::RunEncoder { list_file, .. },
            CreationEvent::EncoderFinished(outcome),
        ) => {
            &&& after.pending matches CreationAction::RemoveFrameList(removed)
            &&& after.pending->RemoveFrameList_0@ == list_file@
            &&& if !outcome.succeeded() {
                job_failed(before.job, after.job, io_failure_text(outcome.failure_text()))
            } else if before.job.status is InProgress {
                job_completed(before.job, after.job)
            } else {
                after.job == before.job && after.failure is Some
            }
        },
        (CreationAction::RemoveFrameList(_), CreationEvent::FrameListRemoved) => {
            &&& after.job == before.job
            &&& after.history == before.history
            &&& after.failure == before.failure
            &&& if before.failure is None {
                after.pending matches CreationAction::ProbeOutput(path) && path@
                    == before.output_path@
            } else {
                after.pending is Finish
            }
        },
        (CreationAction::ProbeOutput(_), CreationEvent::OutputProbed(present)) => {
            &&& after.pending is Finish
            &&& if present {
                after.job == before.job && after.history == before.history && after.failure
                    == before.failure
            } else {
                job_failed(before.job, after.job, output_missing_text())
            }
        },
        _ => true,
    }
}

/// Whether an event makes the conversion write its job back to the
/// repository: every event does that changes the job.
pub open spec fn stores_job(before: CreationRun, event: CreationEvent) -> bool {
    match (before.pending, event) {
        (CreationAction::WriteFrameList(_), CreationEvent::FrameListFailed(_)) => true,
        (CreationAction::RunEncoder { .. }, CreationEvent::EncoderFinished(outcome)) => 
            !outcome.succeeded() || before.job.status is InProgress,
        (CreationAction::ProbeOutput(_), CreationEvent::OutputProbed(present)) => !present,
        _ => false,
    }
}

/// Runs conversions on the external encoder and keeps their jobs in a
/// repository.
pub struct FFmpegVideoCreator<R: VideoCreationRepository> {
    repository: R,
}

impl<R: VideoCreationRepository> FFmpegVideoCreator<R> {
    /// The repository.
    pub closed spec fn store(self) -> R {
        self.repository
    }

    /// The records held by the repository, by job identifier.
    pub open spec fn jobs(self) -> Map<Seq<char>, JobView> {
        self.store().jobs()
    }

    /// Whether the repository never fails.
    pub open spec fn reliable(self) -> bool {
        self.store().never_fails()
    }

    /// Every record that the repository has stored, in order.
    pub open spec fn written(self) -> Seq<JobView> {
        self.store().written()
    }

    /// A creator that keeps its jobs in `repository`.
    pub fn new(repository: R) -> (r: Self)
        ensures
            r.store() == repository,
    {
        FFmpegVideoCreator { repository }
    }

    /// The repository.
    pub fn repository(&self) -> (r: &R)
        ensures
            *r == self.store(),
    {
        &self.repository
    }

    /// A copy of the job held under `job_id`, or `None` where there is
    /// none.
    pub fn get_job_status(&self, job_id: &VideoCreationJobId) -> (r: DomainResult<
        Option<VideoCreationJob>,
    >)
        ensures
            r matches Ok(Some(job)) ==> self.jobs().contains_key(job_id@) && job@
                == self.jobs()[job_id@],
            r matches Ok(None) ==> !self.jobs().contains_key(job_id@),
            self.reliable() ==> r is Ok,
    {
        self.repository.find_job_by_id(job_id)
    }

    /// Writes the job of `run` back to the repository and notes its
    /// status. A run whose store has failed is left alone; a store that
    /// fails now is noted as the run's failure.
    fn persist(&mut self, run: &mut CreationRun)
        ensures
            final(run).job == old(run).job,
            final(run).pending == old(run).pending,
            final(run).output_path == old(run).output_path,
            old(run).failure is Some ==> *final(run) == *old(run),
            final(run).failure is None ==> {
                &&& final(self).jobs() == old(self).jobs().insert(
                    old(run).job@.id,
                    old(run).job@,
                )
                &&& final(self).written() == old(self).written().push(old(run).job@)
                &&& final(run).history@ == recorded(old(run).history@, old(run).job.status)
            },
            final(run).failure is Some ==> {
                &&& final(self).jobs() == old(self).jobs()
                &&& final(self).written() == old(self).written()
                &&& final(run).history == old(run).history
            },
            final(self).reliable() == old(self).reliable(),
            old(self).reliable() && old(run).failure is None ==> final(run).failure is None,
    {
        if run.failure.is_some() {
            return ;
        }
        match self.repository.update_job(&run.job) {
            Ok(_) => {
                record(&mut run.history, run.job.status);
            },
            Err(e) => {
                run.failure = Some(e);
            },
        }
    }
}

impl<R: VideoCreationRepository> FFmpegVideoCreator<R> {
    /// Fails the job of `run` with the message `text` and writes it
    /// back.
    fn fail_job(&mut self, run: &mut CreationRun, text: String)
        ensures
            final(run).pending == old(run).pending,
            final(run).output_path == old(run).output_path,
            job_failed(old(run).job, final(run).job, text@),
            old(run).failure is Some ==> final(run).failure == old(run).failure,
            final(run).failure is None ==> {
                &&& final(self).jobs() == old(self).jobs().insert(
                    final(run).job@.id,
                    final(run).job@,
                )
                &&& final(self).written() == old(self).written().push(final(run).job@)
                &&& final(run).history@ == recorded(
                    old(run).history@,
                    VideoCreationStatus::Failed,
                )
            },
            final(run).failure is Some ==> {
                &&& final(self).jobs() == old(self).jobs()
                &&& final(self).written() == old(self).written()
            },
            final(self).reliable() == old(self).reliable(),
            old(self).reliable() && old(run).failure is None ==> final(run).failure is None,
    {
        let _ = run.job.fail(text);
        self.persist(run);
    }

    /// Takes a conversion one step further with what the outside work
    /// came to. An event that the conversion does not wait for is
    /// refused as an invalid state and changes nothing. Every other
    /// event is accepted and takes the conversion on as `advanced`
    /// tells; the job is written back to the repository whenever it has
    /// changed, and the status it is stored with is noted. A store that
    /// fails is noted as the run's failure, and the conversion still
    /// removes its frame list before it ends.
    pub fn advance(&mut self, run: &mut CreationRun, event: CreationEvent) -> (r: DomainResult<()>)
        ensures
            !expects(old(run).phase(), event.kind()) ==> {
                &&& r matches Err(DomainError::InvalidState(msg))
                &&& r->Err_0->InvalidState_0@ == "Unexpected event"@
                &&& *final(run) == *old(run)
                &&& final(self).jobs() == old(self).jobs()
                &&& final(self).written() == old(self).written()
            },
            expects(old(run).phase(), event.kind()) ==> {
                &&& r is Ok
                &&& advanced(*old(run), event, *final(run))
                &&& final(run).failure is None ==> final(run).course() == step_core(
                    old(run).course(),
                    event.kind(),
                )
                &&& final(run).failure is None && stores_job(*old(run), event) ==> {
                    &&& final(self).jobs() == old(self).jobs().insert(
                        final(run).job@.id,
                        final(run).job@,
                    )
                    &&& final(self).written() == old(self).written().push(final(run).job@)
                }
                &&& final(run).failure is Some || !stores_job(*old(run), event) ==> {
                    &&& final(self).jobs() == old(self).jobs()
                    &&& final(self).written() == old(self).written()
                }
            },
            final(self).reliable() == old(self).reliable(),
            old(self).reliable() && old(run).failure is None && (event.kind() is EncoderSucceeded
                ==> old(run).job.status is InProgress) ==> final(run).failure is None,
    {
        let accepted = match (&run.pending, &event) {
            (CreationAction::WriteFrameList(_), CreationEvent::FrameListWritten(_)) => true,
            (CreationAction::WriteFrameList(_), CreationEvent::FrameListFailed(_)) => true,
            (CreationAction::RunEncoder { .. }, CreationEvent::EncoderFinished(_)) => true,
            (CreationAction::RemoveFrameList(_), CreationEvent::FrameListRemoved) => true,
            (CreationAction::ProbeOutput(_), CreationEvent::OutputProbed(_)) => true,
            _ => false,
        };
        if !accepted {
            return Err(DomainError::InvalidState(String::from_str("Unexpected event")));
        }
        let mut pending = CreationAction::Finish;
        std::mem::swap(&mut run.pending, &mut pending);
        match (pending, event) {
            (CreationAction::WriteFrameList(_), CreationEvent::FrameListWritten(list_file)) => {
                let arguments = build_encoder_arguments(
                    list_file.as_str(),
                    run.job.request.image_spec.width,
                    run.job.request.image_spec.height,
                    run.output_path.as_str(),
                );
                run.pending = CreationAction::RunEncoder { arguments, list_file };
            },
            (CreationAction::WriteFrameList(_), CreationEvent::FrameListFailed(cause)) => {
                let text = DomainError::IoError(cause).message();
                self.fail_job(run, text);
                run.pending = CreationAction::Finish;
            },
            (
                CreationAction::RunEncoder { list_file, .. },
                CreationEvent::EncoderFinished(outcome),
            ) => {
                match interpret_outcome(&outcome) {
                    Ok(_) => {
                        match run.job.complete() {
                            Ok(_) => {
                                self.persist(run);
                            },
                            Err(e) => {
                                if run.failure.is_none() {
                                    run.failure = Some(e);
                                }
                            },
                        }
                    },
                    Err(e) => {
                        let text = e.message();
                        self.fail_job(run, text);
                    },
                }
                run.pending = CreationAction::RemoveFrameList(list_file);
            },
            (CreationAction::RemoveFrameList(_), CreationEvent::FrameListRemoved) => {
                if run.failure.is_none() {
                    run.pending = CreationAction::ProbeOutput(run.output_path.clone());
                } else {
                    run.pending = CreationAction::Finish;
                }
            },
            (CreationAction::ProbeOutput(_), CreationEvent::OutputProbed(present)) => {
                if !present {
                    self.fail_job(run, String::from_str("Output video file was not created"));
                }
                run.pending = CreationAction::Finish;
            },
            _ => {},
        }
        Ok(())
    }
}

/// Where the files of a request lie: the locations of its images, in
/// order, and of its output.
#[derive(Debug)]
pub struct Locations {
    pub images: Vec<String>,
    pub output: String,
}

/// The mathematical content of the locations of a request's files.
pub struct LocationsView {
    pub images: Seq<Seq<char>>,
    pub output: Seq<char>,
}

impl View for Locations {
    type V = LocationsView;

    open spec fn view(&self) -> LocationsView {
        LocationsView { images: texts(self.images@), output: self.output@ }
    }
}

/// What locating the files of a request came to: their locations, or
/// the text of the cause for which they could not be located.
pub open spec fn located_view(located: DomainResult<Locations>) -> Result<LocationsView, Seq<char>> {
    match located {
        Ok(locations) => Ok(locations@),
        Err(cause) => Err(cause.message_text()),
    }
}

/// The location that a path as written by the caller stands for
/// against a working directory, or the cause for which it has none.
pub open spec fn resolved(path: Seq<char>, working_dir: Result<String, String>) -> Result<
    Seq<char>,
    Seq<char>,
> {
    location_of(path, is_absolute_path(path), working_dir)
}

/// Whether the files of a request can be located: there is a working
/// directory, or every image path and the output path are absolute.
pub open spec fn can_locate(request: RequestView, working_dir: Result<String, String>) -> bool {
    ||| working_dir is Ok
    ||| {
        &&& forall|k: int|
            0 <= k < request.image_paths.len() ==> is_absolute_path(
                #[trigger] request.image_paths[k],
            )
        &&& is_absolute_path(request.output_path)
    }
}

/// Where the files of a request lie against a working directory: each
/// image, in order, and the output at the path itself where that is
/// absolute, and at the working directory joined with it otherwise.
/// Without a working directory, and with a path that is not absolute,
/// the files cannot be located, for the cause for which there is no
/// working directory.
pub open spec fn locations_of(request: RequestView, working_dir: Result<String, String>) -> Result<
    LocationsView,
    Seq<char>,
> {
    if can_locate(request, working_dir) {
        Ok(
            LocationsView {
                images: Seq::new(
                    request.image_paths.len(),
                    |k: int| resolved(request.image_paths[k], working_dir)->Ok_0,
                ),
                output: resolved(request.output_path, working_dir)->Ok_0,
            },
        )
    } else {
        Err(io_failure_text(working_dir->Err_0@))
    }
}

/// Where the files of a request can be located, each image and the
/// output lie at the path itself where that is absolute, and at the
/// working directory joined with it otherwise; there is one location
/// for each image, in the order of the images.
pub proof fn lemma_locations_are_resolved_paths(
    request: RequestView,
    working_dir: Result<String, String>,
    k: int,
)
    requires
        can_locate(request, working_dir),
        0 <= k < request.image_paths.len(),
    ensures
        locations_of(request, working_dir) is Ok,
        locations_of(request, working_dir)->Ok_0.images.len() == request.image_paths.len(),
        locations_of(request, working_dir)->Ok_0.images[k] == (if is_absolute_path(
            request.image_paths[k],
        ) {
            request.image_paths[k]
        } else {
            joined_path(working_dir->Ok_0@, request.image_paths[k])
        }),
        locations_of(request, working_dir)->Ok_0.output == (if is_absolute_path(
            request.output_path,
        ) {
            request.output_path
        } else {
            joined_path(working_dir->Ok_0@, request.output_path)
        }),
{
}

/// The files of a request cannot be located exactly when there is no
/// working directory and some path of the request is not absolute; the
/// cause is then that for which there is no working directory.
pub proof fn lemma_files_without_location(request: RequestView, working_dir: Result<String, String>)
    ensures
        locations_of(request, working_dir) is Err <==> working_dir is Err && (
        !is_absolute_path(request.output_path) || exists|k: int|
            0 <= k < request.image_paths.len() && !is_absolute_path(
                #[trigger] request.image_paths[k],
            )),
        locations_of(request, working_dir) is Err ==> locations_of(request, working_dir)->Err_0
            == io_failure_text(working_dir->Err_0@),
{
}

/// The greatest number that is put behind a job identifier to tell it
/// from those issued in the same millisecond.
pub const MAX_ID_SUFFIX: u32 = 0xffff_ffff;

/// The `k`-th identifier tried for a job made at the time `at`: first
/// `job_` and the milliseconds since the epoch, then the same followed
/// by `_1`, `_2` and so on.
pub open spec fn candidate_id(at: Timestamp, k: nat) -> Seq<char> {
    if k == 0 {
        job_id_text(at)
    } else {
        job_id_text(at) + "_"@ + decimal(k)
    }
}

/// Whether `id` is the first identifier for the time `at` that `jobs`
/// does not hold yet.
pub open spec fn first_free_id(jobs: Map<Seq<char>, JobView>, at: Timestamp, id: Seq<char>) -> bool {
    exists|k: nat|
        {
            &&& k <= MAX_ID_SUFFIX
            &&& id == #[trigger] candidate_id(at, k)
            &&& !jobs.contains_key(id)
            &&& forall|j: nat| j < k ==> jobs.contains_key(#[trigger] candidate_id(at, j))
        }
}

/// Whether `jobs` holds every identifier that can be issued for the
/// time `at`.
pub open spec fn ids_exhausted(jobs: Map<Seq<char>, JobView>, at: Timestamp) -> bool {
    forall|k: nat| k <= MAX_ID_SUFFIX ==> jobs.contains_key(#[trigger] candidate_id(at, k))
}

/// The record of a job as it was when it was made: pending, with no
/// progress, no end and no message.
pub open spec fn as_pending(job: JobView) -> JobView {
    JobView {
        status: VideoCreationStatus::Pending,
        progress: None,
        completed_at: None,
        error_message: None,
        ..job
    }
}

/// The record of a job as it was when it had just started: in progress,
/// with no frame done, no end and no message.
pub open spec fn as_started(job: JobView) -> JobView {
    JobView {
        status: VideoCreationStatus::InProgress,
        progress: Some(progress_at(0, job.request.image_paths.len() as usize)),
        completed_at: None,
        error_message: None,
        ..job
    }
}

/// The records that the beginning of a conversion hands to the store,
/// in order: the job as pending, then as started, and, where the
/// conversion has ended at once, as failed.
pub open spec fn records_of_beginning(run: CreationRun) -> Seq<JobView> {
    if run.pending is Finish {
        seq![as_pending(run.job@), as_started(run.job@), run.job@]
    } else {
        seq![as_pending(run.job@), run.job@]
    }
}

/// What holds of a conversion that has just begun for a request whose
/// files were located, or could not be.
///
/// Its job is a copy of the request, was made at the time it says, bears
/// an identifier issued for that time, has started, and no frame is
/// done. With the files located the frame list is to be written next:
/// it names the location of each image, in order, each shown for the
/// duration of the request, and the last once more; the output goes to
/// its location. Where the files could not be located the conversion
/// has ended at once: the job has failed with the text of the cause.
pub open spec fn begun(
    run: CreationRun,
    request: RequestView,
    located: Result<LocationsView, Seq<char>>,
) -> bool {
    &&& run.failure is None
    &&& run.job.request@ == request
    &&& run.job.progress == Some(progress_at(0, request.image_paths.len() as usize))
    &&& match located {
        Ok(locations) => {
            &&& run.course() == started_core()
            &&& run.job.error_message is None
            &&& run.job.completed_at is None
            &&& run.output_path@ == locations.output
            &&& run.pending is WriteFrameList
            &&& run.pending->WriteFrameList_0@ == frame_list_text(
                locations.images,
                request.image_spec.duration_seconds,
            )
        },
        Err(text) => {
            &&& run.course() == step_core(started_core(), EventKind::FrameListFailed)
            &&& run.pending is Finish
            &&& run.job.error_message is Some
            &&& run.job.error_message->0@ == text
            &&& run.job.completed_at is Some
        },
    }
}

/// What the beginning of a conversion does to the store, where it
/// succeeds: the job bears the first identifier for its time that the
/// store did not hold, so that no record is replaced; the store was
/// handed the job as pending, as started and, where the conversion has
/// ended at once, as failed, in this order; and it holds the job as it
/// stands.
pub open spec fn stored_beginning(
    before: Map<Seq<char>, JobView>,
    written_before: Seq<JobView>,
    run: CreationRun,
    after: Map<Seq<char>, JobView>,
    written_after: Seq<JobView>,
) -> bool {
    &&& first_free_id(before, run.job.created_at, run.job@.id)
    &&& !before.contains_key(run.job@.id)
    &&& after == before.insert(run.job@.id, run.job@)
    &&& written_after == written_before + records_of_beginning(run)
}

/// Whether a store that refused the beginning of a conversion was left
/// holding the job `stored` and nothing else that it did not hold
/// before: it did not hold a job under that identifier, and it was
/// handed the job as pending and then, if at all, as it stands.
pub open spec fn left_holding(
    before: Map<Seq<char>, JobView>,
    written_before: Seq<JobView>,
    stored: JobView,
    after: Map<Seq<char>, JobView>,
    written_after: Seq<JobView>,
) -> bool {
    &&& !before.contains_key(stored.id)
    &&& after == before.insert(stored.id, stored)
    &&& {
        ||| stored == as_pending(stored) && written_after == written_before.push(stored)
        ||| written_after == written_before.push(as_pending(stored)).push(stored)
    }
}

/// What the beginning of a conversion for `request` leaves in the store
/// where the store refuses it: what the store held, or that and the job
/// of the request as it stood when the store last took it.
pub open spec fn refused_beginning(
    before: Map<Seq<char>, JobView>,
    written_before: Seq<JobView>,
    request: RequestView,
    after: Map<Seq<char>, JobView>,
    written_after: Seq<JobView>,
) -> bool {
    ||| after == before && written_after == written_before
    ||| exists|stored: JobView|
        stored.request == request && #[trigger] left_holding(
            before,
            written_before,
            stored,
            after,
            written_after,
        )
}

/// Locates the images of a request, in order, and its output against
/// the working directory, by the platform's path syntax: each lies at
/// the path itself where that is absolute, and at the working directory
/// joined with it otherwise. The call fails exactly when there is no
/// working directory and some path is not absolute, as an I/O failure
/// with the cause for which there is none.
pub fn locate_files(request: &VideoCreationRequest, working_dir: &Result<String, String>) -> (r:
    DomainResult<Locations>)
    ensures
        located_view(r) == locations_of(request@, *working_dir),
        r is Err ==> r->Err_0 is IoError && r->Err_0->IoError_0@ == working_dir->Err_0@,
{
    let ghost paths = request@.image_paths;
    let mut images: Vec<String> = Vec::new();
    let mut i: usize = 0;
    while i < request.image_paths.len()
        invariant
            i <= request.image_paths.len(),
            paths == request@.image_paths,
            images.len() == i,
            forall|k: int|
                0 <= k < i ==> resolved(paths[k], *working_dir) == Ok::<Seq<char>, Seq<char>>(
                    #[trigger] images@[k]@,
                ),
        decreases request.image_paths.len() - i,
    {
        match resolve_path(request.image_paths[i].as_str(), working_dir) {
            Ok(location) => {
                images.push(location);
            },
            Err(e) => {
                assert(!is_absolute_path(paths[i as int]));
                return Err(e);
            },
        }
        i = i + 1;
    }
    match resolve_path(request.output_path.as_str(), working_dir) {
        Ok(output) => {
            let located = Locations { images, output };
            proof {
                assert forall|k: int| 0 <= k < paths.len() implies working_dir is Ok
                    || is_absolute_path(#[trigger] paths[k]) by {
                    assert(resolved(paths[k], *working_dir) == Ok::<Seq<char>, Seq<char>>(
                        located.images@[k]@,
                    ));
                }
                assert(located@.images =~= locations_of(request@, *working_dir)->Ok_0.images);
            }
            Ok(located)
        },
        Err(e) => Err(e),
    }
}

impl<R: VideoCreationRepository> FFmpegVideoCreator<R> {
    /// The `k`-th identifier tried for a job made at the time `at`.
    fn candidate(at: Timestamp, k: u32) -> (r: VideoCreationJobId)
        ensures
            r@ == candidate_id(at, k as nat),
    {
        let mut text = String::from_str("job_");
        append_decimal(&mut text, at.as_millis());
        if k > 0 {
            text.append("_");
            append_decimal(&mut text, k as u128);
        }
        VideoCreationJobId::new(text)
    }

    /// The first identifier for the time `at` that the store does not
    /// hold yet. Where the store holds all of them the call fails as an
    /// invalid state; it fails where the store does.
    fn fresh_job_id(&self, at: Timestamp) -> (r: DomainResult<VideoCreationJobId>)
        ensures
            r matches Ok(id) ==> first_free_id(self.jobs(), at, id@),
            self.reliable() ==> (r is Err <==> ids_exhausted(self.jobs(), at)),
            self.reliable() && r is Err ==> (r matches Err(DomainError::InvalidState(msg)) && msg@
                == "No free job identifier"@),
    {
        let mut k: u32 = 0;
        loop
            invariant
                forall|j: nat| j < k ==> self.jobs().contains_key(#[trigger] candidate_id(at, j)),
            decreases MAX_ID_SUFFIX - k,
        {
            let id = Self::candidate(at, k);
            match self.repository.find_job_by_id(&id) {
                Ok(None) => {
                    return Ok(id);
                },
                Ok(Some(_)) => {},
                Err(e) => {
                    return Err(e);
                },
            }
            if k == MAX_ID_SUFFIX {
                return Err(DomainError::InvalidState(String::from_str("No free job identifier")));
            }
            k = k + 1;
        }
    }

    /// Begins a conversion at the time `now` for a request whose files
    /// were located, or could not be. `encoder_available` tells whether
    /// the encoder was found on this system.
    ///
    /// Without the encoder the call fails with an I/O failure and no job
    /// is made. Otherwise a job is made at `now` for a copy of the
    /// request, under the first identifier for that time that the store
    /// does not hold, stored as pending, started and stored again. Its
    /// frame list names the images by their locations and is to be
    /// written next. Where the files could not be located the job fails
    /// with the cause, is stored once more, and the conversion has
    /// ended. The call fails where the repository does, and where the
    /// store holds every identifier for that time.
    pub fn begin_located_at(
        &mut self,
        request: &VideoCreationRequest,
        encoder_available: bool,
        located: DomainResult<Locations>,
        now: Timestamp,
    ) -> (r: DomainResult<CreationRun>)
        ensures
            !encoder_available ==> {
                &&& r matches Err(DomainError::IoError(msg))
                &&& r->Err_0->IoError_0@ == "FFmpeg not found on system"@
                &&& final(self).jobs() == old(self).jobs()
                &&& final(self).written() == old(self).written()
            },
            encoder_available ==> match r {
                Ok(run) => {
                    &&& run.job.created_at == now
                    &&& begun(run, request@, located_view(located))
                    &&& stored_beginning(
                        old(self).jobs(),
                        old(self).written(),
                        run,
                        final(self).jobs(),
                        final(self).written(),
                    )
                },
                Err(_) => {
                    &&& old(self).reliable() ==> {
                        &&& ids_exhausted(old(self).jobs(), now)
                        &&& r matches Err(DomainError::InvalidState(msg))
                        &&& r->Err_0->InvalidState_0@ == "No free job identifier"@
                        &&& final(self).jobs() == old(self).jobs()
                        &&& final(self).written() == old(self).written()
                    }
                    &&& refused_beginning(
                        old(self).jobs(),
                        old(self).written(),
                        request@,
                        final(self).jobs(),
                        final(self).written(),
                    )
                },
            },
            final(self).reliable() == old(self).reliable(),
            old(self).reliable() && encoder_available && !ids_exhausted(old(self).jobs(), now)
                ==> r is Ok,
    {
        if !encoder_available {
            return Err(DomainError::IoError(String::from_str("FFmpeg not found on system")));
        }
        let job_id = match self.fresh_job_id(now) {
            Ok(job_id) => job_id,
            Err(e) => {
                return Err(e);
            },
        };
        let mut job = VideoCreationJob::new_at(job_id, request.clone(), now);
        let mut history: Vec<VideoCreationStatus> = Vec::new();
        match self.repository.save_job(&job) {
            Ok(_) => {
                record(&mut history, job.status);
            },
            Err(e) => {
                return Err(e);
            },
        }
        let ghost pending_record = job@;
        let _ = job.start();
        let (pending, output_path, cause) = match located {
            Ok(locations) => {
                let content = build_frame_list(
                    &locations.images,
                    request.image_spec.duration_seconds,
                );
                (CreationAction::WriteFrameList(content), locations.output, None)
            },
            Err(cause) => (
                CreationAction::Finish,
                request.output_path.as_str().to_string(),
                Some(cause.message()),
            ),
        };
        let mut run = CreationRun { job, pending, output_path, history, failure: None };
        self.persist(&mut run);
        let ghost started_record = run.job@;
        proof {
            assert(run.failure is None ==> run.history@ =~= started_core().history);
        }
        match cause {
            Some(text) => {
                self.fail_job(&mut run, text);
            },
            None => {},
        }
        match run.failure {
            Some(refused) => {
                proof {
                    let stored = if self.written() == old(self).written().push(pending_record) {
                        pending_record
                    } else {
                        started_record
                    };
                    assert(self.jobs() =~= old(self).jobs().insert(stored.id, stored));
                    assert(left_holding(
                        old(self).jobs(),
                        old(self).written(),
                        stored,
                        self.jobs(),
                        self.written(),
                    ));
                }
                Err(refused)
            },
            None => {
                proof {
                    assert(self.jobs() =~= old(self).jobs().insert(run.job@.id, run.job@));
                    assert(self.written() =~= old(self).written() + records_of_beginning(run));
                }
                Ok(run)
            },
        }
    }

    /// Begins a conversion now for a request whose files were located,
    /// or could not be. The outcome is that of `begin_located_at` for
    /// the time that the system clock tells.
    pub fn begin_located(
        &mut self,
        request: &VideoCreationRequest,
        encoder_available: bool,
        located: DomainResult<Locations>,
    ) -> (r: DomainResult<CreationRun>)
        ensures
            !encoder_available ==> {
                &&& r matches Err(DomainError::IoError(msg))
                &&& r->Err_0->IoError_0@ == "FFmpeg not found on system"@
                &&& final(self).jobs() == old(self).jobs()
                &&& final(self).written() == old(self).written()
            },
            encoder_available ==> match r {
                Ok(run) => {
                    &&& begun(run, request@, located_view(located))
                    &&& stored_beginning(
                        old(self).jobs(),
                        old(self).written(),
                        run,
                        final(self).jobs(),
                        final(self).written(),
                    )
                },
                Err(_) => {
                    &&& old(self).reliable() ==> {
                        &&& exists|at: Timestamp| #[trigger] ids_exhausted(old(self).jobs(), at)
                        &&& r matches Err(DomainError::InvalidState(msg))
                        &&& r->Err_0->InvalidState_0@ == "No free job identifier"@
                        &&& final(self).jobs() == old(self).jobs()
                        &&& final(self).written() == old(self).written()
                    }
                    &&& refused_beginning(
                        old(self).jobs(),
                        old(self).written(),
                        request@,
                        final(self).jobs(),
                        final(self).written(),
                    )
                },
            },
            final(self).reliable() == old(self).reliable(),
            old(self).reliable() && encoder_available && (forall|at: Timestamp|
                !#[trigger] ids_exhausted(old(self).jobs(), at)) ==> r is Ok,
    {
        let now = Timestamp::now();
        self.begin_located_at(request, encoder_available, located, now)
    }

    /// Begins a conversion now for a request, after locating its files
    /// against the working directory: `working_dir` is the working
    /// directory or the cause for which it cannot be had. The outcome is
    /// that of `begin_located` for where the files lie.
    pub fn begin(
        &mut self,
        request: &VideoCreationRequest,
        encoder_available: bool,
        working_dir: &Result<String, String>,
    ) -> (r: DomainResult<CreationRun>)
        ensures
            !encoder_available ==> {
                &&& r matches Err(DomainError::IoError(msg))
                &&& r->Err_0->IoError_0@ == "FFmpeg not found on system"@
                &&& final(self).jobs() == old(self).jobs()
                &&& final(self).written() == old(self).written()
            },
            encoder_available ==> match r {
                Ok(run) => {
                    &&& begun(run, request@, locations_of(request@, *working_dir))
                    &&& stored_beginning(
                        old(self).jobs(),
                        old(self).written(),
                        run,
                        final(self).jobs(),
                        final(self).written(),
                    )
                },
                Err(_) => {
                    &&& old(self).reliable() ==> {
                        &&& exists|at: Timestamp| #[trigger] ids_exhausted(old(self).jobs(), at)
                        &&& r matches Err(DomainError::InvalidState(msg))
                        &&& r->Err_0->InvalidState_0@ == "No free job identifier"@
                        &&& final(self).jobs() == old(self).jobs()
                        &&& final(self).written() == old(self).written()
                    }
                    &&& refused_beginning(
                        old(self).jobs(),
                        old(self).written(),
                        request@,
                        final(self).jobs(),
                        final(self).written(),
                    )
                },
            },
            final(self).reliable() == old(self).reliable(),
            old(self).reliable() && encoder_available && (forall|at: Timestamp|
                !#[trigger] ids_exhausted(old(self).jobs(), at)) ==> r is Ok,
    {
        let located = locate_files(request, working_dir);
        self.begin_located(request, encoder_available, located)
    }
}

} // verus!

//! The dictation session state machine.
//!
//! A [`Session`] moves through a strict three-phase cycle,
//! `Stopped -> Recording -> Processing -> Stopped`, driven by the
//! record/stop action, and a small side flow for the optional refinement
//! command. Every transition is a verified function whose contract ties the
//! new session and the returned action to a specification-level step
//! function over [`SessionModel`]; the outside work each action asks for
//! (spawning the capture process, the transcription upload, running the
//! refinement command, the clipboard write) is performed by the caller,
//! which hands the outcome back as a plain value.

use vstd::prelude::*;
use vstd::string::StringExecFns;

verus! {

/// The session's position in the record/transcribe cycle.
#[derive(Clone, Copy, PartialEq, Eq, Structural, Debug)]
pub enum Phase {
    Stopped,
    Recording,
    Processing,
}

/// The position of the refinement side flow. `Awaiting` means the
/// refinement command has been handed out and its output is owed back;
/// `CleanupDue` means the refined text has been produced and exactly one
/// cleanup invocation of the command is still owed.
#[derive(Clone, Copy, PartialEq, Eq, Structural, Debug)]
pub enum RefineFlow {
    Quiet,
    Awaiting,
    CleanupDue,
}

/// Everything the transcription upload needs, computed and pinned down
/// here so that the caller only moves the values onto the wire: the
/// endpoint, the fixed artifact path, the ready-made authorization header,
/// and the two fixed form fields.
#[derive(Debug)]
pub struct TranscriptionRequest {
    pub endpoint: String,
    pub file_path: String,
    pub auth_header: String,
    pub model: String,
    pub response_format: String,
}

/// Specification-level image of a [`TranscriptionRequest`].
#[verifier::ext_equal]
pub struct TranscriptionRequestModel {
    pub endpoint: Seq<char>,
    pub file_path: Seq<char>,
    pub auth_header: Seq<char>,
    pub model: Seq<char>,
    pub response_format: Seq<char>,
}

impl View for TranscriptionRequest {
    type V = TranscriptionRequestModel;

    open spec fn view(&self) -> TranscriptionRequestModel {
        TranscriptionRequestModel {
            endpoint: self.endpoint@,
            file_path: self.file_path@,
            auth_header: self.auth_header@,
            model: self.model@,
            response_format: self.response_format@,
        }
    }
}

/// What the record/stop action asks the caller to do next.
#[derive(Debug)]
pub enum RecordAction {
    /// Launch the background capture process targeting `path`.
    StartCapture { path: String },
    /// Terminate the capture process, then perform the upload described by
    /// `request` and hand the outcome to [`Session::finish_processing`].
    StopAndTranscribe { request: TranscriptionRequest },
    /// The action arrived while a transcription was in flight: do nothing.
    Ignore,
}

/// Specification-level image of a [`RecordAction`].
#[verifier::ext_equal]
pub enum RecordActionModel {
    StartCapture { path: Seq<char> },
    StopAndTranscribe { request: TranscriptionRequestModel },
    Ignore,
}

impl View for RecordAction {
    type V = RecordActionModel;

    open spec fn view(&self) -> RecordActionModel {
        match self {
            RecordAction::StartCapture { path } => RecordActionModel::StartCapture { path: path@ },
            RecordAction::StopAndTranscribe { request } => RecordActionModel::StopAndTranscribe {
                request: request@,
            },
            RecordAction::Ignore => RecordActionModel::Ignore,
        }
    }
}

/// What the refine action asks the caller to do next.
#[derive(Debug)]
pub enum RefineAction {
    /// Run the refinement command with `prompt` as its sole argument,
    /// capture its standard output, and hand the outcome to
    /// [`Session::finish_refine`].
    Run { prompt: String },
    /// The refinement command is unavailable, or a refinement is already
    /// under way: do nothing.
    Ignore,
}

/// Specification-level image of a [`RefineAction`].
#[verifier::ext_equal]
pub enum RefineActionModel {
    Run { prompt: Seq<char> },
    Ignore,
}

impl View for RefineAction {
    type V = RefineActionModel;

    open spec fn view(&self) -> RefineActionModel {
        match self {
            RefineAction::Run { prompt } => RefineActionModel::Run { prompt: prompt@ },
            RefineAction::Ignore => RefineActionModel::Ignore,
        }
    }
}

/// The single mutable unit of business state: the phase, the last known
/// transcript, the user-visible status line, the immutable API key, the
/// startup capability probe's verdict, and the refinement side flow.
#[derive(Debug)]
pub struct Session {
    pub phase: Phase,
    pub transcript: String,
    pub status: String,
    pub api_key: String,
    pub refine_available: bool,
    pub refine_flow: RefineFlow,
}

/// Specification-level image of a [`Session`].
#[verifier::ext_equal]
pub struct SessionModel {
    pub phase: Phase,
    pub transcript: Seq<char>,
    pub status: Seq<char>,
    pub api_key: Seq<char>,
    pub refine_available: bool,
    pub refine_flow: RefineFlow,
}

impl View for Session {
    type V = SessionModel;

    open spec fn view(&self) -> SessionModel {
        SessionModel {
            phase: self.phase,
            transcript: self.transcript@,
            status: self.status@,
            api_key: self.api_key@,
            refine_available: self.refine_available,
            refine_flow: self.refine_flow,
        }
    }
}

/// The fixed path of the recording artifact. Every capture targets this
/// path, so at most one artifact exists at a time.
pub open spec fn artifact_path_spec() -> Seq<char> {
    "/tmp/whisper_record.wav"@
}

/// The fixed speech-to-text endpoint.
pub open spec fn transcription_endpoint_spec() -> Seq<char> {
    "https://api.openai.com/v1/audio/transcriptions"@
}

/// The bearer-token authorization header value for a given API key.
pub open spec fn auth_header_spec(api_key: Seq<char>) -> Seq<char> {
    "Bearer "@ + api_key
}

/// The full upload description for a given API key.
pub open spec fn transcription_request_spec(api_key: Seq<char>) -> TranscriptionRequestModel {
    TranscriptionRequestModel {
        endpoint: transcription_endpoint_spec(),
        file_path: artifact_path_spec(),
        auth_header: auth_header_spec(api_key),
        model: "whisper-1"@,
        response_format: "text"@,
    }
}

/// The placeholder transcript shown when transcription fails.
pub open spec fn sentinel_transcript_spec() -> Seq<char> {
    "Transcription failed"@
}

/// The status line shown when the refinement command could not be run.
pub open spec fn refine_error_status_spec() -> Seq<char> {
    "Refinement failed"@
}

/// The name of the optional refinement command probed for at startup.
pub open spec fn refine_command_spec() -> Seq<char> {
    "ask"@
}

/// The flag that asks the refinement command to clear its context.
pub open spec fn cleanup_flag_spec() -> Seq<char> {
    "-c"@
}

/// The instruction handed to the refinement command: a fixed prefix with
/// the transcript embedded verbatim at the end.
pub open spec fn refine_prompt_spec(transcript: Seq<char>) -> Seq<char> {
    "Refine the following transcript, keeping the original style. Remove redundancies and clean up: "@
        + transcript
}

/// The freshly created session: phase `Stopped`, empty transcript, status
/// `Idle`, refinement flow quiet.
pub open spec fn init_spec(api_key: Seq<char>, refine_available: bool) -> SessionModel {
    SessionModel {
        phase: Phase::Stopped,
        transcript: Seq::<char>::empty(),
        status: "Idle"@,
        api_key: api_key,
        refine_available: refine_available,
        refine_flow: RefineFlow::Quiet,
    }
}

/// One record/stop action: from `Stopped` it starts a capture, from
/// `Recording` it stops the capture and asks for the upload, and while
/// `Processing` it changes nothing and asks for nothing.
pub open spec fn step_record(m: SessionModel) -> (SessionModel, RecordActionModel) {
    match m.phase {
        Phase::Stopped => (
            SessionModel { phase: Phase::Recording, status: "Recording..."@, ..m },
            RecordActionModel::StartCapture { path: artifact_path_spec() },
        ),
        Phase::Recording => (
            SessionModel { phase: Phase::Processing, status: "Processing..."@, ..m },
            RecordActionModel::StopAndTranscribe { request: transcription_request_spec(m.api_key) },
        ),
        Phase::Processing => (m, RecordActionModel::Ignore),
    }
}

/// The end of the processing step. `outcome` is the uploaded transcript on
/// success and `None` on any transport, status or decode failure; failure
/// is degraded to the sentinel transcript, never escalated. The second
/// component is the text to hand to the clipboard, always equal to the new
/// transcript. The phase returns to `Stopped` either way.
pub open spec fn step_finish_processing(m: SessionModel, outcome: Option<Seq<char>>) -> (
    SessionModel,
    Seq<char>,
) {
    let text = match outcome {
        Some(t) => t,
        None => sentinel_transcript_spec(),
    };
    (SessionModel { phase: Phase::Stopped, transcript: text, status: "Idle"@, ..m }, text)
}

/// The end of a recording that never started: when the capture process
/// could not be launched, the failure is reported on the status line and
/// the phase returns to `Stopped` instead of aborting the session.
pub open spec fn step_capture_failure(m: SessionModel) -> SessionModel {
    SessionModel { phase: Phase::Stopped, status: "Recording failed"@, ..m }
}

/// One refine action: when the refinement command is available and no
/// refinement is under way, it asks for one run of the command with the
/// prompt built from the current transcript; otherwise it changes nothing
/// and asks for nothing.
pub open spec fn step_press_refine(m: SessionModel) -> (SessionModel, RefineActionModel) {
    if m.refine_available && m.refine_flow is Quiet {
        (
            SessionModel { status: "Refining..."@, refine_flow: RefineFlow::Awaiting, ..m },
            RefineActionModel::Run { prompt: refine_prompt_spec(m.transcript) },
        )
    } else {
        (m, RefineActionModel::Ignore)
    }
}

/// The end of the refinement step. `captured` is the command's standard
/// output decoded lossily (possibly empty) when the command could be run,
/// and `None` when it could not be launched; a launch failure only touches
/// the status line, never the transcript. Either way the cleanup
/// invocation becomes due. The second component is the refined text to
/// hand to the clipboard, present exactly when the command ran.
pub open spec fn step_finish_refine(m: SessionModel, captured: Option<Seq<char>>) -> (
    SessionModel,
    Option<Seq<char>>,
) {
    match captured {
        Some(r) => (
            SessionModel {
                transcript: r,
                status: "Idle"@,
                refine_flow: RefineFlow::CleanupDue,
                ..m
            },
            Some(r),
        ),
        None => (
            SessionModel {
                status: refine_error_status_spec(),
                refine_flow: RefineFlow::CleanupDue,
                ..m
            },
            None,
        ),
    }
}

/// Consuming the one owed cleanup invocation quiets the refinement flow
/// and changes nothing else.
pub open spec fn step_take_cleanup(m: SessionModel) -> SessionModel {
    SessionModel { refine_flow: RefineFlow::Quiet, ..m }
}

/// The view of an optional transcript handed in by the caller.
pub open spec fn opt_text_view(o: Option<String>) -> Option<Seq<char>> {
    match o {
        Some(t) => Some(t@),
        None => None,
    }
}

/// The fixed path of the recording artifact, as a value.
pub fn artifact_path() -> (p: String)
    ensures
        p@ == artifact_path_spec(),
{
    String::from_str("/tmp/whisper_record.wav")
}

/// The name of the optional refinement command, as a value, for the
/// startup capability probe and for each invocation.
pub fn refine_command() -> (c: String)
    ensures
        c@ == refine_command_spec(),
{
    String::from_str("ask")
}

/// The full upload description for a given API key, as values.
pub fn build_transcription_request(api_key: &str) -> (r: TranscriptionRequest)
    ensures
        r@ == transcription_request_spec(api_key@),
{
    let mut auth_header = String::from_str("Bearer ");
    auth_header.append(api_key);
    TranscriptionRequest {
        endpoint: String::from_str("https://api.openai.com/v1/audio/transcriptions"),
        file_path: artifact_path(),
        auth_header,
        model: String::from_str("whisper-1"),
        response_format: String::from_str("text"),
    }
}

impl Session {
    /// A fresh session in phase `Stopped`, with an empty transcript,
    /// status `Idle`, and the refine capability as probed at startup.
    pub fn new(api_key: String, refine_available: bool) -> (s: Session)
        ensures
            s@ == init_spec(api_key@, refine_available),
    {
        Session {
            phase: Phase::Stopped,
            transcript: String::new(),
            status: String::from_str("Idle"),
            api_key,
            refine_available,
            refine_flow: RefineFlow::Quiet,
        }
    }

    /// Handle one record/stop action, as [`step_record`] says: start a
    /// capture from `Stopped`, stop and ask for the upload from
    /// `Recording`, and ignore the action entirely while `Processing`.
    pub fn press_record(&mut self) -> (a: RecordAction)
        ensures
            final(self)@ == step_record(old(self)@).0,
            a@ == step_record(old(self)@).1,
    {
        match self.phase {
            Phase::Stopped => {
                self.phase = Phase::Recording;
                self.status = String::from_str("Recording...");
                RecordAction::StartCapture { path: artifact_path() }
            },
            Phase::Recording => {
                self.phase = Phase::Processing;
                self.status = String::from_str("Processing...");
                let request = build_transcription_request(self.api_key.as_str());
                RecordAction::StopAndTranscribe { request }
            },
            Phase::Processing => RecordAction::Ignore,
        }
    }

    /// Take the transcription outcome and finish the processing step, as
    /// [`step_finish_processing`] says: the transcript becomes the
    /// uploaded text, or the sentinel on failure, and the phase returns to
    /// `Stopped` either way. Returns the text to hand to the clipboard.
    pub fn finish_processing(&mut self, outcome: Option<String>) -> (text: String)
        requires
            old(self).phase is Processing,
        ensures
            final(self)@ == step_finish_processing(old(self)@, opt_text_view(outcome)).0,
            text@ == step_finish_processing(old(self)@, opt_text_view(outcome)).1,
    {
        match outcome {
            Some(t) => {
                self.transcript = t;
            },
            None => {
                self.transcript = String::from_str("Transcription failed");
            },
        }
        self.status = String::from_str("Idle");
        self.phase = Phase::Stopped;
        self.transcript.clone()
    }

    /// Take a capture-launch failure, as [`step_capture_failure`] says:
    /// the status line reports it and the phase returns to `Stopped`, so
    /// the session stays usable.
    pub fn note_capture_failure(&mut self)
        requires
            old(self).phase is Recording,
        ensures
            final(self)@ == step_capture_failure(old(self)@),
    {
        self.phase = Phase::Stopped;
        self.status = String::from_str("Recording failed");
    }

    /// Take the clipboard write's verdict. The clipboard is best-effort:
    /// its failure alters nothing — the transcript stays as produced and
    /// the session carries on.
    pub fn note_clipboard(&mut self, accepted: bool)
        ensures
            final(self)@ == old(self)@,
    {
        let _ok = accepted;
    }

    /// Handle one refine action, as [`step_press_refine`] says: when the
    /// refinement command is available and quiet, ask for one run of it
    /// with the prompt built from the current transcript; otherwise do
    /// nothing.
    pub fn press_refine(&mut self) -> (a: RefineAction)
        ensures
            final(self)@ == step_press_refine(old(self)@).0,
            a@ == step_press_refine(old(self)@).1,
    {
        if self.refine_available && self.refine_flow == RefineFlow::Quiet {
            self.status = String::from_str("Refining...");
            self.refine_flow = RefineFlow::Awaiting;
            let mut prompt = String::from_str(
                "Refine the following transcript, keeping the original style. Remove redundancies and clean up: ",
            );
            prompt.append(self.transcript.as_str());
            RefineAction::Run { prompt }
        } else {
            RefineAction::Ignore
        }
    }

    /// Take the refinement command's outcome and finish the refinement
    /// step, as [`step_finish_refine`] says: captured output (possibly
    /// empty) replaces the transcript; a launch failure only marks the
    /// status line. Either way the cleanup invocation becomes due.
    /// Returns the refined text to hand to the clipboard, present exactly
    /// when the command ran.
    pub fn finish_refine(&mut self, captured: Option<String>) -> (refined: Option<String>)
        requires
            old(self).refine_flow is Awaiting,
        ensures
            final(self)@ == step_finish_refine(old(self)@, opt_text_view(captured)).0,
            opt_text_view(refined) == step_finish_refine(old(self)@, opt_text_view(captured)).1,
    {
        match captured {
            Some(r) => {
                self.transcript = r.clone();
                self.status = String::from_str("Idle");
                self.refine_flow = RefineFlow::CleanupDue;
                Some(r)
            },
            None => {
                self.status = String::from_str("Refinement failed");
                self.refine_flow = RefineFlow::CleanupDue;
                None
            },
        }
    }

    /// Consume the one owed cleanup invocation and return the flag to run
    /// the refinement command with. Callable exactly once per refinement:
    /// it requires the cleanup to be due and quiets the flow.
    pub fn take_cleanup(&mut self) -> (flag: String)
        requires
            old(self).refine_flow is CleanupDue,
        ensures
            final(self)@ == step_take_cleanup(old(self)@),
            flag@ == cleanup_flag_spec(),
    {
        self.refine_flow = RefineFlow::Quiet;
        String::from_str("-c")
    }
}

} // verus!

//! The controller's guarantees, stated and proved over the
//! specification-level step functions of [`crate::session`].

use vstd::prelude::*;
use crate::session::{
    RecordActionModel, RefineActionModel, SessionModel, artifact_path_spec, refine_prompt_spec,
    sentinel_transcript_spec, step_finish_processing, step_finish_refine, step_press_refine,
    step_record, step_take_cleanup, transcription_request_spec,
};

verus! {

/// One full record cycle from `Stopped`: the first action yields
/// `Recording`, the second `Processing`, finishing the processing step —
/// whatever the transcription outcome — yields `Stopped` again, and a
/// further action restarts the cycle identically.
pub proof fn lemma_state_cycle(m: SessionModel, outcome: Option<Seq<char>>)
    requires
        m.phase is Stopped,
    ensures
        ({
            let m1 = step_record(m).0;
            let m2 = step_record(m1).0;
            let m3 = step_finish_processing(m2, outcome).0;
            &&& m1.phase is Recording
            &&& m2.phase is Processing
            &&& m3.phase is Stopped
            &&& step_record(m3).0.phase is Recording
        }),
{
}

/// No reentrant processing: an action delivered while the phase is
/// `Processing` leaves the session untouched and triggers neither a
/// capture nor a transcription call.
pub proof fn lemma_no_reentrant_processing(m: SessionModel)
    requires
        m.phase is Processing,
    ensures
        step_record(m).0 == m,
        step_record(m).1 == RecordActionModel::Ignore,
{
}

/// Artifact overwrite: every capture, in whatever cycle, targets the one
/// fixed artifact path, and the upload reads that same path, so no
/// artifacts accumulate.
pub proof fn lemma_fixed_artifact_path(m: SessionModel)
    ensures
        m.phase is Stopped ==> step_record(m).1 == (RecordActionModel::StartCapture {
            path: artifact_path_spec(),
        }),
        m.phase is Recording ==> step_record(m).1 == (RecordActionModel::StopAndTranscribe {
            request: transcription_request_spec(m.api_key),
        }),
        transcription_request_spec(m.api_key).file_path == artifact_path_spec(),
{
}

/// Transcription failure isolation: when the transcription outcome is a
/// failure, the transcript becomes the sentinel text and the phase still
/// returns to `Stopped` — the session is never stuck in `Processing`.
pub proof fn lemma_transcription_failure_isolated(m: SessionModel)
    requires
        m.phase is Processing,
    ensures
        step_finish_processing(m, None).0.phase is Stopped,
        step_finish_processing(m, None).0.transcript == sentinel_transcript_spec(),
        step_finish_processing(m, None).1 == sentinel_transcript_spec(),
{
}

/// Refinement round trip: with the capability present and the flow quiet,
/// the refine action always asks for one run of the command on the prompt
/// built from the transcript; finishing the step — whether or not the
/// output was captured — leaves exactly one cleanup invocation due, and
/// taking that cleanup quiets the flow again. Captured output (possibly
/// empty) becomes the transcript; a launch failure leaves it untouched.
pub proof fn lemma_refine_round_trip(m: SessionModel, captured: Option<Seq<char>>)
    requires
        m.refine_available,
        m.refine_flow is Quiet,
    ensures
        ({
            let m1 = step_press_refine(m).0;
            let a = step_press_refine(m).1;
            let m2 = step_finish_refine(m1, captured).0;
            let r = step_finish_refine(m1, captured).1;
            &&& a == (RefineActionModel::Run { prompt: refine_prompt_spec(m.transcript) })
            &&& m2.refine_flow is CleanupDue
            &&& (captured is Some ==> r == captured && m2.transcript == captured.unwrap())
            &&& (captured is None ==> r is None && m2.transcript == m.transcript)
            &&& step_take_cleanup(m2).refine_flow is Quiet
        }),
{
}

/// Capability gating: when the refinement command was not resolvable at
/// startup, a refine action changes nothing and asks for nothing — the
/// refinement is not invocable.
pub proof fn lemma_capability_gating(m: SessionModel)
    requires
        !m.refine_available,
    ensures
        step_press_refine(m).0 == m,
        step_press_refine(m).1 == RefineActionModel::Ignore,
{
}

} // verus!

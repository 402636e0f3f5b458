use vstd::prelude::*;
use crate::backend::{Backend, backend_bytes, backend_of_bytes};
use crate::engine::{LoadCall, LoadStage, load_next, load_run, load_start, session_outcome};
use crate::error::ErrorKind;
use crate::native_text::{has_terminator, lossy_text};
use crate::session::{
    GenCall, GenReply, GenStage, MetricsCall, MetricsReply, MetricsStage, TurnCounts, gen_run,
    generation_start, metrics_run,
};

verus! {

/// A backend's native name reads back as the same backend, and no other
/// byte string reads as any backend.
pub proof fn backend_name_round_trip(b: Backend, t: Seq<u8>)
    ensures
        backend_of_bytes(backend_bytes(b)) == Some(b),
        backend_of_bytes(t) is Some ==> t == backend_bytes(backend_of_bytes(t)->Some_0),
{
    assert(backend_bytes(Backend::Cpu) != backend_bytes(Backend::Gpu)) by {
        assert(backend_bytes(Backend::Cpu)[0] != backend_bytes(Backend::Gpu)[0]);
    }
}

/// A model path that holds a zero byte fails the load with `InvalidArgument`,
/// and no native call is made, whatever the calls would have returned.
pub proof fn terminator_in_path_makes_no_call(model_path: Seq<u8>, backend: Backend, replies: Seq<usize>)
    requires
        has_terminator(model_path),
    ensures
        load_run(load_start(model_path, backend), replies)
            == (Seq::<LoadCall>::empty(), LoadStage::Failed { kind: ErrorKind::InvalidArgument }),
{
    assert(load_run(load_start(model_path, backend), replies).0 =~= Seq::<LoadCall>::empty());
}

/// Where settings-construct returns null, the load fails with
/// `NativeConstructionFailed` and engine-construct is never called.
pub proof fn null_settings_skip_engine(model_path: Seq<u8>, backend: Backend, replies: Seq<usize>)
    requires
        !has_terminator(model_path),
        replies.len() >= 1,
        replies[0] == 0,
    ensures
        load_run(load_start(model_path, backend), replies)
            == (seq![LoadCall::CreateSettings], LoadStage::Failed { kind: ErrorKind::NativeConstructionFailed }),
{
    let s0 = load_start(model_path, backend);
    let s1 = load_next(s0, replies[0]);
    assert(load_run(s1, replies.drop_first()).0 =~= Seq::<LoadCall>::empty());
    assert(load_run(s0, replies).0 =~= seq![LoadCall::CreateSettings]);
}

/// Where settings-construct succeeds and engine-construct returns null, the
/// settings are destroyed exactly once, and the load fails with
/// `NativeConstructionFailed`.
pub proof fn null_engine_releases_settings(model_path: Seq<u8>, backend: Backend, replies: Seq<usize>)
    requires
        !has_terminator(model_path),
        replies.len() >= 3,
        replies[0] != 0,
        replies[1] == 0,
    ensures
        load_run(load_start(model_path, backend), replies) == (
            seq![
                LoadCall::CreateSettings,
                LoadCall::CreateEngine { settings: replies[0] },
                LoadCall::DeleteSettings { settings: replies[0] },
            ],
            LoadStage::Failed { kind: ErrorKind::NativeConstructionFailed },
        ),
{
    let s0 = load_start(model_path, backend);
    let r1 = replies.drop_first();
    let r2 = r1.drop_first();
    let r3 = r2.drop_first();
    let s1 = load_next(s0, replies[0]);
    let s2 = load_next(s1, r1[0]);
    let s3 = load_next(s2, r2[0]);
    assert(load_run(s3, r3).0 =~= Seq::<LoadCall>::empty());
    assert(load_run(s2, r2).0 =~= seq![LoadCall::DeleteSettings { settings: replies[0] }]);
    assert(load_run(s1, r1).0 =~= seq![
        LoadCall::CreateEngine { settings: replies[0] },
        LoadCall::DeleteSettings { settings: replies[0] },
    ]);
    assert(load_run(s0, replies).0 =~= seq![
        LoadCall::CreateSettings,
        LoadCall::CreateEngine { settings: replies[0] },
        LoadCall::DeleteSettings { settings: replies[0] },
    ]);
}

/// Where both construct calls succeed, the engine holds the two handles they
/// returned, and nothing is destroyed.
pub proof fn load_success_keeps_both_handles(model_path: Seq<u8>, backend: Backend, replies: Seq<usize>)
    requires
        !has_terminator(model_path),
        replies.len() >= 2,
        replies[0] != 0,
        replies[1] != 0,
    ensures
        load_run(load_start(model_path, backend), replies) == (
            seq![LoadCall::CreateSettings, LoadCall::CreateEngine { settings: replies[0] }],
            LoadStage::Loaded { engine: replies[1], settings: replies[0] },
        ),
{
    let s0 = load_start(model_path, backend);
    let r1 = replies.drop_first();
    let r2 = r1.drop_first();
    let s1 = load_next(s0, replies[0]);
    let s2 = load_next(s1, r1[0]);
    assert(load_run(s2, r2).0 =~= Seq::<LoadCall>::empty());
    assert(load_run(s1, r1).0 =~= seq![LoadCall::CreateEngine { settings: replies[0] }]);
    assert(load_run(s0, replies).0 =~= seq![
        LoadCall::CreateSettings,
        LoadCall::CreateEngine { settings: replies[0] },
    ]);
}

/// A null session handle is reported as `NativeConstructionFailed`; any two
/// non-null ones give two sessions, each holding its own handle, whichever
/// comes first, since asking for a session only reads the engine.
pub proof fn session_outcomes_independent(first: usize, second: usize)
    ensures
        session_outcome(0) == Err::<usize, ErrorKind>(ErrorKind::NativeConstructionFailed),
        first != 0 ==> session_outcome(first) == Ok::<usize, ErrorKind>(first),
        second != 0 ==> session_outcome(second) == Ok::<usize, ErrorKind>(second),
{
}

/// The outcome of a generation whose first response slot pointed to `text`.
pub open spec fn text_outcome(text: Option<Seq<u8>>) -> Result<Seq<char>, ErrorKind> {
    match text {
        None => Err(ErrorKind::EmptyResponse),
        Some(b) => Ok(lossy_text(b)),
    }
}

/// Once the generate call returns a response buffer, its first slot is read,
/// the buffer is destroyed exactly once, after the read, and the generation
/// ends: with the copied text, or with `EmptyResponse` for a null pointer.
pub proof fn responses_released_once(
    session: usize,
    prompt: Seq<u8>,
    responses: usize,
    text: Option<Seq<u8>>,
    later: Seq<GenReply>,
)
    requires
        !has_terminator(prompt),
        responses != 0,
    ensures
        gen_run(
            generation_start(session, prompt),
            seq![GenReply::Handle(responses), GenReply::Text(text), GenReply::Released] + later,
        ) == (
            seq![
                GenCall::Generate { session },
                GenCall::ReadText { responses },
                GenCall::DeleteResponses { responses },
            ],
            GenStage::Finished { outcome: text_outcome(text) },
        ),
{
    let r0 = seq![GenReply::Handle(responses), GenReply::Text(text), GenReply::Released] + later;
    let r1 = r0.drop_first();
    let r2 = r1.drop_first();
    let r3 = r2.drop_first();
    assert(r0[0] == GenReply::Handle(responses));
    assert(r1[0] == GenReply::Text(text));
    assert(r2[0] == GenReply::Released);
    let s0 = generation_start(session, prompt);
    let s1 = GenStage::ReadText { responses };
    let s2 = GenStage::DeleteResponses { responses, outcome: text_outcome(text) };
    let s3 = GenStage::Finished { outcome: text_outcome(text) };
    assert(gen_run(s3, r3).0 =~= Seq::<GenCall>::empty());
    assert(gen_run(s2, r2).0 =~= seq![GenCall::DeleteResponses { responses }]);
    assert(gen_run(s1, r1).0 =~= seq![
        GenCall::ReadText { responses },
        GenCall::DeleteResponses { responses },
    ]);
    assert(gen_run(s0, r0).0 =~= seq![
        GenCall::Generate { session },
        GenCall::ReadText { responses },
        GenCall::DeleteResponses { responses },
    ]);
}

/// A generate call that returns no buffer ends the generation with
/// `GenerationFailed`, and nothing is left to destroy.
pub proof fn null_responses_fail_generation(session: usize, prompt: Seq<u8>, later: Seq<GenReply>)
    requires
        !has_terminator(prompt),
    ensures
        gen_run(generation_start(session, prompt), seq![GenReply::Handle(0)] + later) == (
            seq![GenCall::Generate { session }],
            GenStage::Finished { outcome: Err(ErrorKind::GenerationFailed) },
        ),
{
    let r0 = seq![GenReply::Handle(0)] + later;
    assert(r0[0] == GenReply::Handle(0));
    let s1 = GenStage::Finished { outcome: Err(ErrorKind::GenerationFailed) };
    assert(gen_run(s1, r0.drop_first()).0 =~= Seq::<GenCall>::empty());
    assert(gen_run(generation_start(session, prompt), r0).0 =~= seq![GenCall::Generate { session }]);
}

/// Once the metrics call returns a buffer, its fields are read, the buffer
/// is destroyed exactly once, after the read, and the counters read are
/// the result.
pub proof fn metrics_released_once(session: usize, info: usize, turns: TurnCounts, later: Seq<MetricsReply>)
    requires
        info != 0,
    ensures
        metrics_run(
            MetricsStage::Fetch { session },
            seq![MetricsReply::Handle(info), MetricsReply::Fields(turns), MetricsReply::Released] + later,
        ) == (
            seq![MetricsCall::Fetch { session }, MetricsCall::Read { info }, MetricsCall::Delete { info }],
            MetricsStage::Finished { outcome: Ok(turns) },
        ),
{
    let r0 = seq![MetricsReply::Handle(info), MetricsReply::Fields(turns), MetricsReply::Released] + later;
    let r1 = r0.drop_first();
    let r2 = r1.drop_first();
    let r3 = r2.drop_first();
    assert(r0[0] == MetricsReply::Handle(info));
    assert(r1[0] == MetricsReply::Fields(turns));
    assert(r2[0] == MetricsReply::Released);
    let s1 = MetricsStage::Read { info };
    let s2 = MetricsStage::Delete { info, turns };
    let s3 = MetricsStage::Finished { outcome: Ok(turns) };
    assert(metrics_run(s3, r3).0 =~= Seq::<MetricsCall>::empty());
    assert(metrics_run(s2, r2).0 =~= seq![MetricsCall::Delete { info }]);
    assert(metrics_run(s1, r1).0 =~= seq![MetricsCall::Read { info }, MetricsCall::Delete { info }]);
    assert(metrics_run(MetricsStage::Fetch { session }, r0).0 =~= seq![
        MetricsCall::Fetch { session },
        MetricsCall::Read { info },
        MetricsCall::Delete { info },
    ]);
}

} // verus!

use vstd::prelude::*;
use vstd::string::StringSliceAdditionalSpecFns;
use vstd::utf8::{decode_utf8, valid_utf8};
use crate::error::{Error, ErrorKind};
use crate::native_text::{has_terminator, lossy_text, text_from_native, to_native_text};

verus! {

/// A conversation context: the native session handle, never null. The type
/// has no `Clone`, and `release` consumes it, so the handle is given up once.
pub struct Session {
    raw: usize,
}

impl Session {
    #[verifier::type_invariant]
    spec fn handle_live(&self) -> bool {
        self.raw != 0
    }

    /// The native session handle held.
    pub closed spec fn session_handle(&self) -> usize {
        self.raw
    }

    pub(crate) fn adopt(raw: usize) -> (r: Session)
        requires
            raw != 0,
        ensures
            r.session_handle() == raw,
    {
        Session { raw }
    }

    /// The native session handle.
    pub fn handle(&self) -> (r: usize)
        ensures
            r == self.session_handle(),
            r != 0,
    {
        proof {
            use_type_invariant(self);
        }
        self.raw
    }

    /// The handle to destroy.
    pub fn release(self) -> (r: usize)
        ensures
            r == self.session_handle(),
            r != 0,
    {
        proof {
            use_type_invariant(&self);
        }
        self.raw
    }

    /// Starts generating a response to `prompt`: a prompt that holds a zero
    /// byte fails before any native call.
    pub fn start_generation(&self, prompt: &str) -> (r: Generation)
        ensures
            r.wf(),
            r.stage() == generation_start(self.session_handle(), prompt.spec_bytes()),
    {
        proof {
            use_type_invariant(self);
        }
        match to_native_text(prompt) {
            Ok(p) => Generation::Generate { session: self.raw, prompt: p },
            Err(e) => Generation::Finished(Err(e)),
        }
    }

    /// Starts fetching the benchmark counters of this session.
    pub fn start_metrics(&self) -> (r: MetricsFetch)
        ensures
            r.wf(),
            r.stage() == (MetricsStage::Fetch { session: self.session_handle() }),
    {
        proof {
            use_type_invariant(self);
        }
        MetricsFetch::Fetch { session: self.raw }
    }
}

/// Where a generation stands, as plain values.
pub enum GenStage {
    Generate { session: usize, prompt: Seq<u8> },
    ReadText { responses: usize },
    DeleteResponses { responses: usize, outcome: Result<Seq<char>, ErrorKind> },
    Finished { outcome: Result<Seq<char>, ErrorKind> },
}

/// The first stage of a generation on `session` for the prompt bytes `prompt`.
pub open spec fn generation_start(session: usize, prompt: Seq<u8>) -> GenStage {
    if has_terminator(prompt) {
        GenStage::Finished { outcome: Err(ErrorKind::InvalidArgument) }
    } else {
        GenStage::Generate { session, prompt }
    }
}

/// After the generate call returned the response buffer `responses`.
pub open spec fn gen_after_generate(responses: usize) -> GenStage {
    if responses == 0 {
        GenStage::Finished { outcome: Err(ErrorKind::GenerationFailed) }
    } else {
        GenStage::ReadText { responses }
    }
}

/// After the first slot of `responses` was read: `None` for a null text
/// pointer, else the bytes it pointed to. The buffer is released either way.
pub open spec fn gen_after_read(responses: usize, text: Option<Seq<u8>>) -> GenStage {
    match text {
        None => GenStage::DeleteResponses { responses, outcome: Err(ErrorKind::EmptyResponse) },
        Some(b) => GenStage::DeleteResponses { responses, outcome: Ok(lossy_text(b)) },
    }
}

/// What a native call made during a generation handed back.
pub enum GenReply {
    /// The handle that the generate call returned.
    Handle(usize),
    /// The bytes the first response slot pointed to, or `None` for null.
    Text(Option<Seq<u8>>),
    /// A destroy call returned.
    Released,
}

/// A native call made during a generation.
#[derive(Clone, Copy, Debug, PartialEq, Eq, Structural)]
pub enum GenCall {
    Generate { session: usize },
    ReadText { responses: usize },
    DeleteResponses { responses: usize },
}

/// The stage after the call of stage `s` handed back `reply`; a reply of
/// the wrong sort leaves the stage as it is.
pub open spec fn gen_next(s: GenStage, reply: GenReply) -> GenStage {
    match s {
        GenStage::Generate { .. } => match reply {
            GenReply::Handle(h) => gen_after_generate(h),
            _ => s,
        },
        GenStage::ReadText { responses } => match reply {
            GenReply::Text(t) => gen_after_read(responses, t),
            _ => s,
        },
        GenStage::DeleteResponses { outcome, .. } => GenStage::Finished { outcome },
        GenStage::Finished { .. } => s,
    }
}

/// The native call that stage `s` asks for, if any.
pub open spec fn gen_call(s: GenStage) -> Option<GenCall> {
    match s {
        GenStage::Generate { session, .. } => Some(GenCall::Generate { session }),
        GenStage::ReadText { responses } => Some(GenCall::ReadText { responses }),
        GenStage::DeleteResponses { responses, .. } => Some(GenCall::DeleteResponses { responses }),
        GenStage::Finished { .. } => None,
    }
}

/// The native calls made from stage `s` on, when they hand back `replies`
/// in turn, and the stage where they leave the generation.
pub open spec fn gen_run(s: GenStage, replies: Seq<GenReply>) -> (Seq<GenCall>, GenStage)
    decreases replies.len(),
{
    if s is Finished || replies.len() == 0 {
        (Seq::empty(), s)
    } else {
        let rest = gen_run(gen_next(s, replies[0]), replies.drop_first());
        (seq![gen_call(s)->Some_0] + rest.0, rest.1)
    }
}

/// A generation, one native call at a time.
pub enum Generation {
    /// Call generate-content on this session with one text chunk holding
    /// these bytes and their length, asking for one response.
    Generate { session: usize, prompt: Vec<u8> },
    /// Call get-text-at on this response buffer for slot 0, copy the text.
    ReadText { responses: usize },
    /// Call responses-destroy on this buffer; then the outcome stands.
    DeleteResponses { responses: usize, outcome: Result<String, Error> },
    /// The generation is over.
    Finished(Result<String, Error>),
}

impl Generation {
    pub open spec fn stage(&self) -> GenStage {
        match self {
            Generation::Generate { session, prompt } => GenStage::Generate {
                session: *session,
                prompt: prompt@,
            },
            Generation::ReadText { responses } => GenStage::ReadText { responses: *responses },
            Generation::DeleteResponses { responses, outcome } => GenStage::DeleteResponses {
                responses: *responses,
                outcome: match outcome {
                    Ok(t) => Ok(t@),
                    Err(e) => Err(e.kind()),
                },
            },
            Generation::Finished(outcome) => GenStage::Finished {
                outcome: match outcome {
                    Ok(t) => Ok(t@),
                    Err(e) => Err(e.kind()),
                },
            },
        }
    }

    /// The handles held at this stage are live ones.
    pub open spec fn wf(&self) -> bool {
        match self {
            Generation::Generate { session, .. } => *session != 0,
            Generation::ReadText { responses } => *responses != 0,
            Generation::DeleteResponses { responses, .. } => *responses != 0,
            _ => true,
        }
    }

    /// Whether the generation is over.
    pub fn is_finished(&self) -> (r: bool)
        ensures
            r == (self.stage() is Finished),
    {
        match self {
            Generation::Finished(_) => true,
            _ => false,
        }
    }

    /// The generate call returned the response buffer `responses`.
    pub fn responses_returned(self, responses: usize) -> (r: Generation)
        requires
            self.stage() is Generate,
        ensures
            r.wf(),
            r.stage() == gen_after_generate(responses),
    {
        if responses == 0 {
            Generation::Finished(Err(Error::new(ErrorKind::GenerationFailed, "failed to generate content")))
        } else {
            Generation::ReadText { responses }
        }
    }

    /// The first slot of the response buffer was read: `None` where its text
    /// pointer was null, else the bytes it pointed to.
    pub fn text_read(self, text: Option<Vec<u8>>) -> (r: Generation)
        requires
            self.wf(),
            self.stage() is ReadText,
        ensures
            r.wf(),
            r.stage() == gen_after_read(
                self.stage()->ReadText_responses,
                match text {
                    Some(b) => Some(b@),
                    None => None,
                },
            ),
            match (text, r) {
                (Some(b), Generation::DeleteResponses { outcome: Ok(t), .. }) => (valid_utf8(b@)
                    ==> t@ == decode_utf8(b@)),
                _ => true,
            },
    {
        let responses = match self {
            Generation::ReadText { responses } => responses,
            _ => 0,
        };
        match text {
            None => Generation::DeleteResponses {
                responses,
                outcome: Err(Error::new(ErrorKind::EmptyResponse, "no response generated")),
            },
            Some(b) => Generation::DeleteResponses {
                responses,
                outcome: Ok(text_from_native(b.as_slice())),
            },
        }
    }

    /// The response buffer was destroyed: the outcome held stands.
    pub fn responses_released(self) -> (r: Generation)
        requires
            self.stage() is DeleteResponses,
        ensures
            r.stage() == (GenStage::Finished { outcome: self.stage()->DeleteResponses_outcome }),
    {
        match self {
            Generation::DeleteResponses { outcome, .. } => Generation::Finished(outcome),
            other => other,
        }
    }
}

/// The two turn counters of a benchmark snapshot.
#[derive(Clone, Copy, Debug, PartialEq, Eq, Structural)]
pub struct TurnCounts {
    pub prefill: usize,
    pub decode: usize,
}

/// Where a metrics fetch stands, as plain values.
pub enum MetricsStage {
    Fetch { session: usize },
    Read { info: usize },
    Delete { info: usize, turns: TurnCounts },
    Finished { outcome: Result<TurnCounts, ErrorKind> },
}

/// After the metrics call returned the buffer `info`.
pub open spec fn metrics_after_fetch(info: usize) -> MetricsStage {
    if info == 0 {
        MetricsStage::Finished { outcome: Err(ErrorKind::MetricsUnavailable) }
    } else {
        MetricsStage::Read { info }
    }
}

/// What a native call made during a metrics fetch handed back.
pub enum MetricsReply {
    /// The handle that the metrics call returned.
    Handle(usize),
    /// The counters read from the buffer.
    Fields(TurnCounts),
    /// A destroy call returned.
    Released,
}

/// A native call made during a metrics fetch.
#[derive(Clone, Copy, Debug, PartialEq, Eq, Structural)]
pub enum MetricsCall {
    Fetch { session: usize },
    Read { info: usize },
    Delete { info: usize },
}

/// The stage after the call of stage `s` handed back `reply`; a reply of
/// the wrong sort leaves the stage as it is.
pub open spec fn metrics_next(s: MetricsStage, reply: MetricsReply) -> MetricsStage {
    match s {
        MetricsStage::Fetch { .. } => match reply {
            MetricsReply::Handle(h) => metrics_after_fetch(h),
            _ => s,
        },
        MetricsStage::Read { info } => match reply {
            MetricsReply::Fields(turns) => MetricsStage::Delete { info, turns },
            _ => s,
        },
        MetricsStage::Delete { turns, .. } => MetricsStage::Finished { outcome: Ok(turns) },
        MetricsStage::Finished { .. } => s,
    }
}

/// The native call that stage `s` asks for, if any.
pub open spec fn metrics_call(s: MetricsStage) -> Option<MetricsCall> {
    match s {
        MetricsStage::Fetch { session } => Some(MetricsCall::Fetch { session }),
        MetricsStage::Read { info } => Some(MetricsCall::Read { info }),
        MetricsStage::Delete { info, .. } => Some(MetricsCall::Delete { info }),
        MetricsStage::Finished { .. } => None,
    }
}

/// The native calls made from stage `s` on, when they hand back `replies`
/// in turn, and the stage where they leave the fetch.
pub open spec fn metrics_run(s: MetricsStage, replies: Seq<MetricsReply>) -> (Seq<MetricsCall>, MetricsStage)
    decreases replies.len(),
{
    if s is Finished || replies.len() == 0 {
        (Seq::empty(), s)
    } else {
        let rest = metrics_run(metrics_next(s, replies[0]), replies.drop_first());
        (seq![metrics_call(s)->Some_0] + rest.0, rest.1)
    }
}

/// A metrics fetch, one native call at a time. The fields of the buffer are
/// all read before the stage that destroys it.
pub enum MetricsFetch {
    /// Call get-benchmark-info on this session.
    Fetch { session: usize },
    /// Read the time to first token and the two turn counters of this buffer.
    Read { info: usize },
    /// Call metrics-destroy on this buffer; then the counters stand.
    Delete { info: usize, turns: TurnCounts },
    /// The fetch is over.
    Finished(Result<TurnCounts, Error>),
}

impl MetricsFetch {
    pub open spec fn stage(&self) -> MetricsStage {
        match self {
            MetricsFetch::Fetch { session } => MetricsStage::Fetch { session: *session },
            MetricsFetch::Read { info } => MetricsStage::Read { info: *info },
            MetricsFetch::Delete { info, turns } => MetricsStage::Delete { info: *info, turns: *turns },
            MetricsFetch::Finished(outcome) => MetricsStage::Finished {
                outcome: match outcome {
                    Ok(t) => Ok(*t),
                    Err(e) => Err(e.kind()),
                },
            },
        }
    }

    /// The handles held at this stage are live ones.
    pub open spec fn wf(&self) -> bool {
        match self {
            MetricsFetch::Fetch { session } => *session != 0,
            MetricsFetch::Read { info } => *info != 0,
            MetricsFetch::Delete { info, .. } => *info != 0,
            _ => true,
        }
    }

    /// Whether the fetch is over.
    pub fn is_finished(&self) -> (r: bool)
        ensures
            r == (self.stage() is Finished),
    {
        match self {
            MetricsFetch::Finished(_) => true,
            _ => false,
        }
    }

    /// The metrics call returned the buffer `info`.
    pub fn info_returned(self, info: usize) -> (r: MetricsFetch)
        requires
            self.stage() is Fetch,
        ensures
            r.wf(),
            r.stage() == metrics_after_fetch(info),
    {
        if info == 0 {
            MetricsFetch::Finished(Err(Error::new(ErrorKind::MetricsUnavailable, "failed to get benchmark info")))
        } else {
            MetricsFetch::Read { info }
        }
    }

    /// The counters of the buffer were read.
    pub fn fields_read(self, turns: TurnCounts) -> (r: MetricsFetch)
        requires
            self.wf(),
            self.stage() is Read,
        ensures
            r.wf(),
            r.stage() == (MetricsStage::Delete { info: self.stage()->Read_info, turns }),
    {
        match self {
            MetricsFetch::Read { info } => MetricsFetch::Delete { info, turns },
            other => other,
        }
    }

    /// The buffer was destroyed: the counters read stand.
    pub fn info_released(self) -> (r: MetricsFetch)
        requires
            self.stage() is Delete,
        ensures
            r.stage() == (MetricsStage::Finished { outcome: Ok(self.stage()->Delete_turns) }),
    {
        match self {
            MetricsFetch::Delete { turns, .. } => MetricsFetch::Finished(Ok(turns)),
            other => other,
        }
    }
}

} // verus!

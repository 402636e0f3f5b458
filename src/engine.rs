use vstd::prelude::*;
use crate::backend::{Backend, backend_bytes};
use crate::error::{Error, ErrorKind};
use crate::native_text::{has_terminator, to_native_text};
use crate::session::Session;
use vstd::string::StringSliceAdditionalSpecFns;

verus! {

/// A loaded model: the native engine handle and the settings handle it was
/// built from. Neither is ever null. The type has no `Clone`: each handle has
/// this one owner, and `release` consumes it, so the pair is given up once.
pub struct Engine {
    raw: usize,
    settings: usize,
}

impl Engine {
    #[verifier::type_invariant]
    spec fn handles_live(&self) -> bool {
        self.raw != 0 && self.settings != 0
    }

    /// The native engine handle held.
    pub closed spec fn engine_handle(&self) -> usize {
        self.raw
    }

    /// The native settings handle held.
    pub closed spec fn settings_handle(&self) -> usize {
        self.settings
    }

    /// The native engine handle, to pass to calls that only read the engine.
    pub fn handle(&self) -> (r: usize)
        ensures
            r == self.engine_handle(),
            r != 0,
    {
        proof {
            use_type_invariant(self);
        }
        self.raw
    }

    /// The handles to destroy, in order: the engine first, then its settings.
    pub fn release(self) -> (r: (usize, usize))
        ensures
            r == (self.engine_handle(), self.settings_handle()),
            r.0 != 0 && r.1 != 0,
    {
        proof {
            use_type_invariant(&self);
        }
        (self.raw, self.settings)
    }

    /// What a session-construct call on this engine gave: a session when the
    /// handle is not null, else `NativeConstructionFailed`. The engine is only
    /// read, so any number of calls, from any number of callers, leave it as
    /// it was.
    pub fn session_created(&self, returned: usize) -> (r: Result<Session, Error>)
        ensures
            session_outcome(returned) == match r {
                Ok(s) => Ok(s.session_handle()),
                Err(e) => Err(e.kind()),
            },
            match r {
                Ok(s) => returned != 0 && s.session_handle() == returned,
                Err(e) => returned == 0 && e.kind() == ErrorKind::NativeConstructionFailed,
            },
    {
        if returned == 0 {
            Err(Error::new(ErrorKind::NativeConstructionFailed, "failed to create session"))
        } else {
            Ok(Session::adopt(returned))
        }
    }
}

/// What a session-construct call that returned `returned` yields: the
/// session handle, or the kind of error.
pub open spec fn session_outcome(returned: usize) -> Result<usize, ErrorKind> {
    if returned == 0 {
        Err(ErrorKind::NativeConstructionFailed)
    } else {
        Ok(returned)
    }
}

/// Where the loading of an engine stands, as plain values.
pub enum LoadStage {
    CreateSettings { model_path: Seq<u8>, backend: Seq<u8> },
    CreateEngine { settings: usize },
    DeleteSettings { settings: usize },
    Loaded { engine: usize, settings: usize },
    Failed { kind: ErrorKind },
}

/// The first stage of loading `model_path` for `backend`: a path that holds a
/// zero byte fails before any native call.
pub open spec fn load_start(model_path: Seq<u8>, backend: Backend) -> LoadStage {
    if has_terminator(model_path) {
        LoadStage::Failed { kind: ErrorKind::InvalidArgument }
    } else {
        LoadStage::CreateSettings { model_path, backend: backend_bytes(backend) }
    }
}

/// The stage after the native call of stage `s` returned `returned` (the
/// handle it constructed; ignored after a delete call).
pub open spec fn load_next(s: LoadStage, returned: usize) -> LoadStage {
    match s {
        LoadStage::CreateSettings { .. } => if returned == 0 {
            LoadStage::Failed { kind: ErrorKind::NativeConstructionFailed }
        } else {
            LoadStage::CreateEngine { settings: returned }
        },
        LoadStage::CreateEngine { settings } => if returned == 0 {
            LoadStage::DeleteSettings { settings }
        } else {
            LoadStage::Loaded { engine: returned, settings }
        },
        LoadStage::DeleteSettings { .. } => LoadStage::Failed {
            kind: ErrorKind::NativeConstructionFailed,
        },
        _ => s,
    }
}

/// A native call made while loading an engine.
#[derive(Clone, Copy, Debug, PartialEq, Eq, Structural)]
pub enum LoadCall {
    CreateSettings,
    CreateEngine { settings: usize },
    DeleteSettings { settings: usize },
}

/// The native call that stage `s` asks for, if any.
pub open spec fn load_call(s: LoadStage) -> Option<LoadCall> {
    match s {
        LoadStage::CreateSettings { .. } => Some(LoadCall::CreateSettings),
        LoadStage::CreateEngine { settings } => Some(LoadCall::CreateEngine { settings }),
        LoadStage::DeleteSettings { settings } => Some(LoadCall::DeleteSettings { settings }),
        _ => None,
    }
}

/// The native calls made from stage `s` on, when the calls return the
/// values of `replies` in turn, and the stage where they leave the load.
pub open spec fn load_run(s: LoadStage, replies: Seq<usize>) -> (Seq<LoadCall>, LoadStage)
    decreases replies.len(),
{
    if load_finished(s) || replies.len() == 0 {
        (Seq::empty(), s)
    } else {
        let rest = load_run(load_next(s, replies[0]), replies.drop_first());
        (seq![load_call(s)->Some_0] + rest.0, rest.1)
    }
}

/// Whether a stage is final: no native call is asked for any more.
pub open spec fn load_finished(s: LoadStage) -> bool {
    s is Loaded || s is Failed
}

/// The loading of an engine, one native call at a time. Each stage but the
/// last two names the call to make; `advance` takes what it returned.
pub enum EngineLoad {
    /// Call settings-construct with these two native texts.
    CreateSettings { model_path: Vec<u8>, backend: Vec<u8> },
    /// Call engine-construct with this settings handle.
    CreateEngine { settings: usize },
    /// Call settings-destroy on this handle: engine construction failed.
    DeleteSettings { settings: usize },
    /// The engine is loaded.
    Loaded(Engine),
    /// Loading failed; every handle constructed on the way is destroyed.
    Failed(Error),
}

impl EngineLoad {
    pub open spec fn stage(&self) -> LoadStage {
        match self {
            EngineLoad::CreateSettings { model_path, backend } => LoadStage::CreateSettings {
                model_path: model_path@,
                backend: backend@,
            },
            EngineLoad::CreateEngine { settings } => LoadStage::CreateEngine { settings: *settings },
            EngineLoad::DeleteSettings { settings } => LoadStage::DeleteSettings {
                settings: *settings,
            },
            EngineLoad::Loaded(e) => LoadStage::Loaded {
                engine: e.engine_handle(),
                settings: e.settings_handle(),
            },
            EngineLoad::Failed(e) => LoadStage::Failed { kind: e.kind() },
        }
    }

    /// The handles held at this stage are live ones.
    pub open spec fn wf(&self) -> bool {
        match self {
            EngineLoad::CreateEngine { settings } => *settings != 0,
            EngineLoad::DeleteSettings { settings } => *settings != 0,
            _ => true,
        }
    }

    /// Starts loading the model at `model_path` for `backend`.
    pub fn start(model_path: &str, backend: Backend) -> (r: EngineLoad)
        ensures
            r.wf(),
            r.stage() == load_start(model_path.spec_bytes(), backend),
    {
        match to_native_text(model_path) {
            Ok(path) => EngineLoad::CreateSettings { model_path: path, backend: backend.native_name() },
            Err(e) => EngineLoad::Failed(e),
        }
    }

    /// Whether loading is over.
    pub fn is_finished(&self) -> (r: bool)
        ensures
            r == load_finished(self.stage()),
    {
        match self {
            EngineLoad::Loaded(_) => true,
            EngineLoad::Failed(_) => true,
            _ => false,
        }
    }

    /// The stage after the requested native call returned `returned`.
    pub fn advance(self, returned: usize) -> (r: EngineLoad)
        requires
            self.wf(),
            !load_finished(self.stage()),
        ensures
            r.wf(),
            r.stage() == load_next(self.stage(), returned),
    {
        match self {
            EngineLoad::CreateSettings { .. } => if returned == 0 {
                EngineLoad::Failed(Error::new(ErrorKind::NativeConstructionFailed, "failed to create engine settings"))
            } else {
                EngineLoad::CreateEngine { settings: returned }
            },
            EngineLoad::CreateEngine { settings } => if returned == 0 {
                EngineLoad::DeleteSettings { settings }
            } else {
                EngineLoad::Loaded(Engine { raw: returned, settings })
            },
            EngineLoad::DeleteSettings { .. } => EngineLoad::Failed(
                Error::new(ErrorKind::NativeConstructionFailed, "failed to create engine"),
            ),
            EngineLoad::Loaded(e) => EngineLoad::Loaded(e),
            EngineLoad::Failed(e) => EngineLoad::Failed(e),
        }
    }
}

} // verus!

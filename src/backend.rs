use vstd::prelude::*;

verus! {

/// The execution target that a model is loaded for.
#[derive(Clone, Copy, Debug, PartialEq, Eq, Structural)]
pub enum Backend {
    /// Run on the CPU.
    Cpu,
    /// Run on the GPU, where one is available.
    Gpu,
}

/// The text by which the native side names a backend.
pub open spec fn backend_text(b: Backend) -> Seq<char> {
    match b {
        Backend::Cpu => seq!['c', 'p', 'u'],
        Backend::Gpu => seq!['g', 'p', 'u'],
    }
}

/// The backend that a text names, if any.
pub open spec fn backend_of_text(t: Seq<char>) -> Option<Backend> {
    if t == backend_text(Backend::Cpu) {
        Some(Backend::Cpu)
    } else if t == backend_text(Backend::Gpu) {
        Some(Backend::Gpu)
    } else {
        None
    }
}

/// The bytes by which the native side names a backend (its ASCII name).
pub open spec fn backend_bytes(b: Backend) -> Seq<u8> {
    match b {
        Backend::Cpu => seq![0x63u8, 0x70u8, 0x75u8],
        Backend::Gpu => seq![0x67u8, 0x70u8, 0x75u8],
    }
}

/// The backend that a native byte string names, if any.
pub open spec fn backend_of_bytes(t: Seq<u8>) -> Option<Backend> {
    if t == backend_bytes(Backend::Cpu) {
        Some(Backend::Cpu)
    } else if t == backend_bytes(Backend::Gpu) {
        Some(Backend::Gpu)
    } else {
        None
    }
}

impl Backend {
    /// The name of this backend as native text.
    pub fn native_name(&self) -> (r: Vec<u8>)
        ensures
            r@ == backend_bytes(*self),
    {
        let r = match self {
            Backend::Cpu => vec![0x63u8, 0x70u8, 0x75u8],
            Backend::Gpu => vec![0x67u8, 0x70u8, 0x75u8],
        };
        assert(r@ =~= backend_bytes(*self));
        r
    }

    /// The backend that a native name stands for; `None` for any other text.
    pub fn from_native_name(t: &[u8]) -> (r: Option<Backend>)
        ensures
            r == backend_of_bytes(t@),
    {
        if t.len() != 3 || t[1] != 0x70u8 || t[2] != 0x75u8 {
            assert(t@ != backend_bytes(Backend::Cpu));
            assert(t@ != backend_bytes(Backend::Gpu));
            None
        } else if t[0] == 0x63u8 {
            assert(t@ =~= backend_bytes(Backend::Cpu));
            Some(Backend::Cpu)
        } else if t[0] == 0x67u8 {
            assert(t@ =~= backend_bytes(Backend::Gpu));
            Some(Backend::Gpu)
        } else {
            assert(t@ != backend_bytes(Backend::Cpu));
            assert(t@ != backend_bytes(Backend::Gpu));
            None
        }
    }

    /// The name of this backend as the native side expects it.
    pub fn as_str(&self) -> (r: &'static str)
        ensures
            r@ == backend_text(*self),
    {
        match self {
            Backend::Cpu => {
                let s = "cpu";
                proof {
                    reveal_strlit("cpu");
                }
                assert(s@ =~= backend_text(Backend::Cpu));
                s
            },
            Backend::Gpu => {
                let s = "gpu";
                proof {
                    reveal_strlit("gpu");
                }
                assert(s@ =~= backend_text(Backend::Gpu));
                s
            },
        }
    }
}

} // verus!

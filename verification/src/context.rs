//! Which OpenGL functionality is available: the checks behind the version tokens.
//!
//! Whether a GL function is loaded is asked of the loader by the application layer; the
//! answers are handed to these checks in the order of the lists below.

use vstd::prelude::*;
use crate::glenum::GLError;

verus! {

/// The index of the first function in `loaded` that is not loaded, if any.
pub open spec fn first_not_loaded(loaded: Seq<bool>) -> Option<int>
    decreases loaded.len(),
{
    if loaded.len() == 0 {
        None
    } else if !loaded[0] {
        Some(0)
    } else {
        match first_not_loaded(loaded.drop_first()) {
            Some(k) => Some(k + 1),
            None => None,
        }
    }
}

proof fn lemma_first_not_loaded(loaded: Seq<bool>)
    ensures
        first_not_loaded(loaded) matches Some(k) ==> 0 <= k < loaded.len() && !loaded[k]
            && forall|j: int| 0 <= j < k ==> #[trigger] loaded[j],
        first_not_loaded(loaded) is None ==> forall|j: int| 0 <= j < loaded.len() ==> #[trigger] loaded[j],
    decreases loaded.len(),
{
    if loaded.len() > 0 {
        lemma_first_not_loaded(loaded.drop_first());
        if loaded[0] {
            assert forall|j: int| 1 <= j < loaded.len() implies loaded[j] == loaded.drop_first()[j - 1] by {}
        }
    }
}

/// Checks that the functions `names` are all loaded, `loaded[i]` telling whether
/// `names[i]` is; the error names the first one that is not.
pub fn check_loaded(names: &[&'static str], loaded: &[bool]) -> (r: Result<(), GLError>)
    requires
        names@.len() == loaded@.len(),
    ensures
        match first_not_loaded(loaded@) {
            None => r is Ok,
            Some(k) => r == Err::<(), GLError>(GLError::FunctionNotLoaded(names@[k])),
        },
{
    proof {
        lemma_first_not_loaded(loaded@);
    }
    let mut i: usize = 0;
    while i < loaded.len()
        invariant
            names@.len() == loaded@.len(),
            i <= loaded@.len(),
            forall|j: int| 0 <= j < i ==> #[trigger] loaded@[j],
            first_not_loaded(loaded@) matches Some(k) ==> 0 <= k < loaded@.len() && !loaded@[k]
                && forall|j: int| 0 <= j < k ==> #[trigger] loaded@[j],
            first_not_loaded(loaded@) is None ==> forall|j: int| 0 <= j < loaded@.len() ==> #[trigger] loaded@[j],
        decreases loaded@.len() - i,
    {
        if !loaded[i] {
            return Err(GLError::FunctionNotLoaded(names[i]));
        }
        i = i + 1;
    }
    Ok(())
}

/// The functions that a `GL2` token guarantees.
pub open spec fn gl2_functions() -> Seq<&'static str> {
    seq![
        "glGenBuffers",
        "glBindBuffer",
        "glDeleteBuffers",
        "glGetBufferParameteriv",
        "glBufferData",
        "glBufferSubData",
        "glGetBufferSubData",
        "glCopyBufferSubData",
        "glMapBuffer",
        "glUnmapBuffer",
    ]
}

/// The functions that a `GL3` token adds.
pub open spec fn gl3_functions() -> Seq<&'static str> {
    seq!["glMapBuffer", "glUnmapBuffer"]
}

/// The functions that a `GL4` token adds.
pub open spec fn gl4_functions() -> Seq<&'static str> {
    seq!["glBufferStorage", "glMapBufferRange"]
}

/// Proof that a GL context is current.
pub struct GLProvider {
    _private: (),
}

/// Proof that the buffer functions of OpenGL 2 are loaded.
pub struct GL2 {
    _private: (),
}

/// Proof that the buffer mapping functions are loaded.
pub struct GL3 {
    _private: (),
}

/// Proof that immutable buffer storage is available.
pub struct GL4 {
    _private: (),
}

impl GLProvider {
    /// A provider when `glFinish` is loaded: if it is not, nothing is assumed to be.
    pub fn get_current(finish_loaded: bool) -> (r: Result<GLProvider, ()>)
        ensures
            r is Ok <==> finish_loaded,
    {
        if finish_loaded {
            Ok(GLProvider { _private: () })
        } else {
            Err(())
        }
    }

    /// A `GL2` token when every function of `gl2_functions()` is loaded.
    pub fn upgrade(&self, loaded: &[bool]) -> (r: Result<GL2, GLError>)
        requires
            loaded@.len() == gl2_functions().len(),
        ensures
            match first_not_loaded(loaded@) {
                None => r is Ok,
                Some(k) => r matches Err(GLError::FunctionNotLoaded(n)) && n == gl2_functions()[k],
            },
    {
        let names: [&'static str; 10] = [
            "glGenBuffers",
            "glBindBuffer",
            "glDeleteBuffers",
            "glGetBufferParameteriv",
            "glBufferData",
            "glBufferSubData",
            "glGetBufferSubData",
            "glCopyBufferSubData",
            "glMapBuffer",
            "glUnmapBuffer",
        ];
        assert(names@ =~= gl2_functions());
        match check_loaded(names.as_slice(), loaded) {
            Ok(()) => Ok(GL2 { _private: () }),
            Err(e) => Err(e),
        }
    }
}

impl GL2 {
    /// A `GL3` token when every function of `gl3_functions()` is loaded.
    pub fn upgrade(&self, loaded: &[bool]) -> (r: Result<GL3, GLError>)
        requires
            loaded@.len() == gl3_functions().len(),
        ensures
            match first_not_loaded(loaded@) {
                None => r is Ok,
                Some(k) => r matches Err(GLError::FunctionNotLoaded(n)) && n == gl3_functions()[k],
            },
    {
        let names: [&'static str; 2] = ["glMapBuffer", "glUnmapBuffer"];
        assert(names@ =~= gl3_functions());
        match check_loaded(names.as_slice(), loaded) {
            Ok(()) => Ok(GL3 { _private: () }),
            Err(e) => Err(e),
        }
    }
}

impl GL3 {
    /// The weaker token.
    pub fn as_gl2(&self) -> GL2 {
        GL2 { _private: () }
    }

    /// A `GL4` token when every function of `gl4_functions()` is loaded.
    pub fn upgrade(&self, loaded: &[bool]) -> (r: Result<GL4, GLError>)
        requires
            loaded@.len() == gl4_functions().len(),
        ensures
            match first_not_loaded(loaded@) {
                None => r is Ok,
                Some(k) => r matches Err(GLError::FunctionNotLoaded(n)) && n == gl4_functions()[k],
            },
    {
        let names: [&'static str; 2] = ["glBufferStorage", "glMapBufferRange"];
        assert(names@ =~= gl4_functions());
        match check_loaded(names.as_slice(), loaded) {
            Ok(()) => Ok(GL4 { _private: () }),
            Err(e) => Err(e),
        }
    }
}

impl GL4 {
    /// The weaker token.
    pub fn as_gl2(&self) -> GL2 {
        GL2 { _private: () }
    }

    /// The weaker token.
    pub fn as_gl3(&self) -> GL3 {
        GL3 { _private: () }
    }
}

/// The global state of the GL, held by one owner so that settings and bind points are
/// borrowed like Rust values.
pub struct Context {
    _private: (),
}

impl Context {
    /// The context of a loaded GL.
    pub fn init(gl: &GLProvider) -> Context {
        Context { _private: () }
    }
}

} // verus!

use vstd::prelude::*;
use vstd::string::*;
use crate::error::OglError;

verus! {

/// The shader program of the current demo: the vertex and fragment sources it was last
/// built from, and the linked program once a build succeeded.
pub struct ProgramState {
    v_src: String,
    f_src: String,
    program: Option<u32>,
}

/// What a program state holds.
pub struct ProgramView {
    pub vertex_source: Seq<char>,
    pub fragment_source: Seq<char>,
    pub program: Option<u32>,
}

impl View for ProgramState {
    type V = ProgramView;

    closed spec fn view(&self) -> ProgramView {
        ProgramView { vertex_source: self.v_src@, fragment_source: self.f_src@, program: self.program }
    }
}

/// The source a build uses: the one given, or else the one used last.
pub open spec fn chosen_source(given: Option<&str>, last: Seq<char>) -> Seq<char> {
    match given {
        Some(s) => s@,
        None => last,
    }
}

impl ProgramState {
    /// No sources and no program yet.
    pub fn new() -> (r: ProgramState)
        ensures
            r@.vertex_source == Seq::<char>::empty(),
            r@.fragment_source == Seq::<char>::empty(),
            r@.program is None,
    {
        ProgramState { v_src: String::new(), f_src: String::new(), program: None }
    }

    /// Takes the sources for the next build: each one given replaces the stored one, each
    /// one left out is reused from the last build.
    pub fn select_sources(&mut self, v_src: Option<&str>, f_src: Option<&str>)
        ensures
            final(self)@ == (ProgramView {
                vertex_source: chosen_source(v_src, old(self)@.vertex_source),
                fragment_source: chosen_source(f_src, old(self)@.fragment_source),
                program: old(self)@.program,
            }),
    {
        if let Some(s) = v_src {
            self.v_src = String::from_str(s);
        }
        if let Some(s) = f_src {
            self.f_src = String::from_str(s);
        }
    }

    /// The vertex source of the next build.
    pub fn vertex_source(&self) -> (r: &str)
        ensures
            r@ == self@.vertex_source,
    {
        self.v_src.as_str()
    }

    /// The fragment source of the next build.
    pub fn fragment_source(&self) -> (r: &str)
        ensures
            r@ == self@.fragment_source,
    {
        self.f_src.as_str()
    }

    /// Records a successfully linked program, which replaces the previous one.
    pub fn install(&mut self, program: u32)
        ensures
            final(self)@ == (ProgramView { program: Some(program), ..old(self)@ }),
    {
        self.program = Some(program);
    }

    /// The linked program, if a build succeeded.
    pub fn program(&self) -> (r: Option<u32>)
        ensures
            r == self@.program,
    {
        self.program
    }

    /// The linked program that drawing needs; `InvalidData` when none was built.
    pub fn require_program(&self) -> (r: Result<u32, OglError>)
        ensures
            match self@.program {
                Some(p) => r == Ok::<u32, OglError>(p),
                None => r == Err::<u32, OglError>(OglError::InvalidData),
            },
    {
        match self.program {
            Some(p) => Ok(p),
            None => Err(OglError::InvalidData),
        }
    }
}

/// Whether a compile or link status reports success: any value but 0.
pub fn build_succeeded(status: i32) -> (r: bool)
    ensures
        r == (status != 0),
{
    status != 0
}

/// A uniform location as the GPU reports it: a negative value means that the name is not
/// an active uniform, which is no error.
pub fn found_location(raw: i32) -> (r: Option<i32>)
    ensures
        raw >= 0 ==> r == Some(raw),
        raw < 0 ==> r is None,
{
    if raw >= 0 {
        Some(raw)
    } else {
        None
    }
}

/// A location that a demo cannot draw without; `Unexpected` when it was not found.
pub fn required_location(loc: Option<i32>) -> (r: Result<i32, OglError>)
    ensures
        match loc {
            Some(l) => r == Ok::<i32, OglError>(l),
            None => r == Err::<i32, OglError>(OglError::Unexpected),
        },
{
    match loc {
        Some(l) => Ok(l),
        None => Err(OglError::Unexpected),
    }
}

} // verus!

//! The decisions of building a program: which driver action comes next, and
//! what a compile or link status means. The caller performs each action on the
//! graphics driver and reports its outcome.
use vstd::prelude::*;

use crate::preprocess::{assemble_source, assembled, header_text, joined, views, Platform};

verus! {

/// A stage of a program.
#[derive(Clone, Copy, Debug, PartialEq, Eq, Structural)]
pub enum Stage {
    Vertex,
    Fragment,
}

/// Why a program could not be built.
#[derive(Clone, Debug)]
pub enum ShaderError {
    /// A source file could not be read; carries the reader's message.
    Io { message: String },
    /// The driver's compiler rejected a stage; carries its log verbatim.
    Compile { stage: Stage, log: String },
    /// The driver's linker rejected the program; carries its log verbatim.
    Link { log: String },
}

/// A linked program, identified by the driver's handle.
#[derive(Debug)]
pub struct Shader {
    id: u32,
}

impl Shader {
    /// The driver handle of the linked program.
    pub closed spec fn handle(&self) -> u32 {
        self.id
    }

    /// The driver handle of the linked program.
    pub fn id(&self) -> (r: u32)
        ensures
            r == self.handle(),
    {
        self.id
    }
}

/// What the driver is asked to do next.
#[derive(Debug)]
pub enum BuildStep {
    /// Create a stage object of this kind, upload `source`, compile it.
    Compile { stage: Stage, source: String },
    /// Create a program, attach both stage objects, link it.
    Link { vertex: u32, fragment: u32 },
    /// The build is over: delete the stage objects in `release`, hand out `result`.
    Finished { result: Result<Shader, ShaderError>, release: Vec<u32> },
}

/// `step` asks to compile `source` as a stage of kind `stage`.
pub open spec fn compiles(step: BuildStep, stage: Stage, source: Seq<char>) -> bool {
    match step {
        BuildStep::Compile { stage: s, source: t } => s == stage && t@ == source,
        _ => false,
    }
}

/// `step` asks to link the two stage objects.
pub open spec fn links(step: BuildStep, vertex: u32, fragment: u32) -> bool {
    match step {
        BuildStep::Link { vertex: v, fragment: f } => v == vertex && f == fragment,
        _ => false,
    }
}

/// `step` ends the build with the program `program`, releasing `release`.
pub open spec fn built(step: BuildStep, program: u32, release: Seq<u32>) -> bool {
    match step {
        BuildStep::Finished { result: Ok(shader), release: r } => shader.handle() == program
            && r@ == release,
        _ => false,
    }
}

/// `step` ends the build with a compile error of `stage` carrying `log`,
/// releasing nothing.
pub open spec fn compile_failed(step: BuildStep, stage: Stage, log: Seq<char>) -> bool {
    match step {
        BuildStep::Finished { result: Err(ShaderError::Compile { stage: s, log: l }), release } =>
            s == stage && l@ == log && release@.len() == 0,
        _ => false,
    }
}

/// `step` ends the build with a link error carrying `log`, releasing the
/// stage objects `release`.
pub open spec fn link_failed(step: BuildStep, log: Seq<char>, release: Seq<u32>) -> bool {
    match step {
        BuildStep::Finished { result: Err(ShaderError::Link { log: l }), release: r } => l@ == log
            && r@ == release,
        _ => false,
    }
}

/// The stage compiled in `phase`.
pub open spec fn stage_of(phase: BuildPhase) -> Stage {
    if phase == BuildPhase::CompilingVertex {
        Stage::Vertex
    } else {
        Stage::Fragment
    }
}

/// Where a build stands.
#[derive(Clone, Copy, Debug, PartialEq, Eq, Structural)]
pub enum BuildPhase {
    /// The vertex stage is being compiled.
    CompilingVertex,
    /// The fragment stage is being compiled; the vertex stage compiled.
    CompilingFragment,
    /// Both stages compiled; the program is being linked.
    Linking,
    /// The build has finished, with a program or an error.
    Done,
}

/// A build in progress.
pub struct ShaderBuild {
    fragment_source: String,
    vertex: u32,
    fragment: u32,
    phase: BuildPhase,
}

impl ShaderBuild {
    pub closed spec fn phase_spec(&self) -> BuildPhase {
        self.phase
    }

    /// The assembled fragment source, still to be compiled.
    pub closed spec fn fragment_text(&self) -> Seq<char> {
        self.fragment_source@
    }

    /// The vertex stage handle, once it compiled.
    pub closed spec fn vertex_handle(&self) -> u32 {
        self.vertex
    }

    /// The fragment stage handle, once it compiled.
    pub closed spec fn fragment_handle(&self) -> u32 {
        self.fragment
    }

    /// Where the build stands.
    pub fn phase(&self) -> (r: BuildPhase)
        ensures
            r == self.phase_spec(),
    {
        self.phase
    }

    /// Starts a build: both sources are assembled for `platform` with `defs`,
    /// and the first step compiles the vertex stage.
    pub fn start(platform: Platform, defs: &Vec<&str>, vertex_source: &str, fragment_source: &str)
        -> (r: (ShaderBuild, BuildStep))
        ensures
            r.0.phase_spec() == BuildPhase::CompilingVertex,
            r.0.fragment_text() == assembled(
                header_text(platform),
                joined(views(defs@)),
                fragment_source@,
            ),
            compiles(
                r.1,
                Stage::Vertex,
                assembled(header_text(platform), joined(views(defs@)), vertex_source@),
            ),
    {
        let vertex_text = assemble_source(platform, defs, vertex_source);
        let fragment_text = assemble_source(platform, defs, fragment_source);
        let build = ShaderBuild {
            fragment_source: fragment_text,
            vertex: 0,
            fragment: 0,
            phase: BuildPhase::CompilingVertex,
        };
        (build, BuildStep::Compile { stage: Stage::Vertex, source: vertex_text })
    }

    /// Takes in the outcome of the compile step: the stage object `handle`, the
    /// driver's compile status `ok`, and its log. A failed stage ends the build
    /// with a compile error of that stage; its object is not released.
    pub fn stage_compiled(&mut self, handle: u32, ok: bool, log: String) -> (r: BuildStep)
        requires
            old(self).phase_spec() == BuildPhase::CompilingVertex
                || old(self).phase_spec() == BuildPhase::CompilingFragment,
        ensures
            !ok ==> final(self).phase_spec() == BuildPhase::Done,
            !ok ==> compile_failed(r, stage_of(old(self).phase_spec()), log@),
            ok && old(self).phase_spec() == BuildPhase::CompilingVertex ==> {
                &&& final(self).phase_spec() == BuildPhase::CompilingFragment
                &&& final(self).vertex_handle() == handle
                &&& final(self).fragment_text() == old(self).fragment_text()
                &&& compiles(r, Stage::Fragment, old(self).fragment_text())
            },
            ok && old(self).phase_spec() == BuildPhase::CompilingFragment ==> {
                &&& final(self).phase_spec() == BuildPhase::Linking
                &&& final(self).vertex_handle() == old(self).vertex_handle()
                &&& final(self).fragment_handle() == handle
                &&& links(r, old(self).vertex_handle(), handle)
            },
    {
        let stage = if self.phase == BuildPhase::CompilingVertex {
            Stage::Vertex
        } else {
            Stage::Fragment
        };
        if !ok {
            self.phase = BuildPhase::Done;
            return BuildStep::Finished {
                result: Err(ShaderError::Compile { stage, log }),
                release: Vec::new(),
            };
        }
        match stage {
            Stage::Vertex => {
                self.vertex = handle;
                self.phase = BuildPhase::CompilingFragment;
                BuildStep::Compile { stage: Stage::Fragment, source: self.fragment_source.clone() }
            },
            Stage::Fragment => {
                self.fragment = handle;
                self.phase = BuildPhase::Linking;
                BuildStep::Link { vertex: self.vertex, fragment: self.fragment }
            },
        }
    }

    /// Takes in the outcome of the link step: the program object, the driver's
    /// link status `ok`, and its log. Either way both stage objects are released;
    /// on success the program is handed out, on failure the build ends with a
    /// link error.
    pub fn program_linked(&mut self, program: u32, ok: bool, log: String) -> (r: BuildStep)
        requires
            old(self).phase_spec() == BuildPhase::Linking,
        ensures
            final(self).phase_spec() == BuildPhase::Done,
            ok ==> built(r, program, seq![old(self).vertex_handle(), old(self).fragment_handle()]),
            !ok ==> link_failed(r, log@, seq![old(self).vertex_handle(), old(self).fragment_handle()]),
    {
        self.phase = BuildPhase::Done;
        let release = vec![self.vertex, self.fragment];
        if ok {
            BuildStep::Finished { result: Ok(Shader { id: program }), release }
        } else {
            BuildStep::Finished { result: Err(ShaderError::Link { log }), release }
        }
    }
}

} // verus!

//! Shader programs and the setting of their uniforms.

use vstd::prelude::*;
use super::command::{Command, CommandView, ObjectKind, UniformValue};
use super::device::Device;
use super::gl;
use super::{RenderError, Renderer, Status};

verus! {

/// The vertex stage of the program that draws a framebuffer: it passes the
/// position, the color and the texture coordinate of a vertex on.
pub const VS: &'static str = "#version 450 core\n\
layout (location = 0) in vec3 position;\n\
layout (location = 1) in vec3 color;\n\
layout (location = 2) in vec2 uv;\n\
out vec3 v_color;\n\
out vec2 v_uv;\n\
void main() {\n\
v_color = color;\n\
v_uv = uv;\n\
gl_Position = vec4(position, 1.0);\n\
}\n";

/// The fragment stage of the program that draws a framebuffer: it copies
/// the texture at unit 0.
pub const FB_FS: &'static str = "#version 450 core\n\
in vec3 v_color;\n\
in vec2 v_uv;\n\
out vec4 frag_color;\n\
layout (binding = 0) uniform sampler2D screen;\n\
void main() {\n\
frag_color = texture(screen, v_uv);\n\
}\n";

/// The commands that compile one stage under the name `shader`.
pub open spec fn stage_commands(shader: u32, stage: u32, name: Seq<char>, source: Seq<char>) -> Seq<
    CommandView,
> {
    seq![
        Command::CreateShader { name: shader, stage },
        Command::ShaderSource { shader, source },
        Command::CompileShader { shader },
        Command::CheckCompiled { shader, name, source },
    ]
}

/// The commands that build a program of a vertex and a fragment stage under
/// the name `first`; the stages take the two names after it.
pub open spec fn program_commands(
    first: u32,
    vs: Seq<char>,
    vs_name: Seq<char>,
    fs: Seq<char>,
    fs_name: Seq<char>,
) -> Seq<CommandView> {
    let v = (first + 1) as u32;
    let f = (first + 2) as u32;
    seq![Command::CreateObject { kind: ObjectKind::Program, name: first }] + stage_commands(
        v,
        gl::VERTEX_SHADER,
        vs_name,
        vs,
    ) + stage_commands(f, gl::FRAGMENT_SHADER, fs_name, fs) + seq![
        Command::AttachShader { program: first, shader: v },
        Command::AttachShader { program: first, shader: f },
        Command::LinkProgram { program: first },
        Command::CheckLinked { program: first },
        Command::DetachShader { program: first, shader: v },
        Command::DetachShader { program: first, shader: f },
        Command::DeleteObject { kind: ObjectKind::Shader, name: v },
        Command::DeleteObject { kind: ObjectKind::Shader, name: f },
    ]
}

/// The commands that build a program of one compute stage under the name
/// `first`; the stage takes the name after it.
pub open spec fn compute_commands(first: u32, cs: Seq<char>, cs_name: Seq<char>) -> Seq<
    CommandView,
> {
    let c = (first + 1) as u32;
    seq![Command::CreateObject { kind: ObjectKind::Program, name: first }] + stage_commands(
        c,
        gl::COMPUTE_SHADER,
        cs_name,
        cs,
    ) + seq![
        Command::AttachShader { program: first, shader: c },
        Command::LinkProgram { program: first },
        Command::CheckLinked { program: first },
        Command::DetachShader { program: first, shader: c },
        Command::DeleteObject { kind: ObjectKind::Shader, name: c },
    ]
}

/// Compile the stage `stage` from `src`. That it compiles is checked when
/// the commands are performed; if it does not, that is fatal.
fn compile_stage(renderer: &mut Renderer, name: &str, stage: u32, src: &str) -> (shader: u32)
    requires
        old(renderer).wf(),
        old(renderer).status().current,
        old(renderer).names_left() >= 1,
    ensures
        shader == old(renderer).status().next_name,
        final(renderer).after(
            old(renderer),
            Status { next_name: (shader + 1) as u32, ..old(renderer).status() },
            stage_commands(shader, stage, name@, src@),
        ),
        final(renderer).device() == (Device {
            objects: old(renderer).device().objects.insert(shader, ObjectKind::Shader),
            ..old(renderer).device()
        }),
{
    let shader = renderer.create_shader(stage);
    renderer.issue(Command::ShaderSource { shader, source: src.to_owned() });
    renderer.issue(Command::CompileShader { shader });
    renderer.issue(Command::CheckCompiled { shader, name: name.to_owned(), source: src.to_owned() });
    assert(renderer.history() =~= old(renderer).history() + stage_commands(
        shader,
        stage,
        name@,
        src@,
    ));
    assert(renderer.pending() =~= old(renderer).pending() + stage_commands(
        shader,
        stage,
        name@,
        src@,
    ));
    shader
}

/// Build a program of a vertex and a fragment stage. That the stages
/// compile and the program links is checked when the commands are
/// performed; if they do not, that is fatal.
pub(crate) fn build_program(
    renderer: &mut Renderer,
    vs: &str,
    vs_name: &str,
    fs: &str,
    fs_name: &str,
) -> (program: u32)
    requires
        old(renderer).wf(),
        old(renderer).status().current,
        old(renderer).names_left() >= 3,
    ensures
        program == old(renderer).status().next_name,
        final(renderer).after(
            old(renderer),
            Status { next_name: (program + 3) as u32, ..old(renderer).status() },
            program_commands(program, vs@, vs_name@, fs@, fs_name@),
        ),
        final(renderer).device() == (Device {
            objects: old(renderer).device().objects.insert(program, ObjectKind::Program),
            stores: old(renderer).device().stores.remove((program + 1) as u32).remove(
                (program + 2) as u32,
            ),
            ..old(renderer).device()
        }),
{
    let program = renderer.create(ObjectKind::Program);
    let vs_shader = compile_stage(renderer, vs_name, gl::VERTEX_SHADER, vs);
    let fs_shader = compile_stage(renderer, fs_name, gl::FRAGMENT_SHADER, fs);
    renderer.issue(Command::AttachShader { program, shader: vs_shader });
    renderer.issue(Command::AttachShader { program, shader: fs_shader });
    renderer.issue(Command::LinkProgram { program });
    renderer.issue(Command::CheckLinked { program });
    renderer.issue(Command::DetachShader { program, shader: vs_shader });
    renderer.issue(Command::DetachShader { program, shader: fs_shader });
    renderer.delete(ObjectKind::Shader, vs_shader);
    renderer.delete(ObjectKind::Shader, fs_shader);
    proof {
        let cs = program_commands(program, vs@, vs_name@, fs@, fs_name@);
        assert(renderer.history() =~= old(renderer).history() + cs);
        assert(renderer.pending() =~= old(renderer).pending() + cs);
        assert(renderer.device().objects =~= old(renderer).device().objects.insert(
            program,
            ObjectKind::Program,
        ));
    }
    program
}

/// `a` as a vector.
fn words<const N: usize>(a: &[u32; N]) -> (v: Vec<u32>)
    ensures
        v@ == a@,
{
    let mut v: Vec<u32> = Vec::new();
    let mut i: usize = 0;
    while i < N
        invariant
            i <= N,
            v@ == a@.take(i as int),
        decreases N - i,
    {
        v.push(a[i]);
        assert(a@.take(i + 1) =~= a@.take(i as int).push(a@[i as int]));
        i += 1;
    }
    assert(a@.take(N as int) =~= a@);
    v
}

/// The means to set the uniforms of the program that is bound.
///
/// A floating-point value is given as its IEEE-754 bit pattern. A name that
/// the program does not have is passed over when the command is performed.
pub struct UniformInterface {
    program: u32,
}

impl UniformInterface {
    /// The program whose uniforms are set.
    pub closed spec fn program(&self) -> u32 {
        self.program
    }

    /// What setting `name` to `value` does to `before`.
    pub open spec fn sets(
        &self,
        before: &Renderer,
        after: &Renderer,
        name: Seq<char>,
        value: UniformValue<Seq<u32>>,
    ) -> bool {
        &&& after.after(
            before,
            before.status(),
            seq![Command::SetUniform { program: self.program(), name, value }],
        )
        &&& after.device() == before.device()
    }

    /// Queue the setting of `name` to `value`.
    fn set(&self, renderer: &mut Renderer, name: &str, value: UniformValue<Vec<u32>>)
        requires
            old(renderer).wf(),
            old(renderer).status().current,
        ensures
            self.sets(old(renderer), final(renderer), name@, value@),
    {
        renderer.issue(Command::SetUniform { program: self.program, name: name.to_owned(), value });
    }

    /// Set a floating-point uniform.
    pub fn set_f32(&self, renderer: &mut Renderer, name: &str, val: u32)
        requires
            old(renderer).wf(),
            old(renderer).status().current,
        ensures
            self.sets(old(renderer), final(renderer), name@, UniformValue::F32(val)),
    {
        self.set(renderer, name, UniformValue::F32(val));
    }

    /// Set a uniform of two floating-point components.
    pub fn set_vec2(&self, renderer: &mut Renderer, name: &str, val: [u32; 2])
        requires
            old(renderer).wf(),
            old(renderer).status().current,
        ensures
            self.sets(old(renderer), final(renderer), name@, UniformValue::Vec2(val[0], val[1])),
    {
        self.set(renderer, name, UniformValue::Vec2(val[0], val[1]));
    }

    /// Set a uniform of three floating-point components.
    pub fn set_vec3(&self, renderer: &mut Renderer, name: &str, val: [u32; 3])
        requires
            old(renderer).wf(),
            old(renderer).status().current,
        ensures
            self.sets(
                old(renderer),
                final(renderer),
                name@,
                UniformValue::Vec3(val[0], val[1], val[2]),
            ),
    {
        self.set(renderer, name, UniformValue::Vec3(val[0], val[1], val[2]));
    }

    /// Set a uniform of four floating-point components.
    pub fn set_vec4(&self, renderer: &mut Renderer, name: &str, val: [u32; 4])
        requires
            old(renderer).wf(),
            old(renderer).status().current,
        ensures
            self.sets(
                old(renderer),
                final(renderer),
                name@,
                UniformValue::Vec4(val[0], val[1], val[2], val[3]),
            ),
    {
        self.set(renderer, name, UniformValue::Vec4(val[0], val[1], val[2], val[3]));
    }

    /// Set an unsigned integer uniform.
    pub fn set_u32(&self, renderer: &mut Renderer, name: &str, val: u32)
        requires
            old(renderer).wf(),
            old(renderer).status().current,
        ensures
            self.sets(old(renderer), final(renderer), name@, UniformValue::U32(val)),
    {
        self.set(renderer, name, UniformValue::U32(val));
    }

    /// Set a uniform of two unsigned integer components.
    pub fn set_uvec2(&self, renderer: &mut Renderer, name: &str, val: [u32; 2])
        requires
            old(renderer).wf(),
            old(renderer).status().current,
        ensures
            self.sets(old(renderer), final(renderer), name@, UniformValue::UVec2(val[0], val[1])),
    {
        self.set(renderer, name, UniformValue::UVec2(val[0], val[1]));
    }

    /// Set a uniform of three unsigned integer components.
    pub fn set_uvec3(&self, renderer: &mut Renderer, name: &str, val: [u32; 3])
        requires
            old(renderer).wf(),
            old(renderer).status().current,
        ensures
            self.sets(
                old(renderer),
                final(renderer),
                name@,
                UniformValue::UVec3(val[0], val[1], val[2]),
            ),
    {
        self.set(renderer, name, UniformValue::UVec3(val[0], val[1], val[2]));
    }

    /// Set a uniform of four unsigned integer components.
    pub fn set_uvec4(&self, renderer: &mut Renderer, name: &str, val: [u32; 4])
        requires
            old(renderer).wf(),
            old(renderer).status().current,
        ensures
            self.sets(
                old(renderer),
                final(renderer),
                name@,
                UniformValue::UVec4(val[0], val[1], val[2], val[3]),
            ),
    {
        self.set(renderer, name, UniformValue::UVec4(val[0], val[1], val[2], val[3]));
    }

    /// Set a uniform matrix of two columns and two rows.
    pub fn set_mat2(&self, renderer: &mut Renderer, name: &str, val: [u32; 4])
        requires
            old(renderer).wf(),
            old(renderer).status().current,
        ensures
            self.sets(old(renderer), final(renderer), name@, UniformValue::Mat2(val@)),
    {
        self.set(renderer, name, UniformValue::Mat2(words(&val)));
    }

    /// Set a uniform matrix of three columns and three rows.
    pub fn set_mat3(&self, renderer: &mut Renderer, name: &str, val: [u32; 9])
        requires
            old(renderer).wf(),
            old(renderer).status().current,
        ensures
            self.sets(old(renderer), final(renderer), name@, UniformValue::Mat3(val@)),
    {
        self.set(renderer, name, UniformValue::Mat3(words(&val)));
    }

    /// Set a uniform matrix of four columns and four rows.
    pub fn set_mat4(&self, renderer: &mut Renderer, name: &str, val: [u32; 16])
        requires
            old(renderer).wf(),
            old(renderer).status().current,
        ensures
            self.sets(old(renderer), final(renderer), name@, UniformValue::Mat4(val@)),
    {
        self.set(renderer, name, UniformValue::Mat4(words(&val)));
    }
}

impl Renderer {
    /// Whether `self` is `before` with `program` put in use.
    pub open spec fn bound_to(&self, before: &Renderer, program: u32) -> bool {
        &&& self.after(
            before,
            Status { shader_bound: true, ..before.status() },
            seq![Command::UseProgram { program: Some(program) }],
        )
        &&& self.device() == (Device { program: Some(program), ..before.device() })
    }

    /// Whether `self` is `before` with no program in use: `before` itself
    /// where none was bound.
    pub open spec fn released_from(&self, before: &Renderer) -> bool {
        if before.status().shader_bound {
            &&& self.after(
                before,
                Status { shader_bound: false, ..before.status() },
                seq![Command::UseProgram { program: None }],
            )
            &&& self.device() == (Device { program: None, ..before.device() })
        } else {
            &&& self.after(before, before.status(), Seq::empty())
            &&& self.device() == before.device()
        }
    }
}

/// Put `program` in use.
fn bind_program(renderer: &mut Renderer, program: u32)
    requires
        old(renderer).wf(),
        old(renderer).status().current,
    ensures
        final(renderer).bound_to(old(renderer), program),
{
    renderer.use_program(Some(program));
}

/// Put no program in use. Where none is bound, nothing is done.
fn unbind_program(renderer: &mut Renderer)
    requires
        old(renderer).wf(),
        old(renderer).status().current,
    ensures
        final(renderer).released_from(old(renderer)),
{
    if renderer.shader_bound() {
        renderer.use_program(None);
    } else {
        assert(renderer.history() + Seq::<CommandView>::empty() =~= renderer.history());
        assert(renderer.pending() + Seq::<CommandView>::empty() =~= renderer.pending());
    }
}

/// Run `f` while `program` is bound, and release the program whatever `f`
/// gives back.
fn scoped<R, F: FnOnce(&mut Renderer, UniformInterface) -> R>(
    program: u32,
    renderer: &mut Renderer,
    f: F,
) -> (res: R)
    requires
        old(renderer).wf(),
        old(renderer).status().current,
        forall|r: &mut Renderer, u: UniformInterface|
            r.bound_to(old(renderer), program) && u.program() == program ==> call_requires(
                f,
                (r, u),
            ),
        forall|r: &mut Renderer, u: UniformInterface, out: R| #[trigger]
            call_ensures(f, (r, u), out) ==> final(r).wf() && final(r).status().current,
    ensures
        final(renderer).wf(),
        final(renderer).status().current,
        !final(renderer).status().shader_bound,
        exists|r: &mut Renderer, u: UniformInterface|
            r.bound_to(old(renderer), program) && u.program() == program && #[trigger] call_ensures(
                f,
                (r, u),
                res,
            ) && final(renderer).released_from(final(r)),
{
    bind_program(renderer, program);
    let uni = UniformInterface { program };
    let res = f(renderer, uni);
    unbind_program(renderer);
    res
}

/// A program of a vertex and a fragment stage.
pub struct Shader {
    program: u32,
}

impl Shader {
    /// The name of the program.
    pub closed spec fn program(&self) -> u32 {
        self.program
    }

    /// Build a program from the source of a vertex stage and of a fragment
    /// stage, each given with the name that diagnostics call it by. That
    /// the stages compile and the program links is checked when the commands
    /// are performed; if they do not, that is fatal.
    pub fn new(renderer: &mut Renderer, vertex: (&str, &str), fragment: (&str, &str)) -> (shader:
        Shader)
        requires
            old(renderer).wf(),
            old(renderer).status().current,
            old(renderer).names_left() >= 3,
        ensures
            shader.program() == old(renderer).status().next_name,
            final(renderer).after(
                old(renderer),
                Status {
                    next_name: (old(renderer).status().next_name + 3) as u32,
                    ..old(renderer).status()
                },
                program_commands(
                    shader.program(),
                    vertex.0@,
                    vertex.1@,
                    fragment.0@,
                    fragment.1@,
                ),
            ),
            final(renderer).device() == (Device {
                objects: old(renderer).device().objects.insert(
                    shader.program(),
                    ObjectKind::Program,
                ),
                stores: old(renderer).device().stores.remove(
                    (shader.program() + 1) as u32,
                ).remove((shader.program() + 2) as u32),
                ..old(renderer).device()
            }),
            final(renderer).device().has(ObjectKind::Program, shader.program()),
    {
        let program = build_program(renderer, vertex.0, vertex.1, fragment.0, fragment.1);
        Shader { program }
    }

    /// The program that draws a framebuffer when no other is bound.
    pub(crate) fn fallback(renderer: &Renderer) -> (shader: Shader)
        ensures
            shader.program() == renderer.status().fallback,
    {
        Shader { program: renderer.fallback() }
    }

    /// Bind the program.
    pub fn bind(&self, renderer: &mut Renderer)
        requires
            old(renderer).wf(),
            old(renderer).status().current,
        ensures
            final(renderer).bound_to(old(renderer), self.program()),
    {
        bind_program(renderer, self.program);
    }

    /// Release the program. Where no program is bound, nothing is done and
    /// nothing is reported.
    pub fn unbind(&self, renderer: &mut Renderer)
        requires
            old(renderer).wf(),
            old(renderer).status().current,
        ensures
            final(renderer).released_from(old(renderer)),
    {
        unbind_program(renderer);
    }

    /// Run `f` while the program is bound. The program is released again
    /// on every way out of `f`, and what `f` gives back is handed on.
    pub fn while_bound<F: FnOnce(&mut Renderer, UniformInterface) -> Result<(), RenderError>>(
        &self,
        renderer: &mut Renderer,
        f: F,
    ) -> (res: Result<(), RenderError>)
        requires
            old(renderer).wf(),
            old(renderer).status().current,
            forall|r: &mut Renderer, u: UniformInterface|
                r.bound_to(old(renderer), self.program()) && u.program() == self.program()
                    ==> call_requires(f, (r, u)),
            forall|r: &mut Renderer, u: UniformInterface, out: Result<(), RenderError>| #[trigger]
                call_ensures(f, (r, u), out) ==> final(r).wf() && final(r).status().current,
        ensures
            final(renderer).wf(),
            final(renderer).status().current,
            !final(renderer).status().shader_bound,
            exists|r: &mut Renderer, u: UniformInterface|
                r.bound_to(old(renderer), self.program()) && u.program() == self.program()
                    && #[trigger] call_ensures(f, (r, u), res) && final(renderer).released_from(
                    final(r),
                ),
    {
        scoped(self.program, renderer, f)
    }

    /// Delete the program.
    pub fn destroy(self, renderer: &mut Renderer)
        requires
            old(renderer).wf(),
            old(renderer).status().current,
        ensures
            final(renderer).after(
                old(renderer),
                old(renderer).status(),
                seq![Command::DeleteObject { kind: ObjectKind::Program, name: self.program() }],
            ),
            final(renderer).device() == (Device {
                objects: old(renderer).device().objects.remove(self.program()),
                stores: old(renderer).device().stores.remove(self.program()),
                ..old(renderer).device()
            }),
    {
        renderer.delete(ObjectKind::Program, self.program);
    }
}

/// A program of one compute stage.
pub struct ComputeShader {
    program: u32,
}

impl ComputeShader {
    /// The name of the program.
    pub closed spec fn program(&self) -> u32 {
        self.program
    }

    /// Build a program from the source of a compute stage, given with the
    /// name that diagnostics call it by. That the stage compiles and the
    /// program links is checked when the commands are performed; if they do
    /// not, that is fatal.
    pub fn new(renderer: &mut Renderer, compute: (&str, &str)) -> (shader: ComputeShader)
        requires
            old(renderer).wf(),
            old(renderer).status().current,
            old(renderer).names_left() >= 2,
        ensures
            shader.program() == old(renderer).status().next_name,
            final(renderer).after(
                old(renderer),
                Status {
                    next_name: (old(renderer).status().next_name + 2) as u32,
                    ..old(renderer).status()
                },
                compute_commands(shader.program(), compute.0@, compute.1@),
            ),
            final(renderer).device() == (Device {
                objects: old(renderer).device().objects.insert(
                    shader.program(),
                    ObjectKind::Program,
                ),
                stores: old(renderer).device().stores.remove((shader.program() + 1) as u32),
                ..old(renderer).device()
            }),
            final(renderer).device().has(ObjectKind::Program, shader.program()),
    {
        let program = renderer.create(ObjectKind::Program);
        let cs_shader = compile_stage(renderer, compute.1, gl::COMPUTE_SHADER, compute.0);
        renderer.issue(Command::AttachShader { program, shader: cs_shader });
        renderer.issue(Command::LinkProgram { program });
        renderer.issue(Command::CheckLinked { program });
        renderer.issue(Command::DetachShader { program, shader: cs_shader });
        renderer.delete(ObjectKind::Shader, cs_shader);
        proof {
            let cs = compute_commands(program, compute.0@, compute.1@);
            assert(renderer.history() =~= old(renderer).history() + cs);
            assert(renderer.pending() =~= old(renderer).pending() + cs);
            assert(renderer.device().objects =~= old(renderer).device().objects.insert(
                program,
                ObjectKind::Program,
            ));
        }
        ComputeShader { program }
    }

    /// Run `f` while the program is bound, to set its uniforms.
    pub fn set_uniforms<F: FnOnce(&mut Renderer, UniformInterface)>(
        &self,
        renderer: &mut Renderer,
        f: F,
    )
        requires
            old(renderer).wf(),
            old(renderer).status().current,
            forall|r: &mut Renderer, u: UniformInterface|
                r.bound_to(old(renderer), self.program()) && u.program() == self.program()
                    ==> call_requires(f, (r, u)),
            forall|r: &mut Renderer, u: UniformInterface, out: ()| #[trigger]
                call_ensures(f, (r, u), out) ==> final(r).wf() && final(r).status().current,
        ensures
            final(renderer).wf(),
            final(renderer).status().current,
            !final(renderer).status().shader_bound,
            exists|r: &mut Renderer, u: UniformInterface|
                r.bound_to(old(renderer), self.program()) && u.program() == self.program()
                    && #[trigger] call_ensures(f, (r, u), ()) && final(renderer).released_from(
                    final(r),
                ),
    {
        scoped(self.program, renderer, f)
    }

    /// Bind the program.
    pub fn bind(&self, renderer: &mut Renderer)
        requires
            old(renderer).wf(),
            old(renderer).status().current,
        ensures
            final(renderer).bound_to(old(renderer), self.program()),
    {
        bind_program(renderer, self.program);
    }

    /// Release the program. Where no program is bound, nothing is done and
    /// nothing is reported.
    pub fn unbind(&self, renderer: &mut Renderer)
        requires
            old(renderer).wf(),
            old(renderer).status().current,
        ensures
            final(renderer).released_from(old(renderer)),
    {
        unbind_program(renderer);
    }

    /// Run `f` while the program is bound. The program is released again
    /// on every way out of `f`, and what `f` gives back is handed on.
    pub fn while_bound<F: FnOnce(&mut Renderer, UniformInterface) -> Result<(), RenderError>>(
        &self,
        renderer: &mut Renderer,
        f: F,
    ) -> (res: Result<(), RenderError>)
        requires
            old(renderer).wf(),
            old(renderer).status().current,
            forall|r: &mut Renderer, u: UniformInterface|
                r.bound_to(old(renderer), self.program()) && u.program() == self.program()
                    ==> call_requires(f, (r, u)),
            forall|r: &mut Renderer, u: UniformInterface, out: Result<(), RenderError>| #[trigger]
                call_ensures(f, (r, u), out) ==> final(r).wf() && final(r).status().current,
        ensures
            final(renderer).wf(),
            final(renderer).status().current,
            !final(renderer).status().shader_bound,
            exists|r: &mut Renderer, u: UniformInterface|
                r.bound_to(old(renderer), self.program()) && u.program() == self.program()
                    && #[trigger] call_ensures(f, (r, u), res) && final(renderer).released_from(
                    final(r),
                ),
    {
        scoped(self.program, renderer, f)
    }

    /// Run the program that is bound on `num_groups` work groups.
    pub fn dispatch(&self, renderer: &mut Renderer, num_groups: [u32; 3])
        requires
            old(renderer).wf(),
            old(renderer).status().current,
        ensures
            final(renderer).after(
                old(renderer),
                old(renderer).status(),
                seq![
                    Command::DispatchCompute {
                        x: num_groups[0],
                        y: num_groups[1],
                        z: num_groups[2],
                    },
                ],
            ),
            final(renderer).device() == old(renderer).device(),
    {
        renderer.issue(
            Command::DispatchCompute { x: num_groups[0], y: num_groups[1], z: num_groups[2] },
        );
    }

    /// Delete the program.
    pub fn destroy(self, renderer: &mut Renderer)
        requires
            old(renderer).wf(),
            old(renderer).status().current,
        ensures
            final(renderer).after(
                old(renderer),
                old(renderer).status(),
                seq![Command::DeleteObject { kind: ObjectKind::Program, name: self.program() }],
            ),
            final(renderer).device() == (Device {
                objects: old(renderer).device().objects.remove(self.program()),
                stores: old(renderer).device().stores.remove(self.program()),
                ..old(renderer).device()
            }),
    {
        renderer.delete(ObjectKind::Program, self.program);
    }
}

} // verus!

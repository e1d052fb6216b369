//! Two-dimensional textures.

use vstd::prelude::*;
use vstd::slice::slice_to_vec;
use super::command::{Command, CommandView, ObjectKind};
use super::device::Device;
use super::gl;
use super::{RenderError, Renderer, Status};

verus! {

/// The channels of a texture. Each channel is a 32-bit floating-point
/// number.
#[derive(Clone, Copy, Debug, PartialEq, Eq, Structural)]
pub enum TextureFormat {
    R,
    RG,
    RGB,
    RGBA,
}

impl TextureFormat {
    /// The format of the pixels that the texture is filled from.
    pub open spec fn gl_format(self) -> u32 {
        match self {
            TextureFormat::R => gl::RED,
            TextureFormat::RG => gl::RG,
            TextureFormat::RGB => gl::RGB,
            TextureFormat::RGBA => gl::RGBA,
        }
    }

    /// The format that the texture is stored in.
    pub open spec fn gl_internal_format(self) -> u32 {
        match self {
            TextureFormat::R => gl::R32F,
            TextureFormat::RG => gl::RG32F,
            TextureFormat::RGB => gl::RGB32F,
            TextureFormat::RGBA => gl::RGBA32F,
        }
    }

    /// The format of the pixels that the texture is filled from.
    pub fn to_gl_format(&self) -> (format: u32)
        ensures
            format == self.gl_format(),
    {
        match self {
            TextureFormat::R => gl::RED,
            TextureFormat::RG => gl::RG,
            TextureFormat::RGB => gl::RGB,
            TextureFormat::RGBA => gl::RGBA,
        }
    }

    /// The format that the texture is stored in.
    pub fn to_gl_internal_format(&self) -> (format: i32)
        ensures
            format == self.gl_internal_format(),
    {
        match self {
            TextureFormat::R => 0x822E,
            TextureFormat::RG => 0x8230,
            TextureFormat::RGB => 0x8815,
            TextureFormat::RGBA => 0x8814,
        }
    }

    /// The type of one channel of the pixels that the texture is filled
    /// from.
    pub fn to_gl_repr(&self) -> (repr: u32)
        ensures
            repr == gl::FLOAT,
    {
        gl::FLOAT
    }
}

/// How a texture is sampled between its pixels.
#[derive(Clone, Copy, Debug, PartialEq, Eq, Structural)]
pub enum TextureFiltering {
    Linear,
    Nearest,
}

impl TextureFiltering {
    /// The filter without mipmaps.
    pub open spec fn gl(self) -> i32 {
        match self {
            TextureFiltering::Linear => 0x2601,
            TextureFiltering::Nearest => 0x2600,
        }
    }

    /// The filter with mipmaps.
    pub open spec fn gl_mipmap(self) -> i32 {
        match self {
            TextureFiltering::Linear => 0x2703,
            TextureFiltering::Nearest => 0x2700,
        }
    }

    /// The filter without mipmaps.
    pub fn to_gl(&self) -> (filter: i32)
        ensures
            filter == self.gl(),
            filter == (match self {
                TextureFiltering::Linear => gl::LINEAR,
                TextureFiltering::Nearest => gl::NEAREST,
            }),
    {
        match self {
            TextureFiltering::Linear => 0x2601,
            TextureFiltering::Nearest => 0x2600,
        }
    }

    /// The filter with mipmaps.
    pub fn to_gl_mipmap(&self) -> (filter: i32)
        ensures
            filter == self.gl_mipmap(),
            filter == (match self {
                TextureFiltering::Linear => gl::LINEAR_MIPMAP_LINEAR,
                TextureFiltering::Nearest => gl::NEAREST_MIPMAP_NEAREST,
            }),
    {
        match self {
            TextureFiltering::Linear => 0x2703,
            TextureFiltering::Nearest => 0x2700,
        }
    }
}

/// The size of a texture, in pixels, its channels and how it is sampled.
#[derive(Clone, Copy, Debug, PartialEq, Eq)]
pub struct TextureSettings {
    pub width: usize,
    pub height: usize,
    pub format: TextureFormat,
    pub filtering: TextureFiltering,
    pub mipmap: bool,
}

/// The bias of the level of detail: the bit pattern of -1.8.
pub const LOD_BIAS: u32 = 0xBFE6_6666;

/// The highest mipmap level that is sampled.
pub const MAX_LEVEL: i32 = 5;

/// The commands that bind the texture `tex` and give it its storage.
pub open spec fn storage_commands(tex: u32, settings: TextureSettings, pixels: Option<Seq<u8>>) -> Seq<
    CommandView,
> {
    seq![
        Command::BindTexture { target: gl::TEXTURE_2D, texture: Some(tex) },
        Command::TexParameterI32 {
            target: gl::TEXTURE_2D,
            parameter: gl::TEXTURE_BASE_LEVEL,
            value: 0,
        },
        Command::TexParameterI32 {
            target: gl::TEXTURE_2D,
            parameter: gl::TEXTURE_MAX_LEVEL,
            value: MAX_LEVEL,
        },
        Command::TexParameterF32 {
            target: gl::TEXTURE_2D,
            parameter: gl::TEXTURE_LOD_BIAS,
            value: LOD_BIAS,
        },
        Command::TexImage2D {
            target: gl::TEXTURE_2D,
            level: 0,
            internal_format: settings.format.gl_internal_format() as i32,
            width: settings.width as i32,
            height: settings.height as i32,
            border: 0,
            format: settings.format.gl_format(),
            data_type: gl::FLOAT,
            pixels,
        },
    ]
}

/// The commands that set the filters of the texture that is bound and
/// release it.
pub open spec fn filter_commands(settings: TextureSettings) -> Seq<CommandView> {
    seq![
        Command::TexParameterI32 {
            target: gl::TEXTURE_2D,
            parameter: gl::TEXTURE_MIN_FILTER,
            value: if settings.mipmap {
                settings.filtering.gl_mipmap()
            } else {
                settings.filtering.gl()
            },
        },
        Command::TexParameterI32 {
            target: gl::TEXTURE_2D,
            parameter: gl::TEXTURE_MAG_FILTER,
            value: settings.filtering.gl(),
        },
        Command::BindTexture { target: gl::TEXTURE_2D, texture: None },
    ]
}

/// The commands that give the texture `tex` its storage, its mipmaps if it
/// is to have any, and its sampling parameters.
pub open spec fn fill_commands(tex: u32, settings: TextureSettings, pixels: Option<Seq<u8>>) -> Seq<
    CommandView,
> {
    storage_commands(tex, settings, pixels) + (if settings.mipmap {
        seq![Command::GenerateTextureMipmap { texture: tex }]
    } else {
        Seq::empty()
    }) + filter_commands(settings)
}

/// The commands that bind the texture `tex` to the unit `location`.
pub open spec fn bind_commands(tex: u32, location: u32) -> Seq<CommandView> {
    seq![
        Command::ActiveTexture { unit: (gl::TEXTURE0 + location) as u32 },
        Command::BindTexture { target: gl::TEXTURE_2D, texture: Some(tex) },
    ]
}

/// The command that releases the texture of the active unit.
pub open spec fn unbind_commands() -> Seq<CommandView> {
    seq![Command::BindTexture { target: gl::TEXTURE_2D, texture: None }]
}

/// How a shader may reach an image: to read and write it, to write it
/// only, or, where it is not to be written, to read it only.
pub open spec fn image_access(write: bool, read: bool) -> u32 {
    if write && read {
        gl::READ_WRITE
    } else if write {
        gl::WRITE_ONLY
    } else {
        gl::READ_ONLY
    }
}

/// The commands that bind the texture `tex` to the unit `location` as an
/// image.
pub open spec fn bind_image_commands(
    tex: u32,
    format: TextureFormat,
    location: u32,
    write: bool,
    read: bool,
) -> Seq<CommandView> {
    bind_commands(tex, location) + seq![
        Command::BindImageTexture {
            unit: location,
            texture: tex,
            level: 0,
            layered: false,
            layer: 0,
            access: image_access(write, read),
            format: format.gl_internal_format(),
        },
    ]
}

/// Bind the texture `tex` to the unit `location`.
pub(crate) fn bind_tex(renderer: &mut Renderer, tex: u32, location: u32)
    requires
        old(renderer).wf(),
        old(renderer).status().current,
        gl::TEXTURE0 + location <= u32::MAX,
    ensures
        final(renderer).after(old(renderer), old(renderer).status(), bind_commands(tex, location)),
        final(renderer).device() == old(renderer).device(),
{
    renderer.issue(Command::ActiveTexture { unit: gl::TEXTURE0 + location });
    renderer.issue(Command::BindTexture { target: gl::TEXTURE_2D, texture: Some(tex) });
    proof {
        assert(renderer.history() =~= old(renderer).history() + bind_commands(tex, location));
        assert(renderer.pending() =~= old(renderer).pending() + bind_commands(tex, location));
    }
}

/// Release the texture of the active unit.
pub(crate) fn unbind_tex(renderer: &mut Renderer)
    requires
        old(renderer).wf(),
        old(renderer).status().current,
    ensures
        final(renderer).after(old(renderer), old(renderer).status(), unbind_commands()),
        final(renderer).device() == old(renderer).device(),
{
    renderer.issue(Command::BindTexture { target: gl::TEXTURE_2D, texture: None });
}

/// Bind the texture `tex` and give it its storage.
fn store(renderer: &mut Renderer, tex: u32, settings: &TextureSettings, pixels: Option<&[u8]>)
    requires
        old(renderer).wf(),
        old(renderer).status().current,
        settings.width <= i32::MAX,
        settings.height <= i32::MAX,
    ensures
        final(renderer).after(
            old(renderer),
            old(renderer).status(),
            storage_commands(
                tex,
                *settings,
                match pixels {
                    Some(p) => Some(p@),
                    None => None,
                },
            ),
        ),
        final(renderer).device() == old(renderer).device(),
{
    let ghost data: Option<Seq<u8>> = match pixels {
        Some(p) => Some(p@),
        None => None,
    };
    renderer.issue(Command::BindTexture { target: gl::TEXTURE_2D, texture: Some(tex) });
    renderer.issue(
        Command::TexParameterI32 {
            target: gl::TEXTURE_2D,
            parameter: gl::TEXTURE_BASE_LEVEL,
            value: 0,
        },
    );
    renderer.issue(
        Command::TexParameterI32 {
            target: gl::TEXTURE_2D,
            parameter: gl::TEXTURE_MAX_LEVEL,
            value: MAX_LEVEL,
        },
    );
    renderer.issue(
        Command::TexParameterF32 {
            target: gl::TEXTURE_2D,
            parameter: gl::TEXTURE_LOD_BIAS,
            value: LOD_BIAS,
        },
    );
    renderer.issue(
        Command::TexImage2D {
            target: gl::TEXTURE_2D,
            level: 0,
            internal_format: settings.format.to_gl_internal_format(),
            width: settings.width as i32,
            height: settings.height as i32,
            border: 0,
            format: settings.format.to_gl_format(),
            data_type: settings.format.to_gl_repr(),
            pixels: match pixels {
                Some(p) => Some(slice_to_vec(p)),
                None => None,
            },
        },
    );
    proof {
        let cs = storage_commands(tex, *settings, data);
        assert(renderer.history() =~= old(renderer).history() + cs);
        assert(renderer.pending() =~= old(renderer).pending() + cs);
    }
}

/// Set the filters of the texture that is bound and release it.
fn set_filters(renderer: &mut Renderer, settings: &TextureSettings)
    requires
        old(renderer).wf(),
        old(renderer).status().current,
    ensures
        final(renderer).after(old(renderer), old(renderer).status(), filter_commands(*settings)),
        final(renderer).device() == old(renderer).device(),
{
    renderer.issue(
        Command::TexParameterI32 {
            target: gl::TEXTURE_2D,
            parameter: gl::TEXTURE_MIN_FILTER,
            value: if settings.mipmap {
                settings.filtering.to_gl_mipmap()
            } else {
                settings.filtering.to_gl()
            },
        },
    );
    renderer.issue(
        Command::TexParameterI32 {
            target: gl::TEXTURE_2D,
            parameter: gl::TEXTURE_MAG_FILTER,
            value: settings.filtering.to_gl(),
        },
    );
    renderer.issue(Command::BindTexture { target: gl::TEXTURE_2D, texture: None });
    proof {
        assert(renderer.history() =~= old(renderer).history() + filter_commands(*settings));
        assert(renderer.pending() =~= old(renderer).pending() + filter_commands(*settings));
    }
}

/// Give the texture `tex` its storage, its mipmaps if it is to have any,
/// and its sampling parameters.
fn fill(renderer: &mut Renderer, tex: u32, settings: &TextureSettings, pixels: Option<&[u8]>)
    requires
        old(renderer).wf(),
        old(renderer).status().current,
        settings.width <= i32::MAX,
        settings.height <= i32::MAX,
    ensures
        final(renderer).after(
            old(renderer),
            old(renderer).status(),
            fill_commands(
                tex,
                *settings,
                match pixels {
                    Some(p) => Some(p@),
                    None => None,
                },
            ),
        ),
        final(renderer).device() == old(renderer).device(),
{
    let ghost data: Option<Seq<u8>> = match pixels {
        Some(p) => Some(p@),
        None => None,
    };
    store(renderer, tex, settings, pixels);
    let ghost r1 = *renderer;
    let ghost mut middle: Seq<CommandView> = Seq::empty();
    if settings.mipmap {
        renderer.issue(Command::GenerateTextureMipmap { texture: tex });
        proof {
            middle = seq![Command::GenerateTextureMipmap { texture: tex }];
        }
    } else {
        proof {
            r1.after_nothing();
        }
    }
    let ghost r2 = *renderer;
    set_filters(renderer, settings);
    proof {
        let head = storage_commands(tex, *settings, data);
        r2.after_then(&r1, old(renderer), r1.status(), r2.status(), head, middle);
        renderer.after_then(
            &r2,
            old(renderer),
            r2.status(),
            renderer.status(),
            head + middle,
            filter_commands(*settings),
        );
    }
}

/// A texture object and the settings that it was filled with.
pub struct Texture {
    tex: u32,
    settings: TextureSettings,
}

impl Texture {
    #[verifier::type_invariant]
    spec fn within_reach(&self) -> bool {
        self.settings.width <= i32::MAX && self.settings.height <= i32::MAX
    }

    /// The name of the texture.
    pub closed spec fn name(&self) -> u32 {
        self.tex
    }

    /// The settings of the texture.
    pub closed spec fn settings(&self) -> TextureSettings {
        self.settings
    }

    /// A texture with the given settings, filled from `pixels` if there
    /// are any.
    pub fn new(renderer: &mut Renderer, settings: TextureSettings, pixels: Option<&[u8]>) -> (texture:
        Texture)
        requires
            old(renderer).wf(),
            old(renderer).status().current,
            old(renderer).names_left() >= 1,
            settings.width <= i32::MAX,
            settings.height <= i32::MAX,
        ensures
            texture.name() == old(renderer).status().next_name,
            texture.settings() == settings,
            final(renderer).after(
                old(renderer),
                Status { next_name: (texture.name() + 1) as u32, ..old(renderer).status() },
                seq![Command::CreateObject { kind: ObjectKind::Texture, name: texture.name() }]
                    + fill_commands(
                    texture.name(),
                    settings,
                    match pixels {
                        Some(p) => Some(p@),
                        None => None,
                    },
                ),
            ),
            final(renderer).device() == (Device {
                objects: old(renderer).device().objects.insert(
                    texture.name(),
                    ObjectKind::Texture,
                ),
                ..old(renderer).device()
            }),
    {
        let tex = renderer.create(ObjectKind::Texture);
        let ghost made = *renderer;
        fill(renderer, tex, &settings, pixels);
        proof {
            renderer.after_then(
                &made,
                old(renderer),
                made.status(),
                renderer.status(),
                seq![Command::CreateObject { kind: ObjectKind::Texture, name: tex }],
                fill_commands(
                    tex,
                    settings,
                    match pixels {
                        Some(p) => Some(p@),
                        None => None,
                    },
                ),
            );
        }
        Texture { tex, settings }
    }

    /// The width and the height of the texture, in pixels.
    pub fn size(&self) -> (size: (usize, usize))
        ensures
            size == (self.settings().width, self.settings().height),
    {
        (self.settings.width, self.settings.height)
    }

    /// Give the texture a new size, and new storage of that size in place
    /// of the old, filled from `pixels` if there are any.
    pub fn resize(&mut self, renderer: &mut Renderer, size: (usize, usize), pixels: Option<&[u8]>)
        requires
            old(renderer).wf(),
            old(renderer).status().current,
            size.0 <= i32::MAX,
            size.1 <= i32::MAX,
        ensures
            final(self).name() == old(self).name(),
            final(self).settings() == (TextureSettings {
                width: size.0,
                height: size.1,
                ..old(self).settings()
            }),
            final(renderer).after(
                old(renderer),
                old(renderer).status(),
                fill_commands(
                    old(self).name(),
                    final(self).settings(),
                    match pixels {
                        Some(p) => Some(p@),
                        None => None,
                    },
                ),
            ),
            final(renderer).device() == old(renderer).device(),
    {
        let settings = TextureSettings {
            width: size.0,
            height: size.1,
            format: self.settings.format,
            filtering: self.settings.filtering,
            mipmap: self.settings.mipmap,
        };
        self.settings = settings;
        fill(renderer, self.tex, &settings, pixels);
    }

    /// Bind the texture to the unit `location` as an image that shaders
    /// may write if `write` is set, and may read if `read` is set or `write`
    /// is not.
    pub fn bind_img(&self, renderer: &mut Renderer, location: u32, write: bool, read: bool)
        requires
            old(renderer).wf(),
            old(renderer).status().current,
            gl::TEXTURE0 + location <= u32::MAX,
        ensures
            final(renderer).after(
                old(renderer),
                old(renderer).status(),
                bind_image_commands(self.name(), self.settings().format, location, write, read),
            ),
            final(renderer).device() == old(renderer).device(),
    {
        bind_tex(renderer, self.tex, location);
        let access: u32 = if write && read {
            gl::READ_WRITE
        } else if write {
            gl::WRITE_ONLY
        } else {
            gl::READ_ONLY
        };
        let ghost mid = *renderer;
        renderer.issue(
            Command::BindImageTexture {
                unit: location,
                texture: self.tex,
                level: 0,
                layered: false,
                layer: 0,
                access,
                format: self.settings.format.to_gl_internal_format() as u32,
            },
        );
        proof {
            renderer.after_then(
                &mid,
                old(renderer),
                mid.status(),
                renderer.status(),
                bind_commands(self.name(), location),
                seq![
                    Command::BindImageTexture {
                        unit: location,
                        texture: self.name(),
                        level: 0,
                        layered: false,
                        layer: 0,
                        access: image_access(write, read),
                        format: self.settings().format.gl_internal_format(),
                    },
                ],
            );
        }
    }

    /// Release the texture of the active unit.
    pub fn unbind_img(&self, renderer: &mut Renderer, _location: u32)
        requires
            old(renderer).wf(),
            old(renderer).status().current,
        ensures
            final(renderer).after(old(renderer), old(renderer).status(), unbind_commands()),
            final(renderer).device() == old(renderer).device(),
    {
        unbind_tex(renderer);
    }

    /// Run `f` while the texture is bound to the unit `location` for
    /// sampling. A shader has to be bound. The texture is released again on
    /// every way out of `f`, and what `f` gives back is handed on.
    pub fn while_bound<F: FnOnce(&mut Renderer) -> Result<(), RenderError>>(
        &self,
        renderer: &mut Renderer,
        location: u32,
        f: F,
    ) -> (res: Result<(), RenderError>)
        requires
            old(renderer).wf(),
            old(renderer).status().current,
            old(renderer).status().shader_bound,
            gl::TEXTURE0 + location <= u32::MAX,
            forall|r: &mut Renderer|
                r.after(old(renderer), old(renderer).status(), bind_commands(self.name(), location))
                    && r.device() == old(renderer).device() ==> call_requires(f, (r,)),
            forall|r: &mut Renderer, out: Result<(), RenderError>| #[trigger]
                call_ensures(f, (r,), out) ==> final(r).wf() && final(r).status().current,
        ensures
            exists|r: &mut Renderer|
                r.after(old(renderer), old(renderer).status(), bind_commands(self.name(), location))
                    && r.device() == old(renderer).device() && #[trigger] call_ensures(
                    f,
                    (r,),
                    res,
                ) && final(renderer).after(final(r), final(r).status(), unbind_commands())
                    && final(renderer).device() == final(r).device(),
    {
        bind_tex(renderer, self.tex, location);
        let res = f(renderer);
        unbind_tex(renderer);
        res
    }

    /// Run `f` while the texture is bound to the unit `location` as an
    /// image. A shader has to be bound. The texture is released again on
    /// every way out of `f`, and what `f` gives back is handed on.
    pub fn while_bound_img<F: FnOnce(&mut Renderer) -> Result<(), RenderError>>(
        &self,
        renderer: &mut Renderer,
        location: u32,
        write: bool,
        read: bool,
        f: F,
    ) -> (res: Result<(), RenderError>)
        requires
            old(renderer).wf(),
            old(renderer).status().current,
            old(renderer).status().shader_bound,
            gl::TEXTURE0 + location <= u32::MAX,
            forall|r: &mut Renderer|
                r.after(
                    old(renderer),
                    old(renderer).status(),
                    bind_image_commands(
                        self.name(),
                        self.settings().format,
                        location,
                        write,
                        read,
                    ),
                ) && r.device() == old(renderer).device() ==> call_requires(f, (r,)),
            forall|r: &mut Renderer, out: Result<(), RenderError>| #[trigger]
                call_ensures(f, (r,), out) ==> final(r).wf() && final(r).status().current,
        ensures
            exists|r: &mut Renderer|
                r.after(
                    old(renderer),
                    old(renderer).status(),
                    bind_image_commands(
                        self.name(),
                        self.settings().format,
                        location,
                        write,
                        read,
                    ),
                ) && r.device() == old(renderer).device() && #[trigger] call_ensures(f, (r,), res)
                    && final(renderer).after(final(r), final(r).status(), unbind_commands())
                    && final(renderer).device() == final(r).device(),
    {
        self.bind_img(renderer, location, write, read);
        let res = f(renderer);
        self.unbind_img(renderer, location);
        res
    }

    /// Delete the texture.
    pub fn destroy(self, renderer: &mut Renderer)
        requires
            old(renderer).wf(),
            old(renderer).status().current,
        ensures
            final(renderer).after(
                old(renderer),
                old(renderer).status(),
                seq![Command::DeleteObject { kind: ObjectKind::Texture, name: self.name() }],
            ),
            final(renderer).device() == (Device {
                objects: old(renderer).device().objects.remove(self.name()),
                stores: old(renderer).device().stores.remove(self.name()),
                ..old(renderer).device()
            }),
    {
        renderer.delete(ObjectKind::Texture, self.tex);
    }
}

} // verus!

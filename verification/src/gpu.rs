use vstd::prelude::*;

use crate::error::ViewerError;
use crate::pixels::BYTES_PER_PIXEL;
use crate::pixels::MAX_TEXTURE_DIM;
use crate::pixels::PixelBuffer;
use crate::viewer::TextureMeta;
use crate::viewer::ViewerState;

verus! {

// The GPU library's handle types, declared so that they can be owned and
// passed through verified code. They are opaque here: everything the viewer
// needs to know about them is tracked beside them in `TextureMeta`.
/// Declares the GPU device handle.
#[verifier::external_type_specification]
#[verifier::external_body]
pub struct ExDevice(wgpu::Device);

/// Declares the GPU command queue handle.
#[verifier::external_type_specification]
#[verifier::external_body]
pub struct ExQueue(wgpu::Queue);

/// Declares the GPU texture handle.
#[verifier::external_type_specification]
#[verifier::external_body]
pub struct ExTexture(wgpu::Texture);

/// Declares the GPU texture-view handle.
#[verifier::external_type_specification]
#[verifier::external_body]
pub struct ExTextureView(wgpu::TextureView);

/// Declares the GPU sampler handle.
#[verifier::external_type_specification]
#[verifier::external_body]
pub struct ExSampler(wgpu::Sampler);

/// Declares the GPU bind-group-layout handle.
#[verifier::external_type_specification]
#[verifier::external_body]
pub struct ExBindGroupLayout(wgpu::BindGroupLayout);

/// Declares the GPU bind-group handle.
#[verifier::external_type_specification]
#[verifier::external_body]
pub struct ExBindGroup(wgpu::BindGroup);

/// Relies on wgpu::Device::create_texture: allocates a two-dimensional
/// RGBA8 sRGB image of the given dimensions, usable as a sampled binding
/// and as a copy destination. The bounds keep the descriptor within the
/// device's default limits, so creation does not raise a validation error.
#[verifier::external_body]
fn device_create_texture(device: &wgpu::Device, width: u32, height: u32) -> wgpu::Texture
    requires
        1 <= width <= MAX_TEXTURE_DIM,
        1 <= height <= MAX_TEXTURE_DIM,
{
    device.create_texture(&wgpu::TextureDescriptor {
        label: None,
        size: wgpu::Extent3d { width, height, depth_or_array_layers: 1 },
        mip_level_count: 1,
        sample_count: 1,
        dimension: wgpu::TextureDimension::D2,
        format: wgpu::TextureFormat::Rgba8UnormSrgb,
        usage: wgpu::TextureUsages::TEXTURE_BINDING | wgpu::TextureUsages::COPY_DST,
        view_formats: &[],
    })
}

/// Relies on wgpu::Queue::write_texture: copies `data` into the whole of a
/// texture that the caller created with exactly `width` by `height` texels
/// of four bytes each, so the write covers the texture exactly and cannot
/// overrun it or run out of data.
#[verifier::external_body]
fn queue_write_texture(
    queue: &wgpu::Queue,
    texture: &wgpu::Texture,
    width: u32,
    height: u32,
    bytes_per_row: u32,
    data: &Vec<u8>,
)
    requires
        1 <= width <= MAX_TEXTURE_DIM,
        1 <= height <= MAX_TEXTURE_DIM,
        bytes_per_row == width * BYTES_PER_PIXEL,
        data@.len() == width * height * BYTES_PER_PIXEL,
{
    let target = wgpu::ImageCopyTexture { texture, mip_level: 0, origin: wgpu::Origin3d::ZERO, aspect: wgpu::TextureAspect::All };
    let layout = wgpu::ImageDataLayout { offset: 0, bytes_per_row: Some(bytes_per_row), rows_per_image: Some(height) };
    let size = wgpu::Extent3d { width, height, depth_or_array_layers: 1 };
    queue.write_texture(target, data, layout, size)
}

/// Relies on wgpu::Texture::create_view: makes the default full view of the
/// texture, in the texture's own format and dimension.
#[verifier::external_body]
fn texture_create_view(texture: &wgpu::Texture) -> wgpu::TextureView {
    texture.create_view(&wgpu::TextureViewDescriptor::default())
}

/// Relies on wgpu::Device::create_sampler: makes a sampler with linear
/// magnification and minification filtering and clamp-to-edge addressing
/// (the descriptor's default addressing mode).
#[verifier::external_body]
fn device_create_sampler(device: &wgpu::Device) -> wgpu::Sampler {
    device.create_sampler(&wgpu::SamplerDescriptor {
        mag_filter: wgpu::FilterMode::Linear,
        min_filter: wgpu::FilterMode::Linear,
        ..Default::default()
    })
}

/// Relies on wgpu::Device::create_bind_group_layout: describes the fixed
/// binding shape of the draw pipeline, a filterable two-dimensional texture
/// at binding 0 and a filtering sampler at binding 1, both visible to the
/// fragment shader.
#[verifier::external_body]
fn device_create_binding_layout(device: &wgpu::Device) -> wgpu::BindGroupLayout {
    let page = wgpu::BindGroupLayoutEntry {
        binding: 0,
        visibility: wgpu::ShaderStages::FRAGMENT,
        ty: wgpu::BindingType::Texture {
            multisampled: false,
            view_dimension: wgpu::TextureViewDimension::D2,
            sample_type: wgpu::TextureSampleType::Float { filterable: true },
        },
        count: None,
    };
    let ty = wgpu::BindingType::Sampler(wgpu::SamplerBindingType::Filtering);
    let sam = wgpu::BindGroupLayoutEntry { binding: 1, visibility: wgpu::ShaderStages::FRAGMENT, ty, count: None };
    device.create_bind_group_layout(&wgpu::BindGroupLayoutDescriptor { label: None, entries: &[page, sam] })
}

/// Relies on wgpu::Device::create_bind_group: binds the given view at
/// binding 0 and the given sampler at binding 1 under the given layout,
/// matching `device_create_binding_layout`.
#[verifier::external_body]
fn device_create_bind_group(
    device: &wgpu::Device,
    layout: &wgpu::BindGroupLayout,
    view: &wgpu::TextureView,
    sampler: &wgpu::Sampler,
) -> wgpu::BindGroup {
    device.create_bind_group(&wgpu::BindGroupDescriptor {
        label: None,
        layout,
        entries: &[
            wgpu::BindGroupEntry { binding: 0, resource: wgpu::BindingResource::TextureView(view) },
            wgpu::BindGroupEntry { binding: 1, resource: wgpu::BindingResource::Sampler(sampler) },
        ],
    })
}

/// A GPU-resident page image: the texture with its view and its sampler,
/// plus the dimensions and serial number the viewer tracks for it. Created
/// whole from one pixel buffer and replaced whole on every page change,
/// never mutated.
pub struct TextureResource {
    pub texture: wgpu::Texture,
    pub view: wgpu::TextureView,
    pub sampler: wgpu::Sampler,
    /// Dimensions the texture was created with, and its serial number.
    pub meta: TextureMeta,
}

impl TextureResource {
    /// Builds a texture from a rasterized page and uploads the bytes
    /// verbatim. Fails with `InvalidBufferSize`, and allocates nothing,
    /// exactly when the buffer's byte length does not match its dimensions
    /// or its dimensions cannot back a texture.
    pub fn create(
        device: &wgpu::Device,
        queue: &wgpu::Queue,
        buffer: PixelBuffer,
        generation: u64,
    ) -> (r: Result<TextureResource, ViewerError>)
        ensures
            r is Ok <==> buffer.well_sized(),
            !buffer.well_sized() ==> r == Err::<TextureResource, ViewerError>(
                ViewerError::InvalidBufferSize,
            ),
            r matches Ok(t) ==> t.meta == (TextureMeta {
                width: buffer.width,
                height: buffer.height,
                generation,
            }),
    {
        if !buffer.check_size() {
            return Err(ViewerError::InvalidBufferSize);
        }
        let texture = device_create_texture(device, buffer.width, buffer.height);
        let bytes_per_row: u32 = buffer.width * BYTES_PER_PIXEL;
        queue_write_texture(
            queue,
            &texture,
            buffer.width,
            buffer.height,
            bytes_per_row,
            &buffer.bytes,
        );
        let view = texture_create_view(&texture);
        let sampler = device_create_sampler(device);
        Ok(
            TextureResource {
                texture,
                view,
                sampler,
                meta: TextureMeta { width: buffer.width, height: buffer.height, generation },
            },
        )
    }
}

/// The binding set the draw pipeline reads the page through: a bind group
/// over one texture view and its sampler, together with the serial number
/// of the texture it was built against.
pub struct BindingSet {
    pub bind_group: wgpu::BindGroup,
    /// Serial number of the texture this bind group references.
    pub bound_generation: u64,
}

impl BindingSet {
    /// Rebuilds the binding set against a texture. A pure function of the
    /// texture and the fixed binding layout: building it twice against the
    /// same texture yields bindings to the same view and sampler. The GPU
    /// library reports binding faults through its device error channel, not
    /// by a return value, so there is no failure to judge here.
    pub fn rebuild(device: &wgpu::Device, texture: &TextureResource) -> (b: BindingSet)
        ensures
            b.bound_generation == texture.meta.generation,
    {
        let layout = device_create_binding_layout(device);
        let bind_group = device_create_bind_group(device, &layout, &texture.view, &texture.sampler);
        BindingSet { bind_group, bound_generation: texture.meta.generation }
    }
}

/// The pair the renderer draws from: the live texture and the binding set
/// built against it. The invariant is the heart of the resource lifecycle:
/// the binding on display never references a texture other than the live
/// one, so replacing the texture forces the binding to be replaced with it,
/// atomically.
pub struct DisplayBundle {
    pub texture: TextureResource,
    pub binding: BindingSet,
}

impl DisplayBundle {
    /// The binding set was built against the live texture.
    pub open spec fn wf(self) -> bool {
        self.binding.bound_generation == self.texture.meta.generation
    }

    /// Builds the initial texture-and-binding pair from the first
    /// rasterized page. Fails exactly when the buffer is mis-sized.
    pub fn create(
        device: &wgpu::Device,
        queue: &wgpu::Queue,
        buffer: PixelBuffer,
        generation: u64,
    ) -> (r: Result<DisplayBundle, ViewerError>)
        ensures
            r is Ok <==> buffer.well_sized(),
            !buffer.well_sized() ==> r == Err::<DisplayBundle, ViewerError>(
                ViewerError::InvalidBufferSize,
            ),
            r matches Ok(d) ==> d.wf() && d.texture.meta == (TextureMeta {
                width: buffer.width,
                height: buffer.height,
                generation,
            }),
    {
        match TextureResource::create(device, queue, buffer, generation) {
            Err(e) => Err(e),
            Ok(texture) => {
                let binding = BindingSet::rebuild(device, &texture);
                Ok(DisplayBundle { texture, binding })
            },
        }
    }

    /// Replaces the displayed page: builds the new texture, rebuilds the
    /// binding against it, and only then installs the pair — the old
    /// texture is released strictly after the new binding exists, and on
    /// failure the old pair stays installed untouched.
    pub fn replace(
        &mut self,
        device: &wgpu::Device,
        queue: &wgpu::Queue,
        buffer: PixelBuffer,
        generation: u64,
    ) -> (r: Result<(), ViewerError>)
        ensures
            r is Ok <==> buffer.well_sized(),
            !buffer.well_sized() ==> r == Err::<(), ViewerError>(ViewerError::InvalidBufferSize)
                && *final(self) == *old(self),
            buffer.well_sized() ==> final(self).wf() && final(self).texture.meta == (TextureMeta {
                width: buffer.width,
                height: buffer.height,
                generation,
            }),
    {
        match TextureResource::create(device, queue, buffer, generation) {
            Err(e) => Err(e),
            Ok(texture) => {
                let binding = BindingSet::rebuild(device, &texture);
                self.texture = texture;
                self.binding = binding;
                Ok(())
            },
        }
    }
}

/// The whole page-change sequence: the caller has asked the page source for
/// `index` and hands in the outcome (`None` when the page could not be
/// decoded). On success the new texture and binding are
/// installed and the state advances to `index`; on any fault both the state
/// and the displayed pair are left untouched.
pub fn refresh_display(
    state: &mut ViewerState,
    bundle: &mut DisplayBundle,
    device: &wgpu::Device,
    queue: &wgpu::Queue,
    index: u32,
    raster: Option<PixelBuffer>,
) -> (r: Result<(), ViewerError>)
    requires
        old(state).wf(),
        old(bundle).wf(),
        old(bundle).texture.meta == old(state).texture,
        index < old(state).page_count,
        old(state).texture.generation < u64::MAX,
    ensures
        final(state).wf(),
        final(bundle).wf(),
        final(bundle).texture.meta == final(state).texture,
        r is Err ==> *final(state) == *old(state) && *final(bundle) == *old(bundle),
        raster is None ==> r == Err::<(), ViewerError>(ViewerError::PageDecode),
        raster matches Some(b) ==> {
            &&& !b.well_sized() ==> r == Err::<(), ViewerError>(ViewerError::InvalidBufferSize)
            &&& b.well_sized() ==> r is Ok && *final(state) == old(state).refreshed(
                index,
                b.width,
                b.height,
            )
        },
{
    match raster {
        None => Err(ViewerError::PageDecode),
        Some(buffer) => {
            if !buffer.check_size() {
                return Err(ViewerError::InvalidBufferSize);
            }
            let width: u32 = buffer.width;
            let height: u32 = buffer.height;
            let generation: u64 = state.texture.generation + 1;
            match bundle.replace(device, queue, buffer, generation) {
                Err(e) => Err(e),
                Ok(()) => {
                    state.commit_refresh(index, width, height);
                    Ok(())
                },
            }
        },
    }
}

} // verus!

//! Bind group layouts and bind groups: which resources a shader stage sees
//! at which slot.

use vstd::prelude::*;

use crate::format::ShaderStage;
use crate::texture::{
    SamplerDescriptor, Texture, TextureViewDescriptor, TextureViewDimension,
};

verus! {

/// The kind of value a sampled texture yields.
#[derive(Clone, Copy, Debug, PartialEq, Eq, Structural)]
pub enum TextureComponentType {
    Float,
    Sint,
    Uint,
}

/// The shape of the resource a slot takes.
#[derive(Clone, Copy, Debug, PartialEq, Eq, Structural)]
pub enum BindingType {
    SampledTexture {
        multisampled: bool,
        dimension: TextureViewDimension,
        component_type: TextureComponentType,
    },
    Sampler { comparison: bool },
}

/// One slot of a bind group layout.
#[derive(Clone, Copy, Debug, PartialEq, Eq, Structural)]
pub struct BindGroupLayoutEntry {
    pub binding: u32,
    pub visibility: ShaderStage,
    pub ty: BindingType,
}

/// The shape of a bind group: its slots.
#[derive(Clone, Debug, PartialEq, Eq)]
pub struct BindGroupLayout {
    pub entries: Vec<BindGroupLayoutEntry>,
}

/// A resource bound to a slot.
#[derive(Clone, Copy, Debug, PartialEq, Eq, Structural)]
pub enum BindingResource {
    TextureView(TextureViewDescriptor),
    Sampler(SamplerDescriptor),
}

/// One slot of a bind group, filled.
#[derive(Clone, Copy, Debug, PartialEq, Eq, Structural)]
pub struct Binding {
    pub binding: u32,
    pub resource: BindingResource,
}

/// The resources of one draw, slot by slot.
#[derive(Clone, Debug, PartialEq, Eq)]
pub struct BindGroup {
    pub bindings: Vec<Binding>,
}

/// The slots of a textured draw: the image at slot 0 and its sampler at
/// slot 1, both seen by the fragment stage only.  The image is a plain
/// two-dimensional one that yields filtered floats, and the sampler does not
/// compare.
pub open spec fn texture_layout_entries() -> Seq<BindGroupLayoutEntry> {
    seq![
        BindGroupLayoutEntry {
            binding: 0,
            visibility: ShaderStage::Fragment,
            ty: BindingType::SampledTexture {
                multisampled: false,
                dimension: TextureViewDimension::D2,
                component_type: TextureComponentType::Float,
            },
        },
        BindGroupLayoutEntry {
            binding: 1,
            visibility: ShaderStage::Fragment,
            ty: BindingType::Sampler { comparison: false },
        },
    ]
}

/// The bindings that show `texture`: its view at slot 0, its sampler at
/// slot 1.
pub open spec fn texture_bindings(texture: Texture) -> Seq<Binding> {
    seq![
        Binding { binding: 0, resource: BindingResource::TextureView(texture.view) },
        Binding { binding: 1, resource: BindingResource::Sampler(texture.sampler) },
    ]
}

/// Whether a resource has the shape a slot takes.
pub open spec fn fits(ty: BindingType, resource: BindingResource) -> bool {
    match (ty, resource) {
        (BindingType::SampledTexture { dimension, .. }, BindingResource::TextureView(view)) =>
            view.dimension == dimension,
        (BindingType::Sampler { .. }, BindingResource::Sampler(_)) => true,
        _ => false,
    }
}

/// Whether bindings fill the slots of a layout one for one, in order.
pub open spec fn fills(entries: Seq<BindGroupLayoutEntry>, bindings: Seq<Binding>) -> bool {
    &&& entries.len() == bindings.len()
    &&& forall|i: int|
        0 <= i < entries.len() ==> (#[trigger] entries[i]).binding == bindings[i].binding && fits(
            entries[i].ty,
            bindings[i].resource,
        )
}

impl BindGroupLayout {
    /// The layout of a textured draw.
    pub fn for_texture() -> (layout: BindGroupLayout)
        ensures
            layout.entries@ == texture_layout_entries(),
    {
        let mut entries: Vec<BindGroupLayoutEntry> = Vec::new();
        entries.push(
            BindGroupLayoutEntry {
                binding: 0,
                visibility: ShaderStage::Fragment,
                ty: BindingType::SampledTexture {
                    multisampled: false,
                    dimension: TextureViewDimension::D2,
                    component_type: TextureComponentType::Float,
                },
            },
        );
        entries.push(
            BindGroupLayoutEntry {
                binding: 1,
                visibility: ShaderStage::Fragment,
                ty: BindingType::Sampler { comparison: false },
            },
        );
        assert(entries@ =~= texture_layout_entries());
        BindGroupLayout { entries }
    }

    /// Checks that a bind group fills this layout: slot for slot, the same
    /// number and a resource of the shape the slot takes.
    pub fn accepts(&self, group: &BindGroup) -> (r: bool)
        ensures
            r == fills(self.entries@, group.bindings@),
    {
        if self.entries.len() != group.bindings.len() {
            return false;
        }
        let mut i: usize = 0;
        while i < self.entries.len()
            invariant
                i <= self.entries@.len(),
                self.entries@.len() == group.bindings@.len(),
                forall|k: int|
                    0 <= k < i ==> (#[trigger] self.entries@[k]).binding
                        == group.bindings@[k].binding && fits(
                        self.entries@[k].ty,
                        group.bindings@[k].resource,
                    ),
            decreases self.entries@.len() - i,
        {
            let entry = self.entries[i];
            let binding = group.bindings[i];
            let shape_fits = match (entry.ty, binding.resource) {
                (
                    BindingType::SampledTexture { dimension, .. },
                    BindingResource::TextureView(view),
                ) => view.dimension == dimension,
                (BindingType::Sampler { .. }, BindingResource::Sampler(_)) => true,
                _ => false,
            };
            if entry.binding != binding.binding || !shape_fits {
                return false;
            }
            i = i + 1;
        }
        true
    }
}

impl BindGroup {
    /// The bind group that shows `texture`.
    pub fn for_texture(texture: &Texture) -> (group: BindGroup)
        ensures
            group.bindings@ == texture_bindings(*texture),
    {
        let mut bindings: Vec<Binding> = Vec::new();
        bindings.push(Binding { binding: 0, resource: BindingResource::TextureView(texture.view) });
        bindings.push(Binding { binding: 1, resource: BindingResource::Sampler(texture.sampler) });
        assert(bindings@ =~= texture_bindings(*texture));
        BindGroup { bindings }
    }
}

/// The bind group of a two-dimensional texture always fills the layout of a
/// textured draw.
pub proof fn lemma_texture_group_fills_layout(texture: Texture)
    requires
        texture.view.dimension == TextureViewDimension::D2,
    ensures
        fills(texture_layout_entries(), texture_bindings(texture)),
{
}

} // verus!

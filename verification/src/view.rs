//! Mathematical views of the reflection data types.
//!
//! Every executable type of the crate is mirrored by a view made only of
//! `Seq`, `Map` and plain values, so that contracts can speak about the
//! abstract content of a value rather than its representation.

use vstd::prelude::*;

use crate::EntryPoint;
use crate::ExecutionModel;
use crate::LocationVariable;
use crate::PushConstantVariable;
use crate::RawEntryPoint;
use crate::RawVariable;
use crate::StorageClass;
use crate::StructMember;
use crate::Type;
use crate::UniformVariable;

verus! {

/// View of a [`StructMember`].
pub struct MemberV {
    pub name: Option<Seq<char>>,
    pub type_id: u32,
    pub offset: Option<u32>,
    pub row_major: bool,
    pub stride: u32,
}

/// View of a [`Type`].
pub enum TypeV {
    Unknown,
    Void,
    Bool,
    Int32,
    UInt32,
    Float32,
    Vec2,
    Vec3,
    Vec4,
    Mat3,
    Mat4,
    Image2D { depth: bool, sampled: bool, format: u32 },
    Sampler,
    SampledImage { image_type_id: u32 },
    Array { element_type_id: u32, length: Option<u32> },
    Struct { name: Option<Seq<char>>, elements: Seq<MemberV> },
    Pointer { storage_class: StorageClass, pointed_type_id: u32 },
}

/// View of a [`UniformVariable`].
pub struct UniformV {
    pub set: u32,
    pub binding: u32,
    pub type_id: u32,
    pub name: Option<Seq<char>>,
}

/// View of a [`PushConstantVariable`].
pub struct PushConstantV {
    pub type_id: u32,
    pub name: Option<Seq<char>>,
}

/// View of a [`LocationVariable`].
pub struct LocationV {
    pub location: u32,
    pub type_id: u32,
    pub name: Option<Seq<char>>,
}

/// View of an [`EntryPoint`].
pub struct EntryPointV {
    pub name: Seq<char>,
    pub execution_model: ExecutionModel,
    pub uniforms: Seq<UniformV>,
    pub push_constants: Seq<PushConstantV>,
    pub inputs: Seq<LocationV>,
    pub outputs: Seq<LocationV>,
}

/// View of a [`RawVariable`].
pub struct RawVariableV {
    pub set: Option<u32>,
    pub binding: Option<u32>,
    pub location: Option<u32>,
    pub type_id: u32,
    pub name: Option<Seq<char>>,
}

/// View of a [`RawEntryPoint`].
pub struct RawEntryPointV {
    pub name: Seq<char>,
    pub execution_model: ExecutionModel,
    pub interface: Seq<u32>,
}

/// View of a [`crate::Module`]: the id-indexed type graph and the
/// assembled entry points.
pub struct ModuleV {
    pub types: Map<u32, TypeV>,
    pub entry_points: Seq<EntryPointV>,
}

impl View for StructMember {
    type V = MemberV;

    open spec fn view(&self) -> MemberV {
        MemberV {
            name: self.name.deep_view(),
            type_id: self.type_id,
            offset: self.offset,
            row_major: self.row_major,
            stride: self.stride,
        }
    }
}

impl DeepView for StructMember {
    type V = MemberV;

    open spec fn deep_view(&self) -> MemberV {
        self.view()
    }
}

impl View for Type {
    type V = TypeV;

    open spec fn view(&self) -> TypeV {
        match *self {
            Type::Unknown => TypeV::Unknown,
            Type::Void => TypeV::Void,
            Type::Bool => TypeV::Bool,
            Type::Int32 => TypeV::Int32,
            Type::UInt32 => TypeV::UInt32,
            Type::Float32 => TypeV::Float32,
            Type::Vec2 => TypeV::Vec2,
            Type::Vec3 => TypeV::Vec3,
            Type::Vec4 => TypeV::Vec4,
            Type::Mat3 => TypeV::Mat3,
            Type::Mat4 => TypeV::Mat4,
            Type::Image2D { depth, sampled, format } => TypeV::Image2D { depth, sampled, format },
            Type::Sampler => TypeV::Sampler,
            Type::SampledImage { image_type_id } => TypeV::SampledImage { image_type_id },
            Type::Array { element_type_id, length } => TypeV::Array { element_type_id, length },
            Type::Struct { name, elements } => TypeV::Struct {
                name: name.deep_view(),
                elements: elements.deep_view(),
            },
            Type::Pointer { storage_class, pointed_type_id } => TypeV::Pointer {
                storage_class,
                pointed_type_id,
            },
        }
    }
}

impl DeepView for Type {
    type V = TypeV;

    open spec fn deep_view(&self) -> TypeV {
        self.view()
    }
}

impl View for UniformVariable {
    type V = UniformV;

    open spec fn view(&self) -> UniformV {
        UniformV {
            set: self.set,
            binding: self.binding,
            type_id: self.type_id,
            name: self.name.deep_view(),
        }
    }
}

impl DeepView for UniformVariable {
    type V = UniformV;

    open spec fn deep_view(&self) -> UniformV {
        self.view()
    }
}

impl View for PushConstantVariable {
    type V = PushConstantV;

    open spec fn view(&self) -> PushConstantV {
        PushConstantV { type_id: self.type_id, name: self.name.deep_view() }
    }
}

impl DeepView for PushConstantVariable {
    type V = PushConstantV;

    open spec fn deep_view(&self) -> PushConstantV {
        self.view()
    }
}

impl View for LocationVariable {
    type V = LocationV;

    open spec fn view(&self) -> LocationV {
        LocationV {
            location: self.location,
            type_id: self.type_id,
            name: self.name.deep_view(),
        }
    }
}

impl DeepView for LocationVariable {
    type V = LocationV;

    open spec fn deep_view(&self) -> LocationV {
        self.view()
    }
}

impl View for RawVariable {
    type V = RawVariableV;

    open spec fn view(&self) -> RawVariableV {
        RawVariableV {
            set: self.set,
            binding: self.binding,
            location: self.location,
            type_id: self.type_id,
            name: self.name.deep_view(),
        }
    }
}

impl DeepView for RawVariable {
    type V = RawVariableV;

    open spec fn deep_view(&self) -> RawVariableV {
        self.view()
    }
}

impl View for RawEntryPoint {
    type V = RawEntryPointV;

    open spec fn view(&self) -> RawEntryPointV {
        RawEntryPointV {
            name: self.name.view(),
            execution_model: self.execution_model,
            interface: self.interface.view(),
        }
    }
}

impl DeepView for RawEntryPoint {
    type V = RawEntryPointV;

    open spec fn deep_view(&self) -> RawEntryPointV {
        self.view()
    }
}

impl View for EntryPoint {
    type V = EntryPointV;

    open spec fn view(&self) -> EntryPointV {
        EntryPointV {
            name: self.name.view(),
            execution_model: self.execution_model,
            uniforms: self.uniforms.deep_view(),
            push_constants: self.push_constants.deep_view(),
            inputs: self.inputs.deep_view(),
            outputs: self.outputs.deep_view(),
        }
    }
}

impl DeepView for EntryPoint {
    type V = EntryPointV;

    open spec fn deep_view(&self) -> EntryPointV {
        self.view()
    }
}

} // verus!

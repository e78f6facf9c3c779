use vstd::prelude::*;

pub mod classify;
pub mod collect;
pub mod decorate;
pub mod laws;
mod idmap;
pub mod ops;
mod private;
pub mod size;
pub mod view;
pub mod words;

verus! {

/// The ways in which reflection of a shader binary can fail.
///
/// Every failure is terminal: no partial [`Module`] is ever produced.
#[derive(Debug, Clone, Copy, PartialEq, Eq, Structural)]
pub enum Error {
    /// A semantically fatal condition outside the other categories,
    /// such as an unsupported execution model in an entry point.
    Other,
    /// The buffer is shorter than a header or does not begin with the magic word.
    InvalidHeader,
    /// An instruction is malformed: bad word count, missing operand,
    /// or an unterminated string.
    InvalidOp,
    /// A type or constant reference names an id that was never declared.
    InvalidId,
    /// The bytes of a string operand are not valid UTF-8.
    StringFormat,
}

pub type SpirvResult<T> = Result<T, Error>;

/// Describes what type of storage a pointer points to.
#[derive(Debug, Clone, Copy, PartialEq, Eq, Structural)]
#[non_exhaustive]
pub enum StorageClass {
    Unknown,
    /// The pointer is a uniform variable (uniform blocks)
    Uniform,
    /// The pointer is a uniform variable (images, etc.)
    UniformConstant,
    /// The pointer is a push constant
    PushConstant,
    /// The pointer is an input variable
    Input,
    /// The pointer is an output variable
    Output,
}

/// The execution model of an [`EntryPoint`].
#[derive(Debug, Clone, Copy, PartialEq, Eq, Structural)]
#[non_exhaustive]
pub enum ExecutionModel {
    /// A vertex shader
    Vertex,
    /// A fragment shader
    Fragment,
}

/// Describes a single member of a [`Type::Struct`] type.
#[derive(Debug, Clone)]
pub struct StructMember {
    /// The name of the member variable (if known)
    pub name: Option<String>,
    /// The type id of the member's [`Type`]
    pub type_id: u32,
    /// The offset within the struct of this member (if known)
    pub offset: Option<u32>,
    /// For matrix members: whether this matrix is stored in row major order
    pub row_major: bool,
    /// For matrix members: the stride between rows/columns of the matrix
    pub stride: u32,
}

/// Represents a type declared in a shader module.
///
/// Types are declared in a hierarchy, with e.g. pointers relying on
/// previously declared types as pointed-to types.
#[derive(Debug, Clone)]
#[non_exhaustive]
pub enum Type {
    /// An unsupported type
    Unknown,
    /// The void type
    Void,
    /// A boolean
    Bool,
    /// A signed 32-bit integer
    Int32,
    /// An unsigned 32-bit integer
    UInt32,
    /// A 32-bit float
    Float32,
    /// A 2 component, 32-bit vector
    Vec2,
    /// A 3 component, 32-bit vector
    Vec3,
    /// A 4 component, 32-bit vector
    Vec4,
    /// A 3x3, 32-bit matrix
    Mat3,
    /// A 4x4, 32-bit matrix
    Mat4,
    /// A 2D image
    Image2D {
        /// true if this image is a depth image
        depth: bool,
        /// true if this image can be sampled from
        sampled: bool,
        /// wire code of the image's format
        format: u32,
    },
    /// An opaque sampler object
    Sampler,
    /// A combined image and sampler
    SampledImage {
        /// type id of the image contained in the sampled image
        image_type_id: u32,
    },
    /// Either a static array with known length (`length` is [`Some`]) or a
    /// runtime array with unknown length (`length` is [`None`])
    Array {
        /// type id of the contained type
        element_type_id: u32,
        /// length of the array (if known)
        length: Option<u32>,
    },
    /// A struct containing other types
    Struct {
        /// The name of the struct (if known)
        name: Option<String>,
        /// members of the struct, in declaration order
        /// (not necessarily ascending offsets)
        elements: Vec<StructMember>,
    },
    /// A pointer pointing to another type
    Pointer {
        /// The type of storage this pointer points to
        storage_class: StorageClass,
        /// The type id of the pointed-to type
        pointed_type_id: u32,
    },
}

/// Describes a uniform variable declared in a shader module.
#[derive(Debug, Clone)]
pub struct UniformVariable {
    /// Which descriptor set the variable is contained in
    pub set: u32,
    /// Which descriptor set binding the variable is bound to
    pub binding: u32,
    /// The type id of the variable's [`Type`]
    pub type_id: u32,
    /// The variable's name (if known)
    pub name: Option<String>,
}

/// Describes a push constant variable declared in a shader module.
#[derive(Debug, Clone)]
pub struct PushConstantVariable {
    /// The type id of the variable's [`Type`]
    pub type_id: u32,
    /// The variable's name (if known)
    pub name: Option<String>,
}

/// Describes an input or output variable declared in a shader module.
#[derive(Debug, Clone)]
pub struct LocationVariable {
    /// The location of the variable
    pub location: u32,
    /// The type id of the variable's [`Type`]
    pub type_id: u32,
    /// The variable's name (if known)
    pub name: Option<String>,
}

/// A variable as recorded by the collection pass, before decorations are
/// resolved onto it.
#[derive(Debug, Clone)]
pub struct RawVariable {
    pub set: Option<u32>,
    pub binding: Option<u32>,
    pub location: Option<u32>,
    pub type_id: u32,
    pub name: Option<String>,
}

/// An entry point as recorded by the collection pass, with its interface
/// id list still unresolved.
#[derive(Debug)]
pub struct RawEntryPoint {
    pub name: String,
    pub execution_model: ExecutionModel,
    pub interface: Vec<u32>,
}

/// Describes a single entry point in a shader module.
///
/// A module can have multiple entry points with different names,
/// each defining a single shader.
#[derive(Debug)]
pub struct EntryPoint {
    /// The name of the entry point, used for identification
    pub name: String,
    /// The [`ExecutionModel`] of the entry point
    pub execution_model: ExecutionModel,
    /// All uniform variables used in this shader
    pub uniforms: Vec<UniformVariable>,
    /// All push constant variables used in this shader
    pub push_constants: Vec<PushConstantVariable>,
    /// All inputs used in this shader
    pub inputs: Vec<LocationVariable>,
    /// All outputs used in this shader
    pub outputs: Vec<LocationVariable>,
}

/// Stores the reflection info of a single shader module.
///
/// Built in one constructor call from an immutable word buffer; once
/// built it exposes only read queries.
#[derive(Debug)]
pub struct Module {
    types: idmap::IdMap<Type>,
    entry_points: Vec<EntryPoint>,
}

impl View for Module {
    type V = view::ModuleV;

    closed spec fn view(&self) -> view::ModuleV {
        view::ModuleV { types: self.types@, entry_points: self.entry_points.deep_view() }
    }
}

/// Implemented by every reflected variable kind, so that size queries can
/// be asked of uniforms, push constants and location variables alike.
pub trait Variable: private::Variable {

}

impl<T: private::Variable> Variable for T {

}

impl private::Variable for UniformVariable {
    open spec fn spec_type_id(&self) -> u32 {
        self.type_id
    }

    fn get_type_id(&self) -> u32 {
        self.type_id
    }
}

impl private::Variable for PushConstantVariable {
    open spec fn spec_type_id(&self) -> u32 {
        self.type_id
    }

    fn get_type_id(&self) -> u32 {
        self.type_id
    }
}

impl private::Variable for LocationVariable {
    open spec fn spec_type_id(&self) -> u32 {
        self.type_id
    }

    fn get_type_id(&self) -> u32 {
        self.type_id
    }
}

/// What reflecting a word buffer yields: the header is validated, every
/// instruction is decoded, the collection pass builds the tables, the
/// decoration pass overlays them, and the entry points are assembled; the
/// first failure anywhere is the outcome.
pub open spec fn spec_from_words(words: Seq<u32>) -> Result<view::ModuleV, Error> {
    if words.len() < 6 || words[0] != 0x07230203u32 {
        Err(Error::InvalidHeader)
    } else {
        match ops::spec_decode_ops(words.skip(5)) {
            Err(e) => Err(e),
            Ok(opsv) => match collect::spec_collect(opsv) {
                Err(e) => Err(e),
                Ok(st) => {
                    let d = decorate::spec_decorate(
                        opsv,
                        decorate::DecorateV { types: st.types, vars: st.vars },
                    );
                    Ok(
                        view::ModuleV {
                            types: d.types,
                            entry_points: classify::spec_assemble(d.types, d.vars, st.entries),
                        },
                    )
                },
            },
        }
    }
}

impl Module {
    #[verifier::type_invariant]
    spec fn inv(&self) -> bool {
        self.types.wf()
    }

    /// Generates reflection info from a given stream of `words`.
    ///
    /// # Errors
    /// - [`Error::InvalidHeader`] if the header is not valid
    /// - [`Error::InvalidOp`] if the framing of any instruction is not valid
    /// - [`Error::InvalidId`] if a type declaration references a missing id
    /// - [`Error::StringFormat`] if a string operand holds invalid UTF-8
    /// - [`Error::Other`] if an entry point has an unmodeled execution model
    pub fn from_words(words: &[u32]) -> (r: SpirvResult<Module>)
        ensures
            match r {
                Ok(m) => spec_from_words(words@) == Ok::<view::ModuleV, Error>(m@),
                Err(e) => spec_from_words(words@) == Err::<view::ModuleV, Error>(e),
            },
            (r matches Err(e) && e == Error::InvalidHeader) <==> (words@.len() < 6 || words@[0]
                != 0x07230203u32),
    {
        proof {
            laws::lemma_invalid_header(words@);
        }
        // Check the magic number of the header.
        if words.len() < 6 {
            return Err(Error::InvalidHeader);
        }
        if words[0] != 0x07230203 {
            return Err(Error::InvalidHeader);
        }

        // Skip the rest of the header and decode all instructions.
        let ops = match ops::decode_ops(words, 5) {
            Ok(v) => v,
            Err(e) => {
                return Err(e);
            },
        };

        // First sweep: types, constants, variables, entry points.
        let mut types: idmap::IdMap<Type> = idmap::IdMap::new();
        let mut constants: idmap::IdMap<u32> = idmap::IdMap::new();
        let mut vars: idmap::IdMap<RawVariable> = idmap::IdMap::new();
        let mut entries: Vec<RawEntryPoint> = Vec::new();
        proof {
            assert(entries.deep_view() =~= Seq::<view::RawEntryPointV>::empty());
        }
        match collect::collect_types_and_vars(&ops, &mut types, &mut constants, &mut vars, &mut entries) {
            Ok(_) => {},
            Err(e) => {
                return Err(e);
            },
        }

        // Second sweep: names and decorations, overlaid in place.
        decorate::collect_decorations_and_names(&ops, &mut types, &mut vars);

        // Classification and entry-point assembly.
        let entry_points = classify::assemble_entry_points(&types, &vars, &entries);

        Ok(Module { types, entry_points })
    }

    /// Returns the [`Type`] definition indicated by `type_id`, or `None`
    /// if `type_id` is not a type.
    pub fn get_type(&self, type_id: u32) -> (r: Option<&Type>)
        ensures
            match r {
                Some(t) => self@.types.contains_key(type_id) && t.deep_view()
                    == self@.types[type_id],
                None => !self@.types.contains_key(type_id),
            },
    {
        proof {
            use_type_invariant(&*self);
        }
        self.types.get(type_id)
    }

    /// Returns the [`EntryPoint`] definitions contained in the module.
    pub fn get_entry_points(&self) -> (r: &[EntryPoint])
        ensures
            r.deep_view() == self@.entry_points,
    {
        let r = self.entry_points.as_slice();
        proof {
            assert(r.deep_view() =~= self.entry_points.deep_view());
        }
        r
    }

    fn get_type_size_fuel(&self, type_id: u32, stride: Option<u32>, fuel: usize) -> (r: Option<
        u32,
    >)
        ensures
            r == size::spec_type_size(self@.types, type_id, stride, fuel as nat),
        decreases fuel,
    {
        proof {
            use_type_invariant(&*self);
        }
        match self.types.get(type_id) {
            None => None,
            Some(t) => match t {
                Type::Int32 | Type::UInt32 | Type::Float32 => Some(4),
                Type::Vec2 => Some(8),
                Type::Vec3 => Some(12),
                Type::Vec4 => Some(16),
                Type::Mat3 => match stride {
                    // two rows/columns + the size of a Vec3
                    Some(s) => {
                        if s <= (u32::MAX - 12) / 2 {
                            Some(s * 2 + 12)
                        } else {
                            None
                        }
                    },
                    None => None,
                },
                Type::Mat4 => match stride {
                    // three rows/columns + the size of a Vec4
                    Some(s) => {
                        if s <= (u32::MAX - 16) / 3 {
                            Some(s * 3 + 16)
                        } else {
                            None
                        }
                    },
                    None => None,
                },
                Type::Struct { name: _, elements } => {
                    if fuel == 0 {
                        return None;
                    }
                    // Find the member with the greatest known offset.
                    let ghost dv = elements.deep_view();
                    let n: usize = elements.len();
                    let mut have_best: bool = false;
                    let mut best: usize = 0;
                    let mut best_off: u32 = 0;
                    let mut j: usize = 0;
                    while j < n
                        invariant
                            j <= n,
                            n == elements@.len(),
                            dv == elements.deep_view(),
                            dv.len() == n,
                            forall|p: int| 0 <= p < n ==> #[trigger] dv[p] == elements@[p].deep_view(),
                            if have_best {
                                &&& best < j
                                &&& dv[best as int].offset == Some(best_off)
                                &&& size::max_offset_upto(dv, j as int) == Some(best as int)
                            } else {
                                size::max_offset_upto(dv, j as int) == None::<int>
                            },
                        decreases n - j,
                    {
                        match elements[j].offset {
                            Some(o) => {
                                if !have_best || o > best_off {
                                    have_best = true;
                                    best = j;
                                    best_off = o;
                                }
                            },
                            None => {},
                        }
                        j = j + 1;
                    }
                    if !have_best {
                        return None;
                    }
                    let m = &elements[best];
                    match self.get_type_size_fuel(m.type_id, Some(m.stride), fuel - 1) {
                        None => None,
                        Some(sz) => {
                            if best_off <= u32::MAX - sz {
                                Some(best_off + sz)
                            } else {
                                None
                            }
                        },
                    }
                },
                _ => None,
            },
        }
    }

    /// The byte size of the type bound to `type_id`, under a stride hint.
    fn get_type_size(&self, type_id: u32, stride: Option<u32>) -> (r: Option<u32>)
        ensures
            r == size::spec_module_type_size(self@, type_id, stride),
    {
        proof {
            use_type_invariant(&*self);
        }
        let fuel: usize = self.types.num_entries();
        self.get_type_size_fuel(type_id, stride, fuel)
    }

    /// Returns the size of a given [`StructMember`], if known.
    pub fn get_member_size(&self, member: &StructMember) -> (r: Option<u32>)
        ensures
            r == size::spec_member_size(self@, member@),
    {
        self.get_type_size(member.type_id, Some(member.stride))
    }

    /// Returns the size of a given [`UniformVariable`],
    /// [`PushConstantVariable`] or [`LocationVariable`], if known.
    pub fn get_var_size<T: Variable>(&self, var: &T) -> (r: Option<u32>)
        ensures
            r == size::spec_var_size(self@, var.spec_type_id()),
    {
        self.get_type_size(var.get_type_id(), None)
    }
}

} // verus!

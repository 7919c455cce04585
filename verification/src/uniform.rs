//! Uniforms: the named, typed inputs of a linked program.

use crate::codes;
use crate::driver::{views, with_data, Call, CallView, Fault, FaultView, MatrixUpload, Op, Upload};
use vstd::prelude::*;
use vstd::string::StringExecFns;

verus! {

/// The type of a uniform, as the driver reports it.
#[derive(Clone, Copy, Debug, PartialEq, Eq)]
pub enum UniformType {
    Int,
    IntVec2,
    IntVec3,
    IntVec4,
    UInt,
    UIntVec2,
    UIntVec3,
    UIntVec4,
    Bool,
    BoolVec2,
    BoolVec3,
    BoolVec4,
    Float,
    FloatVec2,
    FloatVec3,
    FloatVec4,
    FloatMat2,
    FloatMat3,
    FloatMat4,
    FloatMat2x3,
    FloatMat2x4,
    FloatMat3x2,
    FloatMat3x4,
    FloatMat4x2,
    FloatMat4x3,
    Double,
    DoubleVec1,
    DoubleVec2,
    DoubleVec3,
    DoubleVec4,
    DoubleMat2,
    DoubleMat3,
    DoubleMat4,
    DoubleMat2x3,
    DoubleMat2x4,
    DoubleMat3x2,
    DoubleMat3x4,
    DoubleMat4x2,
    DoubleMat4x3,
    Sampler1D,
    Sampler2D,
    Sampler3D,
    SamplerCube,
    Sampler1DShadow,
    Sampler2DShadow,
    Sampler1DArray,
    Sampler2DArray,
    Sampler1DArrayShadow,
    Sampler2DArrayShadow,
    Sampler2DMultiSample,
    Sampler2DMultiSampleArray,
}

/// The driver primitive that uploads a value.
#[derive(Clone, Copy, Debug, PartialEq, Eq)]
pub enum Primitive {
    Vector(Upload),
    Matrix(MatrixUpload),
}

impl UniformType {
    /// The constant by which the driver reports the type. The driver has no
    /// constant for a vector of one double.
    pub open spec fn code(self) -> Option<u32> {
        match self {
            UniformType::Int => Some(0x1404),
            UniformType::IntVec2 => Some(0x8B53),
            UniformType::IntVec3 => Some(0x8B54),
            UniformType::IntVec4 => Some(0x8B55),
            UniformType::UInt => Some(0x1405),
            UniformType::UIntVec2 => Some(0x8DC6),
            UniformType::UIntVec3 => Some(0x8DC7),
            UniformType::UIntVec4 => Some(0x8DC8),
            UniformType::Bool => Some(0x8B56),
            UniformType::BoolVec2 => Some(0x8B57),
            UniformType::BoolVec3 => Some(0x8B58),
            UniformType::BoolVec4 => Some(0x8B59),
            UniformType::Float => Some(0x1406),
            UniformType::FloatVec2 => Some(0x8B50),
            UniformType::FloatVec3 => Some(0x8B51),
            UniformType::FloatVec4 => Some(0x8B52),
            UniformType::FloatMat2 => Some(0x8B5A),
            UniformType::FloatMat3 => Some(0x8B5B),
            UniformType::FloatMat4 => Some(0x8B5C),
            UniformType::FloatMat2x3 => Some(0x8B65),
            UniformType::FloatMat2x4 => Some(0x8B66),
            UniformType::FloatMat3x2 => Some(0x8B67),
            UniformType::FloatMat3x4 => Some(0x8B68),
            UniformType::FloatMat4x2 => Some(0x8B69),
            UniformType::FloatMat4x3 => Some(0x8B6A),
            UniformType::Double => Some(0x140A),
            UniformType::DoubleVec1 => None,
            UniformType::DoubleVec2 => Some(0x8FFC),
            UniformType::DoubleVec3 => Some(0x8FFD),
            UniformType::DoubleVec4 => Some(0x8FFE),
            UniformType::DoubleMat2 => Some(0x8F46),
            UniformType::DoubleMat3 => Some(0x8F47),
            UniformType::DoubleMat4 => Some(0x8F48),
            UniformType::DoubleMat2x3 => Some(0x8F49),
            UniformType::DoubleMat2x4 => Some(0x8F4A),
            UniformType::DoubleMat3x2 => Some(0x8F4B),
            UniformType::DoubleMat3x4 => Some(0x8F4C),
            UniformType::DoubleMat4x2 => Some(0x8F4D),
            UniformType::DoubleMat4x3 => Some(0x8F4E),
            UniformType::Sampler1D => Some(0x8B5D),
            UniformType::Sampler2D => Some(0x8B5E),
            UniformType::Sampler3D => Some(0x8B5F),
            UniformType::SamplerCube => Some(0x8B60),
            UniformType::Sampler1DShadow => Some(0x8B61),
            UniformType::Sampler2DShadow => Some(0x8B62),
            UniformType::Sampler1DArray => Some(0x8DC0),
            UniformType::Sampler2DArray => Some(0x8DC1),
            UniformType::Sampler1DArrayShadow => Some(0x8DC3),
            UniformType::Sampler2DArrayShadow => Some(0x8DC4),
            UniformType::Sampler2DMultiSample => Some(0x9108),
            UniformType::Sampler2DMultiSampleArray => Some(0x910B),
        }
    }

    /// Whether `code` is the constant of one of the types.
    pub open spec fn known(code: u32) -> bool {
        exists|t: UniformType| t.code() == Some(code)
    }

    /// The type that the constant `code` stands for, if it stands for one.
    pub open spec fn of(code: u32) -> Option<UniformType> {
        if Self::known(code) {
            Some(choose|t: UniformType| t.code() == Some(code))
        } else {
            None
        }
    }

    /// The type that the driver's constant `x` stands for, if it stands for
    /// one.
    pub fn recognize(x: u32) -> (r: Option<UniformType>)
        ensures
            r == Self::of(x),
    {
        let r =
        if x == codes::gl_float() {
            Some(UniformType::Float)
        } else if x == codes::gl_float_vec2() {
            Some(UniformType::FloatVec2)
        } else if x == codes::gl_float_vec3() {
            Some(UniformType::FloatVec3)
        } else if x == codes::gl_float_vec4() {
            Some(UniformType::FloatVec4)
        } else if x == codes::gl_double() {
            Some(UniformType::Double)
        } else if x == codes::gl_double_vec2() {
            Some(UniformType::DoubleVec2)
        } else if x == codes::gl_double_vec3() {
            Some(UniformType::DoubleVec3)
        } else if x == codes::gl_double_vec4() {
            Some(UniformType::DoubleVec4)
        } else if x == codes::gl_int() {
            Some(UniformType::Int)
        } else if x == codes::gl_int_vec2() {
            Some(UniformType::IntVec2)
        } else if x == codes::gl_int_vec3() {
            Some(UniformType::IntVec3)
        } else if x == codes::gl_int_vec4() {
            Some(UniformType::IntVec4)
        } else if x == codes::gl_unsigned_int() {
            Some(UniformType::UInt)
        } else if x == codes::gl_unsigned_int_vec2() {
            Some(UniformType::UIntVec2)
        } else if x == codes::gl_unsigned_int_vec3() {
            Some(UniformType::UIntVec3)
        } else if x == codes::gl_unsigned_int_vec4() {
            Some(UniformType::UIntVec4)
        } else if x == codes::gl_bool() {
            Some(UniformType::Bool)
        } else if x == codes::gl_bool_vec2() {
            Some(UniformType::BoolVec2)
        } else if x == codes::gl_bool_vec3() {
            Some(UniformType::BoolVec3)
        } else if x == codes::gl_bool_vec4() {
            Some(UniformType::BoolVec4)
        } else if x == codes::gl_float_mat2() {
            Some(UniformType::FloatMat2)
        } else if x == codes::gl_float_mat3() {
            Some(UniformType::FloatMat3)
        } else if x == codes::gl_float_mat4() {
            Some(UniformType::FloatMat4)
        } else if x == codes::gl_float_mat2x3() {
            Some(UniformType::FloatMat2x3)
        } else if x == codes::gl_float_mat2x4() {
            Some(UniformType::FloatMat2x4)
        } else if x == codes::gl_float_mat3x2() {
            Some(UniformType::FloatMat3x2)
        } else if x == codes::gl_float_mat3x4() {
            Some(UniformType::FloatMat3x4)
        } else if x == codes::gl_float_mat4x2() {
            Some(UniformType::FloatMat4x2)
        } else if x == codes::gl_float_mat4x3() {
            Some(UniformType::FloatMat4x3)
        } else if x == codes::gl_double_mat2() {
            Some(UniformType::DoubleMat2)
        } else if x == codes::gl_double_mat3() {
            Some(UniformType::DoubleMat3)
        } else if x == codes::gl_double_mat4() {
            Some(UniformType::DoubleMat4)
        } else if x == codes::gl_double_mat2x3() {
            Some(UniformType::DoubleMat2x3)
        } else if x == codes::gl_double_mat2x4() {
            Some(UniformType::DoubleMat2x4)
        } else if x == codes::gl_double_mat3x2() {
            Some(UniformType::DoubleMat3x2)
        } else if x == codes::gl_double_mat3x4() {
            Some(UniformType::DoubleMat3x4)
        } else if x == codes::gl_double_mat4x2() {
            Some(UniformType::DoubleMat4x2)
        } else if x == codes::gl_double_mat4x3() {
            Some(UniformType::DoubleMat4x3)
        } else if x == codes::gl_sampler_1d() {
            Some(UniformType::Sampler1D)
        } else if x == codes::gl_sampler_2d() {
            Some(UniformType::Sampler2D)
        } else if x == codes::gl_sampler_3d() {
            Some(UniformType::Sampler3D)
        } else if x == codes::gl_sampler_cube() {
            Some(UniformType::SamplerCube)
        } else if x == codes::gl_sampler_1d_shadow() {
            Some(UniformType::Sampler1DShadow)
        } else if x == codes::gl_sampler_2d_shadow() {
            Some(UniformType::Sampler2DShadow)
        } else if x == codes::gl_sampler_1d_array() {
            Some(UniformType::Sampler1DArray)
        } else if x == codes::gl_sampler_2d_array() {
            Some(UniformType::Sampler2DArray)
        } else if x == codes::gl_sampler_1d_array_shadow() {
            Some(UniformType::Sampler1DArrayShadow)
        } else if x == codes::gl_sampler_2d_array_shadow() {
            Some(UniformType::Sampler2DArrayShadow)
        } else if x == codes::gl_sampler_2d_multisample() {
            Some(UniformType::Sampler2DMultiSample)
        } else if x == codes::gl_sampler_2d_multisample_array() {
            Some(UniformType::Sampler2DMultiSampleArray)
        } else {
            None
        };
        proof {
            if r is None {
                assert forall|t: UniformType| t.code() != Some(x) by {}
            } else {
                Self::lemma_code_is_injective(r->0, Self::of(x)->0);
            }
        }
        r
    }

    /// The type that the driver's constant `x` stands for.
    pub fn from(x: u32) -> (r: UniformType)
        requires
            Self::known(x),
        ensures
            Some(r) == Self::of(x),
            r.code() == Some(x),
    {
        match Self::recognize(x) {
            Some(t) => t,
            None => vstd::pervasive::unreached(),
        }
    }

    /// The primitive that uploads a value of the type. Booleans and samplers
    /// go the way of integers, and a vector of one double the way of a double.
    pub open spec fn spec_primitive(self) -> Primitive {
        match self {
            UniformType::Int
            | UniformType::Bool
            | UniformType::Sampler1D
            | UniformType::Sampler2D
            | UniformType::Sampler3D
            | UniformType::SamplerCube
            | UniformType::Sampler1DShadow
            | UniformType::Sampler2DShadow
            | UniformType::Sampler1DArray
            | UniformType::Sampler2DArray
            | UniformType::Sampler1DArrayShadow
            | UniformType::Sampler2DArrayShadow
            | UniformType::Sampler2DMultiSample
            | UniformType::Sampler2DMultiSampleArray => Primitive::Vector(Upload::Uniform1iv),
            UniformType::IntVec2
            | UniformType::BoolVec2 => Primitive::Vector(Upload::Uniform2iv),
            UniformType::IntVec3
            | UniformType::BoolVec3 => Primitive::Vector(Upload::Uniform3iv),
            UniformType::IntVec4
            | UniformType::BoolVec4 => Primitive::Vector(Upload::Uniform4iv),
            UniformType::UInt => Primitive::Vector(Upload::Uniform1uiv),
            UniformType::UIntVec2 => Primitive::Vector(Upload::Uniform2uiv),
            UniformType::UIntVec3 => Primitive::Vector(Upload::Uniform3uiv),
            UniformType::UIntVec4 => Primitive::Vector(Upload::Uniform4uiv),
            UniformType::Float => Primitive::Vector(Upload::Uniform1fv),
            UniformType::FloatVec2 => Primitive::Vector(Upload::Uniform2fv),
            UniformType::FloatVec3 => Primitive::Vector(Upload::Uniform3fv),
            UniformType::FloatVec4 => Primitive::Vector(Upload::Uniform4fv),
            UniformType::FloatMat2 => Primitive::Matrix(MatrixUpload::Matrix2fv),
            UniformType::FloatMat3 => Primitive::Matrix(MatrixUpload::Matrix3fv),
            UniformType::FloatMat4 => Primitive::Matrix(MatrixUpload::Matrix4fv),
            UniformType::FloatMat2x3 => Primitive::Matrix(MatrixUpload::Matrix2x3fv),
            UniformType::FloatMat2x4 => Primitive::Matrix(MatrixUpload::Matrix2x4fv),
            UniformType::FloatMat3x2 => Primitive::Matrix(MatrixUpload::Matrix3x2fv),
            UniformType::FloatMat3x4 => Primitive::Matrix(MatrixUpload::Matrix3x4fv),
            UniformType::FloatMat4x2 => Primitive::Matrix(MatrixUpload::Matrix4x2fv),
            UniformType::FloatMat4x3 => Primitive::Matrix(MatrixUpload::Matrix4x3fv),
            UniformType::Double
            | UniformType::DoubleVec1 => Primitive::Vector(Upload::Uniform1dv),
            UniformType::DoubleVec2 => Primitive::Vector(Upload::Uniform2dv),
            UniformType::DoubleVec3 => Primitive::Vector(Upload::Uniform3dv),
            UniformType::DoubleVec4 => Primitive::Vector(Upload::Uniform4dv),
            UniformType::DoubleMat2 => Primitive::Matrix(MatrixUpload::Matrix2dv),
            UniformType::DoubleMat3 => Primitive::Matrix(MatrixUpload::Matrix3dv),
            UniformType::DoubleMat4 => Primitive::Matrix(MatrixUpload::Matrix4dv),
            UniformType::DoubleMat2x3 => Primitive::Matrix(MatrixUpload::Matrix2x3dv),
            UniformType::DoubleMat2x4 => Primitive::Matrix(MatrixUpload::Matrix2x4dv),
            UniformType::DoubleMat3x2 => Primitive::Matrix(MatrixUpload::Matrix3x2dv),
            UniformType::DoubleMat3x4 => Primitive::Matrix(MatrixUpload::Matrix3x4dv),
            UniformType::DoubleMat4x2 => Primitive::Matrix(MatrixUpload::Matrix4x2dv),
            UniformType::DoubleMat4x3 => Primitive::Matrix(MatrixUpload::Matrix4x3dv),
        }
    }

    /// The primitive that uploads a value of the type.
    #[verifier::when_used_as_spec(spec_primitive)]
    pub fn primitive(self) -> (r: Primitive)
        ensures
            r == self.spec_primitive(),
    {
        match self {
            UniformType::Int => Primitive::Vector(Upload::Uniform1iv),
            UniformType::IntVec2 => Primitive::Vector(Upload::Uniform2iv),
            UniformType::IntVec3 => Primitive::Vector(Upload::Uniform3iv),
            UniformType::IntVec4 => Primitive::Vector(Upload::Uniform4iv),
            UniformType::UInt => Primitive::Vector(Upload::Uniform1uiv),
            UniformType::UIntVec2 => Primitive::Vector(Upload::Uniform2uiv),
            UniformType::UIntVec3 => Primitive::Vector(Upload::Uniform3uiv),
            UniformType::UIntVec4 => Primitive::Vector(Upload::Uniform4uiv),
            UniformType::Bool => Primitive::Vector(Upload::Uniform1iv),
            UniformType::BoolVec2 => Primitive::Vector(Upload::Uniform2iv),
            UniformType::BoolVec3 => Primitive::Vector(Upload::Uniform3iv),
            UniformType::BoolVec4 => Primitive::Vector(Upload::Uniform4iv),
            UniformType::Float => Primitive::Vector(Upload::Uniform1fv),
            UniformType::FloatVec2 => Primitive::Vector(Upload::Uniform2fv),
            UniformType::FloatVec3 => Primitive::Vector(Upload::Uniform3fv),
            UniformType::FloatVec4 => Primitive::Vector(Upload::Uniform4fv),
            UniformType::FloatMat2 => Primitive::Matrix(MatrixUpload::Matrix2fv),
            UniformType::FloatMat3 => Primitive::Matrix(MatrixUpload::Matrix3fv),
            UniformType::FloatMat4 => Primitive::Matrix(MatrixUpload::Matrix4fv),
            UniformType::FloatMat2x3 => Primitive::Matrix(MatrixUpload::Matrix2x3fv),
            UniformType::FloatMat2x4 => Primitive::Matrix(MatrixUpload::Matrix2x4fv),
            UniformType::FloatMat3x2 => Primitive::Matrix(MatrixUpload::Matrix3x2fv),
            UniformType::FloatMat3x4 => Primitive::Matrix(MatrixUpload::Matrix3x4fv),
            UniformType::FloatMat4x2 => Primitive::Matrix(MatrixUpload::Matrix4x2fv),
            UniformType::FloatMat4x3 => Primitive::Matrix(MatrixUpload::Matrix4x3fv),
            UniformType::Double => Primitive::Vector(Upload::Uniform1dv),
            UniformType::DoubleVec1 => Primitive::Vector(Upload::Uniform1dv),
            UniformType::DoubleVec2 => Primitive::Vector(Upload::Uniform2dv),
            UniformType::DoubleVec3 => Primitive::Vector(Upload::Uniform3dv),
            UniformType::DoubleVec4 => Primitive::Vector(Upload::Uniform4dv),
            UniformType::DoubleMat2 => Primitive::Matrix(MatrixUpload::Matrix2dv),
            UniformType::DoubleMat3 => Primitive::Matrix(MatrixUpload::Matrix3dv),
            UniformType::DoubleMat4 => Primitive::Matrix(MatrixUpload::Matrix4dv),
            UniformType::DoubleMat2x3 => Primitive::Matrix(MatrixUpload::Matrix2x3dv),
            UniformType::DoubleMat2x4 => Primitive::Matrix(MatrixUpload::Matrix2x4dv),
            UniformType::DoubleMat3x2 => Primitive::Matrix(MatrixUpload::Matrix3x2dv),
            UniformType::DoubleMat3x4 => Primitive::Matrix(MatrixUpload::Matrix3x4dv),
            UniformType::DoubleMat4x2 => Primitive::Matrix(MatrixUpload::Matrix4x2dv),
            UniformType::DoubleMat4x3 => Primitive::Matrix(MatrixUpload::Matrix4x3dv),
            UniformType::Sampler1D => Primitive::Vector(Upload::Uniform1iv),
            UniformType::Sampler2D => Primitive::Vector(Upload::Uniform1iv),
            UniformType::Sampler3D => Primitive::Vector(Upload::Uniform1iv),
            UniformType::SamplerCube => Primitive::Vector(Upload::Uniform1iv),
            UniformType::Sampler1DShadow => Primitive::Vector(Upload::Uniform1iv),
            UniformType::Sampler2DShadow => Primitive::Vector(Upload::Uniform1iv),
            UniformType::Sampler1DArray => Primitive::Vector(Upload::Uniform1iv),
            UniformType::Sampler2DArray => Primitive::Vector(Upload::Uniform1iv),
            UniformType::Sampler1DArrayShadow => Primitive::Vector(Upload::Uniform1iv),
            UniformType::Sampler2DArrayShadow => Primitive::Vector(Upload::Uniform1iv),
            UniformType::Sampler2DMultiSample => Primitive::Vector(Upload::Uniform1iv),
            UniformType::Sampler2DMultiSampleArray => Primitive::Vector(Upload::Uniform1iv),
        }
    }

    /// No two types share a constant.
    pub proof fn lemma_code_is_injective(a: UniformType, b: UniformType)
        requires
            a.code() is Some,
            a.code() == b.code(),
        ensures
            a == b,
    {
    }

    /// Every type that has a constant is the one that its constant stands
    /// for.
    pub proof fn lemma_constant_gives_type_back(t: UniformType)
        requires
            t.code() is Some,
        ensures
            Self::of(t.code()->0) == Some(t),
    {
        Self::lemma_code_is_injective(t, Self::of(t.code()->0)->0);
    }
}

/// One slot of a linked program: where it is, how many elements it holds and
/// of which type they are.
///
/// A uniform means something only as long as the program lives that it was
/// looked up in; nothing here checks that.
#[derive(Clone, Copy, Debug, PartialEq, Eq)]
pub struct Uniform {
    id: i32,
    size: i32,
    type_: UniformType,
}

/// A value that can be uploaded to a uniform.
pub trait UniformValid {
    /// The size in bytes of the value's element type.
    spec fn spec_size(&self) -> nat;

    /// The value's bytes as they lie in memory.
    spec fn spec_bytes(&self) -> Seq<u8>;

    /// The size in bytes of the value's element type.
    fn size(&self) -> (r: usize)
        ensures
            r == self.spec_size(),
    ;

    /// The value's bytes as they lie in memory.
    fn bytes(&self) -> (r: Vec<u8>)
        ensures
            r@ == self.spec_bytes(),
    ;
}

/// Whether the driver's upload primitives, which move whole words, can take
/// elements of that size.
pub open spec fn word_sized(size: nat) -> bool {
    size % 4 == 0
}

/// A scalar, an aggregate or a sequence, as the memory it occupies.
#[derive(Clone, Debug, PartialEq, Eq)]
pub struct Value {
    size: usize,
    bytes: Vec<u8>,
}

impl Value {
    /// The value with the given bytes, whose element type takes `size` bytes.
    pub fn new(size: usize, bytes: Vec<u8>) -> (r: Value)
        ensures
            r.spec_size() == size,
            r.spec_bytes() == bytes@,
    {
        Value { size, bytes }
    }
}

impl UniformValid for Value {
    closed spec fn spec_size(&self) -> nat {
        self.size as nat
    }

    closed spec fn spec_bytes(&self) -> Seq<u8> {
        self.bytes@
    }

    fn size(&self) -> (r: usize) {
        self.size
    }

    fn bytes(&self) -> (r: Vec<u8>) {
        self.bytes.clone()
    }
}

impl Uniform {
    /// The uniform in the slot `location`, with `size` elements of type
    /// `kind`.
    pub closed spec fn of(location: i32, size: i32, kind: UniformType) -> Uniform {
        Uniform { id: location, size, type_: kind }
    }

    /// A uniform is its slot, its size and its type, and nothing else.
    pub proof fn lemma_of(location: i32, size: i32, kind: UniformType)
        ensures
            Self::of(location, size, kind).spec_location() == location,
            Self::of(location, size, kind).spec_size() == size,
            Self::of(location, size, kind).spec_kind() == kind,
    {
    }

    pub(crate) fn new(id: i32, size: i32, type_: UniformType) -> (r: Uniform)
        ensures
            r == Self::of(id, size, type_),
    {
        Uniform { id, size, type_ }
    }

    /// The slot that the driver gave the uniform.
    pub closed spec fn spec_location(&self) -> i32 {
        self.id
    }

    /// The number of elements that the uniform was declared with.
    pub closed spec fn spec_size(&self) -> i32 {
        self.size
    }

    /// The type of the uniform's elements.
    pub closed spec fn spec_kind(&self) -> UniformType {
        self.type_
    }

    /// The slot that the driver gave the uniform.
    #[verifier::when_used_as_spec(spec_location)]
    pub fn location(&self) -> (r: i32)
        ensures
            r == self.spec_location(),
    {
        self.id
    }

    /// The number of elements that the uniform was declared with.
    #[verifier::when_used_as_spec(spec_size)]
    pub fn size(&self) -> (r: i32)
        ensures
            r == self.spec_size(),
    {
        self.size
    }

    /// The type of the uniform's elements.
    #[verifier::when_used_as_spec(spec_kind)]
    pub fn kind(&self) -> (r: UniformType)
        ensures
            r == self.spec_kind(),
    {
        self.type_
    }

    /// The one call that uploads the bytes to this uniform: the primitive of
    /// its type, for its slot and all its elements. Matrices are taken as
    /// they lie, not transposed.
    pub open spec fn upload_call(&self, bytes: Seq<u8>) -> CallView {
        match self.spec_kind().spec_primitive() {
            Primitive::Vector(upload) => with_data(
                Op::Uniform { upload, location: self.spec_location(), count: self.spec_size() },
                bytes,
            ),
            Primitive::Matrix(matrix) => with_data(
                Op::UniformMatrix {
                    matrix,
                    location: self.spec_location(),
                    count: self.spec_size(),
                    transpose: 0,
                },
                bytes,
            ),
        }
    }

    /// Whether `data` can be uploaded: it can unless its element type is not
    /// made of whole words.
    pub fn check<V: UniformValid>(data: &V) -> (r: Result<(), Fault>)
        ensures
            r is Ok <==> word_sized(data.spec_size()),
            r matches Err(fault) ==> fault@ == FaultView::NotWordSized,
    {
        if data.size() % 4 == 0 {
            Ok(())
        } else {
            Err(Fault::NotWordSized)
        }
    }

    /// The call that uploads `data` to this uniform.
    pub fn set_uniform<V: UniformValid>(&self, data: &V) -> (r: Call)
        requires
            word_sized(data.spec_size()),
        ensures
            r@ == self.upload_call(data.spec_bytes()),
    {
        match self.type_.primitive() {
            Primitive::Vector(upload) => Call::with_data(
                Op::Uniform { upload, location: self.id, count: self.size },
                data.bytes(),
            ),
            Primitive::Matrix(matrix) => Call::with_data(
                Op::UniformMatrix {
                    matrix,
                    location: self.id,
                    count: self.size,
                    transpose: codes::gl_false(),
                },
                data.bytes(),
            ),
        }
    }
}

/// Something that holds uniforms with the values they are to have, and can
/// upload them all.
pub trait UniformContainer {
    /// The calls that upload the values, in order.
    spec fn uploads(&self) -> Seq<CallView>;

    /// The calls that upload the values, in order.
    fn bind(&self) -> (r: Vec<Call>)
        ensures
            views(r@) == self.uploads(),
    ;
}

/// The calls that upload each value to the uniform beside it, in order.
pub open spec fn uploads_of(fields: Seq<(Uniform, Seq<u8>)>) -> Seq<CallView> {
    Seq::new(fields.len(), |i: int| fields[i].0.upload_call(fields[i].1))
}

/// A record of uniforms, each with its current value, in the order in which
/// they were declared.
pub struct Container {
    fields: Vec<(Uniform, Value)>,
}

impl Container {
    #[verifier::type_invariant]
    spec fn values_are_word_sized(&self) -> bool {
        forall|i: int| 0 <= i < self.fields@.len() ==> word_sized(self.fields@[i].1.spec_size())
    }

    /// The uniforms, each with the bytes of its current value.
    pub closed spec fn fields(&self) -> Seq<(Uniform, Seq<u8>)> {
        Seq::new(self.fields@.len(), |i: int| (self.fields@[i].0, self.fields@[i].1.spec_bytes()))
    }

    /// A record without fields.
    pub fn new() -> (r: Container)
        ensures
            r.fields() == Seq::<(Uniform, Seq<u8>)>::empty(),
    {
        Container { fields: Vec::new() }
    }

    /// The number of fields.
    pub fn len(&self) -> (n: usize)
        ensures
            n == self.fields().len(),
    {
        self.fields.len()
    }

    /// Declares the next field: the uniform that was found under `name` in
    /// a program, with its first value. A name under which no uniform is
    /// active is a fault.
    pub fn field(self, name: &str, found: Option<Uniform>, value: Value) -> (r: Result<
        Container,
        Fault,
    >)
        requires
            word_sized(value.spec_size()),
        ensures
            match found {
                Some(uniform) => r matches Ok(c) && c.fields() == self.fields().push(
                    (uniform, value.spec_bytes()),
                ),
                None => r matches Err(fault) && fault@ == (FaultView::Inactive { name: name@ }),
            },
    {
        match found {
            Some(uniform) => {
                proof {
                    use_type_invariant(&self);
                }
                let mut fields = self.fields;
                fields.push((uniform, value));
                Ok(Container { fields })
            },
            None => Err(Fault::Inactive { name: String::from_str(name) }),
        }
    }

    /// Gives the field `index` a new value.
    pub fn set(&mut self, index: usize, value: Value)
        requires
            index < old(self).fields().len(),
            word_sized(value.spec_size()),
        ensures
            final(self).fields() == old(self).fields().update(
                index as int,
                (old(self).fields()[index as int].0, value.spec_bytes()),
            ),
    {
        let mut taken = Container::new();
        core::mem::swap(self, &mut taken);
        proof {
            use_type_invariant(&taken);
        }
        let mut fields = taken.fields;
        let uniform = fields[index].0;
        fields.set(index, (uniform, value));
        *self = Container { fields };
        assert(self.fields() =~= old(self).fields().update(
            index as int,
            (old(self).fields()[index as int].0, value.spec_bytes()),
        ));
    }
}

impl UniformContainer for Container {
    open spec fn uploads(&self) -> Seq<CallView> {
        uploads_of(self.fields())
    }

    fn bind(&self) -> (r: Vec<Call>) {
        proof {
            use_type_invariant(self);
        }
        let mut calls: Vec<Call> = Vec::new();
        let mut i: usize = 0;
        while i < self.fields.len()
            invariant
                i <= self.fields@.len(),
                forall|j: int|
                    0 <= j < self.fields@.len() ==> word_sized(self.fields@[j].1.spec_size()),
                views(calls@) =~= uploads_of(self.fields()).take(i as int),
            decreases self.fields@.len() - i,
        {
            let call = self.fields[i].0.set_uniform(&self.fields[i].1);
            proof {
                crate::driver::lemma_views_push(calls@, call);
            }
            calls.push(call);
            i += 1;
        }
        calls
    }
}

} // verus!

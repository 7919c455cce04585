//! The driver's constants that the bookkeeping depends on.
//!
//! Nothing here is proved: each function hands out one constant of the `gl`
//! crate, and its contract states the value that the bindings give it.

use vstd::prelude::*;

verus! {

/// `gl::ELEMENT_ARRAY_BUFFER`, the buffer target that index data is read from. Believed to be 0x8893.
#[verifier::external_body]
pub(crate) fn gl_element_array_buffer() -> (r: u32)
    ensures
        r == 0x8893,
{
    gl::ELEMENT_ARRAY_BUFFER
}

/// `gl::POINTS`, the primitive mode that draws each vertex as a point. Believed to be 0.
#[verifier::external_body]
pub(crate) fn gl_points() -> (r: u32)
    ensures
        r == 0,
{
    gl::POINTS
}

/// `gl::UNSIGNED_SHORT`, the component type of 16-bit unsigned indices. Believed to be 0x1403.
#[verifier::external_body]
pub(crate) fn gl_unsigned_short() -> (r: u32)
    ensures
        r == 0x1403,
{
    gl::UNSIGNED_SHORT
}

/// `gl::TRUE`, the driver's boolean true. Believed to be 1.
#[verifier::external_body]
pub(crate) fn gl_true() -> (r: u8)
    ensures
        r == 1,
{
    gl::TRUE
}

/// `gl::FALSE`, the driver's boolean false. Believed to be 0.
#[verifier::external_body]
pub(crate) fn gl_false() -> (r: u8)
    ensures
        r == 0,
{
    gl::FALSE
}

/// `gl::COMPILE_STATUS`, the parameter that asks a stage whether it compiled. Believed to be 0x8B81.
#[verifier::external_body]
pub(crate) fn gl_compile_status() -> (r: u32)
    ensures
        r == 0x8B81,
{
    gl::COMPILE_STATUS
}

/// `gl::LINK_STATUS`, the parameter that asks a program whether it linked. Believed to be 0x8B82.
#[verifier::external_body]
pub(crate) fn gl_link_status() -> (r: u32)
    ensures
        r == 0x8B82,
{
    gl::LINK_STATUS
}

/// `gl::VALIDATE_STATUS`, the parameter that asks a program whether it validated. Believed to be 0x8B83.
#[verifier::external_body]
pub(crate) fn gl_validate_status() -> (r: u32)
    ensures
        r == 0x8B83,
{
    gl::VALIDATE_STATUS
}

/// `gl::ACTIVE_ATTRIBUTES`, the parameter that asks a program how many vertex attributes are active. Believed to be 0x8B89.
#[verifier::external_body]
pub(crate) fn gl_active_attributes() -> (r: u32)
    ensures
        r == 0x8B89,
{
    gl::ACTIVE_ATTRIBUTES
}

/// `gl::FLOAT`, a uniform type. Believed to be 0x1406.
#[verifier::external_body]
pub(crate) fn gl_float() -> (r: u32)
    ensures
        r == 0x1406,
{
    gl::FLOAT
}

/// `gl::FLOAT_VEC2`, a uniform type. Believed to be 0x8B50.
#[verifier::external_body]
pub(crate) fn gl_float_vec2() -> (r: u32)
    ensures
        r == 0x8B50,
{
    gl::FLOAT_VEC2
}

/// `gl::FLOAT_VEC3`, a uniform type. Believed to be 0x8B51.
#[verifier::external_body]
pub(crate) fn gl_float_vec3() -> (r: u32)
    ensures
        r == 0x8B51,
{
    gl::FLOAT_VEC3
}

/// `gl::FLOAT_VEC4`, a uniform type. Believed to be 0x8B52.
#[verifier::external_body]
pub(crate) fn gl_float_vec4() -> (r: u32)
    ensures
        r == 0x8B52,
{
    gl::FLOAT_VEC4
}

/// `gl::DOUBLE`, a uniform type. Believed to be 0x140A.
#[verifier::external_body]
pub(crate) fn gl_double() -> (r: u32)
    ensures
        r == 0x140A,
{
    gl::DOUBLE
}

/// `gl::DOUBLE_VEC2`, a uniform type. Believed to be 0x8FFC.
#[verifier::external_body]
pub(crate) fn gl_double_vec2() -> (r: u32)
    ensures
        r == 0x8FFC,
{
    gl::DOUBLE_VEC2
}

/// `gl::DOUBLE_VEC3`, a uniform type. Believed to be 0x8FFD.
#[verifier::external_body]
pub(crate) fn gl_double_vec3() -> (r: u32)
    ensures
        r == 0x8FFD,
{
    gl::DOUBLE_VEC3
}

/// `gl::DOUBLE_VEC4`, a uniform type. Believed to be 0x8FFE.
#[verifier::external_body]
pub(crate) fn gl_double_vec4() -> (r: u32)
    ensures
        r == 0x8FFE,
{
    gl::DOUBLE_VEC4
}

/// `gl::INT`, a uniform type. Believed to be 0x1404.
#[verifier::external_body]
pub(crate) fn gl_int() -> (r: u32)
    ensures
        r == 0x1404,
{
    gl::INT
}

/// `gl::INT_VEC2`, a uniform type. Believed to be 0x8B53.
#[verifier::external_body]
pub(crate) fn gl_int_vec2() -> (r: u32)
    ensures
        r == 0x8B53,
{
    gl::INT_VEC2
}

/// `gl::INT_VEC3`, a uniform type. Believed to be 0x8B54.
#[verifier::external_body]
pub(crate) fn gl_int_vec3() -> (r: u32)
    ensures
        r == 0x8B54,
{
    gl::INT_VEC3
}

/// `gl::INT_VEC4`, a uniform type. Believed to be 0x8B55.
#[verifier::external_body]
pub(crate) fn gl_int_vec4() -> (r: u32)
    ensures
        r == 0x8B55,
{
    gl::INT_VEC4
}

/// `gl::UNSIGNED_INT`, a uniform type. Believed to be 0x1405.
#[verifier::external_body]
pub(crate) fn gl_unsigned_int() -> (r: u32)
    ensures
        r == 0x1405,
{
    gl::UNSIGNED_INT
}

/// `gl::UNSIGNED_INT_VEC2`, a uniform type. Believed to be 0x8DC6.
#[verifier::external_body]
pub(crate) fn gl_unsigned_int_vec2() -> (r: u32)
    ensures
        r == 0x8DC6,
{
    gl::UNSIGNED_INT_VEC2
}

/// `gl::UNSIGNED_INT_VEC3`, a uniform type. Believed to be 0x8DC7.
#[verifier::external_body]
pub(crate) fn gl_unsigned_int_vec3() -> (r: u32)
    ensures
        r == 0x8DC7,
{
    gl::UNSIGNED_INT_VEC3
}

/// `gl::UNSIGNED_INT_VEC4`, a uniform type. Believed to be 0x8DC8.
#[verifier::external_body]
pub(crate) fn gl_unsigned_int_vec4() -> (r: u32)
    ensures
        r == 0x8DC8,
{
    gl::UNSIGNED_INT_VEC4
}

/// `gl::BOOL`, a uniform type. Believed to be 0x8B56.
#[verifier::external_body]
pub(crate) fn gl_bool() -> (r: u32)
    ensures
        r == 0x8B56,
{
    gl::BOOL
}

/// `gl::BOOL_VEC2`, a uniform type. Believed to be 0x8B57.
#[verifier::external_body]
pub(crate) fn gl_bool_vec2() -> (r: u32)
    ensures
        r == 0x8B57,
{
    gl::BOOL_VEC2
}

/// `gl::BOOL_VEC3`, a uniform type. Believed to be 0x8B58.
#[verifier::external_body]
pub(crate) fn gl_bool_vec3() -> (r: u32)
    ensures
        r == 0x8B58,
{
    gl::BOOL_VEC3
}

/// `gl::BOOL_VEC4`, a uniform type. Believed to be 0x8B59.
#[verifier::external_body]
pub(crate) fn gl_bool_vec4() -> (r: u32)
    ensures
        r == 0x8B59,
{
    gl::BOOL_VEC4
}

/// `gl::FLOAT_MAT2`, a uniform type. Believed to be 0x8B5A.
#[verifier::external_body]
pub(crate) fn gl_float_mat2() -> (r: u32)
    ensures
        r == 0x8B5A,
{
    gl::FLOAT_MAT2
}

/// `gl::FLOAT_MAT3`, a uniform type. Believed to be 0x8B5B.
#[verifier::external_body]
pub(crate) fn gl_float_mat3() -> (r: u32)
    ensures
        r == 0x8B5B,
{
    gl::FLOAT_MAT3
}

/// `gl::FLOAT_MAT4`, a uniform type. Believed to be 0x8B5C.
#[verifier::external_body]
pub(crate) fn gl_float_mat4() -> (r: u32)
    ensures
        r == 0x8B5C,
{
    gl::FLOAT_MAT4
}

/// `gl::FLOAT_MAT2x3`, a uniform type. Believed to be 0x8B65.
#[verifier::external_body]
pub(crate) fn gl_float_mat2x3() -> (r: u32)
    ensures
        r == 0x8B65,
{
    gl::FLOAT_MAT2x3
}

/// `gl::FLOAT_MAT2x4`, a uniform type. Believed to be 0x8B66.
#[verifier::external_body]
pub(crate) fn gl_float_mat2x4() -> (r: u32)
    ensures
        r == 0x8B66,
{
    gl::FLOAT_MAT2x4
}

/// `gl::FLOAT_MAT3x2`, a uniform type. Believed to be 0x8B67.
#[verifier::external_body]
pub(crate) fn gl_float_mat3x2() -> (r: u32)
    ensures
        r == 0x8B67,
{
    gl::FLOAT_MAT3x2
}

/// `gl::FLOAT_MAT3x4`, a uniform type. Believed to be 0x8B68.
#[verifier::external_body]
pub(crate) fn gl_float_mat3x4() -> (r: u32)
    ensures
        r == 0x8B68,
{
    gl::FLOAT_MAT3x4
}

/// `gl::FLOAT_MAT4x2`, a uniform type. Believed to be 0x8B69.
#[verifier::external_body]
pub(crate) fn gl_float_mat4x2() -> (r: u32)
    ensures
        r == 0x8B69,
{
    gl::FLOAT_MAT4x2
}

/// `gl::FLOAT_MAT4x3`, a uniform type. Believed to be 0x8B6A.
#[verifier::external_body]
pub(crate) fn gl_float_mat4x3() -> (r: u32)
    ensures
        r == 0x8B6A,
{
    gl::FLOAT_MAT4x3
}

/// `gl::DOUBLE_MAT2`, a uniform type. Believed to be 0x8F46.
#[verifier::external_body]
pub(crate) fn gl_double_mat2() -> (r: u32)
    ensures
        r == 0x8F46,
{
    gl::DOUBLE_MAT2
}

/// `gl::DOUBLE_MAT3`, a uniform type. Believed to be 0x8F47.
#[verifier::external_body]
pub(crate) fn gl_double_mat3() -> (r: u32)
    ensures
        r == 0x8F47,
{
    gl::DOUBLE_MAT3
}

/// `gl::DOUBLE_MAT4`, a uniform type. Believed to be 0x8F48.
#[verifier::external_body]
pub(crate) fn gl_double_mat4() -> (r: u32)
    ensures
        r == 0x8F48,
{
    gl::DOUBLE_MAT4
}

/// `gl::DOUBLE_MAT2x3`, a uniform type. Believed to be 0x8F49.
#[verifier::external_body]
pub(crate) fn gl_double_mat2x3() -> (r: u32)
    ensures
        r == 0x8F49,
{
    gl::DOUBLE_MAT2x3
}

/// `gl::DOUBLE_MAT2x4`, a uniform type. Believed to be 0x8F4A.
#[verifier::external_body]
pub(crate) fn gl_double_mat2x4() -> (r: u32)
    ensures
        r == 0x8F4A,
{
    gl::DOUBLE_MAT2x4
}

/// `gl::DOUBLE_MAT3x2`, a uniform type. Believed to be 0x8F4B.
#[verifier::external_body]
pub(crate) fn gl_double_mat3x2() -> (r: u32)
    ensures
        r == 0x8F4B,
{
    gl::DOUBLE_MAT3x2
}

/// `gl::DOUBLE_MAT3x4`, a uniform type. Believed to be 0x8F4C.
#[verifier::external_body]
pub(crate) fn gl_double_mat3x4() -> (r: u32)
    ensures
        r == 0x8F4C,
{
    gl::DOUBLE_MAT3x4
}

/// `gl::DOUBLE_MAT4x2`, a uniform type. Believed to be 0x8F4D.
#[verifier::external_body]
pub(crate) fn gl_double_mat4x2() -> (r: u32)
    ensures
        r == 0x8F4D,
{
    gl::DOUBLE_MAT4x2
}

/// `gl::DOUBLE_MAT4x3`, a uniform type. Believed to be 0x8F4E.
#[verifier::external_body]
pub(crate) fn gl_double_mat4x3() -> (r: u32)
    ensures
        r == 0x8F4E,
{
    gl::DOUBLE_MAT4x3
}

/// `gl::SAMPLER_1D`, a uniform type. Believed to be 0x8B5D.
#[verifier::external_body]
pub(crate) fn gl_sampler_1d() -> (r: u32)
    ensures
        r == 0x8B5D,
{
    gl::SAMPLER_1D
}

/// `gl::SAMPLER_2D`, a uniform type. Believed to be 0x8B5E.
#[verifier::external_body]
pub(crate) fn gl_sampler_2d() -> (r: u32)
    ensures
        r == 0x8B5E,
{
    gl::SAMPLER_2D
}

/// `gl::SAMPLER_3D`, a uniform type. Believed to be 0x8B5F.
#[verifier::external_body]
pub(crate) fn gl_sampler_3d() -> (r: u32)
    ensures
        r == 0x8B5F,
{
    gl::SAMPLER_3D
}

/// `gl::SAMPLER_CUBE`, a uniform type. Believed to be 0x8B60.
#[verifier::external_body]
pub(crate) fn gl_sampler_cube() -> (r: u32)
    ensures
        r == 0x8B60,
{
    gl::SAMPLER_CUBE
}

/// `gl::SAMPLER_1D_SHADOW`, a uniform type. Believed to be 0x8B61.
#[verifier::external_body]
pub(crate) fn gl_sampler_1d_shadow() -> (r: u32)
    ensures
        r == 0x8B61,
{
    gl::SAMPLER_1D_SHADOW
}

/// `gl::SAMPLER_2D_SHADOW`, a uniform type. Believed to be 0x8B62.
#[verifier::external_body]
pub(crate) fn gl_sampler_2d_shadow() -> (r: u32)
    ensures
        r == 0x8B62,
{
    gl::SAMPLER_2D_SHADOW
}

/// `gl::SAMPLER_1D_ARRAY`, a uniform type. Believed to be 0x8DC0.
#[verifier::external_body]
pub(crate) fn gl_sampler_1d_array() -> (r: u32)
    ensures
        r == 0x8DC0,
{
    gl::SAMPLER_1D_ARRAY
}

/// `gl::SAMPLER_2D_ARRAY`, a uniform type. Believed to be 0x8DC1.
#[verifier::external_body]
pub(crate) fn gl_sampler_2d_array() -> (r: u32)
    ensures
        r == 0x8DC1,
{
    gl::SAMPLER_2D_ARRAY
}

/// `gl::SAMPLER_1D_ARRAY_SHADOW`, a uniform type. Believed to be 0x8DC3.
#[verifier::external_body]
pub(crate) fn gl_sampler_1d_array_shadow() -> (r: u32)
    ensures
        r == 0x8DC3,
{
    gl::SAMPLER_1D_ARRAY_SHADOW
}

/// `gl::SAMPLER_2D_ARRAY_SHADOW`, a uniform type. Believed to be 0x8DC4.
#[verifier::external_body]
pub(crate) fn gl_sampler_2d_array_shadow() -> (r: u32)
    ensures
        r == 0x8DC4,
{
    gl::SAMPLER_2D_ARRAY_SHADOW
}

/// `gl::SAMPLER_2D_MULTISAMPLE`, a uniform type. Believed to be 0x9108.
#[verifier::external_body]
pub(crate) fn gl_sampler_2d_multisample() -> (r: u32)
    ensures
        r == 0x9108,
{
    gl::SAMPLER_2D_MULTISAMPLE
}

/// `gl::SAMPLER_2D_MULTISAMPLE_ARRAY`, a uniform type. Believed to be 0x910B.
#[verifier::external_body]
pub(crate) fn gl_sampler_2d_multisample_array() -> (r: u32)
    ensures
        r == 0x910B,
{
    gl::SAMPLER_2D_MULTISAMPLE_ARRAY
}

} // verus!

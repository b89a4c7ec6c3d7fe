use lib::no_drop;
use lib::uniform::{
    uniform_upload, uniform_upload_v, F32Bits, ShaderUniformDataType, ShaderV, UniformUpload,
};

#[test]
fn type_codes_follow_raylib_order() {
    assert_eq!(ShaderUniformDataType::SHADER_UNIFORM_FLOAT.code(), 0);
    assert_eq!(ShaderUniformDataType::SHADER_UNIFORM_VEC2.code(), 1);
    assert_eq!(ShaderUniformDataType::SHADER_UNIFORM_VEC3.code(), 2);
    assert_eq!(ShaderUniformDataType::SHADER_UNIFORM_VEC4.code(), 3);
    assert_eq!(ShaderUniformDataType::SHADER_UNIFORM_INT.code(), 4);
    assert_eq!(ShaderUniformDataType::SHADER_UNIFORM_IVEC2.code(), 5);
    assert_eq!(ShaderUniformDataType::SHADER_UNIFORM_IVEC3.code(), 6);
    assert_eq!(ShaderUniformDataType::SHADER_UNIFORM_IVEC4.code(), 7);
    assert_eq!(ShaderUniformDataType::SHADER_UNIFORM_SAMPLER2D.code(), 8);
}

#[test]
fn codes_are_distinct() {
    let all = [
        ShaderUniformDataType::SHADER_UNIFORM_FLOAT,
        ShaderUniformDataType::SHADER_UNIFORM_VEC2,
        ShaderUniformDataType::SHADER_UNIFORM_VEC3,
        ShaderUniformDataType::SHADER_UNIFORM_VEC4,
        ShaderUniformDataType::SHADER_UNIFORM_INT,
        ShaderUniformDataType::SHADER_UNIFORM_IVEC2,
        ShaderUniformDataType::SHADER_UNIFORM_IVEC3,
        ShaderUniformDataType::SHADER_UNIFORM_IVEC4,
        ShaderUniformDataType::SHADER_UNIFORM_SAMPLER2D,
    ];
    for a in all.iter() {
        for b in all.iter() {
            assert_eq!(a.code() == b.code(), a == b);
        }
    }
}

#[test]
fn uniform_types_of_value_kinds() {
    assert_eq!(<i32 as ShaderV>::uniform_type(), ShaderUniformDataType::SHADER_UNIFORM_INT);
    assert_eq!(<[i32; 2] as ShaderV>::uniform_type(), ShaderUniformDataType::SHADER_UNIFORM_IVEC2);
    assert_eq!(<[i32; 3] as ShaderV>::uniform_type(), ShaderUniformDataType::SHADER_UNIFORM_IVEC3);
    assert_eq!(<[i32; 4] as ShaderV>::uniform_type(), ShaderUniformDataType::SHADER_UNIFORM_IVEC4);
    assert_eq!(<F32Bits as ShaderV>::uniform_type(), ShaderUniformDataType::SHADER_UNIFORM_FLOAT);
    assert_eq!(<[F32Bits; 2] as ShaderV>::uniform_type(), ShaderUniformDataType::SHADER_UNIFORM_VEC2);
    assert_eq!(<[F32Bits; 3] as ShaderV>::uniform_type(), ShaderUniformDataType::SHADER_UNIFORM_VEC3);
    assert_eq!(<[F32Bits; 4] as ShaderV>::uniform_type(), ShaderUniformDataType::SHADER_UNIFORM_VEC4);
    assert_eq!(<&[i32] as ShaderV>::uniform_type(), ShaderUniformDataType::SHADER_UNIFORM_SAMPLER2D);
}

#[test]
fn values_are_bit_patterns() {
    assert_eq!((-1i32).value(), vec![0xffff_ffffu32]);
    assert_eq!([1i32, -2, 3].value(), vec![1u32, 0xffff_fffe, 3]);
    assert_eq!(F32Bits(1.5f32.to_bits()).value(), vec![0x3fc0_0000u32]);
    let v = [F32Bits(1.0f32.to_bits()), F32Bits(0.0f32.to_bits()), F32Bits((-2.0f32).to_bits()), F32Bits(0.5f32.to_bits())];
    assert_eq!(v.value(), vec![0x3f80_0000u32, 0, 0xc000_0000, 0x3f00_0000]);
    let units: &[i32] = &[0, 1, 2];
    assert_eq!(units.value(), vec![0u32, 1, 2]);
}

#[test]
fn single_upload_int() {
    let u = uniform_upload(7, &42i32);
    assert_eq!(u, UniformUpload { location: 7, uniform_type: 4, data: vec![42], count: 1 });
}

#[test]
fn single_upload_vec3() {
    let v = [F32Bits(1.0f32.to_bits()), F32Bits(2.0f32.to_bits()), F32Bits(3.0f32.to_bits())];
    let u = uniform_upload(-1, &v);
    assert_eq!(u.location, -1);
    assert_eq!(u.uniform_type, 2);
    assert_eq!(u.data, vec![0x3f80_0000u32, 0x4000_0000, 0x4040_0000]);
    assert_eq!(u.count, 1);
}

#[test]
fn single_upload_sampler_slice() {
    let units: &[i32] = &[3, 4];
    let u = uniform_upload(2, &units);
    assert_eq!(u.uniform_type, 8);
    assert_eq!(u.data, vec![3u32, 4]);
    assert_eq!(u.count, 1);
}

#[test]
fn array_upload_concatenates_in_order() {
    let values = [[1i32, 2], [3, 4], [5, 6]];
    let u = uniform_upload_v(5, &values);
    assert_eq!(u, UniformUpload { location: 5, uniform_type: 5, data: vec![1, 2, 3, 4, 5, 6], count: 3 });
    assert_eq!(u.data.len(), 3 * 2);
}

#[test]
fn empty_array_upload() {
    let values: [F32Bits; 0] = [];
    let u = uniform_upload_v(0, &values);
    assert_eq!(u, UniformUpload { location: 0, uniform_type: 0, data: vec![], count: 0 });
}

#[test]
fn one_element_array_matches_single_upload() {
    let x = [F32Bits(9.0f32.to_bits()), F32Bits(8.0f32.to_bits())];
    assert_eq!(uniform_upload_v(3, &[x]), uniform_upload(3, &x));
    assert_eq!(uniform_upload_v(3, &[-5i32]), uniform_upload(3, &-5i32));
}

#[test]
fn no_drop_consumes_value() {
    no_drop(String::from("handle"));
    no_drop(5u32);
}

#[test]
fn sampler_array_reads_first_unit_of_each_slice() {
    let empty: &[i32] = &[];
    let u = uniform_upload_v(4, &[empty]);
    assert_eq!(u, UniformUpload { location: 4, uniform_type: 8, data: vec![0], count: 1 });
    let a: &[i32] = &[1, 2];
    let b: &[i32] = &[];
    let c: &[i32] = &[7, 8, 9];
    let u = uniform_upload_v(4, &[a, b, c]);
    assert_eq!(u.data, vec![1u32, 0, 7]);
    assert_eq!(u.count, 3);
}

#[test]
fn sampler_array_each_slice_gives_its_own_unit() {
    let a: &[i32] = &[1, 2];
    let b: &[i32] = &[3];
    let u = uniform_upload_v(0, &[a, b]);
    assert_eq!(u.data, vec![1u32, 3]);
    assert_eq!(u.count, 2);
}

#[test]
fn one_element_sampler_array_reads_like_single_sampler() {
    let a: &[i32] = &[5, 6];
    let single = uniform_upload(1, &a);
    let array = uniform_upload_v(1, &[a]);
    assert_eq!(array.data[..], single.data[..1]);
    assert_eq!(array.count, single.count);
    assert_eq!(array.uniform_type, single.uniform_type);
}

#[test]
fn array_value_positions() {
    let values = [[1i32, 2, 3], [4, 5, 6], [7, 8, 9]];
    let u = uniform_upload_v(0, &values);
    for (i, v) in values.iter().enumerate() {
        assert_eq!(&u.data[i * 3..(i + 1) * 3], &v.value()[..]);
    }
}

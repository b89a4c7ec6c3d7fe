//! Uniform data types and the words a shader reads for each value.
use vstd::prelude::*;

verus! {

/// Data type of a shader uniform, as raylib 5.5's `ShaderUniformDataType`
/// enumerates them (float and int scalars and vectors, then the 2D sampler;
/// that enum has no unsigned-int types).
#[allow(non_camel_case_types)]
#[derive(Clone, Copy, Debug, PartialEq, Eq, Structural)]
pub enum ShaderUniformDataType {
    SHADER_UNIFORM_FLOAT,
    SHADER_UNIFORM_VEC2,
    SHADER_UNIFORM_VEC3,
    SHADER_UNIFORM_VEC4,
    SHADER_UNIFORM_INT,
    SHADER_UNIFORM_IVEC2,
    SHADER_UNIFORM_IVEC3,
    SHADER_UNIFORM_IVEC4,
    SHADER_UNIFORM_SAMPLER2D,
}

impl ShaderUniformDataType {
    /// The number raylib gives this data type.
    pub open spec fn spec_code(self) -> int {
        match self {
            ShaderUniformDataType::SHADER_UNIFORM_FLOAT => 0,
            ShaderUniformDataType::SHADER_UNIFORM_VEC2 => 1,
            ShaderUniformDataType::SHADER_UNIFORM_VEC3 => 2,
            ShaderUniformDataType::SHADER_UNIFORM_VEC4 => 3,
            ShaderUniformDataType::SHADER_UNIFORM_INT => 4,
            ShaderUniformDataType::SHADER_UNIFORM_IVEC2 => 5,
            ShaderUniformDataType::SHADER_UNIFORM_IVEC3 => 6,
            ShaderUniformDataType::SHADER_UNIFORM_IVEC4 => 7,
            ShaderUniformDataType::SHADER_UNIFORM_SAMPLER2D => 8,
        }
    }

    /// The number of 32-bit words that one uniform of this type occupies.
    pub open spec fn spec_components(self) -> nat {
        match self {
            ShaderUniformDataType::SHADER_UNIFORM_FLOAT => 1,
            ShaderUniformDataType::SHADER_UNIFORM_VEC2 => 2,
            ShaderUniformDataType::SHADER_UNIFORM_VEC3 => 3,
            ShaderUniformDataType::SHADER_UNIFORM_VEC4 => 4,
            ShaderUniformDataType::SHADER_UNIFORM_INT => 1,
            ShaderUniformDataType::SHADER_UNIFORM_IVEC2 => 2,
            ShaderUniformDataType::SHADER_UNIFORM_IVEC3 => 3,
            ShaderUniformDataType::SHADER_UNIFORM_IVEC4 => 4,
            ShaderUniformDataType::SHADER_UNIFORM_SAMPLER2D => 1,
        }
    }

    /// The type code that raylib's uniform setters take for this data type.
    pub fn code(self) -> (c: i32)
        ensures
            c == self.spec_code(),
    {
        match self {
            ShaderUniformDataType::SHADER_UNIFORM_FLOAT => 0,
            ShaderUniformDataType::SHADER_UNIFORM_VEC2 => 1,
            ShaderUniformDataType::SHADER_UNIFORM_VEC3 => 2,
            ShaderUniformDataType::SHADER_UNIFORM_VEC4 => 3,
            ShaderUniformDataType::SHADER_UNIFORM_INT => 4,
            ShaderUniformDataType::SHADER_UNIFORM_IVEC2 => 5,
            ShaderUniformDataType::SHADER_UNIFORM_IVEC3 => 6,
            ShaderUniformDataType::SHADER_UNIFORM_IVEC4 => 7,
            ShaderUniformDataType::SHADER_UNIFORM_SAMPLER2D => 8,
        }
    }
}

/// A value that can be handed to a shader as a uniform: its data type, fixed
/// by the implementing type, and the 32-bit words the shader reads from it.
pub trait ShaderV {
    spec fn spec_uniform_type() -> ShaderUniformDataType;

    spec fn spec_value(&self) -> Seq<u32>;

    /// The uniform data type of every value of this type.
    fn uniform_type() -> (t: ShaderUniformDataType)
        ensures
            t == Self::spec_uniform_type(),
    ;

    /// The words that the shader reads for this value, in memory order.
    fn value(&self) -> (v: Vec<u32>)
        ensures
            v@ == self.spec_value(),
    ;

    /// A value of a fixed-size type holds exactly as many words as its data
    /// type occupies; only a sampler may hold any number of them.
    proof fn lemma_value_layout(&self)
        ensures
            Self::spec_uniform_type() == ShaderUniformDataType::SHADER_UNIFORM_SAMPLER2D
                || self.spec_value().len() == Self::spec_uniform_type().spec_components(),
    ;
}

/// The bit pattern of one `f32` (as `f32::to_bits` gives it), as a shader
/// reads a float uniform.
#[derive(Clone, Copy, Debug, PartialEq, Eq, Structural)]
pub struct F32Bits(pub u32);

/// The words of a sequence of integers, each taken as its two's-complement
/// bit pattern.
pub open spec fn int_words(s: Seq<i32>) -> Seq<u32> {
    s.map_values(|x: i32| x as u32)
}

/// The words of a sequence of floats given by their bit patterns.
pub open spec fn float_words(s: Seq<F32Bits>) -> Seq<u32> {
    s.map_values(|x: F32Bits| x.0)
}

fn ints_to_words(s: &[i32]) -> (v: Vec<u32>)
    ensures
        v@ == int_words(s@),
{
    let mut v: Vec<u32> = Vec::new();
    let mut i: usize = 0;
    while i < s.len()
        invariant
            i <= s@.len(),
            v@ == int_words(s@.take(i as int)),
        decreases s@.len() - i,
    {
        v.push(s[i] as u32);
        assert(s@.take(i + 1) == s@.take(i as int).push(s@[i as int]));
        i = i + 1;
    }
    assert(s@.take(s@.len() as int) == s@);
    v
}

fn floats_to_words(s: &[F32Bits]) -> (v: Vec<u32>)
    ensures
        v@ == float_words(s@),
{
    let mut v: Vec<u32> = Vec::new();
    let mut i: usize = 0;
    while i < s.len()
        invariant
            i <= s@.len(),
            v@ == float_words(s@.take(i as int)),
        decreases s@.len() - i,
    {
        v.push(s[i].0);
        assert(s@.take(i + 1) == s@.take(i as int).push(s@[i as int]));
        i = i + 1;
    }
    assert(s@.take(s@.len() as int) == s@);
    v
}

impl ShaderV for i32 {
    open spec fn spec_uniform_type() -> ShaderUniformDataType {
        ShaderUniformDataType::SHADER_UNIFORM_INT
    }

    open spec fn spec_value(&self) -> Seq<u32> {
        seq![*self as u32]
    }

    fn uniform_type() -> (t: ShaderUniformDataType) {
        ShaderUniformDataType::SHADER_UNIFORM_INT
    }

    fn value(&self) -> (v: Vec<u32>) {
        let mut v: Vec<u32> = Vec::new();
        v.push(*self as u32);
        v
    }

    proof fn lemma_value_layout(&self) {
    }
}

impl ShaderV for F32Bits {
    open spec fn spec_uniform_type() -> ShaderUniformDataType {
        ShaderUniformDataType::SHADER_UNIFORM_FLOAT
    }

    open spec fn spec_value(&self) -> Seq<u32> {
        seq![self.0]
    }

    fn uniform_type() -> (t: ShaderUniformDataType) {
        ShaderUniformDataType::SHADER_UNIFORM_FLOAT
    }

    fn value(&self) -> (v: Vec<u32>) {
        let mut v: Vec<u32> = Vec::new();
        v.push(self.0);
        v
    }

    proof fn lemma_value_layout(&self) {
    }
}

impl ShaderV for [i32; 2] {
    open spec fn spec_uniform_type() -> ShaderUniformDataType {
        ShaderUniformDataType::SHADER_UNIFORM_IVEC2
    }

    open spec fn spec_value(&self) -> Seq<u32> {
        int_words(self@)
    }

    fn uniform_type() -> (t: ShaderUniformDataType) {
        ShaderUniformDataType::SHADER_UNIFORM_IVEC2
    }

    fn value(&self) -> (v: Vec<u32>) {
        ints_to_words(self.as_slice())
    }

    proof fn lemma_value_layout(&self) {
    }
}

impl ShaderV for [i32; 3] {
    open spec fn spec_uniform_type() -> ShaderUniformDataType {
        ShaderUniformDataType::SHADER_UNIFORM_IVEC3
    }

    open spec fn spec_value(&self) -> Seq<u32> {
        int_words(self@)
    }

    fn uniform_type() -> (t: ShaderUniformDataType) {
        ShaderUniformDataType::SHADER_UNIFORM_IVEC3
    }

    fn value(&self) -> (v: Vec<u32>) {
        ints_to_words(self.as_slice())
    }

    proof fn lemma_value_layout(&self) {
    }
}

impl ShaderV for [i32; 4] {
    open spec fn spec_uniform_type() -> ShaderUniformDataType {
        ShaderUniformDataType::SHADER_UNIFORM_IVEC4
    }

    open spec fn spec_value(&self) -> Seq<u32> {
        int_words(self@)
    }

    fn uniform_type() -> (t: ShaderUniformDataType) {
        ShaderUniformDataType::SHADER_UNIFORM_IVEC4
    }

    fn value(&self) -> (v: Vec<u32>) {
        ints_to_words(self.as_slice())
    }

    proof fn lemma_value_layout(&self) {
    }
}

impl ShaderV for [F32Bits; 2] {
    open spec fn spec_uniform_type() -> ShaderUniformDataType {
        ShaderUniformDataType::SHADER_UNIFORM_VEC2
    }

    open spec fn spec_value(&self) -> Seq<u32> {
        float_words(self@)
    }

    fn uniform_type() -> (t: ShaderUniformDataType) {
        ShaderUniformDataType::SHADER_UNIFORM_VEC2
    }

    fn value(&self) -> (v: Vec<u32>) {
        floats_to_words(self.as_slice())
    }

    proof fn lemma_value_layout(&self) {
    }
}

impl ShaderV for [F32Bits; 3] {
    open spec fn spec_uniform_type() -> ShaderUniformDataType {
        ShaderUniformDataType::SHADER_UNIFORM_VEC3
    }

    open spec fn spec_value(&self) -> Seq<u32> {
        float_words(self@)
    }

    fn uniform_type() -> (t: ShaderUniformDataType) {
        ShaderUniformDataType::SHADER_UNIFORM_VEC3
    }

    fn value(&self) -> (v: Vec<u32>) {
        floats_to_words(self.as_slice())
    }

    proof fn lemma_value_layout(&self) {
    }
}

impl ShaderV for [F32Bits; 4] {
    open spec fn spec_uniform_type() -> ShaderUniformDataType {
        ShaderUniformDataType::SHADER_UNIFORM_VEC4
    }

    open spec fn spec_value(&self) -> Seq<u32> {
        float_words(self@)
    }

    fn uniform_type() -> (t: ShaderUniformDataType) {
        ShaderUniformDataType::SHADER_UNIFORM_VEC4
    }

    fn value(&self) -> (v: Vec<u32>) {
        floats_to_words(self.as_slice())
    }

    proof fn lemma_value_layout(&self) {
    }
}

impl<'a> ShaderV for &'a [i32] {
    open spec fn spec_uniform_type() -> ShaderUniformDataType {
        ShaderUniformDataType::SHADER_UNIFORM_SAMPLER2D
    }

    open spec fn spec_value(&self) -> Seq<u32> {
        int_words(self@)
    }

    fn uniform_type() -> (t: ShaderUniformDataType) {
        ShaderUniformDataType::SHADER_UNIFORM_SAMPLER2D
    }

    fn value(&self) -> (v: Vec<u32>) {
        ints_to_words(*self)
    }

    proof fn lemma_value_layout(&self) {
    }
}

/// What one of raylib's uniform setters is handed: the uniform's location,
/// the data type code, the words behind the data pointer, and the number of
/// uniforms of that type to read from them.
#[derive(Debug, PartialEq, Eq)]
pub struct UniformUpload {
    pub location: i32,
    pub uniform_type: i32,
    pub data: Vec<u32>,
    pub count: i32,
}

/// The words of a sequence of uniform values laid out one after the other.
pub open spec fn flatten<S: ShaderV>(values: Seq<S>) -> Seq<u32>
    decreases values.len(),
{
    if values.len() == 0 {
        Seq::empty()
    } else {
        flatten(values.drop_last()) + values.last().spec_value()
    }
}

/// The number of words that a shader reads for `count` uniforms of type `t`.
pub open spec fn words_read(t: ShaderUniformDataType, count: int) -> int {
    count * t.spec_components()
}

/// The upload that sets the uniform at `uniform_loc` to one value: the value's
/// words, its type's code, and a count of one.
///
/// A sampler given as an empty slice leaves the shader nothing to read, so
/// such a value is not accepted.
pub fn uniform_upload<S: ShaderV>(uniform_loc: i32, value: &S) -> (u: UniformUpload)
    requires
        S::spec_uniform_type() == ShaderUniformDataType::SHADER_UNIFORM_SAMPLER2D ==> value.spec_value().len() >= 1,
    ensures
        u.location == uniform_loc,
        u.uniform_type == S::spec_uniform_type().spec_code(),
        u.data@ == value.spec_value(),
        u.count == 1,
        words_read(S::spec_uniform_type(), u.count as int) <= u.data@.len(),
{
    proof {
        value.lemma_value_layout();
    }
    let t = S::uniform_type();
    UniformUpload { location: uniform_loc, uniform_type: t.code(), data: value.value(), count: 1 }
}

/// Every value of a fixed-size type adds exactly one uniform's worth of words:
/// the words of `n` such values number `n` times the width of the type.
pub proof fn lemma_flatten_len<S: ShaderV>(values: Seq<S>)
    requires
        S::spec_uniform_type() != ShaderUniformDataType::SHADER_UNIFORM_SAMPLER2D,
    ensures
        flatten(values).len() == words_read(S::spec_uniform_type(), values.len() as int),
    decreases values.len(),
{
    if values.len() > 0 {
        lemma_flatten_len(values.drop_last());
        values.last().lemma_value_layout();
        let w = S::spec_uniform_type().spec_components() as int;
        let n = values.len() as int;
        assert((n - 1) * w + w == n * w) by (nonlinear_arith);
    }
}

/// The texture unit a sampler value names: the first word of its slice, or
/// zero (the first texture unit) for an empty slice.
pub open spec fn sampler_unit(words: Seq<u32>) -> u32 {
    if words.len() > 0 {
        words[0]
    } else {
        0u32
    }
}

/// The words handed over for a uniform array: for fixed-size types the words
/// of all values one after the other; for samplers one texture unit per
/// value, each taken from that value's own slice.
pub open spec fn array_words<S: ShaderV>(values: Seq<S>) -> Seq<u32> {
    if S::spec_uniform_type() == ShaderUniformDataType::SHADER_UNIFORM_SAMPLER2D {
        Seq::new(values.len(), |i: int| sampler_unit(values[i].spec_value()))
    } else {
        flatten(values)
    }
}

/// The upload that sets the uniform array at `uniform_loc` to `values`: the
/// words given by [`array_words`], the type's code, and the number of values,
/// converted to `i32` as a plain `as` cast does.
///
/// The words are exactly what the shader reads for that many uniforms: for
/// fixed-size types each value's words in turn, and for samplers the `i`-th
/// sampler's unit is the first unit of the `i`-th slice (zero if that slice is
/// empty).
pub fn uniform_upload_v<S: ShaderV>(uniform_loc: i32, values: &[S]) -> (u: UniformUpload)
    ensures
        u.location == uniform_loc,
        u.uniform_type == S::spec_uniform_type().spec_code(),
        u.data@ == array_words(values@),
        u.count == values@.len() as i32,
        u.data@.len() == words_read(S::spec_uniform_type(), values@.len() as int),
        S::spec_uniform_type() != ShaderUniformDataType::SHADER_UNIFORM_SAMPLER2D ==> forall|i: int|
            0 <= i < values@.len() ==> u.data@.subrange(
                i * S::spec_uniform_type().spec_components(),
                (i + 1) * S::spec_uniform_type().spec_components(),
            ) == (#[trigger] values@[i]).spec_value(),
        S::spec_uniform_type() == ShaderUniformDataType::SHADER_UNIFORM_SAMPLER2D ==> forall|i: int|
            0 <= i < values@.len() ==> (if (#[trigger] values@[i]).spec_value().len() > 0 {
                u.data@[i] == values@[i].spec_value()[0]
            } else {
                u.data@[i] == 0u32
            }),
{
    let t = S::uniform_type();
    let mut data: Vec<u32> = Vec::new();
    let mut i: usize = 0;
    match t {
        ShaderUniformDataType::SHADER_UNIFORM_SAMPLER2D => {
            while i < values.len()
                invariant
                    i <= values@.len(),
                    data@.len() == i,
                    forall|j: int| 0 <= j < i ==> data@[j] == sampler_unit(values@[j].spec_value()),
                decreases values@.len() - i,
            {
                let words = values[i].value();
                if words.len() > 0 {
                    data.push(words[0]);
                } else {
                    data.push(0u32);
                }
                i = i + 1;
            }
            assert(data@ == array_words(values@));
        },
        _ => {
            while i < values.len()
                invariant
                    i <= values@.len(),
                    data@ == flatten(values@.take(i as int)),
                decreases values@.len() - i,
            {
                let mut words = values[i].value();
                data.append(&mut words);
                assert(values@.take(i + 1).drop_last() == values@.take(i as int));
                i = i + 1;
            }
            assert(values@.take(values@.len() as int) == values@);
            proof {
                lemma_flatten_len(values@);
            }
        },
    }
    proof {
        assert forall|i: int| 0 <= i < values@.len() implies (S::spec_uniform_type()
            != ShaderUniformDataType::SHADER_UNIFORM_SAMPLER2D ==> data@.subrange(
            i * S::spec_uniform_type().spec_components(),
            (i + 1) * S::spec_uniform_type().spec_components(),
        ) == (#[trigger] values@[i]).spec_value()) && (S::spec_uniform_type()
            == ShaderUniformDataType::SHADER_UNIFORM_SAMPLER2D ==> (if values@[i].spec_value().len()
            > 0 {
            data@[i] == values@[i].spec_value()[0]
        } else {
            data@[i] == 0u32
        })) by {
            lemma_array_words_positions(values@, i);
        }
    }
    UniformUpload {
        location: uniform_loc,
        uniform_type: t.code(),
        data,
        count: values.len() as i32,
    }
}

/// In the words of values of a fixed-size type, the words of the `i`-th value
/// take up positions `i * w` up to `(i + 1) * w`, with `w` the type's width.
pub proof fn lemma_flatten_position<S: ShaderV>(values: Seq<S>, i: int)
    requires
        S::spec_uniform_type() != ShaderUniformDataType::SHADER_UNIFORM_SAMPLER2D,
        0 <= i < values.len(),
    ensures
        flatten(values).subrange(
            words_read(S::spec_uniform_type(), i),
            words_read(S::spec_uniform_type(), i + 1),
        ) == values[i].spec_value(),
    decreases values.len(),
{
    let w = S::spec_uniform_type().spec_components() as int;
    let n = values.len() as int;
    let init = values.drop_last();
    lemma_flatten_len(init);
    values.last().lemma_value_layout();
    assert((n - 1) * w + w == n * w) by (nonlinear_arith);
    assert(i * w + w == (i + 1) * w) by (nonlinear_arith);
    if i == n - 1 {
        assert(flatten(values).subrange(i * w, (i + 1) * w) == values.last().spec_value());
    } else {
        lemma_flatten_position(init, i);
        assert(i + 1 <= n - 1);
        assert((i + 1) * w <= (n - 1) * w) by (nonlinear_arith)
            requires
                i + 1 <= n - 1,
                w >= 0,
        ;
        assert(0 <= i * w) by (nonlinear_arith)
            requires
                0 <= i,
                w >= 0,
        ;
        assert(flatten(values).subrange(i * w, (i + 1) * w) == flatten(init).subrange(
            i * w,
            (i + 1) * w,
        ));
    }
}

/// Setting a uniform array of one value makes the shader read the same words
/// as setting that value alone: the words of the one uniform that a count of
/// one covers.
pub proof fn lemma_single_element_upload<S: ShaderV>(value: S)
    requires
        S::spec_uniform_type() == ShaderUniformDataType::SHADER_UNIFORM_SAMPLER2D ==> value.spec_value().len() >= 1,
    ensures
        array_words(seq![value]) == value.spec_value().take(
            words_read(S::spec_uniform_type(), 1),
        ),
{
    value.lemma_value_layout();
    if S::spec_uniform_type() == ShaderUniformDataType::SHADER_UNIFORM_SAMPLER2D {
        assert(array_words(seq![value]) == value.spec_value().take(1));
    } else {
        assert(seq![value].drop_last() == Seq::<S>::empty());
        assert(flatten(Seq::<S>::empty()) + value.spec_value() == value.spec_value());
        assert(value.spec_value().take(value.spec_value().len() as int) == value.spec_value());
    }
}

/// raylib's numbering of the uniform data types, type by type.
pub proof fn lemma_type_codes()
    ensures
        ShaderUniformDataType::SHADER_UNIFORM_FLOAT.spec_code() == 0,
        ShaderUniformDataType::SHADER_UNIFORM_VEC2.spec_code() == 1,
        ShaderUniformDataType::SHADER_UNIFORM_VEC3.spec_code() == 2,
        ShaderUniformDataType::SHADER_UNIFORM_VEC4.spec_code() == 3,
        ShaderUniformDataType::SHADER_UNIFORM_INT.spec_code() == 4,
        ShaderUniformDataType::SHADER_UNIFORM_IVEC2.spec_code() == 5,
        ShaderUniformDataType::SHADER_UNIFORM_IVEC3.spec_code() == 6,
        ShaderUniformDataType::SHADER_UNIFORM_IVEC4.spec_code() == 7,
        ShaderUniformDataType::SHADER_UNIFORM_SAMPLER2D.spec_code() == 8,
{
}

/// Integer values are read as the two's-complement bit patterns of their
/// components, in component order, with the data type that matches their
/// number of components; a sampler slice's words are its units in order.
pub proof fn lemma_int_value_words(x: i32, a2: [i32; 2], a3: [i32; 3], a4: [i32; 4], units: &[i32])
    ensures
        <i32 as ShaderV>::spec_uniform_type() == ShaderUniformDataType::SHADER_UNIFORM_INT,
        x.spec_value() == seq![x as u32],
        <[i32; 2] as ShaderV>::spec_uniform_type() == ShaderUniformDataType::SHADER_UNIFORM_IVEC2,
        a2.spec_value().len() == 2,
        forall|i: int| 0 <= i < 2 ==> #[trigger] a2.spec_value()[i] == a2@[i] as u32,
        <[i32; 3] as ShaderV>::spec_uniform_type() == ShaderUniformDataType::SHADER_UNIFORM_IVEC3,
        a3.spec_value().len() == 3,
        forall|i: int| 0 <= i < 3 ==> #[trigger] a3.spec_value()[i] == a3@[i] as u32,
        <[i32; 4] as ShaderV>::spec_uniform_type() == ShaderUniformDataType::SHADER_UNIFORM_IVEC4,
        a4.spec_value().len() == 4,
        forall|i: int| 0 <= i < 4 ==> #[trigger] a4.spec_value()[i] == a4@[i] as u32,
        <&[i32] as ShaderV>::spec_uniform_type() == ShaderUniformDataType::SHADER_UNIFORM_SAMPLER2D,
        units.spec_value().len() == units@.len(),
        forall|i: int| 0 <= i < units@.len() ==> #[trigger] units.spec_value()[i] == units@[i] as u32,
{
}

/// Float values are read as the bit patterns of their components, in
/// component order, with the data type that matches their number of
/// components.
pub proof fn lemma_float_value_words(x: F32Bits, a2: [F32Bits; 2], a3: [F32Bits; 3], a4: [F32Bits; 4])
    ensures
        <F32Bits as ShaderV>::spec_uniform_type() == ShaderUniformDataType::SHADER_UNIFORM_FLOAT,
        x.spec_value() == seq![x.0],
        <[F32Bits; 2] as ShaderV>::spec_uniform_type() == ShaderUniformDataType::SHADER_UNIFORM_VEC2,
        a2.spec_value().len() == 2,
        forall|i: int| 0 <= i < 2 ==> #[trigger] a2.spec_value()[i] == a2@[i].0,
        <[F32Bits; 3] as ShaderV>::spec_uniform_type() == ShaderUniformDataType::SHADER_UNIFORM_VEC3,
        a3.spec_value().len() == 3,
        forall|i: int| 0 <= i < 3 ==> #[trigger] a3.spec_value()[i] == a3@[i].0,
        <[F32Bits; 4] as ShaderV>::spec_uniform_type() == ShaderUniformDataType::SHADER_UNIFORM_VEC4,
        a4.spec_value().len() == 4,
        forall|i: int| 0 <= i < 4 ==> #[trigger] a4.spec_value()[i] == a4@[i].0,
{
}

/// In an array upload of a fixed-size type, the words of the `i`-th value take
/// up positions `i * w` up to `(i + 1) * w`, for every value of the array, with
/// `w` the type's width, and nothing else is handed over; in a sampler array
/// the `i`-th word is the first unit of the `i`-th slice, or zero for an empty
/// slice.
pub proof fn lemma_array_words_positions<S: ShaderV>(values: Seq<S>, i: int)
    requires
        0 <= i < values.len(),
    ensures
        S::spec_uniform_type() != ShaderUniformDataType::SHADER_UNIFORM_SAMPLER2D ==> {
            &&& array_words(values).len() == values.len() * S::spec_uniform_type().spec_components()
            &&& array_words(values).subrange(
                i * S::spec_uniform_type().spec_components(),
                (i + 1) * S::spec_uniform_type().spec_components(),
            ) == values[i].spec_value()
        },
        S::spec_uniform_type() == ShaderUniformDataType::SHADER_UNIFORM_SAMPLER2D ==> {
            &&& array_words(values).len() == values.len()
            &&& values[i].spec_value().len() > 0 ==> array_words(values)[i] == values[i].spec_value()[0]
            &&& values[i].spec_value().len() == 0 ==> array_words(values)[i] == 0u32
        },
{
    if S::spec_uniform_type() != ShaderUniformDataType::SHADER_UNIFORM_SAMPLER2D {
        lemma_flatten_len(values);
        lemma_flatten_position(values, i);
    }
}

/// Distinct uniform data types are handed to raylib as distinct codes.
pub proof fn lemma_code_injective(a: ShaderUniformDataType, b: ShaderUniformDataType)
    ensures
        a.spec_code() == b.spec_code() <==> a == b,
{
}

} // verus!

//! From a field to the image that is uploaded as a texture.
//!
//! Each sample becomes one pixel of four equal bytes (red, green, blue and
//! alpha all at the gray level of the sample), and the pixels follow the field
//! row by row.

use vstd::prelude::*;
use vstd::arithmetic::div_mod::lemma_fundamental_div_mod;
use vstd::arithmetic::mul::{lemma_mul_inequality, lemma_mul_is_distributive_add_other_way};
use crate::error::VisualizerError;
use crate::field::Matrix;
use crate::sample::{gray_level, sample_to_byte};

verus! {

/// `glium::texture::RawImage2d`, the image that is handed to the device.
/// Nothing is known of what is inside but what `image_bytes` and `image_size`
/// name.
#[verifier::external_type_specification]
#[verifier::external_body]
#[verifier::reject_recursive_types(T)]
pub struct ExRawImage2d<'a, T: Clone + 'a>(glium::texture::RawImage2d<'a, T>);

/// The bytes of a raw image, in the order in which it holds them.
pub uninterp spec fn image_bytes(image: glium::texture::RawImage2d<'static, u8>) -> Seq<u8>;

/// The width and the height of a raw image, in pixels.
pub uninterp spec fn image_size(image: glium::texture::RawImage2d<'static, u8>) -> (nat, nat);

/// `glium::texture::RawImage2d::from_raw_rgba`: an image that owns `data` as
/// it is, with the width and the height that it is given. Nothing is checked.
#[verifier::external_body]
fn raw_rgba_image(data: Vec<u8>, width: u32, height: u32) -> (image: glium::texture::RawImage2d<
    'static,
    u8,
>)
    ensures
        image_bytes(image) == data@,
        image_size(image) == (width as nat, height as nat),
{
    glium::texture::RawImage2d::from_raw_rgba(data, (width, height))
}

/// Where channel `c` of the pixel at row `i`, column `j` stands in the image
/// of a field with `ncols` columns.
pub open spec fn channel_offset(ncols: nat, i: int, j: int, c: int) -> int {
    4 * (i * ncols + j) + c
}

/// Whether `bytes` is the image of the field with the rows `rows` of `ncols`
/// samples each: four bytes for each sample, all at its gray level, the
/// samples row by row.
pub open spec fn is_image_of(bytes: Seq<u8>, rows: Seq<Seq<u32>>, ncols: nat) -> bool {
    &&& bytes.len() == 4 * rows.len() * ncols
    &&& forall|i: int, j: int, c: int|
        0 <= i < rows.len() && 0 <= j < ncols && 0 <= c < 4 ==> bytes[#[trigger] channel_offset(
            ncols,
            i,
            j,
            c,
        )] == gray_level(rows[i][j])
}

/// The channels of the pixels of the first `i` rows, and of the first `j`
/// pixels of row `i`, lie before the channels of what follows.
proof fn lemma_offset_is_in_order(ncols: nat, i: int, j: int, i2: int, j2: int, c: int)
    requires
        0 <= i2 && 0 <= j2 < ncols && 0 <= c < 4,
        0 <= j <= ncols,
        i2 < i || (i2 == i && j2 < j),
    ensures
        0 <= channel_offset(ncols, i2, j2, c) < 4 * (i * ncols + j),
{
    if i2 < i {
        lemma_mul_inequality(i2 + 1, i, ncols as int);
        lemma_mul_is_distributive_add_other_way(ncols as int, i2, 1);
    }
    assert(0 <= i2 * ncols) by (nonlinear_arith)
        requires
            0 <= i2,
    ;
}

/// The four channels of every pixel of an image are equal: the image is gray.
/// `pixel` counts the pixels from the start of the image.
pub proof fn lemma_pixels_are_gray(bytes: Seq<u8>, rows: Seq<Seq<u32>>, ncols: nat, pixel: int)
    requires
        is_image_of(bytes, rows, ncols),
        0 <= pixel < rows.len() * ncols,
    ensures
        bytes[4 * pixel] == bytes[4 * pixel + 1],
        bytes[4 * pixel] == bytes[4 * pixel + 2],
        bytes[4 * pixel] == bytes[4 * pixel + 3],
{
    let i = pixel / (ncols as int);
    let j = pixel % (ncols as int);
    assert(ncols > 0) by (nonlinear_arith)
        requires
            0 <= pixel < rows.len() * ncols,
    ;
    lemma_fundamental_div_mod(pixel, ncols as int);
    assert(i * ncols == ncols * i) by (nonlinear_arith);
    assert(0 <= i < rows.len()) by (nonlinear_arith)
        requires
            0 <= pixel < rows.len() * ncols,
            pixel == i * ncols + j,
            0 <= j < ncols,
    ;
    assert(channel_offset(ncols, i, j, 0) == 4 * pixel);
    assert(channel_offset(ncols, i, j, 1) == 4 * pixel + 1);
    assert(channel_offset(ncols, i, j, 2) == 4 * pixel + 2);
    assert(channel_offset(ncols, i, j, 3) == 4 * pixel + 3);
}

/// The order of the field is kept. The image starts with the first sample of
/// the first row, and the samples of row `i` stand together, after those of
/// the rows before it: that part of the image is the image of the row alone.
pub proof fn lemma_rows_are_in_order(bytes: Seq<u8>, rows: Seq<Seq<u32>>, ncols: nat, i: int)
    requires
        is_image_of(bytes, rows, ncols),
        0 <= i < rows.len(),
    ensures
        0 <= 4 * (i * ncols) <= 4 * ((i + 1) * ncols) <= bytes.len(),
        is_image_of(bytes.subrange(4 * (i * ncols), 4 * ((i + 1) * ncols)), seq![rows[i]], ncols),
        i == 0 && ncols > 0 ==> bytes[0] == gray_level(rows[0][0]) && bytes[1] == gray_level(
            rows[0][0],
        ) && bytes[2] == gray_level(rows[0][0]) && bytes[3] == gray_level(rows[0][0]),
{
    let first = 4 * (i * ncols);
    let row = bytes.subrange(first, 4 * ((i + 1) * ncols));
    lemma_mul_is_distributive_add_other_way(ncols as int, i, 1);
    lemma_mul_inequality(i + 1, rows.len() as int, ncols as int);
    assert(0 <= i * ncols) by (nonlinear_arith)
        requires
            0 <= i,
    ;
    assert(4 * rows.len() * ncols == 4 * (rows.len() * ncols)) by (nonlinear_arith);
    assert(4 * seq![rows[i]].len() * ncols == 4 * ncols) by (nonlinear_arith)
        requires
            seq![rows[i]].len() == 1,
    ;
    assert forall|i2: int, j: int, c: int|
        0 <= i2 < 1 && 0 <= j < ncols && 0 <= c < 4 implies row[#[trigger] channel_offset(
        ncols,
        i2,
        j,
        c,
    )] == gray_level(seq![rows[i]][i2][j]) by {
        assert(channel_offset(ncols, i2, j, c) == 4 * j + c) by (nonlinear_arith)
            requires
                i2 == 0,
                channel_offset(ncols, i2, j, c) == 4 * (i2 * ncols + j) + c,
        ;
        assert(first + (4 * j + c) == channel_offset(ncols, i, j, c));
    }
    if i == 0 && ncols > 0 {
        assert(channel_offset(ncols, 0, 0, 0) == 0);
        assert(channel_offset(ncols, 0, 0, 1) == 1);
        assert(channel_offset(ncols, 0, 0, 2) == 2);
        assert(channel_offset(ncols, 0, 0, 3) == 3);
    }
}

/// Turns a field into its image: the gray level of each sample four times
/// over, the samples row by row.
pub fn to_rgba_bytes(u: &Matrix) -> (bytes: Vec<u8>)
    ensures
        bytes@.len() == 4 * u.spec_nrows() * u.spec_ncols(),
        is_image_of(bytes@, u@, u.spec_ncols()),
{
    let ghost ncols = u.spec_ncols();
    let mut texture_data: Vec<u8> = Vec::new();
    if u.ncols() == 0 {
        // Rows without samples: there is nothing to walk through.
        proof {
            assert(4 * u.spec_nrows() * 0 == 0) by (nonlinear_arith);
        }
        return texture_data;
    }
    let rows = u.rows();
    proof {
        assert(0 * ncols == 0) by (nonlinear_arith);
    }
    for i in 0..rows.len()
        invariant
            rows.deep_view() == u@,
            forall|k: int| 0 <= k < rows.len() ==> (#[trigger] rows[k]).len() == ncols,
            texture_data.len() == 4 * (i * ncols),
            forall|i2: int, j2: int, c: int|
                0 <= i2 < i && 0 <= j2 < ncols && 0 <= c < 4
                    ==> texture_data[#[trigger] channel_offset(ncols, i2, j2, c)] == gray_level(
                    u@[i2][j2],
                ),
    {
        let row = &rows[i];
        for j in 0..row.len()
            invariant
                rows.deep_view() == u@,
                0 <= i < rows.len(),
                row == rows[i as int],
                row.len() == ncols,
                texture_data.len() == 4 * (i * ncols + j),
                forall|i2: int, j2: int, c: int|
                    (0 <= i2 < i || (i2 == i && j2 < j)) && 0 <= j2 < ncols && 0 <= c < 4
                        ==> texture_data[#[trigger] channel_offset(ncols, i2, j2, c)] == gray_level(
                        u@[i2][j2],
                    ),
        {
            let v: u8 = sample_to_byte(row[j]);
            let ghost before = texture_data@;
            texture_data.push(v);
            texture_data.push(v);
            texture_data.push(v);
            texture_data.push(v);
            proof {
                assert(u@[i as int] == rows[i as int]@);
                assert forall|i2: int, j2: int, c: int|
                    (0 <= i2 < i || (i2 == i && j2 < j + 1)) && 0 <= j2 < ncols && 0 <= c < 4
                    implies texture_data[#[trigger] channel_offset(ncols, i2, j2, c)]
                    == gray_level(u@[i2][j2]) by {
                    if i2 < i || j2 < j {
                        lemma_offset_is_in_order(ncols, i as int, j as int, i2, j2, c);
                        assert(texture_data[channel_offset(ncols, i2, j2, c)]
                            == before[channel_offset(ncols, i2, j2, c)]);
                    }
                }
            }
        }
        proof {
            lemma_mul_is_distributive_add_other_way(ncols as int, i as int, 1);
        }
    }
    proof {
        assert(4 * (rows.len() * ncols) == 4 * rows.len() * ncols) by (nonlinear_arith);
        assert(rows.deep_view().len() == rows.len());
    }
    texture_data
}

/// Whether a field can be a texture: neither side is longer than a texture's
/// side can be.
pub open spec fn fits_a_texture(u: Matrix) -> bool {
    u.spec_nrows() <= u32::MAX && u.spec_ncols() <= u32::MAX
}

/// Turns a field into the raw image to upload: its bytes are the image of the
/// field, its width is the number of columns and its height the number of
/// rows. A field that cannot be a texture is refused.
pub fn make_texture_image(u: &Matrix) -> (made: Result<
    glium::texture::RawImage2d<'static, u8>,
    VisualizerError,
>)
    ensures
        made.is_ok() <==> fits_a_texture(*u),
        made matches Ok(image) ==> is_image_of(image_bytes(image), u@, u.spec_ncols())
            && image_size(image) == (u.spec_ncols(), u.spec_nrows()),
        made matches Err(e) ==> e == VisualizerError::BufferAllocation,
{
    let nrows: usize = u.nrows();
    let ncols: usize = u.ncols();
    if nrows > u32::MAX as usize || ncols > u32::MAX as usize {
        return Err(VisualizerError::BufferAllocation);
    }
    let texture_data = to_rgba_bytes(u);
    Ok(raw_rgba_image(texture_data, ncols as u32, nrows as u32))
}

} // verus!

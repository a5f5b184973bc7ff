//! Rendered pixels as image data: rows of 8-bit RGB pixels, laid out as the
//! bytes of an RGB image buffer.

use crate::errors::WriteError;
use crate::numeric::ascii_lower;
use image::{ImageBuffer, ImageFormat, Rgb};
use vstd::prelude::*;

verus! {

/// A pixel color with 8 bits per channel.
#[derive(Clone, Copy, Debug, PartialEq, Eq, Structural)]
pub struct NormalizedColor {
    pub r: u8,
    pub g: u8,
    pub b: u8,
}

/// The bytes of a row of pixels: red, green and blue of each pixel in turn.
pub open spec fn row_bytes(row: Seq<NormalizedColor>) -> Seq<u8>
    decreases row.len(),
{
    if row.len() == 0 {
        Seq::empty()
    } else {
        row_bytes(row.drop_last()) + seq![row.last().r, row.last().g, row.last().b]
    }
}

/// The bytes of rows of pixels, row after row.
pub open spec fn pixel_bytes(rows: Seq<Seq<NormalizedColor>>) -> Seq<u8>
    decreases rows.len(),
{
    if rows.len() == 0 {
        Seq::empty()
    } else {
        pixel_bytes(rows.drop_last()) + row_bytes(rows.last())
    }
}

pub open spec fn rows_of(rows: Seq<Vec<NormalizedColor>>) -> Seq<Seq<NormalizedColor>> {
    rows.map_values(|r: Vec<NormalizedColor>| r@)
}

pub proof fn lemma_row_bytes_len(row: Seq<NormalizedColor>)
    ensures
        row_bytes(row).len() == 3 * row.len(),
    decreases row.len(),
{
    if row.len() > 0 {
        lemma_row_bytes_len(row.drop_last());
    }
}

/// Lays rows of pixels out as RGB bytes, row after row.
pub fn flatten_pixels(rows: &Vec<Vec<NormalizedColor>>) -> (r: Vec<u8>)
    ensures
        r@ == pixel_bytes(rows_of(rows@)),
{
    let ghost rs = rows_of(rows@);
    let mut out: Vec<u8> = Vec::new();
    let mut i: usize = 0;
    assert(rs.take(0) =~= Seq::<Seq<NormalizedColor>>::empty());
    while i < rows.len()
        invariant
            rs == rows_of(rows@),
            i <= rows@.len(),
            out@ == pixel_bytes(rs.take(i as int)),
        decreases rows@.len() - i,
    {
        let row = &rows[i];
        assert(row@ == rs[i as int]);
        let ghost start = out@;
        let mut k: usize = 0;
        assert(row@.take(0) =~= Seq::<NormalizedColor>::empty());
        assert(start + row_bytes(row@.take(0)) =~= start);
        while k < row.len()
            invariant
                i < rows@.len(),
                row@ == rs[i as int],
                k <= row@.len(),
                out@ == start + row_bytes(row@.take(k as int)),
            decreases row@.len() - k,
        {
            let c = row[k];
            out.push(c.r);
            out.push(c.g);
            out.push(c.b);
            assert(row@.take(k + 1).drop_last() =~= row@.take(k as int));
            k = k + 1;
            assert(out@ =~= start + row_bytes(row@.take(k as int)));
        }
        assert(row@.take(k as int) =~= row@);
        assert(rs.take(i + 1).drop_last() =~= rs.take(i as int));
        i = i + 1;
    }
    assert(rs.take(i as int) =~= rs);
    out
}

/// Whether `data` holds an RGB image of `width` by `height` pixels.
///
/// Calls `image::ImageBuffer::from_raw` on a view of the bytes, which gives an
/// image exactly when the buffer holds at least 3 bytes for each of the
/// `width * height` pixels; the image is dropped.
#[verifier::external_body]
fn rgb_image_fits(width: u32, height: u32, data: &Vec<u8>) -> (r: bool)
    ensures
        r <==> 3 * width * height <= data@.len(),
{
    ImageBuffer::<Rgb<u8>, &[u8]>::from_raw(width, height, data.as_slice()).is_some()
}

/// The width of rows of pixels: the length of the first row, as the image
/// buffer takes it (the low 32 bits).
pub open spec fn image_width(rows: Seq<Seq<NormalizedColor>>) -> u32 {
    rows[0].len() as u32
}

/// The height of rows of pixels: their number, as the image buffer takes it
/// (the low 32 bits).
pub open spec fn image_height(rows: Seq<Seq<NormalizedColor>>) -> u32 {
    rows.len() as u32
}

/// Normalized render data as the parts of an RGB image: its width (the first
/// row's length), its height (the number of rows) and its bytes, row after
/// row; an error when the bytes do not fill an image of that size.
pub fn raw_to_image_data(rows: &Vec<Vec<NormalizedColor>>) -> (r: Result<(u32, u32, Vec<u8>), WriteError>)
    requires
        rows@.len() > 0,
    ensures
        match r {
            Ok((w, h, data)) => w == image_width(rows_of(rows@)) && h == image_height(rows_of(rows@))
                && data@ == pixel_bytes(rows_of(rows@)) && 3 * w * h <= data@.len(),
            Err(e) => e.0@ == "cannot write raw render data into image format"@ && 3 * image_width(
                rows_of(rows@),
            ) * image_height(rows_of(rows@)) > pixel_bytes(rows_of(rows@)).len(),
        },
{
    let height = rows.len();
    let width = rows[0].len();
    assert(rows[0]@ == rows_of(rows@)[0]);
    let data = flatten_pixels(rows);
    #[verifier::truncate]
    let w: u32 = width as u32;
    #[verifier::truncate]
    let h: u32 = height as u32;
    if rgb_image_fits(w, h, &data) {
        Ok((w, h, data))
    } else {
        Err(WriteError(String::from_str("cannot write raw render data into image format")))
    }
}


/// Rows that all have `w` pixels make `3 * w` bytes each.
pub proof fn lemma_pixel_bytes_rect(rows: Seq<Seq<NormalizedColor>>, w: nat)
    requires
        forall|i: int| 0 <= i < rows.len() ==> #[trigger] rows[i].len() == w,
    ensures
        pixel_bytes(rows).len() == 3 * w * rows.len(),
    decreases rows.len(),
{
    if rows.len() > 0 {
        lemma_pixel_bytes_rect(rows.drop_last(), w);
        lemma_row_bytes_len(rows.last());
        assert(3 * w * (rows.len() - 1) + 3 * w == 3 * w * rows.len()) by (nonlinear_arith);
    }
}

/// Render data whose rows all have the first row's length, with fewer than
/// 2^32 rows and columns, always fills an image of its size.
pub proof fn lemma_rectangular_rows_fit(rows: Seq<Seq<NormalizedColor>>)
    requires
        rows.len() > 0,
        forall|i: int| 0 <= i < rows.len() ==> #[trigger] rows[i].len() == rows[0].len(),
        rows[0].len() <= u32::MAX,
        rows.len() <= u32::MAX,
    ensures
        3 * image_width(rows) * image_height(rows) <= pixel_bytes(rows).len(),
{
    lemma_pixel_bytes_rect(rows, rows[0].len());
}


// ----------------------------------------------------------------------------
// Encoding an image in memory.
// ----------------------------------------------------------------------------

/// `ext` is `name` with ASCII case ignored.
pub open spec fn lower_eq(ext: Seq<char>, name: Seq<char>) -> bool {
    ext.len() == name.len() && forall|i: int| 0 <= i < ext.len() ==> ascii_lower(#[trigger] ext[i]) == name[i]
}

/// The file extensions that name an image format, ASCII case ignored.
pub open spec fn known_image_extension(ext: Seq<char>) -> bool {
    ||| lower_eq(ext, seq!['a', 'v', 'i', 'f'])
    ||| lower_eq(ext, seq!['j', 'p', 'g'])
    ||| lower_eq(ext, seq!['j', 'p', 'e', 'g'])
    ||| lower_eq(ext, seq!['j', 'f', 'i', 'f'])
    ||| lower_eq(ext, seq!['p', 'n', 'g'])
    ||| lower_eq(ext, seq!['a', 'p', 'n', 'g'])
    ||| lower_eq(ext, seq!['g', 'i', 'f'])
    ||| lower_eq(ext, seq!['w', 'e', 'b', 'p'])
    ||| lower_eq(ext, seq!['t', 'i', 'f'])
    ||| lower_eq(ext, seq!['t', 'i', 'f', 'f'])
    ||| lower_eq(ext, seq!['t', 'g', 'a'])
    ||| lower_eq(ext, seq!['d', 'd', 's'])
    ||| lower_eq(ext, seq!['b', 'm', 'p'])
    ||| lower_eq(ext, seq!['i', 'c', 'o'])
    ||| lower_eq(ext, seq!['h', 'd', 'r'])
    ||| lower_eq(ext, seq!['e', 'x', 'r'])
    ||| lower_eq(ext, seq!['p', 'b', 'm'])
    ||| lower_eq(ext, seq!['p', 'a', 'm'])
    ||| lower_eq(ext, seq!['p', 'p', 'm'])
    ||| lower_eq(ext, seq!['p', 'g', 'm'])
    ||| lower_eq(ext, seq!['p', 'n', 'm'])
    ||| lower_eq(ext, seq!['f', 'f'])
    ||| lower_eq(ext, seq!['q', 'o', 'i'])
}

/// Whether `ext` names an image format.
///
/// Calls `image::ImageFormat::from_extension`, which matches the extension,
/// ASCII-lowercased, against a fixed list of extensions; the contract states
/// that list.
#[verifier::external_body]
fn image_format_known(ext: &str) -> (r: bool)
    ensures
        r == known_image_extension(ext@),
{
    ImageFormat::from_extension(ext).is_some()
}

/// What encoding an RGB image of `width` by `height` pixels with the bytes
/// `data` in the format of extension `ext` gives: the encoded bytes, or the
/// text of the encoder's error.
pub uninterp spec fn encoded_image(ext: Seq<char>, width: u32, height: u32, data: Seq<u8>) -> Result<
    Seq<u8>,
    Seq<char>,
>;

/// Encodes an RGB image in memory.
///
/// Calls `image::ImageBuffer::from_raw` and `write_to` with the format that
/// `ImageFormat::from_extension` gives for `ext`. Encoding depends on its
/// arguments alone; the result is named, not stated.
#[verifier::external_body]
fn encode_rgb_image(ext: &str, width: u32, height: u32, data: &Vec<u8>) -> (r: Result<Vec<u8>, String>)
    requires
        known_image_extension(ext@),
        3 * width * height <= data@.len(),
    ensures
        match r {
            Ok(bytes) => encoded_image(ext@, width, height, data@) == Ok::<Seq<u8>, Seq<char>>(bytes@),
            Err(m) => encoded_image(ext@, width, height, data@) == Err::<Seq<u8>, Seq<char>>(m@),
        },
{
    let format = ImageFormat::from_extension(ext).unwrap();
    let image = ImageBuffer::<Rgb<u8>, &[u8]>::from_raw(width, height, data.as_slice()).unwrap();
    let mut buffer = std::io::Cursor::new(Vec::new());
    match image.write_to(&mut buffer, format) {
        Ok(()) => Ok(buffer.into_inner()),
        Err(e) => Err(e.to_string()),
    }
}

pub open spec fn encode_error_text(image_format: Seq<char>, detail: Seq<char>) -> Seq<char> {
    "cannot encode image to \""@ + image_format + "\". Error: "@ + detail
}

/// The outcome of encoding an image in the format `image_format`: the bytes,
/// or the error that names the format and what the encoder reported.
pub fn encoding_outcome(image_format: &str, encoded: Result<Vec<u8>, String>) -> (r: Result<
    Vec<u8>,
    WriteError,
>)
    ensures
        match encoded {
            Ok(bytes) => r matches Ok(v) && v@ == bytes@,
            Err(m) => r matches Err(e) && e.0@ == encode_error_text(image_format@, m@),
        },
{
    match encoded {
        Ok(bytes) => Ok(bytes),
        Err(m) => Err(
            WriteError(
                String::from_str("cannot encode image to \"").concat(image_format).concat(
                    "\". Error: ",
                ).concat(m.as_str()),
            ),
        ),
    }
}

/// The rendered image encoded in memory in the format that the extension
/// `image_format` names (no file is written).
pub fn write_render_to_image_buffer(image_format: String, rows: &Vec<Vec<NormalizedColor>>) -> (r: Result<
    Vec<u8>,
    WriteError,
>)
    requires
        known_image_extension(image_format@) ==> rows@.len() > 0,
    ensures
        !known_image_extension(image_format@) ==> (r matches Err(e) && e.0@
            == "unsupported image format: "@ + image_format@),
        known_image_extension(image_format@) && 3 * image_width(rows_of(rows@)) * image_height(
            rows_of(rows@),
        ) > pixel_bytes(rows_of(rows@)).len() ==> (r matches Err(e) && e.0@
            == "cannot write raw render data into image format"@),
        known_image_extension(image_format@) && 3 * image_width(rows_of(rows@)) * image_height(
            rows_of(rows@),
        ) <= pixel_bytes(rows_of(rows@)).len() ==> match encoded_image(
            image_format@,
            image_width(rows_of(rows@)),
            image_height(rows_of(rows@)),
            pixel_bytes(rows_of(rows@)),
        ) {
            Ok(bytes) => r matches Ok(v) && v@ == bytes,
            Err(m) => r matches Err(e) && e.0@ == encode_error_text(image_format@, m),
        },
{
    if !image_format_known(image_format.as_str()) {
        return Err(
            WriteError(String::from_str("unsupported image format: ").concat(image_format.as_str())),
        );
    }
    let (width, height, data) = match raw_to_image_data(rows) {
        Ok(parts) => parts,
        Err(e) => {
            return Err(e);
        },
    };
    let encoded = encode_rgb_image(image_format.as_str(), width, height, &data);
    encoding_outcome(image_format.as_str(), encoded)
}

} // verus!

//! Loading of the sprites from PCX images.

use vstd::prelude::*;
use std::collections::HashMap;
use std::io::Cursor;
use crate::utils::graphics::Frame;

verus! {

/// A sprite as it is kept after loading: its width, its height and its
/// pixels.
pub type CachedSprite = (usize, usize, Vec<u8>);

/// What the header of an image says.
#[derive(Clone, Copy, Debug, PartialEq, Eq, Structural)]
pub struct Header {
    pub width: u16,
    pub height: u16,
    /// For an image with a palette, the number of colours in it.
    pub palette_length: Option<u16>,
}

/// Why an image could not be loaded.
#[derive(Clone, Copy, Debug, PartialEq, Eq, Structural)]
pub enum LoadError {
    /// The data does not start with the header of a PCX image.
    Header,
    /// A row of pixels could not be read.
    Row,
    /// The palette could not be read.
    Palette,
    /// A pixel names a colour that the palette does not have.
    Index,
}

/// The error type of the standard library's input and output.
#[verifier::external_type_specification]
#[verifier::external_body]
pub struct ExIoError(std::io::Error);

/// A reader of the `pcx` crate over bytes in memory.  The verifier does
/// not look inside: everything known about a reader comes from the
/// functions below.
#[verifier::external_body]
pub struct PcxReader<'a> {
    inner: pcx::Reader<Cursor<&'a [u8]>>,
}

/// The bytes that the reader was opened on.
pub uninterp spec fn reader_source(reader: PcxReader) -> Seq<u8>;

/// The number of rows that were read from the reader.
pub uninterp spec fn reader_rows(reader: PcxReader) -> nat;

/// What `Reader::new` finds in the header of the data, if it accepts it.
pub uninterp spec fn pcx_header(data: Seq<u8>) -> Option<Header>;

/// What `Reader::next_row_paletted` gives for row `row` of the image, if it
/// can be read.
pub uninterp spec fn pcx_paletted_row(data: Seq<u8>, row: nat) -> Option<Seq<u8>>;

/// What `Reader::next_row_rgb` gives for row `row` of the image, if it can
/// be read.
pub uninterp spec fn pcx_rgb_row(data: Seq<u8>, row: nat) -> Option<Seq<u8>>;

/// What `Reader::read_palette` gives once `rows` rows were read, if the
/// palette can be read.
pub uninterp spec fn pcx_palette(data: Seq<u8>, rows: nat) -> Option<Seq<u8>>;

/// The header of the image that the reader reads.
pub open spec fn header_of(reader: PcxReader) -> Header {
    pcx_header(reader_source(reader)).unwrap()
}

/// `Reader::new` on a cursor over the data, with `Reader::width`,
/// `Reader::height` and `Reader::palette_length` of the reader it gives.
#[verifier::external_body]
fn open_reader<'a>(data: &'a [u8]) -> (opened: Result<(PcxReader<'a>, Header), std::io::Error>)
    ensures
        opened is Ok <==> pcx_header(data@) is Some,
        opened is Ok ==> pcx_header(data@) == Some(opened->Ok_0.1),
        opened is Ok ==> reader_source(opened->Ok_0.0) == data@ && reader_rows(opened->Ok_0.0) == 0,
{
    let inner = pcx::Reader::new(Cursor::new(data))?;
    let header = Header { width: inner.width(), height: inner.height(), palette_length: inner.palette_length() };
    Ok((PcxReader { inner }, header))
}

/// `Reader::next_row_paletted`: the next row of an image with a palette,
/// one byte for each pixel.  The reader is handed back only if the row was
/// read: after a failure nothing more is read from it.
#[verifier::external_body]
fn next_row_paletted<'a>(reader: PcxReader<'a>, buffer: &mut Vec<u8>) -> (read: Result<
    PcxReader<'a>,
    std::io::Error,
>)
    requires
        pcx_header(reader_source(reader)) is Some,
        old(buffer)@.len() == header_of(reader).width,
    ensures
        final(buffer)@.len() == old(buffer)@.len(),
        read is Ok <==> pcx_paletted_row(reader_source(reader), reader_rows(reader)) is Some,
        read is Ok ==> Some(final(buffer)@) == pcx_paletted_row(reader_source(reader), reader_rows(reader)),
        read is Ok ==> reader_source(read->Ok_0) == reader_source(reader),
        read is Ok ==> reader_rows(read->Ok_0) == reader_rows(reader) + 1,
{
    let mut reader = reader;
    reader.inner.next_row_paletted(buffer.as_mut_slice())?;
    Ok(reader)
}

/// `Reader::next_row_rgb`: the next row of an image without a palette,
/// three bytes for each pixel.  The reader is handed back only if the row
/// was read: after a failure nothing more is read from it.
#[verifier::external_body]
fn next_row_rgb<'a>(reader: PcxReader<'a>, buffer: &mut Vec<u8>) -> (read: Result<PcxReader<'a>, std::io::Error>)
    requires
        pcx_header(reader_source(reader)) is Some,
        old(buffer)@.len() == header_of(reader).width * 3,
    ensures
        final(buffer)@.len() == old(buffer)@.len(),
        read is Ok <==> pcx_rgb_row(reader_source(reader), reader_rows(reader)) is Some,
        read is Ok ==> Some(final(buffer)@) == pcx_rgb_row(reader_source(reader), reader_rows(reader)),
        read is Ok ==> reader_source(read->Ok_0) == reader_source(reader),
        read is Ok ==> reader_rows(read->Ok_0) == reader_rows(reader) + 1,
{
    let mut reader = reader;
    reader.inner.next_row_rgb(buffer.as_mut_slice())?;
    Ok(reader)
}

/// `Reader::read_palette`: the palette of the image, three bytes for each
/// colour.
#[verifier::external_body]
fn read_palette(reader: PcxReader, buffer: &mut Vec<u8>) -> (read: Result<usize, std::io::Error>)
    requires
        pcx_header(reader_source(reader)) is Some,
        header_of(reader).palette_length is Some,
        old(buffer)@.len() == header_of(reader).palette_length.unwrap() * 3,
    ensures
        final(buffer)@.len() == old(buffer)@.len(),
        read is Ok <==> pcx_palette(reader_source(reader), reader_rows(reader)) is Some,
        read is Ok ==> Some(final(buffer)@) == pcx_palette(reader_source(reader), reader_rows(reader)),
{
    reader.inner.read_palette(buffer.as_mut_slice())
}

/// A vector of `len` zero bytes.
pub fn zeroes(len: usize) -> (buffer: Vec<u8>)
    ensures
        buffer@.len() == len,
        forall|i: int| 0 <= i < len ==> buffer@[i] == 0,
{
    let mut buffer: Vec<u8> = Vec::new();
    let mut i: usize = 0;
    while i < len
        invariant
            i <= len,
            buffer@.len() == i,
            forall|k: int| 0 <= k < i ==> buffer@[k] == 0,
        decreases len - i,
    {
        buffer.push(0);
        i = i + 1;
    }
    buffer
}

/// The rows `0..upto` of an image with a palette, one after the other, if
/// every one of them can be read.
pub open spec fn paletted_rows(data: Seq<u8>, upto: nat) -> Option<Seq<u8>>
    decreases upto,
{
    if upto == 0 {
        Some(Seq::empty())
    } else {
        match (paletted_rows(data, (upto - 1) as nat), pcx_paletted_row(data, (upto - 1) as nat)) {
            (Some(above), Some(row)) => Some(above + row),
            _ => None,
        }
    }
}

/// The colours of the pixels, three bytes each: every pixel is replaced
/// by the colour that it names in the palette.  There is no result if a
/// pixel names a colour beyond the end of the palette.
pub open spec fn expanded(indices: Seq<u8>, palette: Seq<u8>) -> Option<Seq<u8>>
    decreases indices.len(),
{
    if indices.len() == 0 {
        Some(Seq::empty())
    } else {
        let at = indices.last() * 3;
        match expanded(indices.drop_last(), palette) {
            Some(before) => if at + 3 <= palette.len() {
                Some(before + palette.subrange(at, at + 3))
            } else {
                None
            },
            None => None,
        }
    }
}

/// The length of the last group when `len` bytes are taken three at a
/// time: three, or what is left over.
pub open spec fn last_group(len: nat) -> int {
    if len % 3 == 0 {
        3
    } else {
        (len % 3) as int
    }
}

/// The pixels with an alpha channel added: the bytes are taken three at a
/// time, and after every group comes one more byte, which is 255.  Where
/// the number of bytes is no multiple of three, the last group is short.
pub open spec fn with_alpha(rgb: Seq<u8>) -> Seq<u8>
    decreases rgb.len(),
{
    if rgb.len() == 0 {
        Seq::empty()
    } else {
        let cut = rgb.len() - last_group(rgb.len());
        with_alpha(rgb.subrange(0, cut)) + rgb.subrange(cut, rgb.len() as int).push(255u8)
    }
}

/// The rows `0..upto` of an image without a palette, one after the other
/// and each with an alpha channel added, if every one of them can be read.
pub open spec fn rgb_rows(data: Seq<u8>, upto: nat) -> Option<Seq<u8>>
    decreases upto,
{
    if upto == 0 {
        Some(Seq::empty())
    } else {
        match (rgb_rows(data, (upto - 1) as nat), pcx_rgb_row(data, (upto - 1) as nat)) {
            (Some(above), Some(row)) => Some(above + with_alpha(row)),
            _ => None,
        }
    }
}

/// What loading the image in `data` gives: the size of the image and its
/// pixels, or the first thing that goes wrong.  An image with a palette
/// gives three bytes for each pixel, an image without one gives four.
pub open spec fn loaded(data: Seq<u8>) -> Result<(usize, usize, Seq<u8>), LoadError> {
    match pcx_header(data) {
        None => Err(LoadError::Header),
        Some(header) => match header.palette_length {
            Some(colors) => match paletted_rows(data, header.height as nat) {
                None => Err(LoadError::Row),
                Some(indices) => match pcx_palette(data, header.height as nat) {
                    None => Err(LoadError::Palette),
                    Some(palette) => match expanded(indices, palette) {
                        None => Err(LoadError::Index),
                        Some(pixels) => Ok((header.width as usize, header.height as usize, pixels)),
                    },
                },
            },
            None => match rgb_rows(data, header.height as nat) {
                None => Err(LoadError::Row),
                Some(pixels) => Ok((header.width as usize, header.height as usize, pixels)),
            },
        },
    }
}

/// A sprite with its pixels as a sequence.
pub open spec fn pixels_of(sprite: CachedSprite) -> (usize, usize, Seq<u8>) {
    (sprite.0, sprite.1, sprite.2@)
}

/// Once a row cannot be read, no later row counts.
proof fn lemma_paletted_rows_stop(data: Seq<u8>, failed: nat, upto: nat)
    requires
        failed < upto,
        pcx_paletted_row(data, failed) is None,
    ensures
        paletted_rows(data, upto) is None,
    decreases upto,
{
    if failed < upto - 1 {
        lemma_paletted_rows_stop(data, failed, (upto - 1) as nat);
    }
}

/// Once a row cannot be read, no later row counts.
proof fn lemma_rgb_rows_stop(data: Seq<u8>, failed: nat, upto: nat)
    requires
        failed < upto,
        pcx_rgb_row(data, failed) is None,
    ensures
        rgb_rows(data, upto) is None,
    decreases upto,
{
    if failed < upto - 1 {
        lemma_rgb_rows_stop(data, failed, (upto - 1) as nat);
    }
}

/// Appends a copy of `tail` to `bytes`.
pub fn append(bytes: &mut Vec<u8>, tail: &Vec<u8>)
    ensures
        final(bytes)@ == old(bytes)@ + tail@,
{
    let mut i: usize = 0;
    while i < tail.len()
        invariant
            i <= tail@.len(),
            bytes@ == old(bytes)@ + tail@.take(i as int),
        decreases tail@.len() - i,
    {
        bytes.push(tail[i]);
        i = i + 1;
    }
}

/// Replaces every pixel by the colour that it names in the palette.
pub fn expand(indices: &Vec<u8>, palette: &Vec<u8>) -> (pixels: Option<Vec<u8>>)
    ensures
        pixels is Some <==> expanded(indices@, palette@) is Some,
        pixels is Some ==> Some(pixels->0@) == expanded(indices@, palette@),
{
    let mut pixels: Vec<u8> = Vec::new();
    let mut n: usize = 0;
    while n < indices.len()
        invariant
            n <= indices@.len(),
            expanded(indices@.take(n as int), palette@) == Some(pixels@),
        decreases indices@.len() - n,
    {
        let at = indices[n] as usize * 3;
        proof {
            let more = indices@.take(n as int + 1);
            assert(more.drop_last() =~= indices@.take(n as int));
        }
        if at + 3 > palette.len() {
            proof {
                lemma_expansion_stops(indices@, palette@, n as int + 1);
            }
            return None;
        }
        pixels.push(palette[at]);
        pixels.push(palette[at + 1]);
        pixels.push(palette[at + 2]);
        n = n + 1;
        assert(pixels@ =~= expanded(indices@.take(n as int - 1), palette@).unwrap() + palette@.subrange(
            at as int,
            at + 3,
        ));
    }
    assert(indices@.take(n as int) =~= indices@);
    Some(pixels)
}

/// Once a pixel names a colour that the palette does not have, the pixels
/// after it do not count.
proof fn lemma_expansion_stops(indices: Seq<u8>, palette: Seq<u8>, failed: int)
    requires
        0 <= failed <= indices.len(),
        expanded(indices.take(failed), palette) is None,
    ensures
        expanded(indices, palette) is None,
    decreases indices.len() - failed,
{
    if failed < indices.len() {
        let more = indices.take(failed + 1);
        assert(more.drop_last() =~= indices.take(failed));
        lemma_expansion_stops(indices, palette, failed + 1);
    } else {
        assert(indices.take(failed) =~= indices);
    }
}

/// Adds an alpha channel to a row of pixels of three bytes each.
pub fn add_alpha(rgb: &Vec<u8>) -> (pixels: Vec<u8>)
    ensures
        pixels@ == with_alpha(rgb@),
{
    let len = rgb.len();
    let mut pixels: Vec<u8> = Vec::new();
    let mut n: usize = 0;
    while n < len
        invariant
            len == rgb@.len(),
            n <= len,
            n % 3 == 0 || n == len,
            pixels@ == with_alpha(rgb@.take(n as int)),
        decreases len - n,
    {
        let group = if len - n < 3 {
            len - n
        } else {
            3
        };
        let ghost before = pixels@;
        let mut c: usize = 0;
        while c < group
            invariant
                c <= group,
                len == rgb@.len(),
                n + group <= len,
                pixels@ == before + rgb@.subrange(n as int, n + c),
            decreases group - c,
        {
            pixels.push(rgb[n + c]);
            c = c + 1;
        }
        pixels.push(255);
        proof {
            let more = rgb@.take(n + group);
            assert(last_group(more.len()) == group);
            assert(more.subrange(0, n as int) =~= rgb@.take(n as int));
            assert(more.subrange(n as int, more.len() as int) =~= rgb@.subrange(n as int, n + group));
        }
        n = n + group;
    }
    assert(rgb@.take(n as int) =~= rgb@);
    pixels
}

/// Converts a PCX image to raw pixels.
pub fn load_pcx(pcx: &[u8]) -> (sprite: Result<CachedSprite, LoadError>)
    ensures
        sprite is Ok <==> loaded(pcx@) is Ok,
        sprite is Ok ==> loaded(pcx@)->Ok_0 == pixels_of(sprite->Ok_0),
        sprite is Err ==> loaded(pcx@)->Err_0 == sprite->Err_0,
{
    let (reader, header) = match open_reader(pcx) {
        Ok(opened) => opened,
        Err(_) => {
            return Err(LoadError::Header);
        },
    };
    let mut reader = reader;
    let width = header.width as usize;
    let height = header.height as usize;
    let mut result: Vec<u8> = Vec::new();
    match header.palette_length {
        Some(colors) => {
            let mut y: usize = 0;
            while y < height
                invariant
                    y <= height,
                    width == header.width,
                    height == header.height,
                    header.palette_length is Some,
                    pcx_header(pcx@) == Some(header),
                    reader_source(reader) == pcx@,
                    reader_rows(reader) == y,
                    paletted_rows(pcx@, y as nat) == Some(result@),
                decreases height - y,
            {
                let mut buffer = zeroes(width);
                match next_row_paletted(reader, &mut buffer) {
                    Ok(next) => {
                        reader = next;
                        append(&mut result, &buffer);
                    },
                    Err(_) => {
                        proof {
                            lemma_paletted_rows_stop(pcx@, y as nat, height as nat);
                        }
                        return Err(LoadError::Row);
                    },
                }
                y = y + 1;
            }
            let mut palette = zeroes(colors as usize * 3);
            match read_palette(reader, &mut palette) {
                Ok(_) => {},
                Err(_) => {
                    return Err(LoadError::Palette);
                },
            }
            match expand(&result, &palette) {
                Some(pixels) => Ok((width, height, pixels)),
                None => Err(LoadError::Index),
            }
        },
        None => {
            let mut y: usize = 0;
            while y < height
                invariant
                    y <= height,
                    width == header.width,
                    height == header.height,
                    header.palette_length is None,
                    pcx_header(pcx@) == Some(header),
                    reader_source(reader) == pcx@,
                    reader_rows(reader) == y,
                    rgb_rows(pcx@, y as nat) == Some(result@),
                decreases height - y,
            {
                let mut buffer = zeroes(width * 3);
                match next_row_rgb(reader, &mut buffer) {
                    Ok(next) => {
                        reader = next;
                        let pixels = add_alpha(&buffer);
                        append(&mut result, &pixels);
                    },
                    Err(_) => {
                        proof {
                            lemma_rgb_rows_stop(pcx@, y as nat, height as nat);
                        }
                        return Err(LoadError::Row);
                    },
                }
                y = y + 1;
            }
            Ok((width, height, result))
        },
    }
}

/// The sprites that were loaded, by the number of their frame.
pub struct Assets {
    sprites: HashMap<u64, CachedSprite>,
}

/// The number under which the sprite of a frame is kept.
pub open spec fn frame_key(frame: Frame) -> u64 {
    match frame {
        Frame::Particle => 0,
    }
}

/// The number under which the sprite of a frame is kept.
pub fn key_of(frame: &Frame) -> (key: u64)
    ensures
        key == frame_key(*frame),
{
    match frame {
        Frame::Particle => 0,
    }
}

impl Assets {
    /// The sprites, by the number of their frame.
    pub closed spec fn view(&self) -> Map<u64, CachedSprite> {
        self.sprites@
    }

    /// The sprites, by the number of their frame.
    pub fn sprites(&self) -> (sprites: &HashMap<u64, CachedSprite>)
        ensures
            sprites@ == self@,
    {
        &self.sprites
    }
}

/// Loads the sprites: that of the particle from the PCX image `particle`.
pub fn load_assets(particle: &[u8]) -> (assets: Result<Assets, LoadError>)
    ensures
        assets is Ok <==> loaded(particle@) is Ok,
        assets is Err ==> loaded(particle@)->Err_0 == assets->Err_0,
        assets is Ok ==> assets->Ok_0@.dom() == set![frame_key(Frame::Particle)],
        assets is Ok ==> loaded(particle@)->Ok_0 == pixels_of(assets->Ok_0@[frame_key(Frame::Particle)]),
{
    let mut sprites: HashMap<u64, CachedSprite> = HashMap::new();
    let sprite = match load_pcx(particle) {
        Ok(sprite) => sprite,
        Err(error) => {
            return Err(error);
        },
    };
    sprites.insert(key_of(&Frame::Particle), sprite);
    Ok(Assets { sprites })
}

} // verus!

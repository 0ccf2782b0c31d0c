//! Pixels and the picture buffer, together with the byte layout of the
//! binary portable pixmap format.

use vstd::prelude::*;

verus! {

/// A pixel: three channels of eight bits each.
#[derive(Clone, Copy, Debug, PartialEq, Eq, Structural)]
pub struct RGB {
    pub r: u8,
    pub g: u8,
    pub b: u8,
}

/// The largest value a channel can hold.
pub const CHANNEL_MAX: u32 = 255;

/// A channel level cut off at the largest value a channel can hold.
pub open spec fn clamp_channel(level: u32) -> u8 {
    if level > CHANNEL_MAX {
        255u8
    } else {
        level as u8
    }
}

fn clamped_channel(level: u32) -> (c: u8)
    ensures
        c == clamp_channel(level),
{
    if level > CHANNEL_MAX {
        255u8
    } else {
        level as u8
    }
}

impl RGB {
    pub fn new(rr: u8, gg: u8, bb: u8) -> (c: RGB)
        ensures
            c == (RGB { r: rr, g: gg, b: bb }),
    {
        RGB { r: rr, g: gg, b: bb }
    }

    /// Builds a pixel from three channel levels of any size; a level above
    /// 255 becomes 255.
    pub fn clamped(r: u32, g: u32, b: u32) -> (c: RGB)
        ensures
            c == (RGB { r: clamp_channel(r), g: clamp_channel(g), b: clamp_channel(b) }),
    {
        RGB { r: clamped_channel(r), g: clamped_channel(g), b: clamped_channel(b) }
    }
}

/// The ASCII code of the digit zero; the other digits follow it in order.
pub const DIGIT_ZERO: u8 = 48;

/// The ASCII code of a blank.
pub const BLANK: u8 = 32;

/// The ASCII code of a line feed.
pub const LINE_FEED: u8 = 10;

/// The decimal digits of `n` in ASCII, most significant digit first.
pub open spec fn decimal(n: nat) -> Seq<u8>
    decreases n,
{
    if n < 10 {
        seq![(DIGIT_ZERO + n) as u8]
    } else {
        decimal(n / 10).push((DIGIT_ZERO + n % 10) as u8)
    }
}

/// The bytes that open a binary pixmap of the given size, in ASCII: the
/// upper-case letter and the digit six that name the format, the height, the
/// width and the channel maximum 255, with a blank between them and a line
/// feed at the end.
pub open spec fn header_bytes(height: nat, width: nat) -> Seq<u8> {
    seq![80u8, 54u8, BLANK] + decimal(height) + seq![BLANK] + decimal(width) + seq![
        BLANK,
        50u8,
        53u8,
        53u8,
        LINE_FEED,
    ]
}

/// The name of the `number`-th picture file, in ASCII: the word `Picture`,
/// the number in decimal digits and the extension `.ppm`.
pub open spec fn picture_name_bytes(number: nat) -> Seq<u8> {
    seq![80u8, 105u8, 99u8, 116u8, 117u8, 114u8, 101u8] + decimal(number) + seq![
        46u8,
        112u8,
        112u8,
        109u8,
    ]
}

/// Appends the decimal digits of `n` to `out`.
fn push_decimal(out: &mut Vec<u8>, n: u32)
    ensures
        final(out)@ == old(out)@ + decimal(n as nat),
    decreases n,
{
    if n >= 10 {
        push_decimal(out, n / 10);
    }
    let digit: u8 = (n % 10) as u8;
    out.push(DIGIT_ZERO + digit);
    assert(final(out)@ =~= old(out)@ + decimal(n as nat));
}

/// Appends the bytes of `tail` to `out`.
fn push_all(out: &mut Vec<u8>, tail: &[u8])
    ensures
        final(out)@ == old(out)@ + tail@,
{
    let mut i: usize = 0;
    while i < tail.len()
        invariant
            i <= tail.len(),
            out@ == old(out)@ + tail@.take(i as int),
        decreases tail.len() - i,
    {
        out.push(tail[i]);
        i += 1;
        assert(out@ =~= old(out)@ + tail@.take(i as int));
    }
    assert(tail@.take(i as int) =~= tail@);
}

/// The name of the file that the `number`-th picture is stored in.
pub fn picture_name(number: u32) -> (name: Vec<u8>)
    ensures
        name@ == picture_name_bytes(number as nat),
{
    let mut name: Vec<u8> = Vec::new();
    push_all(&mut name, &[80u8, 105u8, 99u8, 116u8, 117u8, 114u8, 101u8]);
    push_decimal(&mut name, number);
    push_all(&mut name, &[46u8, 112u8, 112u8, 109u8]);
    assert(name@ =~= picture_name_bytes(number as nat));
    name
}

/// A picture: `height` rows of `width` pixels, kept row by row as three bytes
/// per pixel in the order red, green, blue.
pub struct PPM {
    height: u32,
    width: u32,
    data: Vec<u8>,
}

/// Where the first byte of the pixel in column `x` of row `y` lies in a
/// buffer whose rows are `width` pixels long.
pub open spec fn offset_of(width: nat, x: nat, y: nat) -> nat {
    3 * (y * width + x)
}

/// Two different places inside a picture never share a byte, and every place
/// inside it lies within the buffer.
proof fn lemma_offsets(height: nat, width: nat, x: nat, y: nat, i: nat, j: nat)
    requires
        x < width,
        y < height,
        i < width,
        j < height,
    ensures
        offset_of(width, x, y) + 3 <= 3 * height * width,
        (x != i || y != j) ==> (offset_of(width, x, y) + 3 <= offset_of(width, i, j) || offset_of(
            width,
            i,
            j,
        ) + 3 <= offset_of(width, x, y)),
{
    assert(y * width + x + 1 <= height * width) by (nonlinear_arith)
        requires
            x < width,
            y < height,
    ;
    assert(3 * height * width == 3 * (height * width)) by (nonlinear_arith);
    if y < j {
        assert(y * width + x + 1 <= j * width + i) by (nonlinear_arith)
            requires
                x < width,
                y < j,
        ;
    } else if j < y {
        assert(j * width + i + 1 <= y * width + x) by (nonlinear_arith)
            requires
                i < width,
                j < y,
        ;
    }
}

impl PPM {
    #[verifier::type_invariant]
    spec fn sized(&self) -> bool {
        &&& 3 * self.height * self.width <= u32::MAX
        &&& self.data@.len() == 3 * self.height * self.width
    }

    /// The number of rows.
    pub closed spec fn rows(&self) -> nat {
        self.height as nat
    }

    /// The number of pixels in a row.
    pub closed spec fn columns(&self) -> nat {
        self.width as nat
    }

    /// The bytes of the buffer, row by row.
    pub closed spec fn bytes(&self) -> Seq<u8> {
        self.data@
    }

    /// Whether the picture has a pixel in column `x` of row `y`.
    pub open spec fn holds(&self, x: nat, y: nat) -> bool {
        x < self.columns() && y < self.rows()
    }

    /// The pixel in column `x` of row `y`.
    pub open spec fn pixel(&self, x: nat, y: nat) -> RGB {
        let at = offset_of(self.columns(), x, y) as int;
        RGB { r: self.bytes()[at], g: self.bytes()[at + 1], b: self.bytes()[at + 2] }
    }

    /// A picture of `h` rows and `w` columns whose pixels are all black.
    pub fn new(h: u32, w: u32) -> (p: PPM)
        requires
            3 * h * w <= u32::MAX,
        ensures
            p.rows() == h,
            p.columns() == w,
            p.bytes().len() == 3 * h * w,
            forall|k: int| 0 <= k < p.bytes().len() ==> p.bytes()[k] == 0,
    {
        assert(h * w <= u32::MAX) by (nonlinear_arith)
            requires
                3 * h * w <= u32::MAX,
        ;
        assert(3 * (h * w) == 3 * h * w) by (nonlinear_arith);
        let size: u32 = 3 * (h * w);
        let buf: Vec<u8> = vec![0u8; size as usize];
        PPM { height: h, width: w, data: buf }
    }

    /// The number of bytes in the buffer.
    pub fn buffer_size(&self) -> (n: u32)
        ensures
            n == 3 * self.rows() * self.columns(),
            n == self.bytes().len(),
    {
        proof {
            use_type_invariant(self);
            assert(self.height * self.width <= u32::MAX) by (nonlinear_arith)
                requires
                    3 * self.height * self.width <= u32::MAX,
            ;
            assert(3 * (self.height * self.width) == 3 * self.height * self.width)
                by (nonlinear_arith);
        }
        3 * (self.height * self.width)
    }

    /// Where the pixel in column `x` of row `y` starts in the buffer, if the
    /// picture has such a pixel.
    pub fn get_offset(&self, x: u32, y: u32) -> (at: Option<usize>)
        ensures
            at.is_some() <==> self.holds(x as nat, y as nat),
            at matches Some(o) ==> o == offset_of(self.columns(), x as nat, y as nat) && o + 3
                <= self.bytes().len(),
    {
        if x < self.width && y < self.height {
            proof {
                use_type_invariant(self);
                lemma_offsets(
                    self.height as nat,
                    self.width as nat,
                    x as nat,
                    y as nat,
                    x as nat,
                    y as nat,
                );
                assert(y * self.width <= y * self.width + x);
            }
            let offset: u32 = 3 * (y * self.width + x);
            Some(offset as usize)
        } else {
            None
        }
    }

    /// Stores `color` in column `x` of row `y`. Returns whether the picture
    /// has such a pixel; if it has none, nothing changes.
    pub fn set_pixel(&mut self, x: u32, y: u32, color: RGB) -> (stored: bool)
        ensures
            stored == old(self).holds(x as nat, y as nat),
            final(self).rows() == old(self).rows(),
            final(self).columns() == old(self).columns(),
            final(self).bytes().len() == old(self).bytes().len(),
            !stored ==> final(self).bytes() == old(self).bytes(),
            stored ==> final(self).pixel(x as nat, y as nat) == color,
            forall|i: nat, j: nat|
                old(self).holds(i, j) && (i != x || j != y) ==> #[trigger] final(self).pixel(i, j)
                    == old(self).pixel(i, j),
    {
        proof {
            use_type_invariant(&*self);
        }
        match self.get_offset(x, y) {
            Some(offset) => {
                self.data[offset] = color.r;
                self.data[offset + 1] = color.g;
                self.data[offset + 2] = color.b;
                proof {
                    assert forall|i: nat, j: nat|
                        old(self).holds(i, j) && (i != x || j != y) implies #[trigger] self.pixel(
                        i,
                        j,
                    ) == old(self).pixel(i, j) by {
                        lemma_offsets(
                            self.height as nat,
                            self.width as nat,
                            x as nat,
                            y as nat,
                            i,
                            j,
                        );
                        lemma_offsets(self.height as nat, self.width as nat, i, j, i, j);
                    }
                }
                true
            },
            None => false,
        }
    }

    /// The bytes that open the stored picture: the format's name, the two
    /// dimensions and the channel maximum.
    pub fn header(&self) -> (head: Vec<u8>)
        ensures
            head@ == header_bytes(self.rows(), self.columns()),
    {
        let mut head: Vec<u8> = Vec::new();
        push_all(&mut head, &[80u8, 54u8, BLANK]);
        push_decimal(&mut head, self.height);
        push_all(&mut head, &[BLANK]);
        push_decimal(&mut head, self.width);
        push_all(&mut head, &[BLANK, 50u8, 53u8, 53u8, LINE_FEED]);
        assert(head@ =~= header_bytes(self.rows(), self.columns()));
        head
    }

    /// The pixels as they are stored after the header.
    pub fn data(&self) -> (body: &Vec<u8>)
        ensures
            body@ == self.bytes(),
    {
        &self.data
    }
}

} // verus!

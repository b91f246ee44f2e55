//! Glyph encoding: colours, colour attributes, sanitised glyph codes and the
//! packed sixteen-bit cell that the display shows.

use vstd::prelude::*;
use vstd::std_specs::convert::FromSpecImpl;

verus! {

/// The sixteen colours of the text-mode palette, in the order of their codes.
#[derive(Debug, Clone, Copy, PartialEq, Eq, Structural)]
pub enum Color {
    Black,
    Blue,
    Green,
    Cyan,
    Red,
    Magenta,
    Brown,
    LightGray,
    DarkGray,
    LightBlue,
    LightGreen,
    LightCyan,
    LightRed,
    Pink,
    Yellow,
    White,
}

impl Color {
    /// The four-bit code of the colour.
    pub open spec fn spec_code(self) -> u8 {
        match self {
            Color::Black => 0,
            Color::Blue => 1,
            Color::Green => 2,
            Color::Cyan => 3,
            Color::Red => 4,
            Color::Magenta => 5,
            Color::Brown => 6,
            Color::LightGray => 7,
            Color::DarkGray => 8,
            Color::LightBlue => 9,
            Color::LightGreen => 10,
            Color::LightCyan => 11,
            Color::LightRed => 12,
            Color::Pink => 13,
            Color::Yellow => 14,
            Color::White => 15,
        }
    }

    /// The four-bit code of the colour.
    #[verifier::when_used_as_spec(spec_code)]
    pub fn code(self) -> (code: u8)
        ensures
            code == self.spec_code(),
            code < 16,
    {
        match self {
            Color::Black => 0,
            Color::Blue => 1,
            Color::Green => 2,
            Color::Cyan => 3,
            Color::Red => 4,
            Color::Magenta => 5,
            Color::Brown => 6,
            Color::LightGray => 7,
            Color::DarkGray => 8,
            Color::LightBlue => 9,
            Color::LightGreen => 10,
            Color::LightCyan => 11,
            Color::LightRed => 12,
            Color::Pink => 13,
            Color::Yellow => 14,
            Color::White => 15,
        }
    }
}

/// The attribute byte of a colour pair: the background code in the high
/// nibble, the foreground code in the low nibble.
pub open spec fn color_attribute(foreground: Color, background: Color) -> u8 {
    (background.code() * 16 + foreground.code()) as u8
}

/// A packed colour attribute.
#[derive(Debug, Clone, Copy, PartialEq, Eq, Structural)]
pub struct ColorCode(u8);

impl View for ColorCode {
    type V = u8;

    closed spec fn view(&self) -> u8 {
        self.0
    }
}

impl ColorCode {
    /// Packs a foreground and a background colour into one attribute byte.
    pub fn new(foreground: Color, background: Color) -> (color: ColorCode)
        ensures
            color@ == color_attribute(foreground, background),
    {
        let fg: u8 = foreground.code();
        let bg: u8 = background.code();
        assert((bg << 4 | fg) == bg * 16 + fg) by (bit_vector)
            requires
                fg < 16,
                bg < 16,
        ;
        ColorCode(bg << 4 | fg)
    }

    /// The colour pair that an attribute byte stands for; every byte is one.
    pub fn from_bits(bits: u8) -> (color: ColorCode)
        ensures
            color@ == bits,
    {
        ColorCode(bits)
    }

    /// The attribute byte.
    pub fn bits(self) -> (bits: u8)
        ensures
            bits == self@,
    {
        self.0
    }
}

/// Whether a byte is printable ASCII.
pub open spec fn is_printable(byte: u8) -> bool {
    0x20 <= byte <= 0x7e
}

/// The line-feed control byte.
pub const NEWLINE: u8 = 0x0a;

/// The glyph shown in place of a byte that cannot be displayed.
pub const REPLACEMENT_GLYPH: u8 = 0xfe;

/// The glyph shown for a byte: the byte itself where it is printable ASCII
/// or a line feed, the replacement glyph otherwise.
pub open spec fn sanitize(byte: u8) -> u8 {
    if is_printable(byte) || byte == NEWLINE {
        byte
    } else {
        REPLACEMENT_GLYPH
    }
}

/// A glyph code that the display can show.
#[derive(Debug, Clone, Copy, PartialEq, Eq, Structural)]
pub struct AsciiChar(u8);

impl View for AsciiChar {
    type V = u8;

    closed spec fn view(&self) -> u8 {
        self.0
    }
}

impl AsciiChar {
    #[verifier::type_invariant]
    spec fn displayable(self) -> bool {
        sanitize(self.0) == self.0
    }

    /// The glyph code.
    pub fn byte(self) -> (byte: u8)
        ensures
            byte == self@,
            sanitize(byte) == byte,
    {
        proof {
            use_type_invariant(&self);
        }
        self.0
    }
}

impl From<u8> for AsciiChar {
    fn from(value: u8) -> (glyph: AsciiChar)
        ensures
            glyph@ == sanitize(value),
    {
        if (0x20 <= value && value <= 0x7e) || value == NEWLINE {
            AsciiChar(value)
        } else {
            AsciiChar(REPLACEMENT_GLYPH)
        }
    }
}

impl FromSpecImpl<u8> for AsciiChar {
    open spec fn obeys_from_spec() -> bool {
        true
    }

    closed spec fn from_spec(value: u8) -> AsciiChar {
        AsciiChar(sanitize(value))
    }
}

/// What one cell of the display shows: a glyph code and a colour attribute.
pub struct DisplayCell {
    /// The code of the glyph.
    pub glyph: u8,
    /// The attribute byte of its colours.
    pub attribute: u8,
}

impl DisplayCell {
    /// The sixteen-bit value of the cell: the attribute in the high byte, the
    /// glyph in the low byte.
    pub open spec fn bits(self) -> u16 {
        (self.attribute * 256 + self.glyph) as u16
    }

    /// The cell that a sixteen-bit value stands for, taken apart byte by byte.
    pub open spec fn from_bits(bits: u16) -> DisplayCell {
        DisplayCell { glyph: (bits % 256) as u8, attribute: (bits / 256) as u8 }
    }

    /// Whether the glyph is one that sanitising leaves alone.
    pub open spec fn displayable(self) -> bool {
        sanitize(self.glyph) == self.glyph
    }
}

/// The cell made from a raw byte and an attribute: the glyph is sanitised.
pub open spec fn display_cell(byte: u8, attribute: u8) -> DisplayCell {
    DisplayCell { glyph: sanitize(byte), attribute }
}

/// The blank cell of an attribute: a space on its background.
pub open spec fn blank_cell(attribute: u8) -> DisplayCell {
    display_cell(0x20, attribute)
}

/// One character cell: a glyph and its colours.
#[derive(Debug, Clone, Copy, PartialEq, Eq, Structural)]
pub struct ScreenChar {
    ascii_character: AsciiChar,
    color_code: ColorCode,
}

impl View for ScreenChar {
    type V = DisplayCell;

    closed spec fn view(&self) -> DisplayCell {
        DisplayCell { glyph: self.ascii_character@, attribute: self.color_code@ }
    }
}

impl ScreenChar {
    /// Makes the cell for a raw byte in the given colours.
    pub fn new(byte: u8, color: ColorCode) -> (cell: ScreenChar)
        ensures
            cell@ == display_cell(byte, color@),
    {
        ScreenChar { ascii_character: AsciiChar::from(byte), color_code: color }
    }

    /// The glyph code of the cell.
    pub fn glyph(self) -> (glyph: u8)
        ensures
            glyph == self@.glyph,
            self@.displayable(),
    {
        self.ascii_character.byte()
    }

    /// The colours of the cell.
    pub fn color(self) -> (color: ColorCode)
        ensures
            color@ == self@.attribute,
    {
        self.color_code
    }

    /// The sixteen-bit value that the display hardware reads for this cell.
    pub fn bits(self) -> (bits: u16)
        ensures
            bits == self@.bits(),
    {
        let glyph: u8 = self.ascii_character.byte();
        let attribute: u8 = self.color_code.bits();
        assert(((attribute as u16) << 8 | (glyph as u16)) == attribute * 256 + glyph)
            by (bit_vector);
        (attribute as u16) << 8 | (glyph as u16)
    }

    /// Reads a cell back from its sixteen-bit value. The low byte is
    /// sanitised, so the result is a valid cell whatever the value.
    pub fn from_bits(bits: u16) -> (cell: ScreenChar)
        ensures
            cell@ == display_cell(
                DisplayCell::from_bits(bits).glyph,
                DisplayCell::from_bits(bits).attribute,
            ),
    {
        let glyph: u8 = (bits & 0xff) as u8;
        let attribute: u8 = (bits >> 8) as u8;
        assert((bits & 0xff) == bits % 256 && (bits >> 8) == bits / 256) by (bit_vector);
        ScreenChar::new(glyph, ColorCode::from_bits(attribute))
    }
}

/// A cell made from a printable byte decodes, through its sixteen-bit value,
/// to exactly that byte and that attribute.
pub proof fn lemma_printable_cell_round_trip(byte: u8, attribute: u8)
    requires
        is_printable(byte),
    ensures
        DisplayCell::from_bits(display_cell(byte, attribute).bits()) == (DisplayCell {
            glyph: byte,
            attribute,
        }),
{
}

/// Every cell survives the trip through its sixteen-bit value.
pub proof fn lemma_cell_bits_round_trip(cell: DisplayCell)
    ensures
        DisplayCell::from_bits(cell.bits()) == cell,
{
}

/// A byte that is neither printable nor a line feed is shown as the
/// replacement glyph; unless it is that glyph's own code, it is not shown as
/// itself.
pub proof fn lemma_unprintable_is_replaced(byte: u8)
    requires
        !is_printable(byte),
        byte != NEWLINE,
    ensures
        sanitize(byte) == REPLACEMENT_GLYPH,
        byte != REPLACEMENT_GLYPH ==> sanitize(byte) != byte,
{
}

/// Sanitising twice is sanitising once: every cell made from a byte is
/// displayable, and a displayable cell is the cell made from its own glyph.
pub proof fn lemma_sanitize_idempotent(byte: u8, attribute: u8)
    ensures
        sanitize(sanitize(byte)) == sanitize(byte),
        display_cell(byte, attribute).displayable(),
        display_cell(sanitize(byte), attribute) == display_cell(byte, attribute),
{
}

/// What `From` and `Into` give for a byte is the glyph that sanitising
/// gives.
pub proof fn lemma_from_spec_sanitizes(byte: u8)
    ensures
        <AsciiChar as vstd::std_specs::convert::FromSpec<u8>>::from_spec(byte)@ == sanitize(byte),
{
}

/// Two colour attributes are equal exactly when their bytes are.
pub proof fn lemma_color_code_equality(first: ColorCode, second: ColorCode)
    ensures
        first == second <==> first@ == second@,
{
}

/// Two cells are equal exactly when they show the same glyph in the same
/// colours.
pub proof fn lemma_screen_char_equality(first: ScreenChar, second: ScreenChar)
    ensures
        first == second <==> first@ == second@,
{
}

} // verus!

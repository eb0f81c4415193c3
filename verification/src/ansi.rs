//! Colours for a terminal, as the escape sequences of ANSI.
use vstd::prelude::*;

use crate::text::decimal;
use crate::text::render_decimal;
use crate::text::Text;

verus! {

/// Where a colour applies.
#[derive(Copy, Clone, Debug, PartialEq, Eq, Structural)]
pub enum Canvas {
    Background,
    Foreground,
}

/// The eight colours of the basic palette.
#[derive(Copy, Clone, Debug, PartialEq, Eq, Structural)]
pub enum Color {
    Black,
    Red,
    Green,
    Yellow,
    Blue,
    Magenta,
    Cyan,
    White,
}

/// The sequence that ends a colour: white for the text, black for the
/// background. (The code for the terminal's own default is not understood
/// by every terminal.)
pub open spec fn epilogue_bytes(canvas: Canvas) -> Seq<u8> {
    match canvas {
        Canvas::Foreground => seq![0x1Bu8, 0x5Bu8, 0x33u8, 0x37u8, 0x6Du8],
        Canvas::Background => seq![0x1Bu8, 0x5Bu8, 0x34u8, 0x30u8, 0x6Du8],
    }
}

/// Something that colours text with escape sequences.
pub trait FormatColor {
    /// The sequence that begins the colour.
    spec fn prelude_spec(&self, canvas: Canvas) -> Seq<u8>;

    /// The sequence that begins the colour.
    fn prelude(&self, canvas: Canvas) -> (out: Vec<u8>)
        ensures
            out@ == self.prelude_spec(canvas),
    ;

    /// The sequence that ends the colour.
    fn epilogue(&self, canvas: Canvas) -> (out: Vec<u8>)
        ensures
            out@ == epilogue_bytes(canvas),
    {
        let mut out: Vec<u8> = Vec::new();
        out.push(0x1B);
        out.push(0x5B);
        match canvas {
            Canvas::Foreground => {
                out.push(0x33);
                out.push(0x37);
            },
            Canvas::Background => {
                out.push(0x34);
                out.push(0x30);
            },
        }
        out.push(0x6D);
        assert(out@ =~= epilogue_bytes(canvas));
        out
    }
}

/// An item that is shown in a colour of the text.
pub struct WithForeground<Item, Formatter: FormatColor> {
    pub item: Item,
    pub formatter: Formatter,
}

/// An item that is shown on a colour of the background.
pub struct WithBackground<Item, Formatter: FormatColor> {
    pub item: Item,
    pub formatter: Formatter,
}

/// Gives any value a colour.
pub trait Colorable: Sized {
    /// The value on a background colour.
    fn bg<TFormatColor: FormatColor>(self, formatter: TFormatColor) -> (r: WithBackground<
        Self,
        TFormatColor,
    >)
        ensures
            r.item == self,
            r.formatter == formatter,
    {
        WithBackground { item: self, formatter }
    }

    /// The value in a text colour.
    fn fg<TFormatColor: FormatColor>(self, formatter: TFormatColor) -> (r: WithForeground<
        Self,
        TFormatColor,
    >)
        ensures
            r.item == self,
            r.formatter == formatter,
    {
        WithForeground { item: self, formatter }
    }
}

impl<T> Colorable for T {

}

impl Color {
    /// The place of the colour in the palette.
    pub open spec fn to_num_spec(&self) -> u8 {
        match self {
            Color::Black => 0,
            Color::Red => 1,
            Color::Green => 2,
            Color::Yellow => 3,
            Color::Blue => 4,
            Color::Magenta => 5,
            Color::Cyan => 6,
            Color::White => 7,
        }
    }

    /// The place of the colour in the palette.
    #[verifier::when_used_as_spec(to_num_spec)]
    pub fn to_num(&self) -> (n: u8)
        ensures
            n == self.to_num_spec(),
    {
        match self {
            Color::Black => 0,
            Color::Red => 1,
            Color::Green => 2,
            Color::Yellow => 3,
            Color::Blue => 4,
            Color::Magenta => 5,
            Color::Cyan => 6,
            Color::White => 7,
        }
    }
}

impl FormatColor for Color {
    /// For the text: the reset, then 30 plus the place of the colour. For
    /// the background: 40 plus the place of the colour.
    open spec fn prelude_spec(&self, canvas: Canvas) -> Seq<u8> {
        match canvas {
            Canvas::Foreground => seq![0x1Bu8, 0x5Bu8, 0x30u8, 0x3Bu8] + decimal(
                (self.to_num_spec() + 30) as nat,
            ) + seq![0x6Du8],
            Canvas::Background => seq![0x1Bu8, 0x5Bu8] + decimal((self.to_num_spec() + 40) as nat)
                + seq![0x6Du8],
        }
    }

    fn prelude(&self, canvas: Canvas) -> (out: Vec<u8>) {
        let base = self.to_num();
        let mut out: Vec<u8> = Vec::new();
        out.push(0x1B);
        out.push(0x5B);
        let mut number = match canvas {
            Canvas::Foreground => {
                out.push(0x30);
                out.push(0x3B);
                render_decimal((base + 30) as u64)
            },
            Canvas::Background => render_decimal((base + 40) as u64),
        };
        let ghost head = out@;
        let ghost digits = number@;
        out.append(&mut number);
        out.push(0x6D);
        assert(out@ =~= head + digits + seq![0x6Du8]);
        assert(canvas == Canvas::Foreground ==> head =~= seq![0x1Bu8, 0x5Bu8, 0x30u8, 0x3Bu8]);
        assert(canvas == Canvas::Background ==> head =~= seq![0x1Bu8, 0x5Bu8]);
        out
    }
}

impl<Item: Text, Formatter: FormatColor> Text for WithForeground<Item, Formatter> {
    /// The colour, the item, and the end of the colour.
    open spec fn text_spec(&self) -> Seq<u8> {
        self.formatter.prelude_spec(Canvas::Foreground) + self.item.text_spec() + epilogue_bytes(
            Canvas::Foreground,
        )
    }

    fn text(&self) -> (out: Vec<u8>) {
        let mut out = self.formatter.prelude(Canvas::Foreground);
        let mut body = self.item.text();
        let mut tail = self.formatter.epilogue(Canvas::Foreground);
        out.append(&mut body);
        out.append(&mut tail);
        out
    }
}

impl<Item: Text, Formatter: FormatColor> Text for WithBackground<Item, Formatter> {
    /// The colour, the item, and the end of the colour.
    open spec fn text_spec(&self) -> Seq<u8> {
        self.formatter.prelude_spec(Canvas::Background) + self.item.text_spec() + epilogue_bytes(
            Canvas::Background,
        )
    }

    fn text(&self) -> (out: Vec<u8>) {
        let mut out = self.formatter.prelude(Canvas::Background);
        let mut body = self.item.text();
        let mut tail = self.formatter.epilogue(Canvas::Background);
        out.append(&mut body);
        out.append(&mut tail);
        out
    }
}

pub fn black() -> (c: Color)
    ensures
        c == Color::Black,
{
    Color::Black
}

pub fn red() -> (c: Color)
    ensures
        c == Color::Red,
{
    Color::Red
}

pub fn green() -> (c: Color)
    ensures
        c == Color::Green,
{
    Color::Green
}

pub fn yellow() -> (c: Color)
    ensures
        c == Color::Yellow,
{
    Color::Yellow
}

pub fn blue() -> (c: Color)
    ensures
        c == Color::Blue,
{
    Color::Blue
}

pub fn magenta() -> (c: Color)
    ensures
        c == Color::Magenta,
{
    Color::Magenta
}

pub fn cyan() -> (c: Color)
    ensures
        c == Color::Cyan,
{
    Color::Cyan
}

pub fn white() -> (c: Color)
    ensures
        c == Color::White,
{
    Color::White
}

} // verus!

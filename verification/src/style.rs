//! Style settings for a grid column: foreground color, background color and
//! text rendition (bold, italic, strike-through, ...), each mapped to the
//! ANSI escape sequence that turns it on.

use vstd::prelude::*;

verus! {

/// A foreground color.
#[derive(Debug, Clone, Copy, PartialEq, Eq, Structural)]
pub enum Fg {
    Black,
    Red,
    Green,
    Yellow,
    Blue,
    Magenta,
    Cyan,
    White,
    BrightBlack,
    BrightRed,
    BrightGreen,
    BrightYellow,
    BrightBlue,
    BrightMagenta,
    BrightCyan,
    BrightWhite,
    Reset,
}

impl Fg {
    /// The escape sequence for this foreground color, as a sequence of
    /// characters.
    pub open spec fn spec_code(self) -> Seq<char> {
        match self {
            Fg::Black => "\x1b[1;30m"@,
            Fg::Red => "\x1b[1;31m"@,
            Fg::Green => "\x1b[1;32m"@,
            Fg::Yellow => "\x1b[1;33m"@,
            Fg::Blue => "\x1b[1;34m"@,
            Fg::Magenta => "\x1b[1;35m"@,
            Fg::Cyan => "\x1b[1;36m"@,
            Fg::White => "\x1b[1;37m"@,
            Fg::BrightBlack => "\x1b[1;90m"@,
            Fg::BrightRed => "\x1b[1;91m"@,
            Fg::BrightGreen => "\x1b[1;92m"@,
            Fg::BrightYellow => "\x1b[1;93m"@,
            Fg::BrightBlue => "\x1b[1;94m"@,
            Fg::BrightMagenta => "\x1b[1;95m"@,
            Fg::BrightCyan => "\x1b[1;96m"@,
            Fg::BrightWhite => "\x1b[1;97m"@,
            Fg::Reset => "\x1b[1;0m"@,
        }
    }

    /// The ANSI escape code that selects this foreground color.
    pub fn escape_code(&self) -> (r: &'static str)
        ensures
            r@ == self.spec_code(),
    {
        match self {
            Self::Black => "\x1b[1;30m",
            Self::Red => "\x1b[1;31m",
            Self::Green => "\x1b[1;32m",
            Self::Yellow => "\x1b[1;33m",
            Self::Blue => "\x1b[1;34m",
            Self::Magenta => "\x1b[1;35m",
            Self::Cyan => "\x1b[1;36m",
            Self::White => "\x1b[1;37m",
            Self::BrightBlack => "\x1b[1;90m",
            Self::BrightRed => "\x1b[1;91m",
            Self::BrightGreen => "\x1b[1;92m",
            Self::BrightYellow => "\x1b[1;93m",
            Self::BrightBlue => "\x1b[1;94m",
            Self::BrightMagenta => "\x1b[1;95m",
            Self::BrightCyan => "\x1b[1;96m",
            Self::BrightWhite => "\x1b[1;97m",
            Self::Reset => "\x1b[1;0m",
        }
    }
}

/// A background color.
#[derive(Debug, Clone, Copy, PartialEq, Eq, Structural)]
pub enum Bg {
    Black,
    Red,
    Green,
    Yellow,
    Blue,
    Magenta,
    Cyan,
    White,
    BrightBlack,
    BrightRed,
    BrightGreen,
    BrightYellow,
    BrightBlue,
    BrightMagenta,
    BrightCyan,
    BrightWhite,
    Reset,
}

impl Bg {
    /// The escape sequence for this background color, as a sequence of
    /// characters.
    pub open spec fn spec_code(self) -> Seq<char> {
        match self {
            Bg::Black => "\x1b[1;40m"@,
            Bg::Red => "\x1b[1;41m"@,
            Bg::Green => "\x1b[1;42m"@,
            Bg::Yellow => "\x1b[1;43m"@,
            Bg::Blue => "\x1b[1;44m"@,
            Bg::Magenta => "\x1b[1;45m"@,
            Bg::Cyan => "\x1b[1;46m"@,
            Bg::White => "\x1b[1;47m"@,
            Bg::BrightBlack => "\x1b[1;100m"@,
            Bg::BrightRed => "\x1b[1;101m"@,
            Bg::BrightGreen => "\x1b[1;102m"@,
            Bg::BrightYellow => "\x1b[1;103m"@,
            Bg::BrightBlue => "\x1b[1;104m"@,
            Bg::BrightMagenta => "\x1b[1;105m"@,
            Bg::BrightCyan => "\x1b[1;106m"@,
            Bg::BrightWhite => "\x1b[1;107m"@,
            Bg::Reset => "\x1b[1;0m"@,
        }
    }

    /// The ANSI escape code that selects this background color.
    pub fn escape_code(&self) -> (r: &'static str)
        ensures
            r@ == self.spec_code(),
    {
        match self {
            Self::Black => "\x1b[1;40m",
            Self::Red => "\x1b[1;41m",
            Self::Green => "\x1b[1;42m",
            Self::Yellow => "\x1b[1;43m",
            Self::Blue => "\x1b[1;44m",
            Self::Magenta => "\x1b[1;45m",
            Self::Cyan => "\x1b[1;46m",
            Self::White => "\x1b[1;47m",
            Self::BrightBlack => "\x1b[1;100m",
            Self::BrightRed => "\x1b[1;101m",
            Self::BrightGreen => "\x1b[1;102m",
            Self::BrightYellow => "\x1b[1;103m",
            Self::BrightBlue => "\x1b[1;104m",
            Self::BrightMagenta => "\x1b[1;105m",
            Self::BrightCyan => "\x1b[1;106m",
            Self::BrightWhite => "\x1b[1;107m",
            Self::Reset => "\x1b[1;0m",
        }
    }
}

/// A Select Graphic Rendition: a text style such as bold or italic, out of
/// the renditions with general, wide terminal support.
#[derive(Debug, Clone, Copy, PartialEq, Eq, Structural)]
pub enum Sgr {
    Bold,
    Faint,
    Italic,
    Underline,
    StrikeThrough,
    Reset,
}

impl Sgr {
    /// The escape sequence for this rendition, as a sequence of characters.
    pub open spec fn spec_code(self) -> Seq<char> {
        match self {
            Sgr::Bold => "\x1b[1;1m"@,
            Sgr::Faint => "\x1b[1;2m"@,
            Sgr::Italic => "\x1b[1;3m"@,
            Sgr::Underline => "\x1b[1;4m"@,
            Sgr::StrikeThrough => "\x1b[1;9m"@,
            Sgr::Reset => "\x1b[1;0m"@,
        }
    }

    /// The ANSI escape code that selects this rendition.
    pub fn escape_code(&self) -> (r: &'static str)
        ensures
            r@ == self.spec_code(),
    {
        match self {
            Self::Bold => "\x1b[1;1m",
            Self::Faint => "\x1b[1;2m",
            Self::Italic => "\x1b[1;3m",
            Self::Underline => "\x1b[1;4m",
            Self::StrikeThrough => "\x1b[1;9m",
            Self::Reset => "\x1b[1;0m",
        }
    }
}

/// Optional style settings for one grid column: foreground color, background
/// color and text rendition, each of which may be left unset.
#[derive(Debug, Clone, Copy, PartialEq, Eq)]
pub struct StyleOpt {
    pub fg: Option<Fg>,
    pub bg: Option<Bg>,
    pub sgr: Option<Sgr>,
}

impl Default for StyleOpt {
    /// A style with every setting unset.
    fn default() -> (r: StyleOpt)
        ensures
            r == (StyleOpt { fg: None, bg: None, sgr: None }),
    {
        StyleOpt { fg: None, bg: None, sgr: None }
    }
}

impl StyleOpt {
    /// Creates a style with no settings: stylizing with it only wraps the
    /// text in an empty prefix and the reset code.
    pub fn new() -> (r: Self)
        ensures
            r == (StyleOpt { fg: None, bg: None, sgr: None }),
    {
        StyleOpt { fg: None, bg: None, sgr: None }
    }

    /// Sets the foreground color.
    pub fn fg(self, fg: Fg) -> (r: Self)
        ensures
            r == (StyleOpt { fg: Some(fg), ..self }),
    {
        Self { fg: Some(fg), ..self }
    }

    /// Sets the background color.
    pub fn bg(self, bg: Bg) -> (r: Self)
        ensures
            r == (StyleOpt { bg: Some(bg), ..self }),
    {
        Self { bg: Some(bg), ..self }
    }

    /// Sets the Select Graphic Rendition.
    pub fn sgr(self, sgr: Sgr) -> (r: Self)
        ensures
            r == (StyleOpt { sgr: Some(sgr), ..self }),
    {
        Self { sgr: Some(sgr), ..self }
    }
}

/// The escape sequence an optional foreground color contributes: empty when
/// the color is unset.
pub open spec fn fg_code_opt(fg: Option<Fg>) -> Seq<char> {
    match fg {
        None => Seq::empty(),
        Some(f) => f.spec_code(),
    }
}

/// The escape sequence an optional background color contributes: empty when
/// the color is unset.
pub open spec fn bg_code_opt(bg: Option<Bg>) -> Seq<char> {
    match bg {
        None => Seq::empty(),
        Some(b) => b.spec_code(),
    }
}

/// The escape sequence an optional rendition contributes: empty when the
/// rendition is unset.
pub open spec fn sgr_code_opt(sgr: Option<Sgr>) -> Seq<char> {
    match sgr {
        None => Seq::empty(),
        Some(s) => s.spec_code(),
    }
}

/// A stylized text: the foreground, background and rendition codes of the
/// set options, in that fixed order, then the text, then one reset code.
pub open spec fn spec_stylize(s: Seq<char>, opt: StyleOpt) -> Seq<char> {
    fg_code_opt(opt.fg) + bg_code_opt(opt.bg) + sgr_code_opt(opt.sgr) + s + Fg::Reset.spec_code()
}

/// Wraps `s` in the escape sequences that `opt` selects and a trailing reset
/// sequence.
pub fn stylize(s: &str, opt: &StyleOpt) -> (r: String)
    ensures
        r@ == spec_stylize(s@, *opt),
{
    let mut r = String::new();
    match &opt.fg {
        None => {},
        Some(fg) => r.append(fg.escape_code()),
    }
    match &opt.bg {
        None => {},
        Some(bg) => r.append(bg.escape_code()),
    }
    match &opt.sgr {
        None => {},
        Some(sgr) => r.append(sgr.escape_code()),
    }
    r.append(s);
    r.append(Fg::Reset.escape_code());
    proof {
        assert(r@ =~= spec_stylize(s@, *opt));
    }
    r
}

/// With only a foreground color set, a stylized text is exactly that
/// color's escape code, then the text, then the reset code.
pub proof fn lemma_fg_wrap(s: Seq<char>, f: Fg)
    ensures
        spec_stylize(s, StyleOpt { fg: Some(f), bg: None, sgr: None }) =~= f.spec_code() + s
            + Fg::Reset.spec_code(),
{
}

} // verus!

//! Stateless presentation helpers: colored text, framed boxes, and tables.
//!
//! These are one-shot calls made by application code outside the runtime's
//! control path. The box layout is computed and proved here; the coloring and
//! the table layout are done by outside crates behind trusted wrappers, and
//! printing is left to the caller.

use vstd::prelude::*;
use crate::text::push_char;

verus! {

/// The common colors a helper can style its output with.
#[derive(Clone, Copy, Debug, PartialEq, Eq, Structural)]
pub enum LumaColor {
    Red,
    Green,
    Blue,
    Yellow,
    Magenta,
    Cyan,
    White,
    Black,
}

impl LumaColor {
    /// The color's lower-case name, as color parsers read it.
    pub open spec fn spec_name(self) -> Seq<char> {
        match self {
            LumaColor::Red => "red"@,
            LumaColor::Green => "green"@,
            LumaColor::Blue => "blue"@,
            LumaColor::Yellow => "yellow"@,
            LumaColor::Magenta => "magenta"@,
            LumaColor::Cyan => "cyan"@,
            LumaColor::White => "white"@,
            LumaColor::Black => "black"@,
        }
    }

    /// The color's name as text.
    pub fn name(&self) -> (s: &'static str)
        ensures
            s@ == self.spec_name(),
    {
        match self {
            LumaColor::Red => "red",
            LumaColor::Green => "green",
            LumaColor::Blue => "blue",
            LumaColor::Yellow => "yellow",
            LumaColor::Magenta => "magenta",
            LumaColor::Cyan => "cyan",
            LumaColor::White => "white",
            LumaColor::Black => "black",
        }
    }
}

/// Whether the text holds no escape character, so that styling wraps it
/// without rewriting it.
pub open spec fn no_escape(s: Seq<char>) -> bool {
    forall|i: int| 0 <= i < s.len() ==> s[i] != '\u{1b}'
}

/// Whether the text is one of the eight color names of this library.
pub open spec fn is_color_name(s: Seq<char>) -> bool {
    exists|c: LumaColor| s == c.spec_name()
}

/// The ANSI foreground code of a color name.
pub open spec fn ansi_fg_code(name: Seq<char>) -> Seq<char> {
    if name == "black"@ {
        "30"@
    } else if name == "red"@ {
        "31"@
    } else if name == "green"@ {
        "32"@
    } else if name == "yellow"@ {
        "33"@
    } else if name == "blue"@ {
        "34"@
    } else if name == "magenta"@ {
        "35"@
    } else if name == "cyan"@ {
        "36"@
    } else {
        "37"@
    }
}

/// The ANSI background code of a color name.
pub open spec fn ansi_bg_code(name: Seq<char>) -> Seq<char> {
    if name == "black"@ {
        "40"@
    } else if name == "red"@ {
        "41"@
    } else if name == "green"@ {
        "42"@
    } else if name == "yellow"@ {
        "43"@
    } else if name == "blue"@ {
        "44"@
    } else if name == "magenta"@ {
        "45"@
    } else if name == "cyan"@ {
        "46"@
    } else {
        "47"@
    }
}

/// The escape sequence that starts a styled span: the background code, if
/// any, then the foreground code.
pub open spec fn style_prefix(fg: Seq<char>, bg: Option<Seq<char>>) -> Seq<char> {
    match bg {
        Option::Some(b) => "\u{1b}["@ + ansi_bg_code(b) + ";"@ + ansi_fg_code(fg) + "m"@,
        Option::None => "\u{1b}["@ + ansi_fg_code(fg) + "m"@,
    }
}

/// The escape sequence that ends a styled span.
pub open spec fn reset_suffix() -> Seq<char> {
    "\u{1b}[0m"@
}

/// Relies on colored's `Colorize::color` / `on_color`, with the colors parsed
/// from their names, and on the display of the styled text. Whether styling
/// is applied depends on the environment; every outcome either hands the
/// text back unchanged or wraps it, rewritten only when it holds an escape
/// character, between the style prefix of the two color names and the reset
/// suffix. The name parse byte-slices names it does not know, so only the
/// library's color names are admitted.
#[verifier::external_body]
fn style_with(text: &str, fg: &str, bg: Option<&str>) -> (r: String)
    requires
        is_color_name(fg@),
        (match bg {
            Option::Some(b) => is_color_name(b@),
            Option::None => true,
        }),
    ensures
        no_escape(text@) ==> (r@ == text@ || r@ == style_prefix(
            fg@,
            (match bg {
                Option::Some(b) => Option::Some(b@),
                Option::None => Option::<Seq<char>>::None,
            }),
        ) + text@ + reset_suffix()),
{
    let styled = match bg {
        Some(b) => colored::Colorize::on_color(colored::Colorize::color(text, fg), b),
        None => colored::Colorize::color(text, fg),
    };
    format!("{}", styled)
}

/// Styles one line of text with a foreground and an optional background
/// color: the result is the text itself where the environment has styling
/// off, and otherwise the text between the colors' style prefix and the
/// reset suffix. The caller prints the result.
pub fn colored_text(text: &str, fg: LumaColor, bg: Option<LumaColor>) -> (r: String)
    ensures
        no_escape(text@) ==> (r@ == text@ || r@ == style_prefix(
            fg.spec_name(),
            (match bg {
                Option::Some(b) => Option::Some(b.spec_name()),
                Option::None => Option::<Seq<char>>::None,
            }),
        ) + text@ + reset_suffix()),
{
    let fg_name = fg.name();
    proof {
        assert(is_color_name(fg_name@)) by {
            assert(fg_name@ == fg.spec_name());
        }
    }
    match bg {
        Option::Some(b) => {
            let b_name = b.name();
            proof {
                assert(is_color_name(b_name@)) by {
                    assert(b_name@ == b.spec_name());
                }
            }
            style_with(text, fg_name, Option::Some(b_name))
        },
        Option::None => style_with(text, fg_name, Option::None),
    }
}

/// The style template of a progress bar in the given color: the message, a
/// forty-cell bar in that color over black, and the step counts.
pub fn progress_template(color: LumaColor) -> (s: String)
    ensures
        s@ == "{msg} [{bar:40."@ + color.spec_name() + "/black}] {pos}/{len}"@,
{
    let mut s = String::from_str("{msg} [{bar:40.");
    s.append(color.name());
    s.append("/black}] {pos}/{len}");
    proof {
        assert(s@ =~= "{msg} [{bar:40."@ + color.spec_name() + "/black}] {pos}/{len}"@);
    }
    s
}

/// The text of a table with the given header cells and rows, in the clean
/// borderless layout, as the table crate lays it out.
pub uninterp spec fn table_text_of(headers: Seq<Seq<char>>, rows: Seq<Seq<Seq<char>>>) -> Seq<
    char,
>;

/// Relies on prettytable's `Table`: a table built from these cells alone, in
/// the fixed clean format, is laid out as a function of the cells alone.
#[verifier::external_body]
fn clean_table(headers: &Vec<String>, rows: &Vec<Vec<String>>) -> (r: String)
    ensures
        r@ == table_text_of(headers.deep_view(), rows.deep_view()),
{
    let mut table = prettytable::Table::new();
    table.set_format(*prettytable::format::consts::FORMAT_CLEAN);
    table.add_row(headers.iter().collect());
    for row in rows.iter() {
        table.add_row(row.iter().collect());
    }
    table.to_string()
}

/// Lays out a table from header cells and rows. The caller styles and prints
/// the result.
pub fn table_text(headers: &Vec<String>, rows: &Vec<Vec<String>>) -> (r: String)
    ensures
        r@ == table_text_of(headers.deep_view(), rows.deep_view()),
{
    clean_table(headers, rows)
}

/// `n` horizontal border characters (none when `n` is not positive).
pub open spec fn dashes(n: int) -> Seq<char>
    decreases n,
{
    if n <= 0 {
        Seq::empty()
    } else {
        dashes(n - 1).push('─')
    }
}

/// `n` spaces (none when `n` is not positive).
pub open spec fn spaces(n: int) -> Seq<char>
    decreases n,
{
    if n <= 0 {
        Seq::empty()
    } else {
        spaces(n - 1).push(' ')
    }
}

/// The length of the longest line (zero when there is none).
pub open spec fn widest(lines: Seq<Seq<char>>) -> int
    decreases lines.len(),
{
    if lines.len() == 0 {
        0
    } else {
        let rest = widest(lines.drop_last());
        if lines.last().len() > rest {
            lines.last().len() as int
        } else {
            rest
        }
    }
}

/// No line is longer than the widest, and the widest is never negative.
pub proof fn lemma_widest_bound(lines: Seq<Seq<char>>, i: int)
    requires
        0 <= i < lines.len(),
    ensures
        lines[i].len() <= widest(lines),
        widest(lines) >= 0,
    decreases lines.len(),
{
    if i < lines.len() - 1 {
        lemma_widest_bound(lines.drop_last(), i);
        assert(lines.drop_last()[i] == lines[i]);
    }
}

/// The top border of a frame of the given content width: the title, if any,
/// replaces the leading run of border characters.
pub open spec fn frame_top(width: int, title: Option<Seq<char>>) -> Seq<char> {
    match title {
        Option::Some(t) => "┌"@ + t + " "@ + dashes(width + 2 - t.len() - 1) + "┐"@,
        Option::None => "┌"@ + dashes(width + 2) + "┐"@,
    }
}

/// One framed content line: the text padded to the content width between the
/// side borders.
pub open spec fn frame_row(width: int, line: Seq<char>) -> Seq<char> {
    "│ "@ + line + spaces(width - line.len()) + " │"@
}

/// The bottom border of a frame of the given content width.
pub open spec fn frame_bottom(width: int) -> Seq<char> {
    "└"@ + dashes(width + 2) + "┘"@
}

/// The whole frame: top border, one row per content line, bottom border.
pub open spec fn frame_spec(lines: Seq<Seq<char>>, title: Option<Seq<char>>) -> Seq<Seq<char>> {
    seq![frame_top(widest(lines), title)] + Seq::new(
        lines.len(),
        |i: int| frame_row(widest(lines), lines[i]),
    ) + seq![frame_bottom(widest(lines))]
}

/// Appends `n` horizontal border characters.
fn push_dashes(s: &mut String, n: usize)
    ensures
        final(s)@ == old(s)@ + dashes(n as int),
{
    let mut i: usize = 0;
    proof {
        assert(s@ =~= old(s)@ + dashes(0));
    }
    while i < n
        invariant
            i <= n,
            s@ == old(s)@ + dashes(i as int),
        decreases n - i,
    {
        push_char(s, '─');
        i += 1;
    }
}

/// Appends `n` spaces.
fn push_spaces(s: &mut String, n: usize)
    ensures
        final(s)@ == old(s)@ + spaces(n as int),
{
    let mut i: usize = 0;
    proof {
        assert(s@ =~= old(s)@ + spaces(0));
    }
    while i < n
        invariant
            i <= n,
            s@ == old(s)@ + spaces(i as int),
        decreases n - i,
    {
        push_char(s, ' ');
        i += 1;
    }
}

/// The length of the longest line of the content.
fn widest_len(content: &Vec<String>) -> (w: usize)
    ensures
        w == widest(content.deep_view()),
{
    let ghost lines = content.deep_view();
    let mut w: usize = 0;
    let mut i: usize = 0;
    proof {
        assert(lines.subrange(0, 0) =~= Seq::<Seq<char>>::empty());
    }
    while i < content.len()
        invariant
            i <= content@.len(),
            lines == content.deep_view(),
            w == widest(lines.subrange(0, i as int)),
        decreases content@.len() - i,
    {
        let l = content[i].as_str().unicode_len();
        proof {
            assert(lines.subrange(0, i + 1).drop_last() =~= lines.subrange(0, i as int));
            assert(lines.subrange(0, i + 1).last() == lines[i as int]);
        }
        if l > w {
            w = l;
        }
        i += 1;
    }
    proof {
        assert(lines.subrange(0, lines.len() as int) =~= lines);
    }
    w
}

/// Draws a frame around the content lines: a box of border characters, each
/// line padded to the width of the longest, the title (if any) set into the
/// top border. The caller styles and prints the lines.
pub fn frame_lines(content: &Vec<String>, title: Option<&String>) -> (r: Vec<String>)
    requires
        widest(content.deep_view()) + 4 <= usize::MAX,
        (match title {
            Option::Some(t) => t@.len() + 4 <= usize::MAX,
            Option::None => true,
        }),
    ensures
        r.deep_view() == frame_spec(
            content.deep_view(),
            (match title {
                Option::Some(t) => Option::Some(t@),
                Option::None => Option::<Seq<char>>::None,
            }),
        ),
{
    let ghost lines = content.deep_view();
    let ghost t_opt: Option<Seq<char>> = match title {
        Option::Some(t) => Option::Some(t@),
        Option::None => Option::None,
    };
    let w = widest_len(content);
    let mut out: Vec<String> = Vec::new();
    let mut top = String::from_str("┌");
    match title {
        Option::Some(t) => {
            top.append(t.as_str());
            top.append(" ");
            let tlen = t.as_str().unicode_len();
            if tlen + 1 < w + 2 {
                push_dashes(&mut top, w + 2 - tlen - 1);
            }
        },
        Option::None => {
            push_dashes(&mut top, w + 2);
        },
    }
    top.append("┐");
    proof {
        assert(top@ =~= frame_top(w as int, t_opt));
    }
    let ghost before_top = out.deep_view();
    out.push(top);
    proof {
        assert(out.deep_view() =~= before_top.push(frame_top(w as int, t_opt)));
    }
    let mut i: usize = 0;
    while i < content.len()
        invariant
            i <= content@.len(),
            lines == content.deep_view(),
            w == widest(lines),
            widest(lines) + 4 <= usize::MAX,
            out.deep_view() == seq![frame_top(w as int, t_opt)] + Seq::new(
                i as nat,
                |j: int| frame_row(w as int, lines[j]),
            ),
        decreases content@.len() - i,
    {
        let mut row = String::from_str("│ ");
        row.append(content[i].as_str());
        let len_i = content[i].as_str().unicode_len();
        proof {
            lemma_widest_bound(lines, i as int);
        }
        push_spaces(&mut row, w - len_i);
        row.append(" │");
        proof {
            assert(row@ =~= frame_row(w as int, lines[i as int]));
        }
        let ghost before_row = out.deep_view();
        out.push(row);
        proof {
            assert(out.deep_view() =~= before_row.push(frame_row(w as int, lines[i as int])));
            assert(out.deep_view() =~= seq![frame_top(w as int, t_opt)] + Seq::new(
                (i + 1) as nat,
                |j: int| frame_row(w as int, lines[j]),
            ));
        }
        i += 1;
    }
    let mut bottom = String::from_str("└");
    push_dashes(&mut bottom, w + 2);
    bottom.append("┘");
    proof {
        assert(bottom@ =~= frame_bottom(w as int));
    }
    let ghost before_bottom = out.deep_view();
    out.push(bottom);
    proof {
        assert(out.deep_view() =~= before_bottom.push(frame_bottom(w as int)));
        assert(out.deep_view() =~= frame_spec(lines, t_opt));
    }
    out
}

} // verus!

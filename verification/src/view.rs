//! Pure view-selection logic: which text block, colors and panel styles the
//! current state calls for. Drawing is left to the embedding program.

use crate::color::Color;
use crate::state::{App, AppStatus, MENU_LENGTH};
use vstd::prelude::*;
use vstd::string::StrSliceExecFns;
use vstd::string::StringExecFns;

verus! {

/// Which ASCII-art block an introduction view shows.
#[derive(Debug, Copy, Clone, PartialEq, Eq, Structural)]
pub enum IntroArt {
    /// First rendition of the name art.
    Name1,
    /// Second rendition of the name art.
    Name2,
    /// Third rendition of the name art.
    Name3,
    /// The "press any key" prompt.
    PressAnyKey,
}

/// What an introduction frame shows: one art block in one color.
#[derive(Debug, Copy, Clone, PartialEq, Eq, Structural)]
pub struct IntroView {
    pub art: IntroArt,
    pub color: Color,
}

/// How a panel of the list view is styled.
#[derive(Debug, Copy, Clone, PartialEq, Eq, Structural)]
pub struct PanelStyle {
    /// Whether the panel holds the focus; the focused panel gets the
    /// prominent border, the other an empty one.
    pub focused: bool,
    /// Foreground color of the panel's text.
    pub fg: Color,
    /// Background color of the panel.
    pub bg: Color,
    /// Color of the border and of the selection highlight.
    pub accent: Color,
}

/// The fixed dimensions of the list view's layout, in terminal cells.
#[derive(Debug, Copy, Clone, PartialEq, Eq, Structural)]
pub struct ListLayout {
    /// Height of the header row.
    pub header_height: u16,
    /// Height of the footer row.
    pub footer_height: u16,
    /// Height of the gap between the main area and the footer.
    pub gap_height: u16,
    /// Width of the menu panel.
    pub list_width: u16,
    /// Width of the margins beside and between the panels.
    pub margin_width: u16,
}

/// One line of the content panel, with its link classification.
#[derive(Debug)]
pub struct ContentLine {
    /// The text of the line, without its trailing newline.
    pub text: String,
    /// Whether the line is a hyperlink and is styled as one.
    pub link: bool,
}

/// What each introduction stage shows: the name art pulses through three
/// renditions, each in a dim and a bright tint of its color, then the
/// "press any key" prompt pulses between bright and dim green.
pub open spec fn intro_view_spec(status: AppStatus) -> IntroView {
    match status {
        AppStatus::IntroductionStart => IntroView { art: IntroArt::Name1, color: Color::Cyan },
        AppStatus::Introduction(k) => if k == 0 {
            IntroView { art: IntroArt::Name1, color: Color::LightCyan }
        } else if k == 1 {
            IntroView { art: IntroArt::Name2, color: Color::Yellow }
        } else if k == 2 {
            IntroView { art: IntroArt::Name2, color: Color::LightYellow }
        } else if k == 3 {
            IntroView { art: IntroArt::Name3, color: Color::Red }
        } else if k == 4 {
            IntroView { art: IntroArt::Name3, color: Color::LightRed }
        } else if k == 5 {
            IntroView { art: IntroArt::PressAnyKey, color: Color::LightGreen }
        } else {
            IntroView { art: IntroArt::PressAnyKey, color: Color::Green }
        },
        AppStatus::IntroductionIdle => IntroView {
            art: IntroArt::PressAnyKey,
            color: Color::LightGreen,
        },
        AppStatus::List => IntroView { art: IntroArt::PressAnyKey, color: Color::Green },
    }
}

/// The menu labels, in order.
pub open spec fn menu_labels_spec() -> Seq<Seq<char>> {
    seq![
        "./tarbetu"@,
        "./portfolio"@,
        "./translations"@,
        "./lycian"@,
        "./personal_soundtrack"@,
        "./echoes_from_my_mania"@,
        "./kara_tilki_hiyerarsisi"@,
    ]
}

/// A line of content is shown as a hyperlink when it starts with a URL
/// scheme prefix.
pub open spec fn is_link_spec(s: Seq<char>) -> bool {
    s.len() >= 4 && s[0] == 'h' && s[1] == 't' && s[2] == 't' && s[3] == 'p'
}

/// The content text split at newlines, the way the content panel lays it
/// out: the separators are dropped, and both an empty text and a trailing
/// newline yield an (additional) empty line.
pub open spec fn split_lines_spec(s: Seq<char>) -> Seq<Seq<char>>
    decreases s.len(),
{
    if s.len() == 0 {
        seq![Seq::<char>::empty()]
    } else {
        let rest = split_lines_spec(s.drop_last());
        if s.last() == '\n' {
            rest.push(Seq::<char>::empty())
        } else {
            rest.update(rest.len() - 1, rest.last().push(s.last()))
        }
    }
}

impl App {
    /// The art block and color of the current introduction stage. Only the
    /// introduction stages have one; the list stage draws the list view
    /// instead.
    pub fn intro_view(&self) -> (r: IntroView)
        requires
            !(self.status is List),
        ensures
            r == intro_view_spec(self.status),
    {
        match self.status {
            AppStatus::IntroductionStart => IntroView { art: IntroArt::Name1, color: Color::Cyan },
            AppStatus::Introduction(k) => if k == 0 {
                IntroView { art: IntroArt::Name1, color: Color::LightCyan }
            } else if k == 1 {
                IntroView { art: IntroArt::Name2, color: Color::Yellow }
            } else if k == 2 {
                IntroView { art: IntroArt::Name2, color: Color::LightYellow }
            } else if k == 3 {
                IntroView { art: IntroArt::Name3, color: Color::Red }
            } else if k == 4 {
                IntroView { art: IntroArt::Name3, color: Color::LightRed }
            } else if k == 5 {
                IntroView { art: IntroArt::PressAnyKey, color: Color::LightGreen }
            } else {
                IntroView { art: IntroArt::PressAnyKey, color: Color::Green }
            },
            AppStatus::IntroductionIdle => IntroView {
                art: IntroArt::PressAnyKey,
                color: Color::LightGreen,
            },
            AppStatus::List => IntroView { art: IntroArt::PressAnyKey, color: Color::Green },
        }
    }

    /// The menu labels, in order.
    pub fn menu() -> (r: Vec<&'static str>)
        ensures
            r@.len() == MENU_LENGTH,
            forall|i: int| 0 <= i < r@.len() ==> r@[i]@ == menu_labels_spec()[i],
    {
        let r = vec![
            "./tarbetu",
            "./portfolio",
            "./translations",
            "./lycian",
            "./personal_soundtrack",
            "./echoes_from_my_mania",
            "./kara_tilki_hiyerarsisi",
        ];
        r
    }

    /// The fixed dimensions of the list view: a two-row header, a one-row
    /// footer under a one-row gap, and a 30-cell menu panel beside the
    /// flexible content panel, with one-cell margins beside and between the
    /// panels.
    pub fn list_layout() -> (r: ListLayout)
        ensures
            r == (ListLayout {
                header_height: 2,
                footer_height: 1,
                gap_height: 1,
                list_width: 30,
                margin_width: 1,
            }),
    {
        ListLayout {
            header_height: 2,
            footer_height: 1,
            gap_height: 1,
            list_width: 30,
            margin_width: 1,
        }
    }

    /// The one-line help text of the footer, depending on whether the
    /// content panel is entered.
    pub fn footer_text(&self) -> (r: &'static str)
        ensures
            !self.locked_in ==> r@ == "Use ↓↑ or j/k to navigate, Enter to locked in"@,
            self.locked_in ==> r@ == "Use ↓↑ or j/k to scroll, Esc to return menu"@,
    {
        if !self.locked_in {
            "Use ↓↑ or j/k to navigate, Enter to locked in"
        } else {
            "Use ↓↑ or j/k to scroll, Esc to return menu"
        }
    }

    /// How the menu panel is styled: it holds the focus, with the brighter
    /// text, exactly while the content panel is not entered.
    pub fn list_style(&self) -> (r: PanelStyle)
        ensures
            r.focused == !self.locked_in,
            r.fg == (if !self.locked_in {
                Color::LightCyan
            } else {
                Color::Cyan
            }),
            r.bg == Color::Rgb(15, 15, 20),
            r.accent == Color::LightMagenta,
    {
        PanelStyle {
            focused: !self.locked_in,
            fg: if !self.locked_in {
                Color::LightCyan
            } else {
                Color::Cyan
            },
            bg: Color::Rgb(15, 15, 20),
            accent: Color::LightMagenta,
        }
    }

    /// How the content panel is styled: it holds the focus exactly while it
    /// is entered.
    pub fn content_style(&self) -> (r: PanelStyle)
        ensures
            r.focused == self.locked_in,
            r.fg == Color::LightCyan,
            r.bg == Color::Rgb(15, 15, 20),
            r.accent == Color::LightMagenta,
    {
        PanelStyle {
            focused: self.locked_in,
            fg: Color::LightCyan,
            bg: Color::Rgb(15, 15, 20),
            accent: Color::LightMagenta,
        }
    }

    /// Lay out the content panel for the given text: split it into lines,
    /// classify each line as hyperlink or plain, and set the scrollbar track
    /// length to the number of lines.
    pub fn content_lines(&mut self, text: &str) -> (r: Vec<ContentLine>)
        ensures
            r@.len() == split_lines_spec(text@).len(),
            forall|i: int|
                0 <= i < r@.len() ==> r@[i].text@ == split_lines_spec(text@)[i] && r@[i].link
                    == is_link_spec(split_lines_spec(text@)[i]),
            *final(self) == (App {
                scrollbar_content_length: split_lines_spec(text@).len() as usize,
                ..*old(self)
            }),
            old(self).wf() ==> final(self).wf(),
    {
        let lines = split_lines(text);
        let mut r: Vec<ContentLine> = Vec::new();
        let mut idx: usize = 0;
        while idx < lines.len()
            invariant
                idx <= lines.len(),
                lines.deep_view() == split_lines_spec(text@),
                r@.len() == idx,
                forall|i: int|
                    0 <= i < idx ==> r@[i].text@ == split_lines_spec(text@)[i] && r@[i].link
                        == is_link_spec(split_lines_spec(text@)[i]),
            decreases lines.len() - idx,
        {
            let link = line_is_link(lines[idx].as_str());
            let line = ContentLine { text: lines[idx].clone(), link: link };
            r.push(line);
            idx = idx + 1;
        }
        self.scrollbar_content_length = r.len();
        r
    }
}

/// Whether a content line is shown as a hyperlink: it starts with a URL
/// scheme prefix.
pub fn line_is_link(line: &str) -> (r: bool)
    ensures
        r == is_link_spec(line@),
{
    let n = line.unicode_len();
    if n < 4 {
        false
    } else {
        line.get_char(0) == 'h' && line.get_char(1) == 't' && line.get_char(2) == 't'
            && line.get_char(3) == 'p'
    }
}

/// Split a text at newlines: the separators are dropped, and both an empty
/// text and a trailing newline yield an (additional) empty line.
pub fn split_lines(text: &str) -> (r: Vec<String>)
    ensures
        r.deep_view() == split_lines_spec(text@),
{
    let n = text.unicode_len();
    let mut lines: Vec<String> = Vec::new();
    let mut start: usize = 0;
    let mut i: usize = 0;
    proof {
        assert(text@.subrange(0, 0) =~= Seq::<char>::empty());
        assert(text@.take(0) =~= Seq::<char>::empty());
        assert(lines.deep_view().push(text@.subrange(0, 0)) =~= split_lines_spec(text@.take(0)));
    }
    while i < n
        invariant
            start <= i <= n,
            n == text@.len(),
            lines.deep_view().push(text@.subrange(start as int, i as int)) == split_lines_spec(
                text@.take(i as int),
            ),
        decreases n - i,
    {
        let ghost prev_lines = lines.deep_view();
        let ghost cur = text@.subrange(start as int, i as int);
        let c = text.get_char(i);
        proof {
            assert(text@.take(i + 1).drop_last() =~= text@.take(i as int));
            assert(text@.take(i + 1).last() == text@[i as int]);
        }
        if c == '\n' {
            let line = String::from_str(text.substring_char(start, i));
            lines.push(line);
            start = i + 1;
            proof {
                assert(lines.deep_view() =~= prev_lines.push(cur));
                assert(text@.subrange(start as int, i + 1) =~= Seq::<char>::empty());
                assert(split_lines_spec(text@.take(i + 1)) == split_lines_spec(
                    text@.take(i as int),
                ).push(Seq::<char>::empty()));
            }
        } else {
            proof {
                let rest = split_lines_spec(text@.take(i as int));
                assert(rest == prev_lines.push(cur));
                assert(rest.len() == prev_lines.len() + 1);
                assert(rest.last() == cur);
                assert(split_lines_spec(text@.take(i + 1)) == rest.update(
                    rest.len() - 1,
                    cur.push(text@[i as int]),
                ));
                assert(rest.update(rest.len() - 1, cur.push(text@[i as int])) =~= prev_lines.push(
                    cur.push(text@[i as int]),
                ));
                assert(text@.subrange(start as int, i + 1) =~= cur.push(text@[i as int]));
            }
        }
        i = i + 1;
    }
    proof {
        assert(text@.take(n as int) =~= text@);
    }
    let tail = String::from_str(text.substring_char(start, n));
    lines.push(tail);
    proof {
        assert(lines.deep_view() =~= split_lines_spec(text@));
    }
    lines
}

} // verus!

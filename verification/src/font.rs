//! The block font of the clock face, and the rendering of strings with it:
//! each character becomes five rows of block segments, and the rows of
//! consecutive characters are joined with one blank column after each.
use crate::tui::{
    add_bold, bold_modifier_added, default_style, green_background, has_green_background, on_green,
};
use crate::text::{chars_of, push_char};
use ratatui::style::Style;
use vstd::prelude::*;

verus! {

/// The number of rows of every glyph, and so of every rendered text.
pub const GLYPH_HEIGHT: usize = 5;

/// Why a string could not be rendered.
#[derive(Debug, Clone, PartialEq, Eq)]
pub enum RenderedTextError {
    /// The font has no glyph for this character.
    InvalidCharacter(char),
}

/// The message an error displays.
pub open spec fn error_message(e: RenderedTextError) -> Seq<char> {
    match e {
        RenderedTextError::InvalidCharacter(c) => "invalid character: "@.push(c),
    }
}

impl RenderedTextError {
    /// The message of the error, `invalid character: {c}`.
    pub fn message(&self) -> (s: String)
        ensures
            s@ == error_message(*self),
    {
        let mut s = String::new();
        s.append("invalid character: ");
        match self {
            RenderedTextError::InvalidCharacter(c) => push_char(&mut s, *c),
        }
        s
    }
}

/// The five rows of block segments of a rendered string.
#[derive(Debug, Clone, PartialEq, Eq)]
pub struct RenderedText {
    pub lines: Vec<String>,
}

impl RenderedText {
    /// The rows as character sequences.
    pub open spec fn rows(self) -> Seq<Seq<char>> {
        self.lines@.map_values(|l: String| l@)
    }
}

/// One character of the font and its five rows of segments.
#[derive(Debug, Clone, Hash, PartialOrd, PartialEq, Eq)]
pub struct Glyph {
    pub character: char,
    pub segments: [&'static str; 5],
}

impl Glyph {
    /// The segments as character sequences.
    pub open spec fn rows(self) -> Seq<Seq<char>> {
        self.segments@.map_values(|s: &str| s@)
    }
}

/// A set of glyphs.
#[derive(Debug, Clone)]
pub struct Font {
    pub glyphs: Vec<Glyph>,
}

/// The rows of the first glyph for `c` at or after position `from`.
pub open spec fn glyph_lookup(glyphs: Seq<Glyph>, c: char, from: int) -> Option<Seq<Seq<char>>>
    decreases glyphs.len() - from,
{
    if from < 0 || from >= glyphs.len() {
        None
    } else if glyphs[from].character == c {
        Some(glyphs[from].rows())
    } else {
        glyph_lookup(glyphs, c, from + 1)
    }
}

/// The glyph rows of the clock's font for each character it draws:
/// the ten digits, the colon and the dot.
pub open spec fn standard_glyph(c: char) -> Option<Seq<Seq<char>>> {
    if c == '0' {
        Some(seq!["██████"@, "██  ██"@, "██  ██"@, "██  ██"@, "██████"@])
    } else if c == '1' {
        Some(seq!["    ██"@, "    ██"@, "    ██"@, "    ██"@, "    ██"@])
    } else if c == '2' {
        Some(seq!["██████"@, "    ██"@, "██████"@, "██    "@, "██████"@])
    } else if c == '3' {
        Some(seq!["██████"@, "    ██"@, "██████"@, "    ██"@, "██████"@])
    } else if c == '4' {
        Some(seq!["██  ██"@, "██  ██"@, "██████"@, "    ██"@, "    ██"@])
    } else if c == '5' {
        Some(seq!["██████"@, "██    "@, "██████"@, "    ██"@, "██████"@])
    } else if c == '6' {
        Some(seq!["██████"@, "██    "@, "██████"@, "██  ██"@, "██████"@])
    } else if c == '7' {
        Some(seq!["██████"@, "    ██"@, "    ██"@, "    ██"@, "    ██"@])
    } else if c == '8' {
        Some(seq!["██████"@, "██  ██"@, "██████"@, "██  ██"@, "██████"@])
    } else if c == '9' {
        Some(seq!["██████"@, "██  ██"@, "██████"@, "    ██"@, "██████"@])
    } else if c == ':' {
        Some(seq!["  "@, "██"@, "  "@, "██"@, "  "@])
    } else if c == '.' {
        Some(seq!["  "@, "  "@, "  "@, "  "@, "██"@])
    } else {
        None
    }
}

impl Font {
    /// The rows of the glyph that the font draws for `c`, if it has one.
    pub open spec fn glyph_rows(self, c: char) -> Option<Seq<Seq<char>>> {
        glyph_lookup(self.glyphs@, c, 0)
    }

    /// The font has a glyph for every character of `s`.
    pub open spec fn knows_all(self, s: Seq<char>) -> bool {
        forall|i: int| 0 <= i < s.len() ==> (#[trigger] self.glyph_rows(s[i])) is Some
    }

    /// Row `k` of the rendering of `s`: row `k` of each character's glyph,
    /// each followed by one blank.
    pub open spec fn rendered_row(self, s: Seq<char>, k: int) -> Seq<char>
        decreases s.len(),
    {
        if s.len() == 0 {
            Seq::empty()
        } else {
            self.rendered_row(s.drop_last(), k) + self.glyph_rows(s.last()).unwrap()[k] + seq![' ']
        }
    }

    /// No two glyphs of the font are for the same character.
    pub open spec fn distinct_characters(self) -> bool {
        forall|i: int, j: int|
            0 <= i < j < self.glyphs@.len() ==> #[trigger] self.glyphs@[i].character
                != #[trigger] self.glyphs@[j].character
    }

    /// The clock's font: the glyphs of `standard_glyph`, one per character.
    pub fn new() -> (font: Font)
        ensures
            forall|c: char| #[trigger] font.glyph_rows(c) == standard_glyph(c),
            font.distinct_characters(),
    {
        let glyphs = vec![
            Glyph {
                character: '0',
                segments: ["██████", "██  ██", "██  ██", "██  ██", "██████"],
            },
            Glyph {
                character: '1',
                segments: ["    ██", "    ██", "    ██", "    ██", "    ██"],
            },
            Glyph {
                character: '2',
                segments: ["██████", "    ██", "██████", "██    ", "██████"],
            },
            Glyph {
                character: '3',
                segments: ["██████", "    ██", "██████", "    ██", "██████"],
            },
            Glyph {
                character: '4',
                segments: ["██  ██", "██  ██", "██████", "    ██", "    ██"],
            },
            Glyph {
                character: '5',
                segments: ["██████", "██    ", "██████", "    ██", "██████"],
            },
            Glyph {
                character: '6',
                segments: ["██████", "██    ", "██████", "██  ██", "██████"],
            },
            Glyph {
                character: '7',
                segments: ["██████", "    ██", "    ██", "    ██", "    ██"],
            },
            Glyph {
                character: '8',
                segments: ["██████", "██  ██", "██████", "██  ██", "██████"],
            },
            Glyph {
                character: '9',
                segments: ["██████", "██  ██", "██████", "    ██", "██████"],
            },
            Glyph { character: ':', segments: ["  ", "██", "  ", "██", "  "] },
            Glyph { character: '.', segments: ["  ", "  ", "  ", "  ", "██"] },
        ];
        let font = Font { glyphs };
        proof {
            let gs = font.glyphs@;
            assert forall|i: int| 0 <= i < gs.len() implies #[trigger] gs[i].rows() == standard_glyph(gs[i].character).unwrap() by {
                assert(gs[i].rows() =~= standard_glyph(gs[i].character).unwrap());
            }
            assert forall|c: char| #[trigger] font.glyph_rows(c) == standard_glyph(c) by {
                reveal_with_fuel(glyph_lookup, 13);
            }
        }
        font
    }

    /// The position of the first glyph for `c`, if any.
    fn find_glyph(&self, c: char) -> (found: Option<usize>)
        ensures
            match found {
                Some(i) => i < self.glyphs@.len() && self.glyphs@[i as int].character == c
                    && self.glyph_rows(c) == Some(self.glyphs@[i as int].rows()),
                None => self.glyph_rows(c) is None,
            },
    {
        let mut i: usize = 0;
        while i < self.glyphs.len()
            invariant
                i <= self.glyphs@.len(),
                self.glyph_rows(c) == glyph_lookup(self.glyphs@, c, i as int),
            decreases self.glyphs@.len() - i,
        {
            if self.glyphs[i].character == c {
                return Some(i);
            }
            i = i + 1;
        }
        None
    }

    /// Renders `input` with the font: row `k` of the result is row `k` of
    /// each character's glyph, each followed by one blank. Fails with the
    /// first character of `input` that the font has no glyph for.
    pub fn render_string(&self, input: &str) -> (res: Result<RenderedText, RenderedTextError>)
        ensures
            res is Ok <==> self.knows_all(input@),
            res matches Ok(t) ==> t.rows().len() == GLYPH_HEIGHT && forall|k: int|
                0 <= k < GLYPH_HEIGHT ==> #[trigger] t.rows()[k] == self.rendered_row(input@, k),
            res matches Err(RenderedTextError::InvalidCharacter(c)) ==> exists|i: int|
                0 <= i < input@.len() && input@[i] == c && self.glyph_rows(c) is None
                    && self.knows_all(#[trigger] input@.take(i)),
    {
        let chars = chars_of(input);
        let mut i: usize = 0;
        while i < chars.len()
            invariant
                chars@ == input@,
                i <= chars@.len(),
                self.knows_all(chars@.take(i as int)),
            decreases chars@.len() - i,
        {
            let c = chars[i];
            if self.find_glyph(c).is_none() {
                assert(self.knows_all(input@.take(i as int)));
                return Err(RenderedTextError::InvalidCharacter(c));
            }
            assert forall|j: int| 0 <= j < i + 1 implies (#[trigger] self.glyph_rows(chars@.take(i + 1)[j])) is Some by {
                if j < i {
                    assert(chars@.take(i + 1)[j] == chars@.take(i as int)[j]);
                }
            }
            i = i + 1;
        }
        assert(chars@.take(chars@.len() as int) =~= chars@);
        let mut lines: Vec<String> = Vec::new();
        let mut k: usize = 0;
        while k < GLYPH_HEIGHT
            invariant
                chars@ == input@,
                self.knows_all(chars@),
                k <= GLYPH_HEIGHT,
                lines@.len() == k,
                forall|r: int| 0 <= r < k ==> #[trigger] lines@[r]@ == self.rendered_row(chars@, r),
            decreases GLYPH_HEIGHT - k,
        {
            let mut line = String::new();
            let mut j: usize = 0;
            while j < chars.len()
                invariant
                    self.knows_all(chars@),
                    k < GLYPH_HEIGHT,
                    j <= chars@.len(),
                    line@ == self.rendered_row(chars@.take(j as int), k as int),
                decreases chars@.len() - j,
            {
                let c = chars[j];
                assert(self.glyph_rows(chars@[j as int]) is Some);
                match self.find_glyph(c) {
                    Some(g) => {
                        proof {
                            reveal_strlit(" ");
                            assert(chars@.take(j + 1).drop_last() =~= chars@.take(j as int));
                        }
                        line.append(self.glyphs[g].segments[k]);
                        line.append(" ");
                    },
                    None => {},
                }
                j = j + 1;
            }
            assert(chars@.take(chars@.len() as int) =~= chars@);
            lines.push(line);
            k = k + 1;
        }
        let text = RenderedText { lines };
        assert(text.rows().len() == GLYPH_HEIGHT);
        Ok(text)
    }
}

impl<'a> TryFrom<&'a str> for RenderedText {
    type Error = RenderedTextError;

    /// Renders `value` with the clock's font (`Font::new`).
    fn try_from(value: &'a str) -> (res: Result<RenderedText, RenderedTextError>)
        ensures
            res is Ok <==> standard_knows_all(value@),
            res matches Ok(t) ==> t.rows().len() == GLYPH_HEIGHT && forall|k: int|
                0 <= k < GLYPH_HEIGHT ==> #[trigger] t.rows()[k] == standard_row(value@, k),
            res matches Err(RenderedTextError::InvalidCharacter(c)) ==> exists|i: int|
                0 <= i < value@.len() && value@[i] == c && standard_glyph(c) is None
                    && standard_knows_all(#[trigger] value@.take(i)),
    {
        let font = Font::new();
        let res = font.render_string(value);
        proof {
            lemma_standard_font_rendering(font, value@);
            if res is Err {
                let c = res->Err_0->InvalidCharacter_0;
                let i = choose|i: int|
                    0 <= i < value@.len() && value@[i] == c && font.glyph_rows(c) is None
                        && font.knows_all(#[trigger] value@.take(i));
                lemma_standard_font_rendering(font, value@.take(i));
            }
        }
        res
    }
}

impl<'a> vstd::std_specs::convert::TryFromSpecImpl<&'a str> for RenderedText {
    /// The conversion is specified by the `ensures` of `try_from` itself:
    /// a rendered text holds `String`s, which no spec value can name.
    open spec fn obeys_try_from_spec() -> bool {
        false
    }

    open spec fn try_from_spec(v: &'a str) -> Result<RenderedText, RenderedTextError> {
        vstd::pervasive::arbitrary()
    }
}

/// The cell styles of rows of text: `space` for each blank, `stroke` for
/// every other character.
pub open spec fn style_rows(rows: Seq<Seq<char>>, space: Style, stroke: Style) -> Seq<Seq<Style>> {
    rows.map_values(|r: Seq<char>| r.map_values(|c: char| if c == ' ' { space } else { stroke }))
}

/// The style of a segment cell, given the style of a blank cell: a green
/// background, with the bold modifier added when `bold`.
pub open spec fn stroke_style(space: Style, bold: bool) -> Style {
    if bold {
        bold_modifier_added(green_background(space))
    } else {
        green_background(space)
    }
}

/// The rows of a grid of styles as sequences.
pub open spec fn grid_view(grid: Seq<Vec<Style>>) -> Seq<Seq<Style>> {
    grid.map_values(|r: Vec<Style>| r@)
}

/// The views of a list of strings.
pub open spec fn strings_view(strings: Seq<String>) -> Seq<Seq<char>> {
    strings.map_values(|s: String| s@)
}

/// One style per character of each string: `space` for blanks, `stroke`
/// for every other character.
pub fn style_grid(strings: &Vec<String>, space: Style, stroke: Style) -> (grid: Vec<Vec<Style>>)
    ensures
        grid_view(grid@) == style_rows(strings_view(strings@), space, stroke),
{
    let mut grid: Vec<Vec<Style>> = Vec::new();
    let mut i: usize = 0;
    while i < strings.len()
        invariant
            i <= strings@.len(),
            grid@.len() == i,
            grid_view(grid@) == style_rows(strings_view(strings@.take(i as int)), space, stroke),
        decreases strings@.len() - i,
    {
        let chars = chars_of(strings[i].as_str());
        let mut row: Vec<Style> = Vec::new();
        let mut j: usize = 0;
        while j < chars.len()
            invariant
                j <= chars@.len(),
                row@ == chars@.take(j as int).map_values(|c: char| if c == ' ' { space } else { stroke }),
            decreases chars@.len() - j,
        {
            if chars[j] == ' ' {
                row.push(space);
            } else {
                row.push(stroke);
            }
            j = j + 1;
            assert(row@ =~= chars@.take(j as int).map_values(|c: char| if c == ' ' { space } else { stroke }));
        }
        assert(chars@.take(chars@.len() as int) =~= chars@);
        let ghost prev = grid@;
        grid.push(row);
        i = i + 1;
        proof {
            let want = style_rows(strings_view(strings@.take(i as int)), space, stroke);
            let before = style_rows(strings_view(strings@.take(i - 1)), space, stroke);
            assert forall|r: int| 0 <= r < i implies #[trigger] grid_view(grid@)[r] == want[r] by {
                if r < i - 1 {
                    assert(grid@[r] == prev[r]);
                    assert(grid_view(prev)[r] == before[r]);
                    assert(strings@.take(i as int)[r] == strings@.take(i - 1)[r]);
                } else {
                    assert(strings@.take(i as int)[r] == strings@[r]);
                }
            }
            assert(grid_view(grid@) =~= want);
        }
    }
    assert(strings@.take(strings@.len() as int) =~= strings@);
    grid
}

/// The cell styles of the rendered rows `strings`: a blank cell gets
/// ratatui's default style, a segment cell that style on a green background,
/// made bold when `bold`.
pub fn convert_style_vec(strings: Vec<String>, bold: bool) -> (grid: Vec<Vec<Style>>)
    ensures
        exists|space: Style|
            !has_green_background(space) && grid_view(grid@) == #[trigger] style_rows(
                strings_view(strings@),
                space,
                stroke_style(space, bold),
            ),
        paints_segments_green(strings_view(strings@), grid_view(grid@)),
{
    let space = default_style();
    let stroke = if bold {
        add_bold(on_green(space))
    } else {
        on_green(space)
    };
    let grid = style_grid(&strings, space, stroke);
    assert(grid_view(grid@) == style_rows(strings_view(strings@), space, stroke_style(space, bold)));
    proof {
        lemma_style_rows_paint_segments(strings_view(strings@), space, stroke);
    }
    grid
}

/// A grid of cell styles for rows of text paints exactly the segments green:
/// it has the shape of the rows, and a cell has a green background exactly
/// when its character is not a blank.
pub open spec fn paints_segments_green(rows: Seq<Seq<char>>, grid: Seq<Seq<Style>>) -> bool {
    &&& grid.len() == rows.len()
    &&& forall|i: int| 0 <= i < rows.len() ==> (#[trigger] grid[i]).len() == rows[i].len()
    &&& forall|i: int, j: int|
        0 <= i < rows.len() && 0 <= j < rows[i].len() ==> (has_green_background(
            #[trigger] grid[i][j],
        ) <==> rows[i][j] != ' ')
}

/// Styling blanks without and segments with a green background paints
/// exactly the segments green, whatever the rows.
pub proof fn lemma_style_rows_paint_segments(rows: Seq<Seq<char>>, space: Style, stroke: Style)
    requires
        !has_green_background(space),
        has_green_background(stroke),
    ensures
        paints_segments_green(rows, style_rows(rows, space, stroke)),
{
    let grid = style_rows(rows, space, stroke);
    assert forall|i: int, j: int| 0 <= i < rows.len() && 0 <= j < rows[i].len() implies (
    has_green_background(#[trigger] grid[i][j]) <==> rows[i][j] != ' ') by {
        assert(grid[i] == rows[i].map_values(|c: char| if c == ' ' { space } else { stroke }));
    }
}

/// The clock's font has a glyph for every character of `s`.
pub open spec fn standard_knows_all(s: Seq<char>) -> bool {
    forall|i: int| 0 <= i < s.len() ==> (#[trigger] standard_glyph(s[i])) is Some
}

/// Row `k` of the rendering of `s` with the clock's font.
pub open spec fn standard_row(s: Seq<char>, k: int) -> Seq<char>
    decreases s.len(),
{
    if s.len() == 0 {
        Seq::empty()
    } else {
        standard_row(s.drop_last(), k) + standard_glyph(s.last()).unwrap()[k] + seq![' ']
    }
}

/// Each glyph of the clock's font has five rows, all of one width.
pub proof fn lemma_standard_glyph_shape(c: char)
    requires
        standard_glyph(c) is Some,
    ensures
        standard_glyph(c).unwrap().len() == GLYPH_HEIGHT,
        forall|k: int|
            0 <= k < GLYPH_HEIGHT ==> (#[trigger] standard_glyph(c).unwrap()[k]).len()
                == standard_glyph(c).unwrap()[0].len(),
{
    reveal_strlit("██████");
    reveal_strlit("██  ██");
    reveal_strlit("    ██");
    reveal_strlit("██    ");
    reveal_strlit("  ");
    reveal_strlit("██");
}

/// 1 when position `i` of the row `r` is a block, else 0.
pub open spec fn block_at(r: Seq<char>, i: int) -> int {
    if 0 <= i < r.len() && r[i] == '█' {
        1
    } else {
        0
    }
}

/// A number that tells apart the rows of the clock's glyphs: the row's width
/// and whether it has a block at positions 0, 2 and 4.
pub open spec fn row_code(r: Seq<char>) -> int {
    r.len() * 8 + block_at(r, 0) * 4 + block_at(r, 2) * 2 + block_at(r, 4)
}

/// The row codes of the five rows of a glyph, as one number.
pub open spec fn glyph_code(g: Seq<Seq<char>>) -> int {
    row_code(g[0]) + 100 * row_code(g[1]) + 10000 * row_code(g[2]) + 1000000 * row_code(g[3])
        + 100000000 * row_code(g[4])
}

proof fn lemma_row_codes()
    ensures
        row_code("██████"@) == 55,
        row_code("██  ██"@) == 53,
        row_code("    ██"@) == 49,
        row_code("██    "@) == 52,
        row_code("  "@) == 16,
        row_code("██"@) == 20,
{
    reveal_strlit("██████");
    reveal_strlit("██  ██");
    reveal_strlit("    ██");
    reveal_strlit("██    ");
    reveal_strlit("  ");
    reveal_strlit("██");
}

/// No two characters of the clock's font are drawn alike: the glyphs of
/// distinct characters differ, so every drawn character can be read back
/// from its glyph.
pub proof fn lemma_standard_glyphs_distinct(c1: char, c2: char)
    requires
        standard_glyph(c1) is Some,
        standard_glyph(c2) is Some,
        c1 != c2,
    ensures
        standard_glyph(c1) != standard_glyph(c2),
{
    lemma_row_codes();
    let k1 = glyph_code(standard_glyph(c1).unwrap());
    let k2 = glyph_code(standard_glyph(c2).unwrap());
    assert(k1 != k2);
}

/// Distinct characters of the clock's font render differently: some row of
/// the rendering of one differs from that row of the other.
pub proof fn lemma_distinct_characters_render_differently(c1: char, c2: char)
    requires
        standard_glyph(c1) is Some,
        standard_glyph(c2) is Some,
        c1 != c2,
    ensures
        exists|k: int|
            0 <= k < GLYPH_HEIGHT && #[trigger] standard_row(seq![c1], k) != standard_row(seq![c2], k),
{
    lemma_standard_glyphs_distinct(c1, c2);
    lemma_standard_glyph_shape(c1);
    lemma_standard_glyph_shape(c2);
    let g1 = standard_glyph(c1).unwrap();
    let g2 = standard_glyph(c2).unwrap();
    assert(seq![c1].drop_last() =~= Seq::<char>::empty());
    assert(seq![c2].drop_last() =~= Seq::<char>::empty());
    if forall|k: int| 0 <= k < GLYPH_HEIGHT ==> #[trigger] standard_row(seq![c1], k) == standard_row(seq![c2], k) {
        assert forall|k: int| 0 <= k < GLYPH_HEIGHT implies g1[k] == g2[k] by {
            assert(seq![c1].last() == c1);
            assert(seq![c2].last() == c2);
            assert(standard_row(Seq::<char>::empty(), k) == Seq::<char>::empty());
            assert(Seq::<char>::empty() + g1[k] =~= g1[k]);
            assert(Seq::<char>::empty() + g2[k] =~= g2[k]);
            assert(standard_row(seq![c1], k) == g1[k] + seq![' ']);
            assert(standard_row(seq![c2], k) == g2[k] + seq![' ']);
            assert((g1[k] + seq![' ']).drop_last() =~= g1[k]);
            assert((g2[k] + seq![' ']).drop_last() =~= g2[k]);
        }
        assert(g1 =~= g2);
    }
}

/// Every row of a rendering with the clock's font has the same width: the
/// rendered text is a rectangle of cells.
pub proof fn lemma_standard_rows_equal_width(s: Seq<char>)
    requires
        standard_knows_all(s),
    ensures
        forall|k: int|
            0 <= k < GLYPH_HEIGHT ==> (#[trigger] standard_row(s, k)).len() == standard_row(
                s,
                0,
            ).len(),
    decreases s.len(),
{
    if s.len() > 0 {
        assert(standard_knows_all(s.drop_last())) by {
            assert forall|i: int| 0 <= i < s.drop_last().len() implies (#[trigger] standard_glyph(
                s.drop_last()[i],
            )) is Some by {
                assert(s.drop_last()[i] == s[i]);
            }
        }
        lemma_standard_rows_equal_width(s.drop_last());
        assert(standard_glyph(s[s.len() - 1]) is Some);
        lemma_standard_glyph_shape(s.last());
        assert forall|k: int| 0 <= k < GLYPH_HEIGHT implies (#[trigger] standard_row(s, k)).len()
            == standard_row(s, 0).len() by {
            assert(standard_row(s.drop_last(), k).len() == standard_row(s.drop_last(), 0).len());
            assert(standard_glyph(s.last()).unwrap()[k].len() == standard_glyph(s.last()).unwrap()[0].len());
        }
    }
}

/// Rendering is compositional: each row of the rendering of `a + b` is that
/// row of the rendering of `a` followed by that row of the rendering of `b`.
pub proof fn lemma_standard_row_concat(a: Seq<char>, b: Seq<char>, k: int)
    ensures
        standard_row(a + b, k) == standard_row(a, k) + standard_row(b, k),
    decreases b.len(),
{
    if b.len() == 0 {
        assert(a + b =~= a);
    } else {
        assert((a + b).drop_last() =~= a + b.drop_last());
        assert((a + b).last() == b.last());
        lemma_standard_row_concat(a, b.drop_last(), k);
    }
}

/// A font whose glyphs are those of `standard_glyph` renders as the clock's
/// font does.
pub proof fn lemma_standard_font_rendering(font: Font, s: Seq<char>)
    requires
        forall|c: char| #[trigger] font.glyph_rows(c) == standard_glyph(c),
    ensures
        font.knows_all(s) <==> standard_knows_all(s),
        forall|k: int| #[trigger] font.rendered_row(s, k) == standard_row(s, k),
    decreases s.len(),
{
    if s.len() > 0 {
        lemma_standard_font_rendering(font, s.drop_last());
        assert(font.glyph_rows(s.last()) == standard_glyph(s.last()));
    }
    assert forall|k: int| #[trigger] font.rendered_row(s, k) == standard_row(s, k) by {
        if s.len() > 0 {
            assert(font.rendered_row(s.drop_last(), k) == standard_row(s.drop_last(), k));
        }
    }
    assert(font.knows_all(s) <==> standard_knows_all(s)) by {
        if standard_knows_all(s) {
            assert forall|i: int| 0 <= i < s.len() implies (#[trigger] font.glyph_rows(s[i])) is Some by {
                assert(standard_glyph(s[i]) is Some);
            }
        }
        if font.knows_all(s) {
            assert forall|i: int| 0 <= i < s.len() implies (#[trigger] standard_glyph(s[i])) is Some by {
                assert(font.glyph_rows(s[i]) is Some);
            }
        }
    }
}

} // verus!

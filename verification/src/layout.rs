//! Left-to-right text layout along a pen.
//!
//! The pen starts each line at zero. A character with a glyph is placed at
//! the pen, after the kerning against the glyph before it on the same line,
//! and then moves the pen by its advance. A line break starts the next line
//! and forgets the glyph before it. A character without a glyph leaves no
//! trace but its mention among the skipped ones. A glyph without an outline
//! ends the layout with an error.
//!
//! The layout never reads a font itself. It is a machine that is fed the
//! text one character at a time and asks for what it needs to know of the
//! font, one question at a time and none that it can do without: the glyph
//! of the character, then the kerning subtables one after the other until
//! one of them settles the kerning, then whether the glyph has an outline,
//! then its advance. Whoever drives the machine looks each answer up and
//! hands it back.
//!
//! Positions are exact, in font units: the scale of the font and any extra
//! spacing between glyphs are applied by whoever draws, from the `x`, the
//! `column` and the `line` of each placed glyph.

use crate::font::{select_kerning_spec, usable_for_kerning, KernCandidate};
use vstd::prelude::*;

verus! {

/// The farthest one glyph can move the pen: the largest kerning and the
/// largest advance together.
pub const MAX_STEP: i128 = 98303;

/// A glyph at its place in the layout.
#[derive(Clone, Copy, Debug, PartialEq, Eq, Structural)]
pub struct PlacedGlyph {
    /// The character that the glyph draws.
    pub ch: char,
    /// The glyph, as the font numbers it.
    pub glyph: u16,
    /// The line of the glyph, counted from zero.
    pub line: usize,
    /// How many glyphs stand before it on its line.
    pub column: usize,
    /// The kerning against the glyph before it, where the font holds one.
    pub kerning: Option<i16>,
    /// The advance of the glyph, zero where the font gives none.
    pub advance: u16,
    /// Where the glyph is drawn on its line, in font units, kerning included.
    pub x: i128,
}

/// The pen between two characters.
#[derive(Clone, Copy, Debug, PartialEq, Eq, Structural)]
pub struct Pen {
    /// The line the pen is on, counted from zero.
    pub line: usize,
    /// How many glyphs are placed on this line.
    pub column: usize,
    /// Where the pen stands on its line, in font units.
    pub x: i128,
    /// The last glyph placed on this line, if any.
    pub previous: Option<u16>,
}

/// The outcome of a layout that found an outline for every glyph.
#[derive(Clone, Debug, PartialEq, Eq)]
pub struct Layout {
    /// The glyphs in the order of the text.
    pub glyphs: Vec<PlacedGlyph>,
    /// The characters for which the font has no glyph, in the order of the text.
    pub skipped: Vec<char>,
}

/// Why a text could not be laid out.
#[derive(Clone, Copy, Debug, PartialEq, Eq, Structural)]
pub enum LayoutError {
    /// The font has a glyph for the character, and the glyph has no outline.
    MissingOutline { ch: char, glyph: u16 },
}

/// What the layout asks of the font next.
#[derive(Clone, Copy, Debug, PartialEq, Eq, Structural)]
pub enum Request {
    /// Nothing: the next character can be fed.
    Nothing,
    /// The glyph that draws the character.
    Glyph { ch: char },
    /// What the kerning subtable of that number, counted from zero in the
    /// order of the font, holds for the pair of glyphs.
    Kerning { subtable: usize, left: u16, right: u16 },
    /// Whether the glyph has an outline.
    Outline { glyph: u16 },
    /// The horizontal advance of the glyph.
    Advance { glyph: u16 },
}

/// What the font says to a request.
#[derive(Clone, Copy, Debug, PartialEq, Eq, Structural)]
pub enum Answer {
    /// The glyph of the character, or none.
    Glyph(Option<u16>),
    /// The subtable seen from the pair, or none where the font has no
    /// subtable of that number.
    Kerning(Option<KernCandidate>),
    /// Whether the glyph has an outline.
    Outline(bool),
    /// The advance of the glyph, or none.
    Advance(Option<u16>),
}

/// How far the layout has come with the character it was fed last.
#[derive(Clone, Copy, Debug, PartialEq, Eq, Structural)]
pub enum Stage {
    /// Done with it: the next character can be fed.
    Ready,
    /// Its glyph is asked for.
    Glyph { ch: char },
    /// A kerning subtable is asked for.
    Kerning { ch: char, glyph: u16, left: u16, subtable: usize },
    /// Its kerning is settled, and its outline is asked for.
    Outline { ch: char, glyph: u16, kerning: Option<i16> },
    /// Its outline is there, and its advance is asked for.
    Advance { ch: char, glyph: u16, kerning: Option<i16> },
    /// The layout has failed, and nothing more is taken in.
    Failed { error: LayoutError },
}

/// The layout of a text in the making.
#[derive(Clone, Debug, PartialEq, Eq)]
pub struct Layouter {
    /// Whether kerning is applied.
    pub kerning: bool,
    /// The pen behind the last placed glyph.
    pub pen: Pen,
    /// What is being asked of the font.
    pub stage: Stage,
    /// The glyphs placed so far.
    pub glyphs: Vec<PlacedGlyph>,
    /// The characters skipped so far.
    pub skipped: Vec<char>,
}

/// A placed glyph with unbounded numbers.
pub struct Placement {
    pub ch: char,
    pub glyph: u16,
    pub line: nat,
    pub column: nat,
    pub kerning: Option<i16>,
    pub advance: u16,
    pub x: int,
}

/// A pen with unbounded numbers.
pub struct PenModel {
    pub line: nat,
    pub column: nat,
    pub x: int,
    pub previous: Option<u16>,
}

/// A layout with unbounded numbers.
pub struct LayoutModel {
    pub glyphs: Seq<Placement>,
    pub skipped: Seq<char>,
}

/// A layout in the making with unbounded numbers.
pub struct LayouterModel {
    pub kerning: bool,
    pub pen: PenModel,
    pub stage: Stage,
    pub glyphs: Seq<Placement>,
    pub skipped: Seq<char>,
}

impl View for PlacedGlyph {
    type V = Placement;

    open spec fn view(&self) -> Placement {
        Placement {
            ch: self.ch,
            glyph: self.glyph,
            line: self.line as nat,
            column: self.column as nat,
            kerning: self.kerning,
            advance: self.advance,
            x: self.x as int,
        }
    }
}

impl View for Pen {
    type V = PenModel;

    open spec fn view(&self) -> PenModel {
        PenModel {
            line: self.line as nat,
            column: self.column as nat,
            x: self.x as int,
            previous: self.previous,
        }
    }
}

impl View for Layout {
    type V = LayoutModel;

    open spec fn view(&self) -> LayoutModel {
        LayoutModel { glyphs: placements(self.glyphs@), skipped: self.skipped@ }
    }
}

impl View for Layouter {
    type V = LayouterModel;

    open spec fn view(&self) -> LayouterModel {
        LayouterModel {
            kerning: self.kerning,
            pen: self.pen@,
            stage: self.stage,
            glyphs: placements(self.glyphs@),
            skipped: self.skipped@,
        }
    }
}

/// The models of a list of placed glyphs.
pub open spec fn placements(glyphs: Seq<PlacedGlyph>) -> Seq<Placement> {
    glyphs.map_values(|g: PlacedGlyph| g@)
}

/// The pen at the start of a text.
pub open spec fn pen_at_start() -> PenModel {
    PenModel { line: 0, column: 0, x: 0, previous: None }
}

/// A kerning as a distance: nothing where there is none.
pub open spec fn kerning_distance(kerning: Option<i16>) -> int {
    match kerning {
        Some(value) => value as int,
        None => 0,
    }
}

/// An advance as a distance: nothing where the font gives none.
pub open spec fn advance_or_zero(advance: Option<u16>) -> u16 {
    match advance {
        Some(advance) => advance,
        None => 0,
    }
}

/// The pair of glyphs whose kerning applies before `glyph`: the glyph before
/// it on the line and itself, when kerning is on and there is a glyph before.
pub open spec fn kerning_pair_spec(pen: PenModel, glyph: u16, kerning: bool) -> Option<(u16, u16)> {
    if kerning && pen.previous is Some {
        Some((pen.previous->0, glyph))
    } else {
        None
    }
}

/// The glyph as it is placed by a pen.
pub open spec fn placed_by(
    pen: PenModel,
    ch: char,
    glyph: u16,
    kerning: Option<i16>,
    advance: u16,
) -> Placement {
    Placement {
        ch,
        glyph,
        line: pen.line,
        column: pen.column,
        kerning,
        advance,
        x: pen.x + kerning_distance(kerning),
    }
}

/// The pen after it placed a glyph.
pub open spec fn after_glyph(pen: PenModel, glyph: u16, kerning: Option<i16>, advance: u16) -> PenModel {
    PenModel {
        line: pen.line,
        column: pen.column + 1,
        x: pen.x + kerning_distance(kerning) + advance,
        previous: Some(glyph),
    }
}

/// The pen after a line break.
pub open spec fn after_newline(pen: PenModel) -> PenModel {
    PenModel { line: pen.line + 1, column: 0, x: 0, previous: None }
}

/// The layout before the first character.
pub open spec fn layouter_at_start(kerning: bool) -> LayouterModel {
    LayouterModel {
        kerning,
        pen: pen_at_start(),
        stage: Stage::Ready,
        glyphs: Seq::empty(),
        skipped: Seq::empty(),
    }
}

/// What a layout asks of the font.
pub open spec fn request_of(layouter: LayouterModel) -> Request {
    match layouter.stage {
        Stage::Ready => Request::Nothing,
        Stage::Failed { error } => Request::Nothing,
        Stage::Glyph { ch } => Request::Glyph { ch },
        Stage::Kerning { ch, glyph, left, subtable } => Request::Kerning {
            subtable,
            left,
            right: glyph,
        },
        Stage::Outline { ch, glyph, kerning } => Request::Outline { glyph },
        Stage::Advance { ch, glyph, kerning } => Request::Advance { glyph },
    }
}

/// The layout after it was fed a character. A line break moves the pen to
/// the start of the next line; any other character has its glyph asked
/// for. A layout that is waiting for an answer, or has failed, takes no
/// character in.
pub open spec fn after_feed(layouter: LayouterModel, ch: char) -> LayouterModel {
    if layouter.stage != Stage::Ready {
        layouter
    } else if ch == '\n' {
        LayouterModel { pen: after_newline(layouter.pen), ..layouter }
    } else {
        LayouterModel { stage: Stage::Glyph { ch }, ..layouter }
    }
}

/// The stage that follows the glyph of a character: the first kerning
/// subtable where a pair is to be kerned, the outline otherwise.
pub open spec fn stage_after_glyph(layouter: LayouterModel, ch: char, glyph: u16) -> Stage {
    match kerning_pair_spec(layouter.pen, glyph, layouter.kerning) {
        Some(pair) => Stage::Kerning { ch, glyph, left: pair.0, subtable: 0 },
        None => Stage::Outline { ch, glyph, kerning: None },
    }
}

/// The stage that follows a kerning subtable: the outline, with the value
/// of the subtable where it is usable and holds one, and with no kerning
/// where the font has no such subtable; the next subtable otherwise.
pub open spec fn stage_after_subtable(
    ch: char,
    glyph: u16,
    left: u16,
    subtable: usize,
    found: Option<KernCandidate>,
) -> Stage {
    match found {
        None => Stage::Outline { ch, glyph, kerning: None },
        Some(candidate) => if usable_for_kerning(candidate) && candidate.value is Some {
            Stage::Outline { ch, glyph, kerning: candidate.value }
        } else if subtable < usize::MAX {
            Stage::Kerning { ch, glyph, left, subtable: (subtable + 1) as usize }
        } else {
            Stage::Outline { ch, glyph, kerning: None }
        },
    }
}

/// The layout after an answer. An answer to another question than the one
/// that is asked changes nothing.
pub open spec fn after_answer(layouter: LayouterModel, answer: Answer) -> LayouterModel {
    match (layouter.stage, answer) {
        (Stage::Glyph { ch }, Answer::Glyph(None)) => LayouterModel {
            stage: Stage::Ready,
            skipped: layouter.skipped.push(ch),
            ..layouter
        },
        (Stage::Glyph { ch }, Answer::Glyph(Some(glyph))) => LayouterModel {
            stage: stage_after_glyph(layouter, ch, glyph),
            ..layouter
        },
        (Stage::Kerning { ch, glyph, left, subtable }, Answer::Kerning(found)) => LayouterModel {
            stage: stage_after_subtable(ch, glyph, left, subtable, found),
            ..layouter
        },
        (Stage::Outline { ch, glyph, kerning }, Answer::Outline(false)) => LayouterModel {
            stage: Stage::Failed { error: LayoutError::MissingOutline { ch, glyph } },
            ..layouter
        },
        (Stage::Outline { ch, glyph, kerning }, Answer::Outline(true)) => LayouterModel {
            stage: Stage::Advance { ch, glyph, kerning },
            ..layouter
        },
        (Stage::Advance { ch, glyph, kerning }, Answer::Advance(advance)) => LayouterModel {
            stage: Stage::Ready,
            pen: after_glyph(layouter.pen, glyph, kerning, advance_or_zero(advance)),
            glyphs: layouter.glyphs.push(
                placed_by(layouter.pen, ch, glyph, kerning, advance_or_zero(advance)),
            ),
            ..layouter
        },
        _ => layouter,
    }
}

/// The outcome of a layout as it stands: its error where it has failed, and
/// the glyphs and the skipped characters otherwise.
pub open spec fn outcome_of(layouter: LayouterModel) -> Result<LayoutModel, LayoutError> {
    match layouter.stage {
        Stage::Failed { error } => Err(error),
        _ => Ok(LayoutModel { glyphs: layouter.glyphs, skipped: layouter.skipped }),
    }
}

/// Two layouts that differ at most in the skipped characters they list.
pub open spec fn same_but_skipped(one: LayouterModel, other: LayouterModel) -> bool {
    one == LayouterModel { skipped: one.skipped, ..other }
}

/// A line break starts a new line: the pen stands at zero on the next line
/// with no glyph before it, whatever was placed before the break, and the
/// font is asked nothing.
pub proof fn lemma_line_break_starts_line(layouter: LayouterModel)
    requires
        layouter.stage == Stage::Ready,
    ensures
        after_feed(layouter, '\n').pen == (PenModel {
            line: layouter.pen.line + 1,
            column: 0,
            x: 0,
            previous: None,
        }),
        after_feed(layouter, '\n').glyphs == layouter.glyphs,
        request_of(after_feed(layouter, '\n')) == Request::Nothing,
{
}

/// The first glyph of a line is placed at zero and is never kerned: no
/// kerning subtable is asked for, and with an outline and an advance the
/// glyph is placed in column zero at position zero.
pub proof fn lemma_first_glyph_of_line(
    layouter: LayouterModel,
    ch: char,
    glyph: u16,
    advance: Option<u16>,
)
    requires
        layouter.stage == Stage::Ready,
        ch != '\n',
        layouter.pen.column == 0,
        layouter.pen.x == 0,
        layouter.pen.previous is None,
    ensures
        ({
            let asked = after_answer(after_feed(layouter, ch), Answer::Glyph(Some(glyph)));
            let placed = after_answer(
                after_answer(asked, Answer::Outline(true)),
                Answer::Advance(advance),
            );
            &&& request_of(asked) == Request::Outline { glyph }
            &&& placed.glyphs == layouter.glyphs.push(
                Placement {
                    ch,
                    glyph,
                    line: layouter.pen.line,
                    column: 0,
                    kerning: None,
                    advance: advance_or_zero(advance),
                    x: 0,
                },
            )
            &&& placed.stage == Stage::Ready
        }),
{
}

/// A character without a glyph leaves no trace: once the font has said
/// that it has none, the layout is what it was before the character, but
/// for the mention of the character among the skipped ones.
pub proof fn lemma_skipped_char_leaves_no_trace(layouter: LayouterModel, ch: char)
    requires
        layouter.stage == Stage::Ready,
        ch != '\n',
    ensures
        after_answer(after_feed(layouter, ch), Answer::Glyph(None)) == (LayouterModel {
            skipped: layouter.skipped.push(ch),
            ..layouter
        }),
{
}

/// The list of skipped characters is a note and nothing more: two layouts
/// that differ in it alone ask the same, and go on to layouts that differ
/// in it alone, whatever they are fed and whatever they are answered. With
/// the law before, a text is laid out as the same text without its
/// glyphless characters.
pub proof fn lemma_skipped_is_only_a_note(
    one: LayouterModel,
    other: LayouterModel,
    ch: char,
    answer: Answer,
)
    requires
        same_but_skipped(one, other),
    ensures
        request_of(one) == request_of(other),
        same_but_skipped(after_feed(one, ch), after_feed(other, ch)),
        same_but_skipped(after_answer(one, answer), after_answer(other, answer)),
        outcome_of(one) is Err ==> outcome_of(one) == outcome_of(other),
        outcome_of(one) is Ok ==> outcome_of(other) is Ok && outcome_of(one)->Ok_0.glyphs
            == outcome_of(other)->Ok_0.glyphs,
{
}

/// What a font says, as far as a layout asks: the glyph of each character
/// that has one, the kerning subtables as each pair of glyphs sees them, the
/// glyphs that have an outline, and the advance of each glyph that has one.
pub struct FontModel {
    pub glyphs: Map<char, u16>,
    pub subtables: spec_fn(u16, u16) -> Seq<KernCandidate>,
    pub outlined: Set<u16>,
    pub advances: Map<u16, u16>,
}

/// The glyph of a character, where the font has one.
pub open spec fn glyph_of(font: FontModel, ch: char) -> Option<u16> {
    if font.glyphs.contains_key(ch) {
        Some(font.glyphs[ch])
    } else {
        None
    }
}

/// The advance of a glyph, where the font gives one.
pub open spec fn advance_of(font: FontModel, glyph: u16) -> Option<u16> {
    if font.advances.contains_key(glyph) {
        Some(font.advances[glyph])
    } else {
        None
    }
}

/// The kerning that a font holds before `glyph` at this pen: that of the
/// first usable subtable with a value for the pair, where a pair is kerned.
pub open spec fn kerning_before(font: FontModel, pen: PenModel, glyph: u16, kerning: bool) -> Option<
    i16,
> {
    match kerning_pair_spec(pen, glyph, kerning) {
        Some(pair) => select_kerning_spec((font.subtables)(pair.0, pair.1)),
        None => None,
    }
}

/// The answer of a font to a request.
pub open spec fn answer_of(font: FontModel, request: Request) -> Answer {
    match request {
        Request::Nothing => Answer::Glyph(None),
        Request::Glyph { ch } => Answer::Glyph(glyph_of(font, ch)),
        Request::Kerning { subtable, left, right } => Answer::Kerning(
            if subtable < (font.subtables)(left, right).len() {
                Some((font.subtables)(left, right)[subtable as int])
            } else {
                None
            },
        ),
        Request::Outline { glyph } => Answer::Outline(font.outlined.contains(glyph)),
        Request::Advance { glyph } => Answer::Advance(advance_of(font, glyph)),
    }
}

/// The layout after it was answered by a font as many times as `steps`
/// says, or until it asks nothing.
pub open spec fn driven(font: FontModel, layouter: LayouterModel, steps: nat) -> LayouterModel
    decreases steps,
{
    if steps == 0 || request_of(layouter) == Request::Nothing {
        layouter
    } else {
        driven(
            font,
            after_answer(layouter, answer_of(font, request_of(layouter))),
            (steps - 1) as nat,
        )
    }
}

/// The layout after one character of a text in a font: a line break moves
/// the pen, a character without a glyph is noted as skipped, a glyph
/// without an outline fails the layout, and any other glyph is placed with
/// its kerning and its advance. A failed layout stays as it is.
pub open spec fn after_char(font: FontModel, layouter: LayouterModel, ch: char) -> LayouterModel {
    if layouter.stage != Stage::Ready {
        layouter
    } else if ch == '\n' {
        LayouterModel { pen: after_newline(layouter.pen), ..layouter }
    } else {
        match glyph_of(font, ch) {
            None => LayouterModel { skipped: layouter.skipped.push(ch), ..layouter },
            Some(glyph) => {
                let kerning = kerning_before(font, layouter.pen, glyph, layouter.kerning);
                let advance = advance_or_zero(advance_of(font, glyph));
                if font.outlined.contains(glyph) {
                    LayouterModel {
                        pen: after_glyph(layouter.pen, glyph, kerning, advance),
                        glyphs: layouter.glyphs.push(
                            placed_by(layouter.pen, ch, glyph, kerning, advance),
                        ),
                        ..layouter
                    }
                } else {
                    LayouterModel {
                        stage: Stage::Failed { error: LayoutError::MissingOutline { ch, glyph } },
                        ..layouter
                    }
                }
            },
        }
    }
}

/// The layout after a text in a font.
pub open spec fn after_text(font: FontModel, layouter: LayouterModel, text: Seq<char>) -> LayouterModel
    decreases text.len(),
{
    if text.len() == 0 {
        layouter
    } else {
        after_text(font, after_char(font, layouter, text[0]), text.skip(1))
    }
}

/// The layout of a text in a font: an error for the first glyph without an
/// outline, and otherwise the placed glyphs and the skipped characters.
pub open spec fn layout_of(font: FontModel, text: Seq<char>, kerning: bool) -> Result<
    LayoutModel,
    LayoutError,
> {
    outcome_of(after_text(font, layouter_at_start(kerning), text))
}

/// The character is skipped by a font: it is no line break and the font has
/// no glyph for it.
pub open spec fn is_skipped(font: FontModel, ch: char) -> bool {
    ch != '\n' && glyph_of(font, ch) is None
}

/// The test for a character that a font does not skip, as a predicate.
pub open spec fn kept_by(font: FontModel) -> spec_fn(char) -> bool {
    |ch: char| !is_skipped(font, ch)
}

/// How many line breaks a text holds.
pub open spec fn line_breaks(text: Seq<char>) -> nat
    decreases text.len(),
{
    if text.len() == 0 {
        0
    } else {
        line_breaks(text.skip(1)) + if text[0] == '\n' {
            1nat
        } else {
            0nat
        }
    }
}

/// Answering in two runs is answering in one.
pub proof fn lemma_driven_in_two_runs(
    font: FontModel,
    layouter: LayouterModel,
    first: nat,
    second: nat,
)
    ensures
        driven(font, layouter, first + second) == driven(
            font,
            driven(font, layouter, first),
            second,
        ),
    decreases first,
{
    if first == 0 {
    } else if request_of(layouter) == Request::Nothing {
        assert(driven(font, layouter, second) == layouter) by {
            if second > 0 {
            }
        }
    } else {
        let next = after_answer(layouter, answer_of(font, request_of(layouter)));
        lemma_driven_in_two_runs(font, next, (first - 1) as nat, second);
        assert(driven(font, layouter, first + second) == driven(
            font,
            next,
            (first + second - 1) as nat,
        ));
    }
}

/// A layout that asks for a kerning subtable and is answered by a font
/// settles for the kerning that `select_kerning_spec` picks among the
/// subtables from that one on, and then asks for the outline. The number of
/// answers it takes is returned.
pub proof fn lemma_kerning_walk(font: FontModel, layouter: LayouterModel) -> (steps: nat)
    requires
        layouter.stage is Kerning,
        layouter.stage->Kerning_subtable <= (font.subtables)(
            layouter.stage->Kerning_left,
            layouter.stage->Kerning_glyph,
        ).len() <= usize::MAX,
    ensures
        driven(font, layouter, steps) == (LayouterModel {
            stage: Stage::Outline {
                ch: layouter.stage->Kerning_ch,
                glyph: layouter.stage->Kerning_glyph,
                kerning: select_kerning_spec(
                    (font.subtables)(
                        layouter.stage->Kerning_left,
                        layouter.stage->Kerning_glyph,
                    ).skip(layouter.stage->Kerning_subtable as int),
                ),
            },
            ..layouter
        }),
    decreases
            (font.subtables)(layouter.stage->Kerning_left, layouter.stage->Kerning_glyph).len()
                - layouter.stage->Kerning_subtable,
{
    let subtable = layouter.stage->Kerning_subtable;
    let all = (font.subtables)(layouter.stage->Kerning_left, layouter.stage->Kerning_glyph);
    let rest = all.skip(subtable as int);
    let next = after_answer(layouter, answer_of(font, request_of(layouter)));
    assert(driven(font, layouter, 1) == driven(font, next, 0));
    if subtable == all.len() {
        assert(rest.len() == 0);
        1
    } else {
        assert(rest[0] == all[subtable as int]);
        assert(rest.drop_first() =~= all.skip(subtable + 1));
        if usable_for_kerning(all[subtable as int]) && all[subtable as int].value is Some {
            1
        } else {
            let more = lemma_kerning_walk(font, next);
            lemma_driven_in_two_runs(font, layouter, 1, more);
            1 + more
        }
    }
}

/// A layout that is fed a character and answered by a font until it asks
/// nothing stands where `after_char` says, provided the font has no more
/// kerning subtables than the machine can count.
pub proof fn lemma_answers_lay_out_the_char(font: FontModel, layouter: LayouterModel, ch: char) -> (steps:
    nat)
    requires
        forall|left: u16, right: u16| #[trigger] (font.subtables)(left, right).len() <= usize::MAX,
    ensures
        driven(font, after_feed(layouter, ch), steps) == after_char(font, layouter, ch),
        layouter.stage == Stage::Ready ==> request_of(after_char(font, layouter, ch))
            == Request::Nothing,
{
    let fed = after_feed(layouter, ch);
    if layouter.stage != Stage::Ready || ch == '\n' {
        0
    } else {
        let asked = after_answer(fed, answer_of(font, request_of(fed)));
        assert(driven(font, fed, 1) == driven(font, asked, 0));
        match glyph_of(font, ch) {
            None => 1,
            Some(glyph) => {
                let walk: nat = if asked.stage is Kerning {
                    let all = (font.subtables)(asked.stage->Kerning_left, glyph);
                    assert(all.skip(0) =~= all);
                    lemma_kerning_walk(font, asked)
                } else {
                    0
                };
                let settled = driven(font, asked, walk);
                assert(settled.stage == Stage::Outline {
                    ch,
                    glyph,
                    kerning: kerning_before(font, layouter.pen, glyph, layouter.kerning),
                });
                let outlined = after_answer(settled, answer_of(font, request_of(settled)));
                let placed = after_answer(outlined, answer_of(font, request_of(outlined)));
                assert(driven(font, settled, 2) == driven(font, outlined, 1));
                assert(driven(font, outlined, 1) == driven(
                    font,
                    if request_of(outlined) == Request::Nothing {
                        outlined
                    } else {
                        placed
                    },
                    0,
                ));
                lemma_driven_in_two_runs(font, asked, walk, 2);
                lemma_driven_in_two_runs(font, fed, 1, walk + 2);
                1 + walk + 2
            },
        }
    }
}

/// Laying out two texts one after the other is laying out the second from
/// where the first one leaves the layout.
pub proof fn lemma_layout_continues(
    font: FontModel,
    layouter: LayouterModel,
    first: Seq<char>,
    second: Seq<char>,
)
    ensures
        after_text(font, layouter, first + second) == after_text(
            font,
            after_text(font, layouter, first),
            second,
        ),
    decreases first.len(),
{
    if first.len() == 0 {
        assert(first + second =~= second);
    } else {
        lemma_layout_continues(font, after_char(font, layouter, first[0]), first.skip(1), second);
        assert((first + second).skip(1) =~= first.skip(1) + second);
        assert((first + second)[0] == first[0]);
    }
}

/// A layout that has not failed ends a text either failed or on the line it
/// started on, moved down by one line for each line break of the text.
pub proof fn lemma_pen_line(font: FontModel, layouter: LayouterModel, text: Seq<char>)
    requires
        layouter.stage == Stage::Ready,
    ensures
        after_text(font, layouter, text).stage is Failed || {
            &&& after_text(font, layouter, text).stage == Stage::Ready
            &&& after_text(font, layouter, text).pen.line == layouter.pen.line + line_breaks(text)
        },
    decreases text.len(),
{
    if text.len() > 0 {
        let next = after_char(font, layouter, text[0]);
        if next.stage == Stage::Ready {
            lemma_pen_line(font, next, text.skip(1));
        } else {
            lemma_failed_stays(font, next, text.skip(1));
        }
    }
}

/// A failed layout stays as it is, whatever text follows.
pub proof fn lemma_failed_stays(font: FontModel, layouter: LayouterModel, text: Seq<char>)
    requires
        layouter.stage is Failed,
    ensures
        after_text(font, layouter, text) == layouter,
    decreases text.len(),
{
    if text.len() > 0 {
        lemma_failed_stays(font, layouter, text.skip(1));
    }
}

/// A line break in a text starts a new line: where the text before the
/// break is laid out without failure, what follows the break is laid out
/// from position zero, with no glyph before it to kern against, one line
/// below the line on which the text before the break ends.
pub proof fn lemma_line_break_in_text(
    font: FontModel,
    layouter: LayouterModel,
    before: Seq<char>,
    after: Seq<char>,
)
    requires
        layouter.stage == Stage::Ready,
        !(after_text(font, layouter, before).stage is Failed),
    ensures
        after_text(font, layouter, before + seq!['\n'] + after) == after_text(
            font,
            LayouterModel {
                pen: PenModel {
                    line: layouter.pen.line + line_breaks(before) + 1,
                    column: 0,
                    x: 0,
                    previous: None,
                },
                ..after_text(font, layouter, before)
            },
            after,
        ),
{
    let at_break = after_text(font, layouter, before);
    lemma_pen_line(font, layouter, before);
    lemma_layout_continues(font, layouter, before + seq!['\n'], after);
    lemma_layout_continues(font, layouter, before, seq!['\n']);
    assert(seq!['\n'].skip(1) =~= Seq::<char>::empty());
    assert(after_text(font, at_break, seq!['\n']) == after_text(
        font,
        after_char(font, at_break, '\n'),
        Seq::<char>::empty(),
    ));
}

/// Two layouts that differ in their skipped characters alone still do so
/// after the same character.
pub proof fn lemma_char_keeps_note_apart(
    font: FontModel,
    one: LayouterModel,
    other: LayouterModel,
    ch: char,
)
    requires
        same_but_skipped(one, other),
    ensures
        same_but_skipped(after_char(font, one, ch), after_char(font, other, ch)),
        is_skipped(font, ch) ==> same_but_skipped(after_char(font, one, ch), other),
{
}

/// A text is laid out as the same text without the characters that the
/// font has no glyph for: the same glyphs at the same places, the same
/// pen, the same failure. The two layouts differ in nothing but the
/// skipped characters they list.
pub proof fn lemma_layout_of_kept_text(
    font: FontModel,
    one: LayouterModel,
    other: LayouterModel,
    text: Seq<char>,
)
    requires
        same_but_skipped(one, other),
    ensures
        same_but_skipped(
            after_text(font, one, text),
            after_text(font, other, text.filter(kept_by(font))),
        ),
    decreases text.len(),
{
    reveal(Seq::filter);
    if text.len() > 0 {
        let head = seq![text[0]];
        let tail = text.skip(1);
        let kept_tail = tail.filter(kept_by(font));
        assert(head + tail =~= text);
        Seq::filter_distributes_over_add(head, tail, kept_by(font));
        assert(head.drop_last() =~= Seq::<char>::empty());
        assert(Seq::<char>::empty().filter(kept_by(font)) =~= Seq::<char>::empty());
        assert(head.last() == text[0]);
        assert(head.filter(kept_by(font)) =~= if is_skipped(font, text[0]) {
            Seq::<char>::empty()
        } else {
            head
        });
        lemma_char_keeps_note_apart(font, one, other, text[0]);
        if is_skipped(font, text[0]) {
            assert(text.filter(kept_by(font)) =~= kept_tail);
            lemma_layout_of_kept_text(font, after_char(font, one, text[0]), other, tail);
        } else {
            let kept = text.filter(kept_by(font));
            assert(kept =~= head + kept_tail);
            assert(kept.skip(1) =~= kept_tail);
            assert(kept[0] == text[0]);
            lemma_layout_of_kept_text(
                font,
                after_char(font, one, text[0]),
                after_char(font, other, text[0]),
                tail,
            );
        }
    }
}

impl Pen {
    /// The pen has not moved farther than its glyphs can have moved it.
    pub open spec fn well_formed(&self) -> bool {
        -MAX_STEP * self.column <= self.x <= MAX_STEP * self.column
    }

    /// A pen at the start of the first line.
    pub fn new() -> (pen: Pen)
        ensures
            pen@ == pen_at_start(),
            pen.well_formed(),
    {
        Pen { line: 0, column: 0, x: 0, previous: None }
    }

    /// Starts the next line: the pen returns to zero, and the glyph before
    /// it is forgotten, so that no kerning reaches across the break.
    pub fn newline(&mut self)
        requires
            old(self).line < usize::MAX,
        ensures
            final(self)@ == after_newline(old(self)@),
            final(self).well_formed(),
    {
        self.line = self.line + 1;
        self.column = 0;
        self.x = 0;
        self.previous = None;
    }

    /// The pair of glyphs to look the kerning up for before `glyph` is
    /// placed, if there is one.
    pub fn kerning_pair(&self, glyph: u16, kerning: bool) -> (pair: Option<(u16, u16)>)
        ensures
            pair == kerning_pair_spec(self@, glyph, kerning),
    {
        if kerning {
            match self.previous {
                Some(previous) => Some((previous, glyph)),
                None => None,
            }
        } else {
            None
        }
    }

    /// Places a glyph: moves the pen by the kerning, notes the glyph there,
    /// and moves the pen on by the advance.
    pub fn place(&mut self, ch: char, glyph: u16, kerning: Option<i16>, advance: u16) -> (placed:
        PlacedGlyph)
        requires
            old(self).well_formed(),
            old(self).column < usize::MAX,
        ensures
            placed@ == placed_by(old(self)@, ch, glyph, kerning, advance),
            final(self)@ == after_glyph(old(self)@, glyph, kerning, advance),
            final(self).well_formed(),
    {
        assert(-MAX_STEP * self.column >= -MAX_STEP * usize::MAX && MAX_STEP * self.column
            <= MAX_STEP * usize::MAX) by (nonlinear_arith)
            requires
                0 <= self.column <= usize::MAX,
        ;
        assert(-MAX_STEP * (self.column + 1) == -MAX_STEP * self.column - MAX_STEP && MAX_STEP * (
        self.column + 1) == MAX_STEP * self.column + MAX_STEP) by (nonlinear_arith);
        let shift: i128 = match kerning {
            Some(value) => value as i128,
            None => 0,
        };
        let x: i128 = self.x + shift;
        let placed = PlacedGlyph {
            ch,
            glyph,
            line: self.line,
            column: self.column,
            kerning,
            advance,
            x,
        };
        self.column = self.column + 1;
        self.x = x + advance as i128;
        self.previous = Some(glyph);
        placed
    }
}

impl Layouter {
    /// The pen is well formed.
    pub open spec fn well_formed(&self) -> bool {
        self.pen.well_formed()
    }

    /// The layout can take a character or an answer in: its pen is well
    /// formed, and the counters of the pen can still be raised by one.
    pub open spec fn spec_has_room(&self) -> bool {
        self.pen.well_formed() && self.pen.line < usize::MAX && self.pen.column < usize::MAX
    }

    /// A layout before its first character.
    pub fn new(kerning: bool) -> (layouter: Layouter)
        ensures
            layouter@ == layouter_at_start(kerning),
            layouter.well_formed(),
            layouter.spec_has_room(),
    {
        let layouter = Layouter {
            kerning,
            pen: Pen::new(),
            stage: Stage::Ready,
            glyphs: Vec::new(),
            skipped: Vec::new(),
        };
        assert(placements(layouter.glyphs@) =~= Seq::<Placement>::empty());
        layouter
    }

    /// Whether the layout can take a character or an answer in. It can
    /// unless its pen was set by hand to where no glyphs can have moved it,
    /// or a line or a text has as many glyphs or lines as the machine can
    /// count.
    pub fn has_room(&self) -> (room: bool)
        ensures
            room == self.spec_has_room(),
    {
        assert(-MAX_STEP * self.pen.column >= -MAX_STEP * usize::MAX && MAX_STEP
            * self.pen.column <= MAX_STEP * usize::MAX) by (nonlinear_arith)
            requires
                0 <= self.pen.column <= usize::MAX,
        ;
        let reach: i128 = MAX_STEP * (self.pen.column as i128);
        -reach <= self.pen.x && self.pen.x <= reach && self.pen.line < usize::MAX
            && self.pen.column < usize::MAX
    }

    /// What the layout asks of the font.
    pub fn request(&self) -> (request: Request)
        ensures
            request == request_of(self@),
    {
        match self.stage {
            Stage::Ready => Request::Nothing,
            Stage::Failed { error: _ } => Request::Nothing,
            Stage::Glyph { ch } => Request::Glyph { ch },
            Stage::Kerning { ch: _, glyph, left, subtable } => Request::Kerning {
                subtable,
                left,
                right: glyph,
            },
            Stage::Outline { ch: _, glyph, kerning: _ } => Request::Outline { glyph },
            Stage::Advance { ch: _, glyph, kerning: _ } => Request::Advance { glyph },
        }
    }

    /// Feeds the next character of the text and says what is asked of the
    /// font for it.
    pub fn feed(&mut self, ch: char) -> (request: Request)
        requires
            old(self).spec_has_room(),
        ensures
            final(self)@ == after_feed(old(self)@, ch),
            request == request_of(final(self)@),
            final(self).well_formed(),
    {
        match self.stage {
            Stage::Ready => {
                if ch == '\n' {
                    self.pen.newline();
                } else {
                    self.stage = Stage::Glyph { ch };
                }
            },
            _ => {},
        }
        self.request()
    }

    /// Takes the answer of the font to what was asked last, and says what
    /// is asked next.
    pub fn answer(&mut self, answer: Answer) -> (request: Request)
        requires
            old(self).spec_has_room(),
        ensures
            final(self)@ == after_answer(old(self)@, answer),
            request == request_of(final(self)@),
            final(self).well_formed(),
    {
        match (self.stage, answer) {
            (Stage::Glyph { ch }, Answer::Glyph(None)) => {
                self.skipped.push(ch);
                self.stage = Stage::Ready;
            },
            (Stage::Glyph { ch }, Answer::Glyph(Some(glyph))) => {
                self.stage = match self.pen.kerning_pair(glyph, self.kerning) {
                    Some(pair) => Stage::Kerning { ch, glyph, left: pair.0, subtable: 0 },
                    None => Stage::Outline { ch, glyph, kerning: None },
                };
            },
            (Stage::Kerning { ch, glyph, left, subtable }, Answer::Kerning(found)) => {
                self.stage = match found {
                    None => Stage::Outline { ch, glyph, kerning: None },
                    Some(candidate) => {
                        let usable = candidate.horizontal && !candidate.has_cross_stream
                            && !candidate.has_state_machine;
                        if usable && candidate.value.is_some() {
                            Stage::Outline { ch, glyph, kerning: candidate.value }
                        } else if subtable < usize::MAX {
                            Stage::Kerning { ch, glyph, left, subtable: subtable + 1 }
                        } else {
                            Stage::Outline { ch, glyph, kerning: None }
                        }
                    },
                };
            },
            (Stage::Outline { ch, glyph, kerning: _ }, Answer::Outline(false)) => {
                self.stage = Stage::Failed { error: LayoutError::MissingOutline { ch, glyph } };
            },
            (Stage::Outline { ch, glyph, kerning }, Answer::Outline(true)) => {
                self.stage = Stage::Advance { ch, glyph, kerning };
            },
            (Stage::Advance { ch, glyph, kerning }, Answer::Advance(advance)) => {
                let ghost before = placements(self.glyphs@);
                let width: u16 = match advance {
                    Some(width) => width,
                    None => 0,
                };
                let placed = self.pen.place(ch, glyph, kerning, width);
                self.glyphs.push(placed);
                self.stage = Stage::Ready;
                assert(placements(self.glyphs@) =~= before.push(placed@));
            },
            _ => {},
        }
        self.request()
    }

    /// The outcome of the layout as it stands: its error where it has
    /// failed, and otherwise the glyphs placed and the characters skipped
    /// so far.
    pub fn finish(self) -> (outcome: Result<Layout, LayoutError>)
        ensures
            match outcome {
                Ok(layout) => Ok::<LayoutModel, LayoutError>(layout@) == outcome_of(self@),
                Err(error) => Err::<LayoutModel, LayoutError>(error) == outcome_of(self@),
            },
    {
        match self.stage {
            Stage::Failed { error } => Err(error),
            _ => Ok(Layout { glyphs: self.glyphs, skipped: self.skipped }),
        }
    }
}

} // verus!

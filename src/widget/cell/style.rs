//! The appearance of a cell, and how a theme picks it.
use iced_core::{Background, Border, Color, Theme};
use vstd::prelude::*;

verus! {

#[verifier::external_type_specification]
#[verifier::external_body]
pub struct ExColor(Color);

#[verifier::external_type_specification]
#[verifier::external_body]
pub struct ExBackground(Background);

#[verifier::external_type_specification]
#[verifier::external_body]
pub struct ExBorder(Border);

#[verifier::external_type_specification]
#[verifier::external_body]
pub struct ExTheme(Theme);

/// Width of the frame drawn around label, read-only and value cells.
pub const FRAME_WIDTH: u32 = 1;

/// The appearance of a cell container.
#[derive(Debug, Clone, Copy, PartialEq)]
pub struct Style {
    /// The text color of the container.
    pub text_color: Color,
    /// The background of the container.
    pub background: Background,
    /// The border of the container.
    pub border: Border,
}

impl Style {
    /// Updates the style with the given text color.
    pub fn text_color(self, text_color: Color) -> (r: Self)
        ensures
            r.text_color == text_color,
            r.background == self.background,
            r.border == self.border,
    {
        Style { text_color, ..self }
    }

    /// Updates the style with the given background.
    pub fn background(self, background: Background) -> (r: Self)
        ensures
            r.text_color == self.text_color,
            r.background == background,
            r.border == self.border,
    {
        Style { background, ..self }
    }

    /// Updates the style with the given border.
    pub fn border(self, border: Border) -> (r: Self)
        ensures
            r.text_color == self.text_color,
            r.background == self.background,
            r.border == border,
    {
        Style { border, ..self }
    }
}

impl Default for Style {
    /// The default text color, a transparent background and the default border.
    fn default() -> Self {
        Style {
            text_color: default_color(),
            background: solid_background(transparent()),
            border: default_border(),
        }
    }
}

/// Which kind of cell a style is asked for.
#[derive(Debug, Clone, Copy, PartialEq, Eq, Structural)]
pub enum Styling {
    /// The cell is a label.
    Label,
    /// The divider between labels; `true` while it is hovered.
    Divider(bool),
    /// The cell is a read-only value.
    ReadOnly,
    /// The cell is an editable value; `true` while the value is not saved.
    Value(bool),
    /// An editable value in a grid whose rows alternate in background; the
    /// flag is as for `Value`, the number is the row.
    RowAlternating(bool, usize),
}

/// The theme catalog of cell grid widgets.
pub trait Catalog {
    /// Selects the style that matches the given styling: the style of the
    /// method for that kind of cell, called with the styling's fields.
    fn style(&self, styling: Styling) -> (r: Style)
        ensures
            styling == Styling::Label ==> call_ensures(Self::label, (self,), r),
            styling == Styling::ReadOnly ==> call_ensures(Self::read_only, (self,), r),
            styling matches Styling::Divider(h) ==> call_ensures(Self::divider, (self, h), r),
            styling matches Styling::Value(c) ==> call_ensures(Self::value, (self, c), r),
            styling matches Styling::RowAlternating(c, i) ==> call_ensures(
                Self::row_alternating,
                (self, c, i),
                r,
            ),
    {
        match styling {
            Styling::Label => self.label(),
            Styling::ReadOnly => self.read_only(),
            Styling::Divider(hovered) => self.divider(hovered),
            Styling::Value(changed) => self.value(changed),
            Styling::RowAlternating(changed, index) => self.row_alternating(changed, index),
        }
    }

    /// The style for labels.
    fn label(&self) -> Style;

    /// The style for read-only cells.
    fn read_only(&self) -> Style;

    /// The style for editable values.
    fn value(&self, changed: bool) -> Style;

    /// The style for editable values with alternating row backgrounds.
    fn row_alternating(&self, changed: bool, index: usize) -> Style;

    /// The style for the label divider.
    fn divider(&self, hovered: bool) -> Style;
}

/// A color of a theme's palette that a part of a cell's style takes.
#[derive(Debug, Clone, Copy, PartialEq, Eq, Structural)]
pub enum Shade {
    /// The text color of the base palette.
    Text,
    /// The danger color of the base palette.
    Danger,
    /// The base color of the extended secondary set.
    SecondaryBase,
    /// The base color of the extended primary set.
    PrimaryBase,
    /// The base color of the extended background set.
    BackgroundBase,
    /// The weak color of the extended background set.
    BackgroundWeak,
}

/// How a style is built from a theme: the shade of the background, and the
/// shade of a frame around the cell, or `None` for the default border.
#[derive(Debug, Clone, Copy, PartialEq, Eq, Structural)]
pub struct Recipe {
    /// The shade of the background.
    pub background: Shade,
    /// The shade of the frame, if the cell has one.
    pub frame: Option<Shade>,
}

/// The frame of a value cell: the danger color while the value is not saved.
pub open spec fn value_frame(changed: bool) -> Shade {
    if changed {
        Shade::Danger
    } else {
        Shade::Text
    }
}

/// The recipe that a theme follows for each kind of cell.
pub open spec fn recipe_of(styling: Styling) -> Recipe {
    match styling {
        Styling::Label => Recipe { background: Shade::SecondaryBase, frame: Some(Shade::Text) },
        Styling::ReadOnly => Recipe { background: Shade::PrimaryBase, frame: Some(Shade::Text) },
        Styling::Value(changed) => Recipe {
            background: Shade::BackgroundBase,
            frame: Some(value_frame(changed)),
        },
        Styling::RowAlternating(changed, index) => Recipe {
            background: if index % 2 == 0 {
                Shade::BackgroundBase
            } else {
                Shade::BackgroundWeak
            },
            frame: Some(value_frame(changed)),
        },
        Styling::Divider(hovered) => Recipe {
            background: if hovered {
                Shade::PrimaryBase
            } else {
                Shade::BackgroundWeak
            },
            frame: None,
        },
    }
}

/// Returns the recipe for the given kind of cell.
pub fn recipe(styling: Styling) -> (r: Recipe)
    ensures
        r == recipe_of(styling),
{
    match styling {
        Styling::Label => Recipe { background: Shade::SecondaryBase, frame: Some(Shade::Text) },
        Styling::ReadOnly => Recipe { background: Shade::PrimaryBase, frame: Some(Shade::Text) },
        Styling::Value(changed) => Recipe {
            background: Shade::BackgroundBase,
            frame: Some(if changed { Shade::Danger } else { Shade::Text }),
        },
        Styling::RowAlternating(changed, index) => Recipe {
            background: if index % 2 == 0 {
                Shade::BackgroundBase
            } else {
                Shade::BackgroundWeak
            },
            frame: Some(if changed { Shade::Danger } else { Shade::Text }),
        },
        Styling::Divider(hovered) => Recipe {
            background: if hovered {
                Shade::PrimaryBase
            } else {
                Shade::BackgroundWeak
            },
            frame: None,
        },
    }
}

/// The colors of a theme that the recipes draw on.
#[derive(Debug, Clone, Copy, PartialEq)]
pub struct ThemeColors {
    /// The text color of the base palette.
    pub text: Color,
    /// The danger color of the base palette.
    pub danger: Color,
    /// The base color of the extended secondary set.
    pub secondary_base: Color,
    /// The base color of the extended primary set.
    pub primary_base: Color,
    /// The base color of the extended background set.
    pub background_base: Color,
    /// The weak color of the extended background set.
    pub background_weak: Color,
}

/// The color of the given shade among a theme's colors.
pub open spec fn shade_of(colors: ThemeColors, shade: Shade) -> Color {
    match shade {
        Shade::Text => colors.text,
        Shade::Danger => colors.danger,
        Shade::SecondaryBase => colors.secondary_base,
        Shade::PrimaryBase => colors.primary_base,
        Shade::BackgroundBase => colors.background_base,
        Shade::BackgroundWeak => colors.background_weak,
    }
}

/// Returns the color of the given shade among a theme's colors.
pub fn shade_color(colors: &ThemeColors, shade: Shade) -> (r: Color)
    ensures
        r == shade_of(*colors, shade),
{
    match shade {
        Shade::Text => colors.text,
        Shade::Danger => colors.danger,
        Shade::SecondaryBase => colors.secondary_base,
        Shade::PrimaryBase => colors.primary_base,
        Shade::BackgroundBase => colors.background_base,
        Shade::BackgroundWeak => colors.background_weak,
    }
}

/// `r` is the style that `recipe` describes on the base style `base` with
/// the theme's colors `colors`: the base text color, a solid background of
/// the recipe's shade, and where the recipe has a frame, the base border
/// `FRAME_WIDTH` wide in the frame's shade, else the base border.
pub open spec fn styled_by(r: Style, base: Style, colors: ThemeColors, recipe: Recipe) -> bool {
    &&& r.text_color == base.text_color
    &&& r.background == solid(shade_of(colors, recipe.background))
    &&& r.border == match recipe.frame {
        Some(s) => recolored(widened(base.border, FRAME_WIDTH), shade_of(colors, s)),
        None => base.border,
    }
}

/// Builds the style that a recipe describes on a base style: a solid
/// background of the recipe's shade, and where the recipe has a frame, the
/// base border `FRAME_WIDTH` wide in the frame's shade.
pub fn themed_style(base: Style, colors: &ThemeColors, recipe: Recipe) -> (r: Style)
    ensures
        styled_by(r, base, *colors, recipe),
{
    let style = base.background(solid_background(shade_color(colors, recipe.background)));
    match recipe.frame {
        Some(shade) => style.border(
            recolor(widen(style.border, FRAME_WIDTH), shade_color(colors, shade)),
        ),
        None => style,
    }
}

/// The theme styles each kind of cell by its recipe, on the default style
/// and the theme's colors.
impl Catalog for Theme {
    fn label(&self) -> (r: Style)
        ensures
            exists|base: Style|
                #[trigger] styled_by(r, base, colors_of(*self), recipe_of(Styling::Label)),
    {
        let base = Style::default();
        let colors = theme_colors(self);
        let r = themed_style(base, &colors, recipe(Styling::Label));
        assert(styled_by(r, base, colors_of(*self), recipe_of(Styling::Label)));
        r
    }

    fn read_only(&self) -> (r: Style)
        ensures
            exists|base: Style|
                #[trigger] styled_by(r, base, colors_of(*self), recipe_of(Styling::ReadOnly)),
    {
        let base = Style::default();
        let colors = theme_colors(self);
        let r = themed_style(base, &colors, recipe(Styling::ReadOnly));
        assert(styled_by(r, base, colors_of(*self), recipe_of(Styling::ReadOnly)));
        r
    }

    fn value(&self, changed: bool) -> (r: Style)
        ensures
            exists|base: Style|
                #[trigger] styled_by(r, base, colors_of(*self), recipe_of(Styling::Value(changed))),
    {
        let base = Style::default();
        let colors = theme_colors(self);
        let r = themed_style(base, &colors, recipe(Styling::Value(changed)));
        assert(styled_by(r, base, colors_of(*self), recipe_of(Styling::Value(changed))));
        r
    }

    fn row_alternating(&self, changed: bool, index: usize) -> (r: Style)
        ensures
            exists|base: Style|
                #[trigger] styled_by(
                    r,
                    base,
                    colors_of(*self),
                    recipe_of(Styling::RowAlternating(changed, index)),
                ),
    {
        let base = Style::default();
        let colors = theme_colors(self);
        let r = themed_style(base, &colors, recipe(Styling::RowAlternating(changed, index)));
        assert(styled_by(r, base, colors_of(*self), recipe_of(
            Styling::RowAlternating(changed, index),
        )));
        r
    }

    fn divider(&self, hovered: bool) -> (r: Style)
        ensures
            exists|base: Style|
                #[trigger] styled_by(
                    r,
                    base,
                    colors_of(*self),
                    recipe_of(Styling::Divider(hovered)),
                ),
    {
        let base = Style::default();
        let colors = theme_colors(self);
        let r = themed_style(base, &colors, recipe(Styling::Divider(hovered)));
        assert(styled_by(r, base, colors_of(*self), recipe_of(
            Styling::Divider(hovered),
        )));
        r
    }
}

/// A value cell whose value is not saved shows it in its border.
pub open spec fn shows_change(styling: Styling) -> bool {
    match styling {
        Styling::Value(changed) => changed,
        Styling::RowAlternating(changed, _) => changed,
        _ => false,
    }
}

/// Recolors the border of a style with the change color, where one is given
/// and the styling shows a change.
pub fn with_change_color(style: Style, styling: Styling, change_color: Option<Color>) -> (r: Style)
    ensures
        r.text_color == style.text_color,
        r.background == style.background,
        r.border == (if change_color is Some && shows_change(styling) {
            recolored(style.border, change_color->0)
        } else {
            style.border
        }),
{
    match change_color {
        Some(color) => {
            let changed = match styling {
                Styling::Value(changed) => changed,
                Styling::RowAlternating(changed, _) => changed,
                _ => false,
            };
            if changed {
                style.border(recolor(style.border, color))
            } else {
                style
            }
        },
        None => style,
    }
}

/// What `Background::from` makes of a color: a solid background.
pub uninterp spec fn solid(c: Color) -> Background;

/// What `Border::width` makes of a border: the same border, `w` wide.
pub uninterp spec fn widened(b: Border, w: u32) -> Border;

/// What `Border::color` makes of a border: the same border in another color.
pub uninterp spec fn recolored(b: Border, c: Color) -> Border;

/// Relies on `Background::from(Color)`: a solid background of the color.
#[verifier::external_body]
fn solid_background(c: Color) -> (r: Background)
    ensures
        r == solid(c),
{
    Background::from(c)
}

/// Relies on `Border::width`: the border with its width replaced.
#[verifier::external_body]
fn widen(b: Border, w: u32) -> (r: Border)
    ensures
        r == widened(b, w),
{
    b.width(w)
}

/// Relies on `Border::color`: the border with its color replaced.
#[verifier::external_body]
fn recolor(b: Border, c: Color) -> (r: Border)
    ensures
        r == recolored(b, c),
{
    b.color(c)
}

/// Relies on `Border::default`.
#[verifier::external_body]
fn default_border() -> Border {
    Border::default()
}

/// Relies on `Color::default`.
#[verifier::external_body]
fn default_color() -> Color {
    Color::default()
}

/// Relies on the constant `Color::TRANSPARENT`.
#[verifier::external_body]
fn transparent() -> Color {
    Color::TRANSPARENT
}

/// The text and danger colors of `Theme::palette`, which depends on the
/// theme alone.
pub uninterp spec fn palette_text_danger(t: Theme) -> (Color, Color);

/// The base colors of the secondary, primary and background sets, and the
/// weak color of the background set, of `Theme::extended_palette`, which
/// depends on the theme alone.
pub uninterp spec fn extended_bases(t: Theme) -> (Color, Color, Color, Color);

/// The colors of a theme that the recipes draw on.
pub open spec fn colors_of(t: Theme) -> ThemeColors {
    ThemeColors {
        text: palette_text_danger(t).0,
        danger: palette_text_danger(t).1,
        secondary_base: extended_bases(t).0,
        primary_base: extended_bases(t).1,
        background_base: extended_bases(t).2,
        background_weak: extended_bases(t).3,
    }
}

/// Relies on `Theme::palette`: its text and danger colors.
#[verifier::external_body]
fn palette_colors(theme: &Theme) -> (r: (Color, Color))
    ensures
        r == palette_text_danger(*theme),
{
    let palette = theme.palette();
    (palette.text, palette.danger)
}

/// Relies on `Theme::extended_palette`: the base colors of its secondary,
/// primary and background sets, and the weak color of its background set.
#[verifier::external_body]
fn extended_colors(theme: &Theme) -> (r: (Color, Color, Color, Color))
    ensures
        r == extended_bases(*theme),
{
    let extended = theme.extended_palette();
    (
        extended.secondary.base.color,
        extended.primary.base.color,
        extended.background.base.color,
        extended.background.weak.color,
    )
}

/// Gathers the colors of a theme that the recipes draw on.
pub fn theme_colors(theme: &Theme) -> (r: ThemeColors)
    ensures
        r == colors_of(*theme),
{
    let (text, danger) = palette_colors(theme);
    let (secondary_base, primary_base, background_base, background_weak) = extended_colors(theme);
    ThemeColors { text, danger, secondary_base, primary_base, background_base, background_weak }
}

} // verus!

use iced_core::{Background, Border, Color, Theme};
use iced_experimental::widget::cell::style::{
    recipe, shade_color, themed_style, theme_colors, with_change_color, Catalog, Recipe, Shade,
    Style, Styling, ThemeColors, FRAME_WIDTH,
};

fn colors() -> ThemeColors {
    ThemeColors {
        text: Color::from_rgb8(1, 0, 0),
        danger: Color::from_rgb8(2, 0, 0),
        secondary_base: Color::from_rgb8(3, 0, 0),
        primary_base: Color::from_rgb8(4, 0, 0),
        background_base: Color::from_rgb8(5, 0, 0),
        background_weak: Color::from_rgb8(6, 0, 0),
    }
}

#[test]
fn builders_replace_one_field() {
    let base = Style::default();
    let red = Color::from_rgb(1.0, 0.0, 0.0);
    let s = base.text_color(red);
    assert_eq!(s.text_color, red);
    assert_eq!(s.background, base.background);
    assert_eq!(s.border, base.border);

    let bg = Background::Color(Color::BLACK);
    let s = base.background(bg);
    assert_eq!(s.background, bg);
    assert_eq!(s.text_color, base.text_color);
    assert_eq!(s.border, base.border);

    let border = Border::default().width(3u32).color(red);
    let s = base.border(border);
    assert_eq!(s.border, border);
    assert_eq!(s.text_color, base.text_color);
    assert_eq!(s.background, base.background);
}

#[test]
fn default_style_is_transparent() {
    let s = Style::default();
    assert_eq!(s.text_color, Color::default());
    assert_eq!(s.background, Background::Color(Color::TRANSPARENT));
    assert_eq!(s.border, Border::default());
}

#[test]
fn recipes_of_each_styling() {
    assert_eq!(
        recipe(Styling::Label),
        Recipe { background: Shade::SecondaryBase, frame: Some(Shade::Text) }
    );
    assert_eq!(
        recipe(Styling::ReadOnly),
        Recipe { background: Shade::PrimaryBase, frame: Some(Shade::Text) }
    );
    assert_eq!(
        recipe(Styling::Value(false)),
        Recipe { background: Shade::BackgroundBase, frame: Some(Shade::Text) }
    );
    assert_eq!(
        recipe(Styling::Value(true)),
        Recipe { background: Shade::BackgroundBase, frame: Some(Shade::Danger) }
    );
    assert_eq!(
        recipe(Styling::RowAlternating(false, 4)),
        Recipe { background: Shade::BackgroundBase, frame: Some(Shade::Text) }
    );
    assert_eq!(
        recipe(Styling::RowAlternating(true, 7)),
        Recipe { background: Shade::BackgroundWeak, frame: Some(Shade::Danger) }
    );
    assert_eq!(
        recipe(Styling::Divider(true)),
        Recipe { background: Shade::PrimaryBase, frame: None }
    );
    assert_eq!(
        recipe(Styling::Divider(false)),
        Recipe { background: Shade::BackgroundWeak, frame: None }
    );
}

#[test]
fn shades_pick_their_colors() {
    let c = colors();
    assert_eq!(shade_color(&c, Shade::Text), c.text);
    assert_eq!(shade_color(&c, Shade::Danger), c.danger);
    assert_eq!(shade_color(&c, Shade::SecondaryBase), c.secondary_base);
    assert_eq!(shade_color(&c, Shade::PrimaryBase), c.primary_base);
    assert_eq!(shade_color(&c, Shade::BackgroundBase), c.background_base);
    assert_eq!(shade_color(&c, Shade::BackgroundWeak), c.background_weak);
}

#[test]
fn themed_style_frames_with_one_pixel() {
    let c = colors();
    let s = themed_style(Style::default(), &c, Recipe { background: Shade::PrimaryBase, frame: Some(Shade::Danger) });
    assert_eq!(s.background, Background::Color(c.primary_base));
    assert_eq!(
        s.border,
        Border { color: c.danger, width: 1.0, radius: Default::default() }
    );
    assert_eq!(FRAME_WIDTH, 1);
    assert_eq!(s.text_color, Color::default());

    let s = themed_style(Style::default(), &c, Recipe { background: Shade::BackgroundWeak, frame: None });
    assert_eq!(s.background, Background::Color(c.background_weak));
    assert_eq!(s.border, Border::default());

    let rounded = Style::default().border(Border::default().rounded(4u32).width(7u32));
    let s = themed_style(rounded, &c, Recipe { background: Shade::Text, frame: Some(Shade::Text) });
    assert_eq!(s.border, Border { color: c.text, width: 1.0, radius: 4u32.into() });
}

#[test]
fn theme_catalog_follows_the_recipes() {
    let theme = Theme::Light;
    let palette = theme.palette();
    let extended = theme.extended_palette();
    let c = theme_colors(&theme);
    assert_eq!(c.text, palette.text);
    assert_eq!(c.danger, palette.danger);
    assert_eq!(c.secondary_base, extended.secondary.base.color);
    assert_eq!(c.background_weak, extended.background.weak.color);

    let label = theme.label();
    assert_eq!(label.background, Background::Color(extended.secondary.base.color));
    assert_eq!(label.border.color, palette.text);
    assert_eq!(label.border.width, 1.0);

    let changed = theme.value(true);
    assert_eq!(changed.border.color, palette.danger);
    assert_eq!(changed.background, Background::Color(extended.background.base.color));

    let odd = theme.style(Styling::RowAlternating(false, 3));
    assert_eq!(odd.background, Background::Color(extended.background.weak.color));
    assert_eq!(odd.border.color, palette.text);

    let hovered = theme.style(Styling::Divider(true));
    assert_eq!(hovered.background, Background::Color(extended.primary.base.color));
    assert_eq!(hovered.border, Border::default());

    let read_only = theme.style(Styling::ReadOnly);
    assert_eq!(read_only, theme.read_only());
    assert_eq!(read_only.background, Background::Color(extended.primary.base.color));
}

#[test]
fn change_color_marks_unsaved_values_only() {
    let base = themed_style(Style::default(), &colors(), recipe(Styling::Value(true)));
    let mark = Color::from_rgb8(9, 9, 9);

    let s = with_change_color(base, Styling::Value(true), Some(mark));
    assert_eq!(s.border.color, mark);
    assert_eq!(s.border.width, base.border.width);
    assert_eq!(s.background, base.background);

    let s = with_change_color(base, Styling::RowAlternating(true, 2), Some(mark));
    assert_eq!(s.border.color, mark);

    assert_eq!(with_change_color(base, Styling::Value(false), Some(mark)), base);
    assert_eq!(with_change_color(base, Styling::Label, Some(mark)), base);
    assert_eq!(with_change_color(base, Styling::Value(true), None), base);
}

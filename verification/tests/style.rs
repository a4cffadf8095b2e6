use mctk::layout::Size;
use mctk::style::{
    base, FontWeight, HorizontalPosition, Style, StyleKey, StyleVal, Styled, ValueKind,
};
use mctk::types::Color;

#[test]
fn the_theme_sets_what_components_cannot_do_without() {
    assert_eq!(base(StyleKey::Radius), Some(StyleVal::Number(4)));
    assert_eq!(base(StyleKey::Padding), Some(StyleVal::Number(2)));
    assert_eq!(base(StyleKey::BorderWidth), Some(StyleVal::Number(1)));
    assert_eq!(base(StyleKey::FontSize), Some(StyleVal::Number(12)));
    assert_eq!(base(StyleKey::ActiveColor), Some(StyleVal::Color(Color::rgb(45, 138, 255))));
    assert_eq!(base(StyleKey::Size), Some(StyleVal::Size(Size::px(24, 24))));
    assert_eq!(
        base(StyleKey::HAlignment),
        Some(StyleVal::HorizontalPosition(HorizontalPosition::Left))
    );
    assert_eq!(base(StyleKey::Font), None);
    assert_eq!(base(StyleKey::FontWeight), None);
    assert_eq!(base(StyleKey::LineHeight), None);
}

#[test]
fn the_instance_wins_over_the_class_and_the_class_over_the_theme() {
    let plain = Styled::new();
    assert_eq!(plain.style_val(StyleKey::Radius), Some(StyleVal::Number(4)));
    let class = Style::new().set(StyleKey::Radius, Some(StyleVal::Number(9)));
    let classed = plain.with_class(class);
    assert_eq!(classed.style_val(StyleKey::Radius), Some(StyleVal::Number(9)));
    assert_eq!(classed.style_val(StyleKey::Padding), Some(StyleVal::Number(2)));
    let both = classed.style(StyleKey::Radius, StyleVal::Number(1));
    assert_eq!(both.style_val(StyleKey::Radius), Some(StyleVal::Number(1)));
    assert_eq!(both.number(StyleKey::Radius), 1);
    // the order of the calls does not matter
    let other = Styled::new().style(StyleKey::Radius, StyleVal::Number(1)).with_class(class);
    assert_eq!(other, both);
}

#[test]
fn optional_properties_resolve_to_none_unless_a_layer_sets_them() {
    let plain = Styled::new();
    assert_eq!(plain.style_val(StyleKey::Font), None);
    let with_font = plain.maybe_style(StyleKey::Font, Some(StyleVal::Font(3)));
    assert_eq!(with_font.style_val(StyleKey::Font), Some(StyleVal::Font(3)));
    assert_eq!(plain.maybe_style(StyleKey::Font, None), plain);
    let weighted = Styled::new()
        .with_class(Style::new().set(StyleKey::FontWeight, Some(StyleVal::FontWeight(FontWeight::Bold))));
    assert_eq!(
        weighted.style_val(StyleKey::FontWeight),
        Some(StyleVal::FontWeight(FontWeight::Bold))
    );
}

fn value_for(key: StyleKey, n: u8) -> StyleVal {
    match key.value_kind() {
        ValueKind::Number => StyleVal::Number(n as i64),
        ValueKind::Color => StyleVal::Color(Color::rgb(n, n, n)),
        ValueKind::Size => StyleVal::Size(Size::px(n as i64, n as i64)),
        ValueKind::HorizontalPosition => StyleVal::HorizontalPosition(HorizontalPosition::Right),
        ValueKind::FontWeight => StyleVal::FontWeight(FontWeight::Medium),
        ValueKind::Font => StyleVal::Font(n as u32),
    }
}

const KEYS: [StyleKey; 14] = [
    StyleKey::Radius,
    StyleKey::Padding,
    StyleKey::ActiveColor,
    StyleKey::HighlightColor,
    StyleKey::BackgroundColor,
    StyleKey::BorderColor,
    StyleKey::BorderWidth,
    StyleKey::FontSize,
    StyleKey::TextColor,
    StyleKey::HAlignment,
    StyleKey::Font,
    StyleKey::FontWeight,
    StyleKey::LineHeight,
    StyleKey::Size,
];

#[test]
fn a_layer_keeps_one_value_for_every_property() {
    let mut layer = Style::new();
    for (i, key) in KEYS.iter().enumerate() {
        assert_eq!(layer.get(*key), None);
        let val = value_for(*key, i as u8);
        assert!(val.fits(*key));
        layer = layer.set(*key, Some(val));
    }
    for (i, key) in KEYS.iter().enumerate() {
        assert_eq!(layer.get(*key), Some(value_for(*key, i as u8)));
    }
    layer = layer.set(StyleKey::Font, None);
    assert_eq!(layer.get(StyleKey::Font), None);
    assert_eq!(layer.get(StyleKey::FontWeight), Some(StyleVal::FontWeight(FontWeight::Medium)));
}

#[test]
fn every_property_takes_values_of_one_type() {
    assert_eq!(StyleKey::Radius.value_kind(), ValueKind::Number);
    assert_eq!(StyleKey::Padding.value_kind(), ValueKind::Number);
    assert_eq!(StyleKey::BorderWidth.value_kind(), ValueKind::Number);
    assert_eq!(StyleKey::FontSize.value_kind(), ValueKind::Number);
    assert_eq!(StyleKey::LineHeight.value_kind(), ValueKind::Number);
    assert_eq!(StyleKey::ActiveColor.value_kind(), ValueKind::Color);
    assert_eq!(StyleKey::HighlightColor.value_kind(), ValueKind::Color);
    assert_eq!(StyleKey::BackgroundColor.value_kind(), ValueKind::Color);
    assert_eq!(StyleKey::BorderColor.value_kind(), ValueKind::Color);
    assert_eq!(StyleKey::TextColor.value_kind(), ValueKind::Color);
    assert_eq!(StyleKey::HAlignment.value_kind(), ValueKind::HorizontalPosition);
    assert_eq!(StyleKey::Font.value_kind(), ValueKind::Font);
    assert_eq!(StyleKey::FontWeight.value_kind(), ValueKind::FontWeight);
    assert_eq!(StyleKey::Size.value_kind(), ValueKind::Size);
    assert!(StyleVal::Number(5).fits(StyleKey::Radius));
    assert!(!StyleVal::Number(5).fits(StyleKey::TextColor));
    assert!(!StyleVal::Color(Color::rgb(1, 2, 3)).fits(StyleKey::Radius));
    assert!(!StyleVal::Font(5).fits(StyleKey::FontWeight));
    // the theme holds values of the right type
    for key in KEYS {
        if let Some(v) = base(key) {
            assert!(v.fits(key));
        }
    }
}

#[test]
fn typed_values_are_read_by_their_type() {
    assert_eq!(StyleVal::Number(5).number(), 5);
    assert_eq!(StyleVal::Color(Color::rgb(1, 2, 3)).color(), Color::rgb(1, 2, 3));
    assert_eq!(StyleVal::Size(Size::px(1, 2)).size(), Size::px(1, 2));
    let s = Styled::new()
        .style(StyleKey::Radius, StyleVal::Number(7))
        .style(StyleKey::TextColor, StyleVal::Color(Color::rgb(1, 2, 3)))
        .with_class(Style::new().set(StyleKey::Size, Some(StyleVal::Size(Size::px(3, 4)))));
    assert_eq!(s.number(StyleKey::Radius), 7);
    assert_eq!(s.number(StyleKey::Padding), 2);
    assert_eq!(s.color(StyleKey::TextColor), Color::rgb(1, 2, 3));
    assert_eq!(s.color(StyleKey::BorderColor), Color::rgb(83, 83, 83));
    assert_eq!(s.size(StyleKey::Size), Size::px(3, 4));
    assert_eq!(Styled::new().size(StyleKey::Size), Size::px(24, 24));
    assert_eq!(s.style_val(StyleKey::LineHeight), None);
}

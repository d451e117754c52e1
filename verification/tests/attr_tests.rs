use ukko::attribute::{
    Accumulate, Additive, AlignmentBaseline, Attr, AttributeName, Begin, CalcMode, Class,
    ComplexCursor, Cursor, CursorType, Data, Decoding, Direction, DominantBaseline, Dur, EdgeMode,
    End,
};
use ukko::color::{ColorInterpolationMethod, HexColor, HueInterpolationMethod, PolarColorSpace,
    RectangularColorSpace};
use ukko::display::{DisplayBox, DisplayInsideMath, DisplayListItem, DisplayOutside,
    DisplayOutsideInside, FlowOrRoot};
use ukko::number::Number;
use ukko::path::{PathCommand, PathShape};
use ukko::value::{BeginEnd, BeginValue, ClockValue, Event, FillRule, GeometryBox, Length,
    LengthUnit, ShapeBox, SignedClockValue, VisualBox, Wallclock};
use ukko::{Attribute, UkkoError};

#[test]
fn enum_attr_values() {
    assert_eq!(Accumulate::NoneValue.value(), "none");
    assert_eq!(Accumulate::Sum.name(), "Accumulate");
    assert_eq!(Additive::Replace.value(), "replace");
    assert_eq!(AlignmentBaseline::TextBeforeEdge.value(), "text-before-edge");
    assert!(AlignmentBaseline::Auto.is_limited());
    assert!(!Additive::Sum.is_limited());
    assert_eq!(CalcMode::Paced.value(), "paced");
    assert_eq!(Decoding::Async.value(), "async");
    assert_eq!(Direction::Rtl.value(), "rtl");
    assert_eq!(DominantBaseline::TextTop.value(), "text-top");
    assert_eq!(EdgeMode::NoneValue.value(), "none");
    assert_eq!(EdgeMode::Duplicate.name(), "edgeMode");
}

#[test]
fn name_value_renders_pair() {
    assert_eq!(Accumulate::Sum.name_value(), "Accumulate=\"sum\"");
    assert_eq!(
        AttributeName("opacity".to_string()).name_value(),
        "attributeName=\"opacity\""
    );
}

#[test]
fn data_attribute_prefixes_name() {
    let a = Data("row".to_string(), "7".to_string());
    assert_eq!(a.name(), "data-row");
    assert_eq!(a.value(), "7");
}

#[test]
fn class_joins_with_spaces() {
    let c = Class(vec!["a".to_string(), "b".to_string(), "c".to_string()]);
    assert_eq!(c.value(), "a b c");
    assert_eq!(Class(vec![]).value(), "");
}

#[test]
fn cursor_renders_urls_then_keyword() {
    let plain = Cursor::Complex(ComplexCursor(vec![], CursorType::Pointer));
    assert_eq!(plain.value(), "pointer");
    let with_urls = Cursor::Complex(ComplexCursor(
        vec!["url(a.cur)".to_string(), "url(b.cur)".to_string()],
        CursorType::DefaultCursor,
    ));
    assert_eq!(with_urls.value(), "url(a.cur),url(b.cur),default");
    assert_eq!(Cursor::Inherit.value(), "inherit");
}

#[test]
fn clock_value_renders_padded() {
    let cv = ClockValue::new(3661, 5);
    assert_eq!(cv.hours(), 1);
    assert_eq!(cv.minutes(), 1);
    assert_eq!(cv.seconds(), 1);
    assert_eq!(cv.milliseconds(), 5);
    assert_eq!(cv.to_text(), "01:01:01.5");
    assert_eq!(ClockValue::new(45296, 0).to_text(), "12:34:56");
    assert_eq!(Dur::ClockValue(ClockValue::new(90, 250)).value(), "00:01:30.250");
    assert_eq!(Dur::Indefinite.value(), "indefinite");
}

#[test]
fn begin_values_render() {
    let sync = BeginValue::SyncBase(
        "intro".to_string(),
        BeginEnd::End,
        Some(SignedClockValue(true, ClockValue::new(5, 0))),
    );
    assert_eq!(sync.to_text(), "intro.end+00:00:05");
    let ev = BeginValue::Event("btn".to_string(), Event::Click, None);
    assert_eq!(ev.to_text(), "btn.click");
    let rep = BeginValue::Repeat("anim".to_string(), 2, None);
    assert_eq!(rep.to_text(), "anim.repeat(2)");
    let key = BeginValue::AccessKey('k', Some(SignedClockValue(false, ClockValue::new(1, 0))));
    assert_eq!(key.to_text(), "accessKey(k)-00:00:01");
    let list = Begin(vec![ev, rep]);
    assert_eq!(list.value(), "btn.click;anim.repeat(2)");
    assert_eq!(End(vec![]).value(), "");
}

#[test]
fn wallclock_renders_iso8601() {
    let w = Wallclock {
        year: 2024,
        month: 3,
        day: 7,
        hour: 9,
        minute: 30,
        second: 5,
        nanosecond: 120_000_000,
        offset_negative: false,
        offset_hour: 2,
        offset_minute: 0,
    };
    assert_eq!(
        BeginValue::WallclockSync(w).to_text(),
        "wallclock(2024-03-07T09:30:05.12+02:00)"
    );
    let early = Wallclock {
        year: 99,
        month: 12,
        day: 31,
        hour: 23,
        minute: 59,
        second: 59,
        nanosecond: 0,
        offset_negative: true,
        offset_hour: 5,
        offset_minute: 30,
    };
    assert_eq!(early.to_text(), "0099-12-31T23:59:59.0-05:30");
}

#[test]
fn hex_colors_render() {
    assert_eq!(HexColor::Three(15, 0, 15).to_text(), "#F0F");
    assert_eq!(HexColor::Three(99, 0, 1).to_text(), "#F01");
    assert_eq!(HexColor::Four(1, 2, 3, 4).to_text(), "#1234");
    assert_eq!(HexColor::Six(0xA1, 0xB2, 0xC3).to_text(), "#A1B2C3");
    assert_eq!(HexColor::Eight(0, 1, 0xFE, 0xFF).to_text(), "#0001FEFF");
}

#[test]
fn color_spaces_render() {
    assert_eq!(RectangularColorSpace::XyzD50.to_text(), "xyz-d50");
    assert_eq!(PolarColorSpace::OkLch.to_text(), "oklch");
    assert_eq!(HueInterpolationMethod::Longer.to_text(), "longer hue");
    assert_eq!(
        ColorInterpolationMethod::RectangularColorSpace(RectangularColorSpace::Srgb).to_text(),
        "in srgb"
    );
    assert_eq!(
        ColorInterpolationMethod::PolarColorSpace(
            PolarColorSpace::Hsl,
            Some(HueInterpolationMethod::Shorter)
        )
        .to_text(),
        "in hsl shorter hue"
    );
}

#[test]
fn display_values_render() {
    assert_eq!(DisplayOutside::RunIn.to_text(), "run-in");
    assert_eq!(
        DisplayOutsideInside::OutsideInside(DisplayOutside::Block, DisplayInsideMath::Math)
            .to_text(),
        "block math"
    );
    assert_eq!(
        DisplayListItem(Some(DisplayOutside::Inline), Some(FlowOrRoot::FlowRoot)).to_text(),
        "inline flow-root list-item"
    );
    assert_eq!(DisplayListItem(None, None).to_text(), "list-item");
    assert_eq!(DisplayBox::NoneValue.to_text(), "none");
}

#[test]
fn box_and_shape_values_render() {
    assert_eq!(FillRule::EvenOdd.to_text(), "evenodd");
    assert_eq!(ShapeBox::VisualBox(VisualBox::PaddingBox).to_text(), "padding-box");
    assert_eq!(ShapeBox::MarginBox.to_text(), "margin-box");
    assert_eq!(GeometryBox::ViewBox.to_text(), "view-box");
    assert_eq!(GeometryBox::ShapeBox(ShapeBox::MarginBox).to_text(), "margin-box");
}

#[test]
fn lengths_render_with_units() {
    assert_eq!(LengthUnit::QuarterMillimeters.to_text(), "Q");
    let l = Length(Number::new(false, 125, 1), Some(LengthUnit::Pixels));
    assert_eq!(l.to_text(), "12.5px");
    let bare = Length(Number::from_int(4), None);
    assert_eq!(bare.to_text(), "4");
}

#[test]
fn path_shape_is_an_attribute() {
    let shape = PathShape::from_str("M 10,10 Z").unwrap();
    assert_eq!(shape.key(), "d");
    assert_eq!(shape.value(), "M 10,10\nZ");
    assert_eq!(shape.fmt_str(), "d=\"M 10,10\nZ\"");
    let back = PathShape::from_key_value(("D".to_string(), "M 10,10 Z".to_string())).unwrap();
    assert_eq!(back, shape);
    match PathShape::from_key_value(("x".to_string(), "M 10,10".to_string())) {
        Err(UkkoError::TODO) => {}
        other => panic!("expected the unsupported-key error, got {:?}", other),
    }
    match PathShape::from_key_value(("d".to_string(), "L 10".to_string())) {
        Err(UkkoError::ParseError(m)) => assert_eq!(m, "Not a tuple."),
        other => panic!("expected a parse error, got {:?}", other),
    }
    let kv = <(String, String) as Attribute>::from_key_value((
        "stroke".to_string(),
        "red".to_string(),
    ))
    .unwrap();
    assert_eq!(kv.fmt_str(), "stroke=\"red\"");
}

#[test]
fn path_command_as_char() {
    let command = PathCommand::from_str("q 1,1 2,2").unwrap();
    assert_eq!(command.command.as_char(), 'Q');
    assert_eq!(PathCommand::close().command.as_char(), 'Z');
}

use ukko::attribute::{
    Amplitude, Attr, BaseFrequency, BaselineShift, Clip, ClipPath, Color, Cx, Dx,
};
use ukko::color::{ColorInterpolationMethod, CssColor, HexColor, RectangularColorSpace};
use ukko::number::Number;
use ukko::position::{
    Position, PositionFourAlignHorizontal, PositionFourAlignVertical, PositionOne, PositionTwo,
    PositionTwoAlignHorizontal, PositionTwoAlignVertical, PositionFour,
};
use ukko::value::{
    BasicShape, BasicShapeRect, BorderRadius, FillRule, Length, LengthPercentage,
    LengthPercentageAuto, LengthUnit, RadialExtent, RadialSize,
};

fn px(i: u64) -> LengthPercentage {
    LengthPercentage::Length(Length(Number::from_int(i), Some(LengthUnit::Pixels)))
}

fn pct(neg: bool, mant: u64, scale: u32) -> LengthPercentage {
    LengthPercentage::Percentage(Number::new(neg, mant, scale))
}

#[test]
fn percentages_scale_to_percent() {
    assert_eq!(pct(false, 3, 1).to_text(), "30%");
    assert_eq!(pct(false, 1, 0).to_text(), "100%");
    assert_eq!(pct(false, 125, 3).to_text(), "12.5%");
    assert_eq!(pct(true, 5, 1).to_text(), "-50%");
    assert_eq!(px(10).to_text(), "10px");
    assert_eq!(
        LengthPercentageAuto::LengthPercentage(px(3)).to_text(),
        "3px"
    );
    assert_eq!(LengthPercentageAuto::Auto.to_text(), "auto");
}

#[test]
fn positions_render() {
    assert_eq!(PositionOne::BlockStart.to_text(), "block-start");
    assert_eq!(PositionOne::LengthPercentage(pct(false, 1, 1)).to_text(), "10%");
    assert_eq!(
        Position::Two(PositionTwo::Align(
            PositionTwoAlignHorizontal::Left,
            PositionTwoAlignVertical::LengthPercentage(px(4)),
        ))
        .to_text(),
        "left 4px"
    );
    assert_eq!(
        Position::Four(PositionFour::Align(
            (PositionFourAlignHorizontal::Left, pct(false, 1, 1)),
            (PositionFourAlignVertical::Top, pct(false, 2, 1)),
        ))
        .to_text(),
        "left 10% top 20%"
    );
}

#[test]
fn basic_shapes_render() {
    let rect = BasicShapeRect::Xywh(px(1), px(2), px(3), px(4), Some(BorderRadius(px(5), None)));
    assert_eq!(
        BasicShape::BasicShapeRect(rect).to_text(),
        "xywh(1px 2px 3px 4px round 5px)"
    );
    let inset = BasicShapeRect::Inset(px(1), Some(px(2)), None, None, None);
    assert_eq!(BasicShape::BasicShapeRect(inset).to_text(), "inset(1px 2px)");
    assert_eq!(
        BasicShape::Circle(
            RadialSize::RadialExtent(RadialExtent::ClosestSide),
            Some(Position::One(PositionOne::Center)),
        )
        .to_text(),
        "circle(closest-side at center)"
    );
    assert_eq!(
        BasicShape::Polygon(
            Some(FillRule::NonZero),
            None,
            Some(vec![(px(1), px(2)), (px(3), px(4))]),
        )
        .to_text(),
        "polygon(nonzero,1px 2px 3px 4px)"
    );
    assert_eq!(
        BasicShape::Polygon(None, None, Some(vec![(px(1), px(2))])).to_text(),
        "polygon(1px 2px)"
    );
    assert_eq!(
        BasicShape::Path(Some(FillRule::EvenOdd), "M 0,0 Z".to_string()).to_text(),
        "path(evenodd M 0,0 Z)"
    );
}

#[test]
fn clip_attributes_render() {
    let l = |i: u64| Length(Number::from_int(i), Some(LengthUnit::Pixels));
    assert_eq!(Clip::Auto.value(), "auto");
    assert_eq!(
        Clip::Rect(l(1), l(2), l(3), l(4)).value(),
        "rect(1px,2px,3px,4px)"
    );
    assert_eq!(ClipPath::Url("#c".to_string()).value(), "url(#c)");
    assert_eq!(ClipPath::NoneValue.value(), "none");
}

#[test]
fn css_colors_render() {
    assert_eq!(CssColor::Keyword("red".to_string()).to_text(), "red");
    assert_eq!(CssColor::Hex(HexColor::Six(0, 0, 0)).to_text(), "#000000");
    let mix = CssColor::ColorMix(
        ColorInterpolationMethod::RectangularColorSpace(RectangularColorSpace::Srgb),
        Box::new(CssColor::Keyword("red".to_string())),
        Some(Number::from_int(30)),
        Box::new(CssColor::Keyword("blue".to_string())),
        None,
    );
    assert_eq!(mix.to_text(), "color-mix(in srgb,red 30,blue)");
    let ld = CssColor::LightDark(
        Box::new(CssColor::Keyword("white".to_string())),
        Box::new(CssColor::Keyword("black".to_string())),
    );
    assert_eq!(ld.to_text(), "light-dark(white, black)");
    assert_eq!(Color::Color(CssColor::Keyword("red".to_string())).value(), "red");
    assert_eq!(Color::Inherit.value(), "inherit");
}

#[test]
fn numeric_attributes_render() {
    assert_eq!(Amplitude::default().value(), "1");
    assert_eq!(Amplitude(Number::new(false, 25, 1)).value(), "2.5");
    assert_eq!(
        BaseFrequency(Number::new(false, 5, 2), Some(Number::new(false, 6, 2))).value(),
        "0.05 0.06"
    );
    assert_eq!(BaseFrequency(Number::from_int(2), None).value(), "2");
    assert_eq!(BaselineShift::Sub.value(), "sub");
    assert_eq!(
        BaselineShift::LengthPercentage(Number::new(true, 15, 1)).value(),
        "-1.5"
    );
    assert_eq!(Cx(px(7)).value(), "7px");
    assert_eq!(Dx::Number(Number::from_int(3)).value(), "3");
    assert_eq!(Dx::List(vec![px(1), pct(false, 5, 1)]).value(), "1px 50%");
}

#[test]
fn defaults_match_reference_values() {
    assert_eq!(Amplitude::default().value(), "1");
    assert_eq!(BaselineShift::default().value(), "0");
    assert_eq!(Clip::default().value(), "auto");
    assert_eq!(ClipPath::default().value(), "none");
    assert_eq!(Color::default().value(), "inherit");
    assert_eq!(ukko::attribute::Dur::default().value(), "indefinite");
    assert_eq!(ukko::value::ClockValue::default().to_text(), "00:00:00");
}

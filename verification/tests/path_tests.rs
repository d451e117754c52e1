use ukko::number::Number;
use ukko::path::{PathCommand, PathCommandKind, PathShape};
use ukko::UkkoError;

fn n(i: u64) -> Number {
    Number::from_int(i)
}

fn d(neg: bool, mant: u64, scale: u32) -> Number {
    Number::new(neg, mant, scale)
}

#[test]
fn test_shape_parse() {
    let c_str = "M 10,10";
    let command = PathCommand::from_str(c_str).unwrap();
    assert_eq!(command, PathCommand::move_to((n(10), n(10))));
    let c_str = "L 10,10";
    let command = PathCommand::from_str(c_str).unwrap();
    assert_eq!(command, PathCommand::line_to((n(10), n(10))));
    let c_str = "H 10";
    let command = PathCommand::from_str(c_str).unwrap();
    assert_eq!(command, PathCommand::horizontal_line_to(n(10)));
    let c_str = "V 10";
    let command = PathCommand::from_str(c_str).unwrap();
    assert_eq!(command, PathCommand::vertical_line_to(n(10)));
    let c_str = "C 10,10 10,10 3.5,10";
    let command = PathCommand::from_str(c_str).unwrap();
    assert_eq!(
        command,
        PathCommand::cubic_bezier_curve((d(false, 35, 1), n(10)), (n(10), n(10)), (n(10), n(10)))
    );
    let c_str = "S 10,10 3.5,10";
    let command = PathCommand::from_str(c_str).unwrap();
    assert_eq!(
        command,
        PathCommand::cubic_bezier_curve_smooth((d(false, 35, 1), n(10)), (n(10), n(10)))
    );
    let c_str = "Q 10,10 3.5,10";
    let command = PathCommand::from_str(c_str).unwrap();
    assert_eq!(
        command,
        PathCommand::quadratic_bezier_curve((d(false, 35, 1), n(10)), (n(10), n(10)))
    );
    let c_str = "T 3.5,10";
    let command = PathCommand::from_str(c_str).unwrap();
    assert_eq!(
        command,
        PathCommand::quadratic_bezier_curve_smooth((d(false, 35, 1), n(10)))
    );
    let c_str = "A 1 1 1 0 1 3.5,10";
    let command = PathCommand::from_str(c_str).unwrap();
    assert_eq!(
        command,
        PathCommand::elliptical_arc_curve((d(false, 35, 1), n(10)), n(1), n(1), n(1), false, true)
    );
    let c_str = "Z";
    let command = PathCommand::from_str(c_str).unwrap();
    assert_eq!(command, PathCommand::close());

    let c_str = "m 10,10";
    let command = PathCommand::from_str(c_str).unwrap();
    assert_eq!(command, PathCommand::move_to((n(10), n(10))).relative());
    let c_str = "l 10,10";
    let command = PathCommand::from_str(c_str).unwrap();
    assert_eq!(command, PathCommand::line_to((n(10), n(10))).relative());
    let c_str = "h 10";
    let command = PathCommand::from_str(c_str).unwrap();
    assert_eq!(command, PathCommand::horizontal_line_to(n(10)).relative());
    let c_str = "v 10";
    let command = PathCommand::from_str(c_str).unwrap();
    assert_eq!(command, PathCommand::vertical_line_to(n(10)).relative());
    let c_str = "c 10,10 10,10 3.5,10";
    let command = PathCommand::from_str(c_str).unwrap();
    assert_eq!(
        command,
        PathCommand::cubic_bezier_curve((d(false, 35, 1), n(10)), (n(10), n(10)), (n(10), n(10)))
            .relative()
    );
    let c_str = "s 10,10 3.5,10";
    let command = PathCommand::from_str(c_str).unwrap();
    assert_eq!(
        command,
        PathCommand::cubic_bezier_curve_smooth((d(false, 35, 1), n(10)), (n(10), n(10))).relative()
    );
    let c_str = "q 10,10 3.5,10";
    let command = PathCommand::from_str(c_str).unwrap();
    assert_eq!(
        command,
        PathCommand::quadratic_bezier_curve((d(false, 35, 1), n(10)), (n(10), n(10))).relative()
    );
    let c_str = "t 3.5,10";
    let command = PathCommand::from_str(c_str).unwrap();
    assert_eq!(
        command,
        PathCommand::quadratic_bezier_curve_smooth((d(false, 35, 1), n(10))).relative()
    );
    let c_str = "a 1 1 1 0 1 3.5,10";
    let command1 = PathCommand::from_str(c_str).unwrap();
    assert_eq!(
        command1,
        PathCommand::elliptical_arc_curve((d(false, 35, 1), n(10)), n(1), n(1), n(1), false, true)
            .relative()
    );
    let c_str = "z";
    let command2 = PathCommand::from_str(c_str).unwrap();
    assert_eq!(command2, PathCommand::close().relative());
    let c_str = "a 1 1 1 0 1 3.5,10. z";
    let shape = PathShape::from_str(c_str).unwrap();
    assert_eq!(
        shape,
        PathShape::new().with_commands(vec![command1, command2])
    )
}

#[test]
fn test_shape_fmt() {
    let command1 = PathCommand::line_to((n(10), n(10)));
    let command2 = PathCommand::move_to((n(20), n(20)));
    let command3 = PathCommand::horizontal_line_to(d(false, 35, 1));
    let command4 = PathCommand::vertical_line_to(d(false, 35, 1));
    let command5 = PathCommand::cubic_bezier_curve((n(10), n(10)), (n(5), n(5)), (n(4), n(4)));
    let command6 = PathCommand::cubic_bezier_curve_smooth((n(10), n(10)), (n(5), n(5)));
    let command7 = PathCommand::quadratic_bezier_curve((n(10), n(10)), (n(5), n(5)));
    let command8 = PathCommand::quadratic_bezier_curve_smooth((n(10), n(10)));
    let command9 =
        PathCommand::elliptical_arc_curve((n(10), n(10)), n(4), n(1), d(false, 3, 1), false, true);
    let command10 = PathCommand::close();

    let shape = PathShape {
        elements: vec![
            command1, command2, command3, command4, command5, command6, command7, command8,
            command9, command10,
        ],
    };
    assert_eq!(
        "\
        L 10,10\n\
        M 20,20\n\
        H 3.5\n\
        V 3.5\n\
        C 5,5 4,4 10,10\n\
        S 5,5 10,10\n\
        Q 5,5 10,10\n\
        T 10,10\n\
        A 4 1 0.3 0 1 10,10\n\
        Z",
        shape.format().as_str()
    )
}

#[test]
fn round_trip_every_letter() {
    let canonical = [
        "M 10,10", "m 10,10", "L 1,2", "l -1,2.5", "H 5", "h 0.5", "V 7", "v -7", "C 1,1 2,2 3,3",
        "c 1,1 2,2 3,3", "S 1,1 2,2", "s 1,1 2,2", "Q 1,1 2,2", "q 1,1 2,2", "T 9,9", "t 9,9",
        "A 1 2 45 0 1 10,10", "a 1 2 45 1 0 10,10", "Z", "z",
    ];
    for text in canonical {
        let command = PathCommand::from_str(text).unwrap();
        assert_eq!(command.format().as_str(), text);
    }
}

#[test]
fn letter_case_records_relative() {
    let lower = PathCommand::from_str("m 10,10").unwrap();
    assert!(lower.relative);
    assert_eq!(lower.command, PathCommandKind::MoveTo);
    assert_eq!(lower.format().as_str(), "m 10,10");
    let upper = PathCommand::from_str("M 10,10").unwrap();
    assert!(!upper.relative);
    assert_eq!(upper.format().as_str(), "M 10,10");
}

#[test]
fn cubic_argument_order() {
    let command = PathCommand::from_str("C 1,1 2,2 3,3").unwrap();
    assert_eq!(
        command.command,
        PathCommandKind::CubicBezierCurve((n(1), n(1)), (n(2), n(2)))
    );
    assert_eq!(command.movement, (n(3), n(3)));
    assert_eq!(command.format().as_str(), "C 1,1 2,2 3,3");
}

#[test]
fn arc_flags_normalize() {
    let command = PathCommand::from_str("A 1 1 0 5 -1 10,10").unwrap();
    assert_eq!(
        command.command,
        PathCommandKind::EllipticalArcCurve(n(1), n(1), n(0), true, true)
    );
    assert_eq!(command.format().as_str(), "A 1 1 0 1 1 10,10");
    let command = PathCommand::from_str("A 1 1 0 0 127 10,10").unwrap();
    assert_eq!(command.format().as_str(), "A 1 1 0 0 1 10,10");
}

#[test]
fn concatenated_commands_split() {
    let shape = PathShape::from_str("M 10,10z").unwrap();
    assert_eq!(
        shape.elements,
        vec![
            PathCommand::move_to((n(10), n(10))),
            PathCommand::close().relative(),
        ]
    );
}

#[test]
fn malformed_input_is_rejected() {
    match PathCommand::from_str("") {
        Err(UkkoError::ParseError(m)) => assert_eq!(m, "Not a command."),
        other => panic!("expected a parse error, got {:?}", other),
    }
    match PathCommand::from_str("X 1,1") {
        Err(UkkoError::ParseError(m)) => assert_eq!(m, "Not a command."),
        other => panic!("expected a parse error, got {:?}", other),
    }
    match PathCommand::from_str("L 10") {
        Err(UkkoError::ParseError(m)) => assert_eq!(m, "Not a tuple."),
        other => panic!("expected a parse error, got {:?}", other),
    }
    match PathCommand::from_str("L") {
        Err(UkkoError::ParseError(m)) => assert_eq!(m, "Not enough arguments."),
        other => panic!("expected a parse error, got {:?}", other),
    }
    match PathCommand::from_str("L xx,1") {
        Err(UkkoError::ParseError(m)) => assert_eq!(m, "invalid float literal"),
        other => panic!("expected a parse error, got {:?}", other),
    }
    match PathCommand::from_str("A 1 1 0 x 1 10,10") {
        Err(UkkoError::ParseError(m)) => assert_eq!(m, "invalid digit found in string"),
        other => panic!("expected a parse error, got {:?}", other),
    }
    match PathCommand::from_str("A 1 1 0 200 1 10,10") {
        Err(UkkoError::ParseError(m)) => {
            assert_eq!(m, "number too large to fit in target type")
        }
        other => panic!("expected a parse error, got {:?}", other),
    }
    assert!(PathShape::from_str("M 10,10 L 10").is_err());
}

#[test]
fn shape_round_trip_with_newlines() {
    let text = "M 10,10 S 1,1 10,10 z";
    let shape = PathShape::from_str(text).unwrap();
    assert_eq!(
        shape.elements,
        vec![
            PathCommand::move_to((n(10), n(10))),
            PathCommand::cubic_bezier_curve_smooth((n(10), n(10)), (n(1), n(1))),
            PathCommand::close().relative(),
        ]
    );
    assert_eq!(shape.format().as_str(), "M 10,10\nS 1,1 10,10\nz");
    let again = PathShape::from_str(shape.format().as_str()).unwrap();
    assert_eq!(again, shape);
}

#[test]
fn empty_shape() {
    let shape = PathShape::from_str("").unwrap();
    assert_eq!(shape.elements, vec![]);
    assert_eq!(shape.format().as_str(), "");
}

#[test]
fn numbers_normalize_through_parse() {
    let command = PathCommand::from_str("H 003.500").unwrap();
    assert_eq!(command, PathCommand::horizontal_line_to(d(false, 35, 1)));
    assert_eq!(command.format().as_str(), "H 3.5");
    let command = PathCommand::from_str("H .25").unwrap();
    assert_eq!(command.format().as_str(), "H 0.25");
    let command = PathCommand::from_str("H +7.").unwrap();
    assert_eq!(command.format().as_str(), "H 7");
    let command = PathCommand::from_str("H -0.125").unwrap();
    assert_eq!(command, PathCommand::horizontal_line_to(d(true, 125, 3)));
    assert_eq!(command.format().as_str(), "H -0.125");
}

use labra_minus::errors::RuntimeError;
use labra_minus::evaluate::evaluate;
use labra_minus::parsetree::parse;
use labra_minus::parsetree::ParseTree;
use labra_minus::value::ExactList;
use labra_minus::value::List;
use labra_minus::value::Value;

const FUEL: u64 = 1_000_000;

fn run(expr: &str, input: Value) -> Result<Value, RuntimeError> {
    let pt = parse(expr).expect("parse error");
    evaluate(&pt, &input, FUEL).expect("fuel exhausted")
}

#[test]
fn single_number() {
    let result = evaluate(&ParseTree::Number { n: 0, line: 0 }, &Value::Number(0), FUEL)
        .expect("fuel exhausted")
        .expect("evaluation failure");
    if let Value::Number(n) = result {
        assert_eq!(n, 0);
    } else {
        panic!("Bad return type");
    }
}

#[test]
fn single_input() {
    let mut result = evaluate(&ParseTree::Input { line: 0 }, &Value::Number(5), FUEL)
        .expect("fuel exhausted")
        .expect("evaluation failure");
    if let Value::Number(n) = result {
        assert_eq!(n, 5);
    } else {
        panic!("Bad return type");
    }

    let newlist = vec![Value::Number(5)];
    result = evaluate(
        &ParseTree::Input { line: 0 },
        &Value::List(List::Exact(ExactList::new(newlist))),
        FUEL,
    )
    .expect("fuel exhausted")
    .expect("evaluation failure");
    if let Value::List(l) = result {
        let len = l.length().expect("indexing failure");
        assert_eq!(len, 1);
        if let Value::Number(n) = l.index(0, FUEL).expect("fuel exhausted").expect(
            "indexing failure",
        ) {
            assert_eq!(n, 5);
        } else {
            panic!("Bad return type");
        }
    } else {
        panic!("Bad return type");
    }
}

#[test]
fn single_emptylist() {
    let result = evaluate(&ParseTree::EmptyList { line: 0 }, &Value::Number(99), FUEL)
        .expect("fuel exhausted")
        .expect("evaluation failure");
    if let Value::List(l) = result {
        let len = l.length().expect("indexing failure");
        assert_eq!(len, 0);
    } else {
        panic!("Bad return type");
    }
}

#[test]
fn single_encapsulate() {
    let result = evaluate(
        &ParseTree::Encapsulate {
            arg: Box::new(ParseTree::Number { n: 7, line: 0 }),
            line: 0,
        },
        &Value::Number(99),
        FUEL,
    )
    .expect("fuel exhausted")
    .expect("evaluation failure");
    if let Value::List(l) = result {
        let len = l.length().expect("indexing failure");
        assert_eq!(len, 1);
        if let Value::Number(n) = l.index(0, FUEL).expect("fuel exhausted").expect(
            "indexing failure",
        ) {
            assert_eq!(n, 7);
        } else {
            panic!("Bad return type");
        }
    } else {
        panic!("Bad return type");
    }
}

#[test]
fn single_length() {
    let mut result = evaluate(
        &ParseTree::Length { arg: Box::new(ParseTree::Number { n: 4, line: 0 }), line: 0 },
        &Value::Number(0),
        FUEL,
    )
    .expect("fuel exhausted")
    .expect("evaluation failure");
    if let Value::Number(n) = result {
        assert_eq!(n, 4);
    } else {
        panic!("Bad return type");
    }

    result = evaluate(
        &ParseTree::Length { arg: Box::new(ParseTree::Number { n: -94, line: 0 }), line: 0 },
        &Value::Number(0),
        FUEL,
    )
    .expect("fuel exhausted")
    .expect("evaluation failure");
    if let Value::Number(n) = result {
        assert_eq!(n, 94);
    } else {
        panic!("Bad return type");
    }

    result = evaluate(
        &ParseTree::Length { arg: Box::new(ParseTree::EmptyList { line: 0 }), line: 0 },
        &Value::Number(0),
        FUEL,
    )
    .expect("fuel exhausted")
    .expect("evaluation failure");
    if let Value::Number(n) = result {
        assert_eq!(n, 0);
    } else {
        panic!("Bad return type");
    }

    result = evaluate(
        &ParseTree::Length {
            arg: Box::new(ParseTree::Encapsulate {
                arg: Box::new(ParseTree::Number { n: 34, line: 0 }),
                line: 0,
            }),
            line: 0,
        },
        &Value::Number(0),
        FUEL,
    )
    .expect("fuel exhausted")
    .expect("evaluation failure");
    if let Value::Number(n) = result {
        assert_eq!(n, 1);
    } else {
        panic!("Bad return type");
    }
}

#[test]
fn invalid_operation_test() {
    let mut result = evaluate(
        &ParseTree::Addition {
            arg1: Box::new(ParseTree::Number { n: 4, line: 0 }),
            arg2: Box::new(ParseTree::EmptyList { line: 1 }),
            line: 2,
        },
        &Value::Number(0),
        FUEL,
    )
    .expect("fuel exhausted");
    if let Err(e) = result {
        if let RuntimeError::MismatchedTypes(_, _) = e {
            assert_eq!(e.message(), String::from("Cannot add number and list (line 2)"));
        } else {
            panic!("wrong error");
        }
    } else {
        panic!("expected error")
    }

    result = evaluate(
        &ParseTree::Addition {
            arg1: Box::new(ParseTree::EmptyList { line: 0 }),
            arg2: Box::new(ParseTree::Number { n: 4, line: 0 }),
            line: 0,
        },
        &Value::Number(0),
        FUEL,
    )
    .expect("fuel exhausted");
    assert!(result.is_err());

    result = evaluate(
        &ParseTree::IndexSubtraction {
            arg1: Box::new(ParseTree::Number { n: 4, line: 0 }),
            arg2: Box::new(ParseTree::EmptyList { line: 0 }),
            line: 0,
        },
        &Value::Number(0),
        FUEL,
    )
    .expect("fuel exhausted");
    assert!(result.is_err());

    result = evaluate(
        &ParseTree::IndexSubtraction {
            arg1: Box::new(ParseTree::EmptyList { line: 0 }),
            arg2: Box::new(ParseTree::Number { n: 4, line: 0 }),
            line: 0,
        },
        &Value::Number(0),
        FUEL,
    )
    .expect("fuel exhausted");
    assert!(result.is_err());
}

#[test]
fn addition_test() {
    let result = run("1(2)(6)", Value::Number(0)).expect("evaluation failure");
    if let Value::Number(n) = result {
        assert_eq!(n, 9);
    } else {
        panic!("Bad return type");
    }
}

#[test]
fn concat_test() {
    // should return [2,3,[]]
    let result = run("2[](3[])([][])", Value::Number(0)).expect("evaluation failure");
    if let Value::List(l) = result {
        let len = l.length().expect("indexing failure");
        assert_eq!(len, 3);
        match l.index(0, FUEL).expect("fuel exhausted").expect("indexing failure") {
            Value::Number(n) => assert_eq!(n, 2),
            _ => panic!("bad return type"),
        }
        match l.index(1, FUEL).expect("fuel exhausted").expect("indexing failure") {
            Value::Number(n) => assert_eq!(n, 3),
            _ => panic!("bad return type"),
        }
    } else {
        panic!("Bad return type");
    }
}

#[test]
fn subtraction_test() {
    let result = run("1(2)[5]", Value::Number(0)).expect("evaluation failure");
    if let Value::Number(n) = result {
        assert_eq!(n, -2);
    } else {
        panic!("Bad return type");
    }
}

#[test]
fn index_test() {
    // [2,3,[4,5]] [2] [0]
    let result = run("2[](3[])(4[](5[])[])[2][0]", Value::Number(0)).expect("evaluation failure");
    if let Value::Number(n) = result {
        assert_eq!(n, 4);
    } else {
        panic!("Bad return type");
    }
}

#[test]
fn basic_induction_test() {
    let result = run("1(0][5]", Value::Number(0)).expect("evaluation failure");
    if let Value::Number(n) = result {
        assert_eq!(n, 0);
    } else {
        panic!("Bad return type");
    }
}

#[test]
fn index0_induction_test() {
    let result = run("1(0][0]", Value::Number(0)).expect("evaluation failure");
    if let Value::Number(n) = result {
        assert_eq!(n, 1);
    } else {
        panic!("Bad return type");
    }
}

#[test]
fn induction_input_test() {
    let result = run("2(()(1)][5]", Value::Number(0)).expect("evaluation failure");
    if let Value::Number(n) = result {
        assert_eq!(n, 7);
    } else {
        panic!("Bad return type");
    }
}

#[test]
fn basic_map_test() {
    let result = run("2[](3[][])[0)()", Value::Number(0)).expect("evaluation failure");
    if let Value::Number(n) = result {
        assert_eq!(n, 2);
    } else {
        panic!("Bad return type");
    }

    let result = run("2[](3[][])[0)[1]", Value::Number(0)).expect("evaluation failure");
    if let Value::Number(n) = result {
        assert_eq!(n, 0);
    } else {
        panic!("Bad return type");
    }
}

#[test]
fn input_map_test() {
    let result = run("2[](3[])(5[])[()(()))[1]", Value::Number(0)).expect("evaluation failure");
    if let Value::Number(n) = result {
        assert_eq!(n, 6);
    } else {
        panic!("Bad return type");
    }
}

#[test]
fn compound_invalid_operation_test() {
    // invalid map
    let result = run("0[0)", Value::Number(0));
    assert!(result.is_err());

    // invalid operation inside a map
    let result = run("0[][()([]))[0]", Value::Number(0));
    assert!(result.is_err());
}

#[test]
fn wrapping_arithmetic() {
    let t = ParseTree::Addition {
        arg1: Box::new(ParseTree::Number { n: i64::MAX, line: 1 }),
        arg2: Box::new(ParseTree::Number { n: 1, line: 1 }),
        line: 1,
    };
    let result = evaluate(&t, &Value::Number(0), FUEL)
        .expect("fuel exhausted")
        .expect("evaluation failure");
    if let Value::Number(n) = result {
        assert_eq!(n, i64::MIN);
    } else {
        panic!("Bad return type");
    }
}

#[test]
fn index_out_of_bounds() {
    let result = run("0[][1]", Value::Number(0));
    assert!(matches!(result, Err(RuntimeError::OutOfBounds)));
    let result = run("0[][0(2)[4]]", Value::Number(0));
    assert!(matches!(result, Err(RuntimeError::OutOfBounds)));
}

#[test]
fn length_of_infinite_list() {
    let result = run("0(0]()", Value::Number(0));
    assert!(matches!(result, Err(RuntimeError::ResolvingInfiniteList)));
}

#[test]
fn induction_fixed_point() {
    // the constant step function reaches its fixed point immediately, so a
    // negative index returns it
    let t = ParseTree::IndexSubtraction {
        arg1: Box::new(ParseTree::Induction {
            arg1: Box::new(ParseTree::Number { n: 3, line: 1 }),
            arg2: Box::new(ParseTree::Number { n: 7, line: 1 }),
            line: 1,
        }),
        arg2: Box::new(ParseTree::Number { n: -1, line: 1 }),
        line: 1,
    };
    let result = evaluate(&t, &Value::Number(0), FUEL)
        .expect("fuel exhausted")
        .expect("evaluation failure");
    if let Value::Number(n) = result {
        assert_eq!(n, 7);
    } else {
        panic!("Bad return type");
    }
}

#[test]
fn fuel_exhaustion_is_reported() {
    // an induction whose step keeps growing has no fixed point; the fuel
    // bound ends the search with None rather than an answer
    let t = ParseTree::IndexSubtraction {
        arg1: Box::new(ParseTree::Induction {
            arg1: Box::new(ParseTree::Number { n: 0, line: 1 }),
            arg2: Box::new(ParseTree::Addition {
                arg1: Box::new(ParseTree::Input { line: 1 }),
                arg2: Box::new(ParseTree::Number { n: 1, line: 1 }),
                line: 1,
            }),
            line: 1,
        }),
        arg2: Box::new(ParseTree::Number { n: -1, line: 1 }),
        line: 1,
    };
    assert!(evaluate(&t, &Value::Number(0), 1000).is_none());
}

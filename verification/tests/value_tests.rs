use labra_minus::parsetree::ParseTree;
use labra_minus::value::list_eq_helper;
use labra_minus::value::value_eq;
use labra_minus::value::ExactList;
use labra_minus::value::LazyConcatList;
use labra_minus::value::LazyInductionList;
use labra_minus::value::LazyMapList;
use labra_minus::value::List;
use labra_minus::value::Value;

const FUEL: u64 = 1_000_000;

fn number_list(ns: &[i64]) -> ExactList {
    let mut items: Vec<Value> = Vec::new();
    for n in ns {
        items.push(Value::Number(*n));
    }
    ExactList::new(items)
}

fn rendered(v: &Value) -> String {
    v.to_string(FUEL).expect("fuel exhausted").expect("formatting failure")
}

#[test]
fn value_negative_index() {
    let el = number_list(&[1, 2]);

    match el.index(-1, FUEL).expect("fuel exhausted").expect("indexing error") {
        Value::Number(n) => assert_eq!(n, 2),
        _ => panic!("Bad return type"),
    }
    match el.index(-2, FUEL).expect("fuel exhausted").expect("indexing error") {
        Value::Number(n) => assert_eq!(n, 1),
        _ => panic!("Bad return type"),
    }
}

#[test]
fn value_simple_concat() {
    let el1 = number_list(&[1, 2]);
    let el2 = number_list(&[3, 4]);
    let lcl = LazyConcatList::new(List::Exact(el1), List::Exact(el2));

    assert_eq!(lcl.length().expect("length error"), 4);
    match lcl.index(0, FUEL).expect("fuel exhausted").expect("length error") {
        Value::Number(n) => assert_eq!(n, 1),
        _ => panic!("Bad return type"),
    }
    match lcl.index(1, FUEL).expect("fuel exhausted").expect("length error") {
        Value::Number(n) => assert_eq!(n, 2),
        _ => panic!("Bad return type"),
    }
    match lcl.index(2, FUEL).expect("fuel exhausted").expect("length error") {
        Value::Number(n) => assert_eq!(n, 3),
        _ => panic!("Bad return type"),
    }
    match lcl.index(3, FUEL).expect("fuel exhausted").expect("length error") {
        Value::Number(n) => assert_eq!(n, 4),
        _ => panic!("Bad return type"),
    }
}

#[test]
fn value_compound_concat() {
    let el1 = number_list(&[1, 2]);
    let el2 = number_list(&[3, 4]);
    let el3 = number_list(&[5, 6]);
    let lcl1 = LazyConcatList::new(List::Exact(el1), List::Exact(el2));
    let lcl2 = LazyConcatList::new(List::Concat(Box::new(lcl1)), List::Exact(el3));

    assert_eq!(lcl2.length().expect("length error"), 6);
    match lcl2.index(0, FUEL).expect("fuel exhausted").expect("index error") {
        Value::Number(n) => assert_eq!(n, 1),
        _ => panic!("Bad return type"),
    }
    match lcl2.index(2, FUEL).expect("fuel exhausted").expect("index error") {
        Value::Number(n) => assert_eq!(n, 3),
        _ => panic!("Bad return type"),
    }
    match lcl2.index(4, FUEL).expect("fuel exhausted").expect("index error") {
        Value::Number(n) => assert_eq!(n, 5),
        _ => panic!("Bad return type"),
    }
}

#[test]
fn value_format_test() {
    let a = Value::Number(0);
    assert_eq!(rendered(&a), "0");
    let a = Value::List(List::Exact(number_list(&[0])));
    assert_eq!(rendered(&a), "[0]");
    let a = Value::List(List::Exact(number_list(&[0, 5])));
    assert_eq!(rendered(&a), "[0, 5]");
}

#[test]
fn value_advanced_format_test() {
    let a = Value::List(List::Induction(Box::new(LazyInductionList::new(
        ParseTree::EmptyList { line: 0 },
        Value::Number(0),
    ))));
    assert_eq!(rendered(&a), "[...]");

    let a = Value::List(List::Mapping(Box::new(LazyMapList::new(
        ParseTree::Addition {
            arg1: Box::new(ParseTree::Input { line: 0 }),
            arg2: Box::new(ParseTree::Input { line: 0 }),
            line: 0,
        },
        List::Exact(number_list(&[1, 2])),
    ))));
    assert_eq!(rendered(&a), "[2, 4]");
}

#[test]
fn value_nested_format_test() {
    let a = Value::List(List::Exact(ExactList::new(vec![
        Value::List(List::Induction(Box::new(LazyInductionList::new(
            ParseTree::EmptyList { line: 0 },
            Value::Number(0),
        )))),
        Value::List(List::Exact(number_list(&[0, 1]))),
        Value::List(List::Exact(number_list(&[2]))),
        Value::Number(3),
        Value::Number(4),
        Value::List(List::Exact(ExactList::new(vec![]))),
    ])));
    assert_eq!(rendered(&a), "[[...], [0, 1], [2], 3, 4, []]");
}

#[test]
fn value_invalid_format_test() {
    let a = Value::List(List::Mapping(Box::new(LazyMapList::new(
        ParseTree::Addition {
            arg1: Box::new(ParseTree::Input { line: 0 }),
            arg2: Box::new(ParseTree::EmptyList { line: 0 }),
            line: 0,
        },
        List::Exact(number_list(&[0, 1])),
    ))));

    assert!(a.to_string(FUEL).expect("fuel exhausted").is_err());
}

#[test]
fn value_map_error_test() {
    let a = LazyMapList::new(
        ParseTree::Addition {
            arg1: Box::new(ParseTree::Input { line: 0 }),
            arg2: Box::new(ParseTree::EmptyList { line: 0 }),
            line: 0,
        },
        List::Exact(number_list(&[0, 1])),
    );
    assert!(a.index(0, FUEL).expect("fuel exhausted").is_err());
}

#[test]
fn mod_negative_index() {
    let el = number_list(&[1, 2]);

    match el.index(-1, FUEL).expect("fuel exhausted").expect("indexing error") {
        Value::Number(n) => assert_eq!(n, 2),
        _ => panic!("Bad return type"),
    }
    match el.index(-2, FUEL).expect("fuel exhausted").expect("indexing error") {
        Value::Number(n) => assert_eq!(n, 1),
        _ => panic!("Bad return type"),
    }
}

#[test]
fn mod_simple_concat() {
    let el1 = number_list(&[1, 2]);
    let el2 = number_list(&[3, 4]);
    let lcl = LazyConcatList::new(List::Exact(el1), List::Exact(el2));

    assert_eq!(lcl.length().expect("length error"), 4);
    match lcl.index(0, FUEL).expect("fuel exhausted").expect("length error") {
        Value::Number(n) => assert_eq!(n, 1),
        _ => panic!("Bad return type"),
    }
    match lcl.index(1, FUEL).expect("fuel exhausted").expect("length error") {
        Value::Number(n) => assert_eq!(n, 2),
        _ => panic!("Bad return type"),
    }
    match lcl.index(2, FUEL).expect("fuel exhausted").expect("length error") {
        Value::Number(n) => assert_eq!(n, 3),
        _ => panic!("Bad return type"),
    }
    match lcl.index(3, FUEL).expect("fuel exhausted").expect("length error") {
        Value::Number(n) => assert_eq!(n, 4),
        _ => panic!("Bad return type"),
    }
}

#[test]
fn mod_compound_concat() {
    let el1 = number_list(&[1, 2]);
    let el2 = number_list(&[3, 4]);
    let el3 = number_list(&[5, 6]);
    let lcl1 = LazyConcatList::new(List::Exact(el1), List::Exact(el2));
    let lcl2 = LazyConcatList::new(List::Concat(Box::new(lcl1)), List::Exact(el3));

    assert_eq!(lcl2.length().expect("length error"), 6);
    match lcl2.index(0, FUEL).expect("fuel exhausted").expect("index error") {
        Value::Number(n) => assert_eq!(n, 1),
        _ => panic!("Bad return type"),
    }
    match lcl2.index(2, FUEL).expect("fuel exhausted").expect("index error") {
        Value::Number(n) => assert_eq!(n, 3),
        _ => panic!("Bad return type"),
    }
    match lcl2.index(4, FUEL).expect("fuel exhausted").expect("index error") {
        Value::Number(n) => assert_eq!(n, 5),
        _ => panic!("Bad return type"),
    }
}

#[test]
fn mod_format_test() {
    let a = Value::Number(0);
    assert_eq!(rendered(&a), "0");
    let a = Value::List(List::Exact(number_list(&[0])));
    assert_eq!(rendered(&a), "[0]");
    let a = Value::List(List::Exact(number_list(&[0, 5])));
    assert_eq!(rendered(&a), "[0, 5]");
}

#[test]
fn mod_advanced_format_test() {
    let a = Value::List(List::Induction(Box::new(LazyInductionList::new(
        ParseTree::EmptyList { line: 0 },
        Value::Number(0),
    ))));
    assert_eq!(rendered(&a), "[...]");

    let a = Value::List(List::Mapping(Box::new(LazyMapList::new(
        ParseTree::Addition {
            arg1: Box::new(ParseTree::Input { line: 0 }),
            arg2: Box::new(ParseTree::Input { line: 0 }),
            line: 0,
        },
        List::Exact(number_list(&[1, 2])),
    ))));
    assert_eq!(rendered(&a), "[2, 4]");
}

#[test]
fn mod_nested_format_test() {
    let a = Value::List(List::Exact(ExactList::new(vec![
        Value::List(List::Induction(Box::new(LazyInductionList::new(
            ParseTree::EmptyList { line: 0 },
            Value::Number(0),
        )))),
        Value::List(List::Exact(number_list(&[0, 1]))),
        Value::List(List::Exact(number_list(&[2]))),
        Value::Number(3),
        Value::Number(4),
        Value::List(List::Exact(ExactList::new(vec![]))),
    ])));
    assert_eq!(rendered(&a), "[[...], [0, 1], [2], 3, 4, []]");
}

#[test]
fn mod_invalid_format_test() {
    let a = Value::List(List::Mapping(Box::new(LazyMapList::new(
        ParseTree::Addition {
            arg1: Box::new(ParseTree::Input { line: 0 }),
            arg2: Box::new(ParseTree::EmptyList { line: 0 }),
            line: 0,
        },
        List::Exact(number_list(&[0, 1])),
    ))));

    assert!(a.to_string(FUEL).expect("fuel exhausted").is_err());
}

#[test]
fn mod_map_error_test() {
    let a = LazyMapList::new(
        ParseTree::Addition {
            arg1: Box::new(ParseTree::Input { line: 0 }),
            arg2: Box::new(ParseTree::EmptyList { line: 0 }),
            line: 0,
        },
        List::Exact(number_list(&[0, 1])),
    );
    assert!(a.index(0, FUEL).expect("fuel exhausted").is_err());
}

#[test]
fn negative_format() {
    let a = Value::Number(-271);
    assert_eq!(rendered(&a), "-271");
    let a = Value::Number(i64::MIN);
    assert_eq!(rendered(&a), "-9223372036854775808");
}

#[test]
fn structural_equality() {
    let a = Value::List(List::Exact(number_list(&[1, 2])));
    let b = Value::List(List::Exact(number_list(&[1, 2])));
    let c = Value::List(List::Exact(number_list(&[1, 3])));
    assert_eq!(value_eq(&a, &b, FUEL), Some(true));
    assert_eq!(value_eq(&a, &c, FUEL), Some(false));
    assert_eq!(value_eq(&a, &Value::Number(1), FUEL), Some(false));

    let l1 = List::Exact(number_list(&[4]));
    let l2 = List::Exact(number_list(&[4]));
    assert_eq!(list_eq_helper(&l1, &l2, FUEL).expect("fuel exhausted"), Ok(true));
}

#[test]
fn infinite_lists_incomparable() {
    let i1 = Value::List(List::Induction(Box::new(LazyInductionList::new(
        ParseTree::Input { line: 0 },
        Value::Number(0),
    ))));
    let i2 = Value::List(List::Induction(Box::new(LazyInductionList::new(
        ParseTree::Input { line: 0 },
        Value::Number(0),
    ))));
    assert_eq!(value_eq(&i1, &i2, FUEL), Some(false));
}

#[test]
fn force_resolve_values() {
    let fine = Value::List(List::Exact(ExactList::new(vec![
        Value::Number(1),
        Value::List(List::Exact(number_list(&[2]))),
    ])));
    assert_eq!(fine.force_resolve(FUEL), Some(Ok(())));

    let infinite = Value::List(List::Exact(ExactList::new(vec![Value::List(List::Induction(
        Box::new(LazyInductionList::new(ParseTree::Input { line: 0 }, Value::Number(0))),
    ))])));
    assert_eq!(
        infinite.force_resolve(FUEL),
        Some(Err(labra_minus::errors::RuntimeError::ResolvingInfiniteList))
    );
}

#[test]
fn duplicate_preserves_structure() {
    let a = Value::List(List::Exact(ExactList::new(vec![
        Value::Number(9),
        Value::List(List::Exact(number_list(&[8, 7]))),
    ])));
    let b = a.duplicate();
    assert_eq!(value_eq(&a, &b, FUEL), Some(true));
    assert_eq!(rendered(&b), "[9, [8, 7]]");
}

#[test]
fn map_index_twice_agrees() {
    let m = LazyMapList::new(
        ParseTree::Addition {
            arg1: Box::new(ParseTree::Input { line: 0 }),
            arg2: Box::new(ParseTree::Number { n: 10, line: 0 }),
            line: 0,
        },
        List::Exact(number_list(&[1, 2, 3])),
    );
    let first = m.index(1, FUEL).expect("fuel exhausted").expect("index error");
    let second = m.index(1, FUEL).expect("fuel exhausted").expect("index error");
    assert_eq!(value_eq(&first, &second, FUEL), Some(true));
    match first {
        Value::Number(n) => assert_eq!(n, 12),
        _ => panic!("Bad return type"),
    }
}

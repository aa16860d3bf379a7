use labra_minus::codec::list_to_string;
use labra_minus::codec::string_to_list;
use labra_minus::codec::StringError;
use labra_minus::errors::MismatchKind;
use labra_minus::errors::RuntimeError;
use labra_minus::value::ExactList;
use labra_minus::value::List;
use labra_minus::value::Value;

const FUEL: u64 = 1_000_000;

#[test]
fn codec_round_trip() {
    let original = String::from("Hello, list!");
    let v = string_to_list(&original).expect("conversion failure");
    let back = list_to_string(&v, FUEL).expect("fuel exhausted").expect("conversion failure");
    assert_eq!(back, original);
}

#[test]
fn string_to_codepoints() {
    let v = string_to_list(&String::from("hi")).expect("conversion failure");
    if let Value::List(l) = v {
        assert_eq!(l.length().expect("length error"), 2);
        match l.index(0, FUEL).expect("fuel exhausted").expect("index error") {
            Value::Number(n) => assert_eq!(n, 104),
            _ => panic!("Bad return type"),
        }
        match l.index(1, FUEL).expect("fuel exhausted").expect("index error") {
            Value::Number(n) => assert_eq!(n, 105),
            _ => panic!("Bad return type"),
        }
    } else {
        panic!("Bad return type");
    }
}

#[test]
fn codepoints_to_string() {
    let v = Value::List(List::Exact(ExactList::new(vec![
        Value::Number(104),
        Value::Number(105),
        Value::Number(0x1F600),
    ])));
    let s = list_to_string(&v, FUEL).expect("fuel exhausted").expect("conversion failure");
    assert_eq!(s, "hi\u{1F600}");
}

#[test]
fn invalid_codepoints_rejected() {
    let number = Value::Number(104);
    assert_eq!(list_to_string(&number, FUEL), Some(Err(StringError)));

    let negative = Value::List(List::Exact(ExactList::new(vec![Value::Number(-1)])));
    assert_eq!(list_to_string(&negative, FUEL), Some(Err(StringError)));

    let surrogate = Value::List(List::Exact(ExactList::new(vec![Value::Number(0xD800)])));
    assert_eq!(list_to_string(&surrogate, FUEL), Some(Err(StringError)));

    let too_big = Value::List(List::Exact(ExactList::new(vec![Value::Number(0x110000)])));
    assert_eq!(list_to_string(&too_big, FUEL), Some(Err(StringError)));

    let nested = Value::List(List::Exact(ExactList::new(vec![Value::List(List::Exact(
        ExactList::new(vec![]),
    ))])));
    assert_eq!(list_to_string(&nested, FUEL), Some(Err(StringError)));
}

#[test]
fn error_messages() {
    let e = RuntimeError::MismatchedTypes(MismatchKind::SubtractOrIndexWithList, 12);
    assert_eq!(e.message(), "Cannot subtract or index with list (line 12)");
    let e = RuntimeError::MismatchedTypes(MismatchKind::MapNumber, 3);
    assert_eq!(e.message(), "Attempt to map number on line 3");
}

#[test]
fn parse_error_messages() {
    let e = labra_minus::parsetree::parse("@").expect_err("expected a parse error");
    assert_eq!(
        e.message(),
        "Invalid Character Error - found invalid character '@' at 1:1"
    );
    let e = labra_minus::parsetree::parse("(").expect_err("expected a parse error");
    assert_eq!(e.message(), "Unexpected EOF");
    let e = labra_minus::parsetree::parse("").expect_err("expected a parse error");
    assert_eq!(e.message(), "Empty File");
}

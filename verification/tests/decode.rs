use params_de::{Params, ParamsDeserializationError, ParamsDeserializer};

#[derive(Debug, Clone, PartialEq)]
struct Path {
    principal: String,
    path: String,
}

/// The receiving side of a two-field struct: picks each field by its key.
fn path_from_entries(entries: &[(&str, &str)]) -> Option<Path> {
    let mut principal: Option<String> = None;
    let mut path: Option<String> = None;
    for (key, value) in entries {
        match *key {
            "principal" => principal = Some((*value).to_owned()),
            "path" => path = Some((*value).to_owned()),
            _ => return None,
        }
    }
    Some(Path { principal: principal?, path: path? })
}

fn user_path() -> [(&'static str, &'static str); 2] {
    [("principal", "user"), ("path", "interesting")]
}

#[test]
fn test() {
    let mut router = matchit::Router::new();
    router.insert("/{principal}/{path}", ()).unwrap();
    let matchit::Match { params, .. } = router.at("/user/interesting").unwrap();

    let params: Vec<(&str, &str)> = params.iter().collect();
    let params = Params::new(params.as_slice());

    let deserializer = ParamsDeserializer::new(params);

    let entries = deserializer.deserialize_struct("Path", &["principal", "path"]).unwrap();
    let path = path_from_entries(&entries).unwrap();
    assert_eq!(
        path,
        Path { principal: "user".to_owned(), path: "interesting".to_owned() }
    );

    let values = deserializer.deserialize_tuple(2).unwrap();
    assert_eq!(values.len(), 2);
    let path = (values[0].to_owned(), values[1].to_owned());
    assert_eq!(path, ("user".to_owned(), "interesting".to_owned()));
}

#[test]
fn struct_is_served_with_its_entries() {
    let raw = user_path();
    let d = ParamsDeserializer::new(Params::new(&raw));
    let entries = d.deserialize_struct("Path", &["principal", "path"]).unwrap();
    assert_eq!(entries, vec![("principal", "user"), ("path", "interesting")]);
    assert_eq!(
        path_from_entries(&entries),
        Some(Path { principal: "user".to_owned(), path: "interesting".to_owned() })
    );
    assert_eq!(d.deserialize_map().unwrap(), entries);
}

#[test]
fn tuple_of_two_texts() {
    let raw = user_path();
    let d = ParamsDeserializer::new(Params::new(&raw));
    assert_eq!(d.deserialize_tuple(2).unwrap(), vec!["user", "interesting"]);
    assert_eq!(d.deserialize_tuple_struct("Pair", 2).unwrap(), vec!["user", "interesting"]);
}

#[test]
fn params_views_agree() {
    let raw = [("a", "1"), ("b", "2"), ("a", "3")];
    let p = Params::new(&raw);
    assert_eq!(p.len(), 3);
    assert_eq!(p.values(), vec!["1", "2", "3"]);
    assert_eq!(p.iter_entries(), vec![("a", "1"), ("b", "2"), ("a", "3")]);
    assert_eq!(p.value_at(2), "3");
    let empty: [(&str, &str); 0] = [];
    let p = Params::new(&empty);
    assert_eq!(p.len(), 0);
    assert!(p.values().is_empty());
    assert!(p.iter_entries().is_empty());
}

fn assert_wrong_number(e: ParamsDeserializationError, got: usize, expected: usize) {
    match e {
        ParamsDeserializationError::WrongNumberOfParameters { got: g, expected: x } => {
            assert_eq!(g, got);
            assert_eq!(x, expected);
        }
        other => panic!("unexpected error {:?}", other),
    }
}

fn assert_parse_error(e: ParamsDeserializationError, value: &str, expected_type: &str) {
    match e {
        ParamsDeserializationError::ParseError { value: v, expected_type: t } => {
            assert_eq!(v, value);
            assert_eq!(t, expected_type);
        }
        other => panic!("unexpected error {:?}", other),
    }
}

fn assert_unsupported<T: std::fmt::Debug>(r: Result<T, ParamsDeserializationError>, target: &str) {
    match r {
        Err(ParamsDeserializationError::UnsupportedType(name)) => assert_eq!(name, target),
        other => panic!("unexpected result {:?}", other),
    }
}

#[test]
fn scalar_needs_exactly_one_parameter() {
    let empty: [(&str, &str); 0] = [];
    let d = ParamsDeserializer::new(Params::new(&empty));
    assert_wrong_number(d.deserialize_bool().unwrap_err(), 0, 1);
    assert_wrong_number(d.deserialize_i8().unwrap_err(), 0, 1);
    assert_wrong_number(d.deserialize_u128().unwrap_err(), 0, 1);
    assert_wrong_number(d.deserialize_string().unwrap_err(), 0, 1);
    assert_wrong_number(d.deserialize_byte_buf().unwrap_err(), 0, 1);
    assert_wrong_number(d.deserialize_char().unwrap_err(), 0, 1);
    assert_wrong_number(d.single_value().unwrap_err(), 0, 1);

    let raw = user_path();
    let d = ParamsDeserializer::new(Params::new(&raw));
    assert_wrong_number(d.deserialize_bool().unwrap_err(), 2, 1);
    assert_wrong_number(d.deserialize_i64().unwrap_err(), 2, 1);
    assert_wrong_number(d.deserialize_u16().unwrap_err(), 2, 1);
    assert_wrong_number(d.deserialize_string().unwrap_err(), 2, 1);
    assert_wrong_number(d.deserialize_char().unwrap_err(), 2, 1);

    let three = [("n", "1"), ("n", "2"), ("n", "3")];
    let d = ParamsDeserializer::new(Params::new(&three));
    assert_wrong_number(d.deserialize_u32().unwrap_err(), 3, 1);
}

#[test]
fn signed_integer_rejects_letters() {
    let raw = [("n", "abc")];
    let d = ParamsDeserializer::new(Params::new(&raw));
    assert_parse_error(d.deserialize_i64().unwrap_err(), "abc", "i64");
    assert_parse_error(d.deserialize_i8().unwrap_err(), "abc", "i8");
    assert_parse_error(d.deserialize_i16().unwrap_err(), "abc", "i16");
    assert_parse_error(d.deserialize_i32().unwrap_err(), "abc", "i32");
    assert_parse_error(d.deserialize_i128().unwrap_err(), "abc", "i128");
}

#[test]
fn unsigned_integer_rejects_letters() {
    let raw = [("n", "abc")];
    let d = ParamsDeserializer::new(Params::new(&raw));
    assert_parse_error(d.deserialize_u8().unwrap_err(), "abc", "u8");
    assert_parse_error(d.deserialize_u16().unwrap_err(), "abc", "u16");
    assert_parse_error(d.deserialize_u32().unwrap_err(), "abc", "u32");
    assert_parse_error(d.deserialize_u64().unwrap_err(), "abc", "u64");
    assert_parse_error(d.deserialize_u128().unwrap_err(), "abc", "u128");
}

#[test]
fn tuple_needs_exactly_its_arity() {
    let raw = user_path();
    let d = ParamsDeserializer::new(Params::new(&raw));
    assert_wrong_number(d.deserialize_tuple(0).unwrap_err(), 2, 0);
    assert_wrong_number(d.deserialize_tuple(1).unwrap_err(), 2, 1);
    assert_wrong_number(d.deserialize_tuple(3).unwrap_err(), 2, 3);
    assert_wrong_number(d.deserialize_tuple_struct("T", 5).unwrap_err(), 2, 5);
    let empty: [(&str, &str); 0] = [];
    let d = ParamsDeserializer::new(Params::new(&empty));
    assert_wrong_number(d.deserialize_tuple(2).unwrap_err(), 0, 2);
    assert!(d.deserialize_tuple(0).unwrap().is_empty());
    assert!(d.deserialize_tuple_struct("Unit", 0).unwrap().is_empty());
}

#[test]
fn unsupported_shapes_are_rejected_whatever_the_list() {
    let empty: [(&str, &str); 0] = [];
    let raw = user_path();
    for d in [
        ParamsDeserializer::new(Params::new(&empty)),
        ParamsDeserializer::new(Params::new(&raw)),
    ] {
        assert_unsupported(d.deserialize_enum::<u8>("Kind", &["A", "B"], "Kind"), "Kind");
        assert_unsupported(d.deserialize_option::<Option<u8>>("Option<u8>"), "Option<u8>");
        assert_unsupported(d.deserialize_any::<String>("Value"), "Value");
        assert_unsupported(d.deserialize_identifier::<String>("Field"), "Field");
        assert_unsupported(d.deserialize_ignored_any::<()>("IgnoredAny"), "IgnoredAny");
        assert_unsupported(d.deserialize_str::<String>("&str"), "&str");
        assert_unsupported(d.deserialize_bytes::<Vec<u8>>("&[u8]"), "&[u8]");
    }
}

#[test]
fn values_keep_their_order_under_other_keys() {
    let first = [("a", "x"), ("b", "y"), ("c", "z")];
    let second = [("c", "x"), ("a", "y"), ("a", "z")];
    let d1 = ParamsDeserializer::new(Params::new(&first));
    let d2 = ParamsDeserializer::new(Params::new(&second));
    assert_eq!(d1.deserialize_seq().unwrap(), vec!["x", "y", "z"]);
    assert_eq!(d1.deserialize_seq().unwrap(), d2.deserialize_seq().unwrap());
    assert_eq!(d1.deserialize_tuple(3).unwrap(), d2.deserialize_tuple(3).unwrap());
    let swapped = [("a", "y"), ("b", "x"), ("c", "z")];
    let d3 = ParamsDeserializer::new(Params::new(&swapped));
    assert_eq!(d3.deserialize_seq().unwrap(), vec!["y", "x", "z"]);
}

#[test]
fn unit_ignores_the_list() {
    let empty: [(&str, &str); 0] = [];
    let d = ParamsDeserializer::new(Params::new(&empty));
    assert!(d.deserialize_unit().is_ok());
    assert!(d.deserialize_unit_struct("Marker").is_ok());
    let raw = user_path();
    let d = ParamsDeserializer::new(Params::new(&raw));
    assert!(d.deserialize_unit().is_ok());
    assert!(d.deserialize_unit_struct("Marker").is_ok());
}

#[test]
fn newtype_resolves_against_the_same_list() {
    let raw = [("n", "7")];
    let d = ParamsDeserializer::new(Params::new(&raw));
    let inner = d.deserialize_newtype_struct("Wrapper");
    assert_eq!(inner.deserialize_u8().unwrap(), 7);
    let raw = user_path();
    let d = ParamsDeserializer::new(Params::new(&raw));
    let inner = d.deserialize_newtype_struct("Wrapper").deserialize_newtype_struct("Inner");
    assert_wrong_number(inner.deserialize_u8().unwrap_err(), 2, 1);
    assert_eq!(inner.deserialize_tuple(2).unwrap(), vec!["user", "interesting"]);
}

#[test]
fn sequence_of_an_empty_list_is_empty() {
    let empty: [(&str, &str); 0] = [];
    let d = ParamsDeserializer::new(Params::new(&empty));
    assert!(d.deserialize_seq().unwrap().is_empty());
    assert!(d.deserialize_map().unwrap().is_empty());
    assert!(d.deserialize_struct("Empty", &[]).unwrap().is_empty());
}

#[test]
fn single_value_is_the_sole_value() {
    let raw = [("key", "3.5")];
    let d = ParamsDeserializer::new(Params::new(&raw));
    let value = d.single_value().unwrap();
    assert_eq!(value, "3.5");
    assert_eq!(value.parse::<f64>().unwrap(), 3.5);
}

#[test]
fn error_constructors() {
    match ParamsDeserializationError::custom("missing field") {
        ParamsDeserializationError::Custom(m) => assert_eq!(m, "missing field"),
        other => panic!("unexpected error {:?}", other),
    }
    match ParamsDeserializationError::custom(&42u8) {
        ParamsDeserializationError::Custom(m) => assert_eq!(m, "42"),
        other => panic!("unexpected error {:?}", other),
    }
    match ParamsDeserializationError::unsupported_type("Kind") {
        ParamsDeserializationError::UnsupportedType(n) => assert_eq!(n, "Kind"),
        other => panic!("unexpected error {:?}", other),
    }
    assert_parse_error(ParamsDeserializationError::parse_error("x", "f32"), "x", "f32");
    assert_wrong_number(ParamsDeserializationError::wrong_number_of_parameters(4, 2), 4, 2);
    let at_key = ParamsDeserializationError::ParseErrorAtKey {
        key: "k".to_owned(),
        value: "v".to_owned(),
        expected_type: "u8",
    };
    assert!(matches!(at_key.clone(), ParamsDeserializationError::ParseErrorAtKey { .. }));
    let at_index = ParamsDeserializationError::ParseErrorAtIndex {
        index: 1,
        value: "v".to_owned(),
        expected_type: "u8",
    };
    assert!(matches!(at_index, ParamsDeserializationError::ParseErrorAtIndex { index: 1, .. }));
}

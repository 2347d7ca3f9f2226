use rainbow_blog::record_id::{
    extract_key, loose_datetime_now, loose_i64, pluck, resolve_optional_thing_id,
    resolve_thing_id, surreal_datetime, surreal_datetime_option, DateTimeError, JsonValue,
    LooseDateTimeError, LooseI64Error, ThingId,
};

fn s(x: &str) -> JsonValue {
    JsonValue::String(x.to_string())
}

fn n(x: &str) -> JsonValue {
    JsonValue::Number(x.to_string())
}

fn obj(entries: Vec<(&str, JsonValue)>) -> JsonValue {
    JsonValue::Object(entries.into_iter().map(|(k, v)| (k.to_string(), v)).collect())
}

fn key(v: JsonValue) -> String {
    match resolve_thing_id(v) {
        Ok(ThingId::Key(k)) => k,
        other => panic!("unexpected {:?}", other),
    }
}

#[test]
fn scalar_keys() {
    assert_eq!(extract_key(&s("abc")), Some("abc".to_string()));
    assert_eq!(extract_key(&n("42")), Some("42".to_string()));
    assert_eq!(extract_key(&JsonValue::Bool(true)), Some("true".to_string()));
    assert_eq!(extract_key(&JsonValue::Bool(false)), Some("false".to_string()));
    assert_eq!(extract_key(&JsonValue::Null), None);
    assert_eq!(extract_key(&JsonValue::Array(vec![s("x")])), None);
}

#[test]
fn object_keys() {
    assert_eq!(
        extract_key(&obj(vec![("table", s("tag")), ("key", s("rust"))])),
        Some("tag:rust".to_string())
    );
    assert_eq!(
        extract_key(&obj(vec![("tb", s("article")), ("id", n("7"))])),
        Some("article:7".to_string())
    );
    assert_eq!(
        extract_key(&obj(vec![("tb", s("article")), ("id", obj(vec![("String", s("x1"))]))])),
        Some("article:x1".to_string())
    );
    assert_eq!(
        extract_key(&obj(vec![("Thing", obj(vec![("tb", s("user")), ("id", s("u"))]))])),
        Some("user:u".to_string())
    );
    assert_eq!(extract_key(&obj(vec![("Uuid", s("0000"))])), Some("0000".to_string()));
    assert_eq!(extract_key(&obj(vec![("other", s("x"))])), None);
    assert_eq!(extract_key(&obj(vec![("table", n("1")), ("key", s("k"))])), Some("k".to_string()));
}

#[test]
fn record_id_shapes() {
    assert_eq!(key(s("article:1")), "article:1");
    assert_eq!(
        key(obj(vec![("Thing", obj(vec![("tb", s("article")), ("id", s("abc"))]))])),
        "article:abc"
    );
    assert_eq!(key(obj(vec![("tb", s("article")), ("id", s("abc"))])), "article:abc");
    assert_eq!(key(obj(vec![("tb", s("article")), ("id", s("article:abc"))])), "article:abc");
    assert_eq!(key(obj(vec![("table", s("tag")), ("key", n("5"))])), "tag:5");
    assert_eq!(key(obj(vec![("RecordId", obj(vec![("tb", s("t")), ("id", s("1"))]))])), "t:1");
    assert_eq!(key(obj(vec![("Strand", s("plain"))])), "plain");
    assert_eq!(key(obj(vec![("value", n("3"))])), "3");
}

#[test]
fn unresolved_object_drops_thing() {
    let v = obj(vec![("Thing", obj(vec![("tb", s(""))])), ("z", JsonValue::Null)]);
    match resolve_thing_id(v) {
        Ok(ThingId::Unresolved(rest)) => {
            assert_eq!(rest.len(), 1);
            assert_eq!(rest[0].0, "z");
        }
        other => panic!("unexpected {:?}", other),
    }
}

#[test]
fn invalid_record_ids() {
    assert!(resolve_thing_id(JsonValue::Null).is_err());
    assert!(resolve_thing_id(n("1")).is_err());
    assert!(resolve_thing_id(JsonValue::Array(vec![])).is_err());
}

#[test]
fn optional_record_ids() {
    assert!(matches!(resolve_optional_thing_id(JsonValue::Null), Ok(None)));
    assert!(matches!(resolve_optional_thing_id(obj(vec![("None", JsonValue::Null)])), Ok(None)));
    match resolve_optional_thing_id(s("a:b")) {
        Ok(Some(ThingId::Key(k))) => assert_eq!(k, "a:b"),
        other => panic!("unexpected {:?}", other),
    }
    assert!(resolve_optional_thing_id(JsonValue::Bool(true)).is_err());
}

#[test]
fn loose_integers() {
    assert_eq!(loose_i64(n("42")).unwrap(), 42);
    assert_eq!(loose_i64(n("-9223372036854775808")).unwrap(), i64::MIN);
    assert!(matches!(loose_i64(n("9223372036854775808")), Err(LooseI64Error::InvalidNumber)));
    assert!(matches!(loose_i64(n("1.5")), Err(LooseI64Error::InvalidNumber)));
    assert_eq!(loose_i64(s("  17 ")).unwrap(), 17);
    assert_eq!(loose_i64(s("+8")).unwrap(), 8);
    assert_eq!(loose_i64(s("")).unwrap(), 0);
    assert_eq!(loose_i64(s(" NoNe ")).unwrap(), 0);
    assert_eq!(loose_i64(JsonValue::Null).unwrap(), 0);
    assert_eq!(loose_i64(obj(vec![("None", JsonValue::Null)])).unwrap(), 0);
    match loose_i64(s(" 12a ")) {
        Err(LooseI64Error::InvalidString(t)) => assert_eq!(t, "12a"),
        other => panic!("unexpected {:?}", other),
    }
    assert!(matches!(loose_i64(JsonValue::Bool(true)), Err(LooseI64Error::InvalidValue(_))));
    assert!(matches!(loose_i64(obj(vec![("a", n("1"))])), Err(LooseI64Error::InvalidValue(_))));
}

#[test]
fn plucked_totals() {
    assert_eq!(pluck(&obj(vec![("total", n("12"))])), 12);
    assert_eq!(pluck(&obj(vec![("total", s("12"))])), 0);
    assert_eq!(pluck(&obj(vec![("count", n("12"))])), 0);
    assert_eq!(pluck(&JsonValue::Null), 0);
}

#[test]
fn stored_timestamps() {
    let t = surreal_datetime(&s("2024-01-01T00:00:00Z")).unwrap();
    assert_eq!(t.secs, 1704067200);
    assert_eq!(t.nanos, 0);
    let t = surreal_datetime(&obj(vec![("datetime", s("2024-01-01T08:00:00+08:00"))])).unwrap();
    assert_eq!(t.secs, 1704067200);
    let t = surreal_datetime(&JsonValue::Array(vec![s("1970-01-01T00:00:01.5Z")])).unwrap();
    assert_eq!((t.secs, t.nanos), (1, 500_000_000));
    assert!(matches!(surreal_datetime(&n("1")), Err(DateTimeError::NoTimestamp)));
    match surreal_datetime(&s("yesterday")) {
        Err(DateTimeError::InvalidRfc3339(t)) => assert_eq!(t, "yesterday"),
        other => panic!("unexpected {:?}", other),
    }
    assert!(matches!(surreal_datetime_option(&JsonValue::Null), Ok(None)));
    assert!(matches!(surreal_datetime_option(&s("2024-01-01T00:00:00Z")), Ok(Some(_))));
    assert!(surreal_datetime_option(&s("bad")).is_err());
}

#[test]
fn lenient_timestamps() {
    let now = chrono::Utc::now().timestamp();
    let t = loose_datetime_now(JsonValue::Null).unwrap();
    assert!((t.secs - now).abs() < 60);
    let t = loose_datetime_now(s(" none ")).unwrap();
    assert!((t.secs - now).abs() < 60);
    let t = loose_datetime_now(s(" 2024-01-01T00:00:00Z ")).unwrap();
    assert_eq!(t.secs, 1704067200);
    match loose_datetime_now(s(" nope ")) {
        Err(LooseDateTimeError::InvalidRfc3339(t)) => assert_eq!(t, "nope"),
        other => panic!("unexpected {:?}", other),
    }
    let t = loose_datetime_now(obj(vec![("datetime", s("2024-01-01T00:00:00Z"))])).unwrap();
    assert_eq!(t.secs, 1704067200);
    assert!(matches!(loose_datetime_now(n("5")), Err(LooseDateTimeError::InvalidValue(_))));
}

use laws::shape_id::{ShapeId, ShapeIdError};

#[test]
fn parse_splits_at_first_hash() {
    let id = ShapeId::parse("com.amazonaws.s3#AmazonS3").unwrap();
    assert_eq!(id.namespace, "com.amazonaws.s3");
    assert_eq!(id.name, "AmazonS3");
    let two = ShapeId::parse("a#b#c").unwrap();
    assert_eq!(two.namespace, "a");
    assert_eq!(two.name, "b#c");
}

#[test]
fn parse_rejects_dollar() {
    let e = ShapeId::parse("smithy.api#Foo$bar").unwrap_err();
    assert_eq!(e, ShapeIdError::UnexpectedDollar("smithy.api#Foo$bar".to_string()));
    assert_eq!(e.message(), "Unexpected '$' smithy.api#Foo$bar");
}

#[test]
fn parse_rejects_missing_hash() {
    let e = ShapeId::parse("String").unwrap_err();
    assert_eq!(e, ShapeIdError::MissingHash("String".to_string()));
    assert_eq!(e.message(), "Missing '#': \"String\"");
}

#[test]
fn shape_id_text() {
    let id = ShapeId { namespace: "smithy.api".to_string(), name: "String".to_string() };
    assert_eq!(id.to_string(), "smithy.api#String");
    assert_eq!(ShapeId::parse(&id.to_string()).unwrap(), id);
}

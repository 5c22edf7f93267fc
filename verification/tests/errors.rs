use opendp::error::{Error, ErrorVariant};

#[test]
fn every_kind_has_its_name() {
    assert_eq!(ErrorVariant::FFI.name(), "FFI");
    assert_eq!(ErrorVariant::TypeParse.name(), "TypeParse");
    assert_eq!(ErrorVariant::FailedFunction.name(), "FailedFunction");
    assert_eq!(ErrorVariant::FailedMap.name(), "FailedMap");
    assert_eq!(ErrorVariant::FailedRelation.name(), "FailedRelation");
    assert_eq!(ErrorVariant::RelationDebug.name(), "RelationDebug");
    assert_eq!(ErrorVariant::FailedCast.name(), "FailedCast");
    assert_eq!(ErrorVariant::DomainMismatch.name(), "DomainMismatch");
    assert_eq!(ErrorVariant::MetricMismatch.name(), "MetricMismatch");
    assert_eq!(ErrorVariant::MeasureMismatch.name(), "MeasureMismatch");
    assert_eq!(ErrorVariant::MakeDomain.name(), "MakeDomain");
    assert_eq!(ErrorVariant::MakeTransformation.name(), "MakeTransformation");
    assert_eq!(ErrorVariant::MakeMeasurement.name(), "MakeMeasurement");
    assert_eq!(ErrorVariant::InvalidDistance.name(), "InvalidDistance");
    assert_eq!(ErrorVariant::NotImplemented.name(), "NotImplemented");
}

#[test]
fn names_read_from_outside_are_understood() {
    for variant in [
        ErrorVariant::FFI,
        ErrorVariant::TypeParse,
        ErrorVariant::FailedFunction,
        ErrorVariant::FailedRelation,
        ErrorVariant::RelationDebug,
        ErrorVariant::FailedCast,
        ErrorVariant::DomainMismatch,
        ErrorVariant::MakeTransformation,
        ErrorVariant::MakeMeasurement,
        ErrorVariant::InvalidDistance,
        ErrorVariant::NotImplemented,
    ] {
        assert_eq!(ErrorVariant::from_name(&variant.name()), Some(variant));
    }
    assert_eq!(ErrorVariant::from_name("MetricMismatch"), None);
    assert_eq!(ErrorVariant::from_name("failedfunction"), None);
    assert_eq!(ErrorVariant::from_name(""), None);
}

#[test]
fn an_error_comes_back_from_its_parts() {
    let error = Error::from_name("FailedFunction", Some("Eat my shorts!".to_string()));
    assert_eq!(error, Error::new(ErrorVariant::FailedFunction, "Eat my shorts!"));
    let bare = Error::from_name("FailedCast", None);
    assert_eq!(bare, Error::bare(ErrorVariant::FailedCast));
    assert_eq!(bare.message_text(), "");
    assert_eq!(error.message_text(), "Eat my shorts!");
}

#[test]
fn an_unknown_name_is_not_implemented() {
    let error = Error::from_name("Mystery", Some("lost".to_string()));
    assert_eq!(error.variant, ErrorVariant::NotImplemented);
    assert_eq!(error.message.unwrap(), "Unknown ErrorVariant Mystery");
}

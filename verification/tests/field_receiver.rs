use partially_derive::field_receiver::{FieldError, FieldReceiver};

fn make_dummy() -> FieldReceiver {
    FieldReceiver {
        ident: Some("Dummy".to_string()),
        vis: "pub".to_string(),
        attrs: Vec::new(),
        ty: "DummyField".to_string(),
        rename: None,
        omit: false,
        skip_attrs: false,
        additional_attrs: Vec::new(),
        transparent: false,
        as_type: None,
        nested: false,
        apply_with: None,
    }
}

fn tokens_of(f: &FieldReceiver, krate: &str) -> String {
    let mut out = String::new();
    f.to_tokens(&mut out, krate);
    out
}

#[test]
fn invalidates_no_ident() {
    let mut instance = make_dummy();
    instance.ident = None;

    if let Ok(e) = instance.validate() {
        println!("{:?}", e)
    }
}

#[test]
fn invalidate_omit_rename() {
    let mut instance = make_dummy();
    instance.omit = true;
    instance.rename = Some("Renamed".to_string());

    assert!(instance.validate().is_err())
}

#[test]
fn invalidate_omit_transparent() {
    let mut instance = make_dummy();
    instance.omit = true;
    instance.transparent = true;

    assert!(instance.validate().is_err())
}

#[test]
fn invalidate_omit_as_type() {
    let mut instance = make_dummy();
    instance.omit = true;
    instance.as_type = Some("NewDummyField".to_string());

    assert!(instance.validate().is_err())
}

#[test]
fn invalidate_omit_nested() {
    let mut instance = make_dummy();
    instance.omit = true;
    instance.nested = true;

    assert!(instance.validate().is_err())
}

#[test]
fn invalidate_transparent_as_type_nested() {
    // as_type + transparent
    let mut instance = make_dummy();
    instance.as_type = Some("NewDummyField".to_string());
    instance.transparent = true;
    assert!(instance.validate().is_err());

    // as_type + transparent + nested
    let mut instance = make_dummy();
    instance.as_type = Some("NewDummyField".to_string());
    instance.transparent = true;
    instance.nested = true;
    assert!(instance.validate().is_err());

    // as_type + nested
    let mut instance = make_dummy();
    instance.as_type = Some("NewDummyField".to_string());
    instance.nested = true;
    assert!(instance.validate().is_err());

    // nested + transparent
    let mut instance = make_dummy();
    instance.transparent = true;
    instance.nested = true;
    assert!(instance.validate().is_err());
}

#[test]
fn validate() {
    let instance = make_dummy();

    assert!(instance.validate().is_ok());
}

#[test]
fn no_ident_reports_unnamed_field() {
    let mut instance = make_dummy();
    instance.ident = None;
    match instance.validate() {
        Err(errs) => assert_eq!(errs, vec![FieldError::UnnamedField]),
        Ok(_) => panic!("an unnamed field must not validate"),
    }
}

#[test]
fn every_broken_rule_is_reported_in_order() {
    let mut instance = make_dummy();
    instance.ident = None;
    instance.omit = true;
    instance.transparent = true;
    instance.nested = true;
    instance.apply_with = Some("f".to_string());
    match instance.validate() {
        Err(errs) => assert_eq!(
            errs,
            vec![
                FieldError::UnnamedField,
                FieldError::OmitWithOtherOptions,
                FieldError::ExclusiveTypeOptions,
                FieldError::ApplyWithNested,
            ]
        ),
        Ok(_) => panic!("the field breaks every rule"),
    }
}

#[test]
fn apply_with_nested_is_refused() {
    let mut instance = make_dummy();
    instance.nested = true;
    instance.apply_with = Some("|p, t| true".to_string());
    match instance.validate() {
        Err(errs) => assert_eq!(errs, vec![FieldError::ApplyWithNested]),
        Ok(_) => panic!("apply_with and nested are exclusive"),
    }
}

#[test]
fn valid_field_is_handed_back_unchanged() {
    let mut instance = make_dummy();
    instance.rename = Some("other".to_string());
    instance.apply_with = Some("custom".to_string());
    let back = instance.validate().ok().unwrap();
    assert_eq!(back.rename, Some("other".to_string()));
    assert_eq!(back.apply_with, Some("custom".to_string()));
    assert_eq!(back.ident, Some("Dummy".to_string()));
}

#[test]
fn error_messages() {
    assert_eq!(FieldError::UnnamedField.message(), "cannot use rename on an unnamed field");
    assert_eq!(FieldError::OmitWithOtherOptions.message(), "cannot use omit with any other options");
    assert_eq!(
        FieldError::ExclusiveTypeOptions.message(),
        "transparent, as_type and nested are mutually exclusive"
    );
    assert_eq!(
        FieldError::ApplyWithNested.message(),
        "apply_with and nested are mutually exclusive (both override application logic)"
    );
}

#[test]
fn plain_field_becomes_option() {
    let instance = make_dummy();
    assert_eq!(tokens_of(&instance, "partially"), "pub Dummy: Option<DummyField>");
}

#[test]
fn transparent_field_keeps_its_type() {
    let mut instance = make_dummy();
    instance.transparent = true;
    assert_eq!(tokens_of(&instance, "partially"), "pub Dummy: DummyField");
}

#[test]
fn as_type_is_used_verbatim() {
    let mut instance = make_dummy();
    instance.as_type = Some("Vec<u8>".to_string());
    assert_eq!(tokens_of(&instance, "partially"), "pub Dummy: Vec<u8>");
}

#[test]
fn nested_field_uses_the_partial_item() {
    let mut instance = make_dummy();
    instance.nested = true;
    assert_eq!(
        tokens_of(&instance, "my_crate"),
        "pub Dummy: <DummyField as my_crate::Partial>::Item"
    );
}

#[test]
fn omitted_field_leaves_no_trace() {
    let mut instance = make_dummy();
    instance.omit = true;
    assert_eq!(tokens_of(&instance, "partially"), "");
}

#[test]
fn renamed_field_with_attributes() {
    let mut instance = make_dummy();
    instance.rename = Some("renamed".to_string());
    instance.vis = String::new();
    instance.attrs = vec!["#[a]".to_string(), "#[b]".to_string()];
    instance.additional_attrs = vec!["serde(default)".to_string()];
    assert_eq!(
        tokens_of(&instance, "partially"),
        "#[a] #[b] #[serde(default)]  renamed: Option<DummyField>"
    );
    instance.skip_attrs = true;
    assert_eq!(tokens_of(&instance, "partially"), "#[serde(default)]  renamed: Option<DummyField>");
}

use partially_derive::derive_receiver::{expand_derive_partial, DeriveReceiver, ExpandError, StructAttr};
use partially_derive::field_receiver::{FieldError, FieldReceiver};

fn field(name: &str, ty: &str) -> FieldReceiver {
    FieldReceiver {
        ident: Some(name.to_string()),
        vis: String::new(),
        attrs: Vec::new(),
        ty: ty.to_string(),
        rename: None,
        omit: false,
        skip_attrs: false,
        additional_attrs: Vec::new(),
        transparent: false,
        as_type: None,
        nested: false,
        apply_with: None,
    }
}

fn attr(path: &str, text: &str) -> StructAttr {
    StructAttr { path: path.to_string(), text: text.to_string() }
}

fn strings(items: &[&str]) -> Vec<String> {
    items.iter().map(|s| s.to_string()).collect()
}

fn normalize(text: &str) -> String {
    text.parse::<proc_macro2::TokenStream>().unwrap().to_string()
}

/// The fields of the `Data` struct that the end-to-end cases share, the first
/// of which is `first_name: first_ty`.
fn data_fields(first_name: &str, first_ty: &str) -> Vec<FieldReceiver> {
    let mut first = field(first_name, first_ty);
    first.attrs = strings(&["#[doc = \" A documented field.\"]", "#[some_attr]"]);
    let mut skipped = field("skipped_field", "String");
    skipped.omit = true;
    let mut number = field("number_field", "i32");
    number.as_type = Some("Option<f32>".to_string());
    number.attrs = strings(&["#[some_attr]"]);
    let mut transparent = field("transparent_field", "Option<String>");
    transparent.transparent = true;
    let mut old = field("old_field", "String");
    old.rename = Some("new_field".to_string());
    vec![first, skipped, number, transparent, old]
}

fn data(generics: &str, where_clause: &str, fields: Vec<FieldReceiver>) -> DeriveReceiver {
    DeriveReceiver {
        ident: "Data".to_string(),
        vis: String::new(),
        generics: generics.to_string(),
        where_clause: where_clause.to_string(),
        attrs: vec![
            attr("derive", "#[derive(partially::Partial, Default, Debug)]"),
            attr("some_attr", "#[some_attr]"),
        ],
        rename: None,
        derive: strings(&["Default", "Debug"]),
        additional_attrs: Vec::new(),
        skip_attrs: false,
        krate: None,
        fields,
    }
}

fn expand(item: &DeriveReceiver) -> String {
    match expand_derive_partial(item) {
        Ok(text) => normalize(&text),
        Err(e) => panic!("expansion failed: {:?}", e),
    }
}

fn apply_some_body(first: &str) -> String {
    format!(
        "fn apply_some(&mut self, partial: Self::Item) -> bool {{
            let mut will_apply_some = false ||
                partial.{f}.is_some() ||
                partial.number_field.is_some() ||
                partial.transparent_field.is_some() ||
                partial.new_field.is_some();

            if let Some({f}) = partial.{f} {{
                self.{f} = {f}.into();
            }}

            if let Some(number_field) = partial.number_field {{
                self.number_field = number_field.into();
            }}

            if let Some(transparent_field) = partial.transparent_field {{
                self.transparent_field = transparent_field.into();
            }}

            if let Some(new_field) = partial.new_field {{
                self.old_field = new_field.into();
            }}

            will_apply_some
        }}",
        f = first
    )
}

#[test]
fn basic_e2e() {
    let mut input = data("", "", data_fields("str_field", "String"));
    input.additional_attrs = strings(&["serde(default)"]);

    let expanded = expand(&input);

    let body = apply_some_body("str_field");
    let expected = format!(
        "#[derive(Default, Debug)]
        #[some_attr]
        #[serde(default)]
        struct PartialData {{
            /// A documented field.
            #[some_attr]
            str_field: Option<String>,
            #[some_attr]
            number_field: Option<f32>,
            transparent_field: Option<String>,
            new_field: Option<String>,
        }}

        impl partially::Partial for Data {{
            type Item = PartialData;
            {body}
        }}

        impl partially::Partial for PartialData {{
            type Item = PartialData;
            {body}
        }}"
    );

    assert_eq!(expanded, normalize(&expected));
}

#[test]
fn basic_e2e_named() {
    let mut input = data("", "", data_fields("str_field", "String"));
    input.rename = Some("OptData".to_string());

    let expanded = expand(&input);

    let body = apply_some_body("str_field");
    let expected = format!(
        "#[derive(Default, Debug)]
        #[some_attr]
        struct OptData {{
            /// A documented field.
            #[some_attr]
            str_field: Option<String>,
            #[some_attr]
            number_field: Option<f32>,
            transparent_field: Option<String>,
            new_field: Option<String>,
        }}

        impl partially::Partial for Data {{
            type Item = OptData;
            {body}
        }}

        impl partially::Partial for OptData {{
            type Item = OptData;
            {body}
        }}"
    );

    assert_eq!(expanded, normalize(&expected));
}

#[test]
fn generic_e2e() {
    let mut input = data("<T>", "", data_fields("type_field", "T"));
    input.rename = Some("PartialData".to_string());

    let expanded = expand(&input);

    let body = apply_some_body("type_field");
    let expected = format!(
        "#[derive(Default, Debug)]
        #[some_attr]
        struct PartialData<T> {{
            /// A documented field.
            #[some_attr]
            type_field: Option<T>,
            #[some_attr]
            number_field: Option<f32>,
            transparent_field: Option<String>,
            new_field: Option<String>,
        }}

        impl<T> partially::Partial for Data<T> {{
            type Item = PartialData<T>;
            {body}
        }}

        impl<T> partially::Partial for PartialData<T> {{
            type Item = PartialData<T>;
            {body}
        }}"
    );

    assert_eq!(expanded, normalize(&expected));
}

#[test]
fn generic_constrained_e2e() {
    let mut input = data("<T>", "where T: Sized", data_fields("type_field", "T"));
    input.rename = Some("PartialData".to_string());
    input.krate = Some("custom_partially".to_string());

    let expanded = expand(&input);

    let body = apply_some_body("type_field");
    let expected = format!(
        "#[derive(Default, Debug)]
        #[some_attr]
        struct PartialData<T> where T: Sized {{
            /// A documented field.
            #[some_attr]
            type_field: Option<T>,
            #[some_attr]
            number_field: Option<f32>,
            transparent_field: Option<String>,
            new_field: Option<String>,
        }}

        impl<T> custom_partially::Partial for Data<T> where T : Sized {{
            type Item = PartialData<T>;
            {body}
        }}

        impl<T> custom_partially::Partial for PartialData<T> where T : Sized {{
            type Item = PartialData<T>;
            {body}
        }}"
    );

    assert_eq!(expanded, normalize(&expected));
}

#[test]
fn extensive_attr_e2e() {
    let mut input = data("", "", data_fields("str_field", "String"));
    input.derive = strings(&["PartialEq"]);
    input.additional_attrs = strings(&["serde(default)", "serde(rename = \"PascalCase\")"]);
    input.skip_attrs = true;

    let expanded = expand(&input);

    let body = apply_some_body("str_field");
    let expected = format!(
        "#[derive(PartialEq)]
        #[serde(default)]
        #[serde(rename = \"PascalCase\")]
        struct PartialData {{
            /// A documented field.
            #[some_attr]
            str_field: Option<String>,
            #[some_attr]
            number_field: Option<f32>,
            transparent_field: Option<String>,
            new_field: Option<String>,
        }}

        impl partially::Partial for Data {{
            type Item = PartialData;
            {body}
        }}

        impl partially::Partial for PartialData {{
            type Item = PartialData;
            {body}
        }}"
    );

    assert_eq!(expanded, normalize(&expected));
}

#[test]
fn apply_with_e2e() {
    let mut patched = field("patched_field", "String");
    patched.attrs = strings(&["#[doc = \" Field with custom applicator closure\"]"]);
    patched.as_type = Some("CustomPatch<String>".to_string());
    patched.apply_with = Some("|p, t| p.apply(t)".to_string());
    let mut func = field("func_field", "i32");
    func.attrs = strings(&["#[doc = \" Field with custom applicator function\"]"]);
    func.apply_with = Some("custom_apply".to_string());
    let mut normal = field("normal_field", "bool");
    normal.attrs = strings(&["#[doc = \" Normal field\"]"]);

    let input = DeriveReceiver {
        ident: "Config".to_string(),
        vis: String::new(),
        generics: String::new(),
        where_clause: String::new(),
        attrs: vec![attr("derive", "#[derive(partially::Partial)]")],
        rename: None,
        derive: strings(&["Default"]),
        additional_attrs: Vec::new(),
        skip_attrs: false,
        krate: None,
        fields: vec![patched, func, normal],
    };

    let expanded = expand(&input);

    let expected = "
        #[derive(Default)]
        struct PartialConfig {
            /// Field with custom applicator closure
            patched_field: CustomPatch<String>,
            /// Field with custom applicator function
            func_field: Option<i32>,
            /// Normal field
            normal_field: Option<bool>,
        }

        impl partially::Partial for Config {
            type Item = PartialConfig;

            fn apply_some(&mut self, partial: Self::Item) -> bool {
                // Only normal_field is in is_some check (apply_with fields excluded)
                let mut will_apply_some = false || partial.normal_field.is_some();

                // patched_field uses custom closure
                will_apply_some = (|p, t| p.apply(t))(
                    partial.patched_field,
                    &mut self.patched_field
                ) || will_apply_some;

                // func_field uses custom function
                will_apply_some = (custom_apply)(
                    partial.func_field,
                    &mut self.func_field
                ) || will_apply_some;

                // normal_field uses default
                if let Some(normal_field) = partial.normal_field {
                    self.normal_field = normal_field.into();
                }

                will_apply_some
            }
        }

        impl partially::Partial for PartialConfig {
            type Item = PartialConfig;

            fn apply_some(&mut self, partial: Self::Item) -> bool {
                let mut will_apply_some = false || partial.normal_field.is_some();

                // Partial→Partial: apply_with fields use Partial::apply_some
                will_apply_some = partially::Partial::apply_some(
                    &mut self.patched_field,
                    partial.patched_field
                ) || will_apply_some;

                will_apply_some = partially::Partial::apply_some(
                    &mut self.func_field,
                    partial.func_field
                ) || will_apply_some;

                if let Some(normal_field) = partial.normal_field {
                    self.normal_field = normal_field.into();
                }

                will_apply_some
            }
        }
    ";

    assert_eq!(expanded, normalize(expected));
}

#[test]
fn apply_with_nested_mutex() {
    let mut inner = field("field", "String");
    inner.nested = true;
    inner.apply_with = Some("|p, t| true".to_string());
    let input = DeriveReceiver {
        ident: "Config".to_string(),
        vis: String::new(),
        generics: String::new(),
        where_clause: String::new(),
        attrs: vec![attr("derive", "#[derive(partially::Partial)]")],
        rename: None,
        derive: Vec::new(),
        additional_attrs: Vec::new(),
        skip_attrs: false,
        krate: None,
        fields: vec![inner],
    };

    let result = expand_derive_partial(&input);
    assert!(result.is_err(), "apply_with and nested should be mutually exclusive");
}

#[test]
fn errors_of_all_fields_are_collected_in_order() {
    let mut first = field("a", "u8");
    first.omit = true;
    first.rename = Some("b".to_string());
    let mut second = field("c", "u8");
    second.ident = None;
    second.transparent = true;
    second.nested = true;
    let input = data("", "", vec![first, field("ok", "u8"), second]);
    match expand_derive_partial(&input) {
        Err(ExpandError::InvalidFields(errs)) => assert_eq!(
            errs,
            vec![
                FieldError::OmitWithOtherOptions,
                FieldError::UnnamedField,
                FieldError::ExclusiveTypeOptions,
            ]
        ),
        other => panic!("unexpected result {:?}", other),
    }
}

#[test]
fn unparsable_generics_are_refused() {
    let input = data("<T", "", vec![field("a", "u8")]);
    match expand_derive_partial(&input) {
        Err(ExpandError::UnparsableGenerics) => {}
        other => panic!("unexpected result {:?}", other),
    }
    let input = data("<T>", "where", vec![field("a", "u8")]);
    assert!(expand_derive_partial(&input).is_ok());
    let input = data("<T>", "T: Sized", vec![field("a", "u8")]);
    match expand_derive_partial(&input) {
        Err(ExpandError::UnparsableGenerics) => {}
        other => panic!("unexpected result {:?}", other),
    }
}

#[test]
fn impl_generics_drop_defaults_and_type_generics_drop_bounds() {
    let input = data("<'a, T: Clone = u8>", "", vec![field("a", "&'a T")]);
    let expanded = expand(&input);
    let body = "fn apply_some(&mut self, partial: Self::Item) -> bool {
            let mut will_apply_some = false || partial.a.is_some();
            if let Some(a) = partial.a { self.a = a.into(); }
            will_apply_some
        }";
    let expected = format!(
        "#[derive(Default, Debug)]
        #[some_attr]
        struct PartialData<'a, T: Clone = u8> {{ a: Option<&'a T>, }}
        impl<'a, T: Clone> partially::Partial for Data<'a, T> {{
            type Item = PartialData<'a, T>;
            {body}
        }}
        impl<'a, T: Clone> partially::Partial for PartialData<'a, T> {{
            type Item = PartialData<'a, T>;
            {body}
        }}"
    );
    let squeeze = |s: &str| s.split_whitespace().collect::<String>();
    assert_eq!(squeeze(&expanded), squeeze(&normalize(&expected)));
}

#[test]
fn nested_field_delegates_in_both_impls() {
    let mut inner = field("inner", "Inner");
    inner.nested = true;
    let mut input = data("", "", vec![inner]);
    input.derive = Vec::new();
    input.attrs = Vec::new();
    let expanded = expand(&input);
    let body = "fn apply_some(&mut self, partial: Self::Item) -> bool {
            let mut will_apply_some = false;
            will_apply_some = partially::Partial::apply_some(&mut self.inner, partial.inner) || will_apply_some;
            will_apply_some
        }";
    let expected = format!(
        "struct PartialData {{ inner: <Inner as partially::Partial>::Item, }}
        impl partially::Partial for Data {{ type Item = PartialData; {body} }}
        impl partially::Partial for PartialData {{ type Item = PartialData; {body} }}"
    );
    assert_eq!(expanded, normalize(&expected));
}

#[test]
fn struct_visibility_and_field_visibility_are_kept() {
    let mut a = field("a", "u8");
    a.vis = "pub(crate)".to_string();
    let mut input = data("", "", vec![a]);
    input.vis = "pub".to_string();
    input.derive = Vec::new();
    input.attrs = Vec::new();
    let text = expand_derive_partial(&input).ok().unwrap();
    assert!(text.starts_with("pub struct PartialData  { pub(crate) a: Option<u8>, } "));
}

use validation::context::DatabaseContex;
use validation::entities::{
    can_register, not_blank, password_equals_confirm_password, AddressRequest,
    CreateCategoryRequest, LoginRequest, Product, ProductVariant, RegisterUserRequest,
};
use validation::report::Seg;

#[test]
fn test_validate_success() {
    let login = LoginRequest {
        username: "suharjin07".to_string(),
        password: "12345".to_string(),
    };

    assert!(login.validate().is_ok())
}

#[test]
fn test_validate_failed() {
    let login = LoginRequest {
        username: "c1".to_string(),
        password: "12".to_string(),
    };

    assert!(login.validate().is_err());

    let error = login.validate().err().unwrap();
    println!("{:?}", error.errors());
}

#[test]
fn test_nested_struct_success() {
    let request = RegisterUserRequest {
        username: "qwerty".to_string(),
        password: "12345".to_string(),
        confirm_password: "12345".to_string(),
        name: "Suharjin".to_string(),
        address: AddressRequest {
            street: "St. Albert Einstain No. 18".to_string(),
            city: "Sidney".to_string(),
            country: "Australia".to_string(),
        },
    };

    let context = DatabaseContex {
        total: 100,
        max_data: 1000,
    };

    assert!(request.validate_with_context(&context).is_ok())
}

#[test]
fn test_nested_struct_failed() {
    let request = RegisterUserRequest {
        username: "".to_string(),
        password: "12345".to_string(),
        confirm_password: "salah".to_string(),
        name: "".to_string(),
        address: AddressRequest {
            street: "".to_string(),
            city: "Sidney".to_string(),
            country: "Australia".to_string(),
        },
    };

    let context = DatabaseContex {
        total: 100,
        max_data: 100,
    };

    assert!(request.validate_with_context(&context).is_err());

    let errors = request.validate_with_context(&context).err().unwrap();
    println!("{:?}", errors.errors())
}

#[test]
fn test_validate_vector_succes() {
    let request = Product {
        id: "12345".to_string(),
        name: "Product-1".to_string(),
        variants: vec![
            ProductVariant {
                name: "Variant-1".to_string(),
                price: 2000000,
            },
            ProductVariant {
                name: "Variant-2".to_string(),
                price: 5000000,
            },
        ],
    };

    assert!(request.validate().is_ok())
}

#[test]
fn test_validate_vector_failed() {
    let request = Product {
        id: "12345".to_string(),
        name: "Product-1".to_string(),
        variants: vec![
            ProductVariant {
                name: "".to_string(),
                price: 0,
            },
            ProductVariant {
                name: "Variant-2".to_string(),
                price: 5000000,
            },
        ],
    };

    assert!(request.validate().is_err());

    let errors = request.validate().err().unwrap();
    println!("{:?}", errors.errors())
}

#[test]
fn test_custom_validation() {
    let catrgory = CreateCategoryRequest {
        id: "".to_string(),
        name: "  ".to_string(),
    };

    let errors = catrgory.validate().err().unwrap();
    println!("{:?}", errors.errors())
}

// A login with both fields below the minimum length yields one violation
// per field, both under the code `length`.
#[test]
fn short_login_reports_both_fields() {
    let login = LoginRequest {
        username: "c1".to_string(),
        password: "12".to_string(),
    };

    let report = login.validate().err().unwrap();
    let errors = report.errors();
    assert_eq!(errors.len(), 2);
    assert_eq!(errors[0].code, "length");
    assert_eq!(errors[1].code, "length");
    assert_eq!(errors[0].path, vec![Seg::Field("username".to_string())]);
    assert_eq!(errors[1].path, vec![Seg::Field("password".to_string())]);
}

// Exactly one out-of-bounds field yields exactly one violation, under
// that field's path; a second call yields the identical report.
#[test]
fn one_bad_field_one_violation_and_idempotent() {
    let login = LoginRequest {
        username: "ok".to_string(),
        password: "long enough".to_string(),
    };

    let first = login.validate().err().unwrap();
    assert_eq!(first.len(), 1);
    assert_eq!(first.errors()[0].code, "length");
    assert_eq!(
        first.errors()[0].path,
        vec![Seg::Field("username".to_string())]
    );

    let second = login.validate().err().unwrap();
    assert_eq!(first, second);
}

// A mismatched confirmation with otherwise valid fields yields exactly
// one violation, carrying the struct-level rule's code under the empty
// path; neither password field gets a violation of its own.
#[test]
fn password_mismatch_reported_once() {
    let request = RegisterUserRequest {
        username: "qwerty".to_string(),
        password: "12345".to_string(),
        confirm_password: "salah".to_string(),
        name: "Suharjin".to_string(),
        address: AddressRequest {
            street: "St. Albert Einstain No. 18".to_string(),
            city: "Sidney".to_string(),
            country: "Australia".to_string(),
        },
    };
    let context = DatabaseContex {
        total: 100,
        max_data: 1000,
    };

    let report = request.validate_with_context(&context).err().unwrap();
    assert_eq!(report.len(), 1);
    assert_eq!(report.errors()[0].code, "password_equals_confirm_password");
    assert!(report.errors()[0].path.is_empty());
    assert!(report
        .violations_at(&vec![Seg::Field("password".to_string())])
        .is_empty());
    assert!(report
        .violations_at(&vec![Seg::Field("confirm_password".to_string())])
        .is_empty());
}

// A full database fails the capacity rule even though every field-level
// rule passes.
#[test]
fn full_database_rejects_registration() {
    let request = RegisterUserRequest {
        username: "qwerty".to_string(),
        password: "12345".to_string(),
        confirm_password: "12345".to_string(),
        name: "Suharjin".to_string(),
        address: AddressRequest {
            street: "St. Albert Einstain No. 18".to_string(),
            city: "Sidney".to_string(),
            country: "Australia".to_string(),
        },
    };
    let context = DatabaseContex {
        total: 1000,
        max_data: 1000,
    };

    let report = request.validate_with_context(&context).err().unwrap();
    assert_eq!(report.len(), 1);
    assert_eq!(report.errors()[0].code, "can_register");
    assert_eq!(
        report.errors()[0].message,
        "cannot register user qwerty, database is full"
    );
}

// A nested failure is reported under the compound dotted path
// (`address` then `street`), not under either name alone.
#[test]
fn nested_failure_uses_compound_path() {
    let request = RegisterUserRequest {
        username: "qwerty".to_string(),
        password: "12345".to_string(),
        confirm_password: "12345".to_string(),
        name: "Suharjin".to_string(),
        address: AddressRequest {
            street: "x".to_string(),
            city: "Sidney".to_string(),
            country: "Australia".to_string(),
        },
    };
    let context = DatabaseContex {
        total: 100,
        max_data: 1000,
    };

    let report = request.validate_with_context(&context).err().unwrap();
    assert_eq!(report.len(), 1);
    let compound = vec![
        Seg::Field("address".to_string()),
        Seg::Field("street".to_string()),
    ];
    assert_eq!(report.errors()[0].path, compound);
    assert_eq!(report.violations_at(&compound).len(), 1);
    assert!(report
        .violations_at(&vec![Seg::Field("address".to_string())])
        .is_empty());
    assert!(report
        .violations_at(&vec![Seg::Field("street".to_string())])
        .is_empty());
}

// A failing first variant is reported under `variants[0].name` and
// `variants[0].price`; the healthy second variant gets nothing.
#[test]
fn failing_element_reported_under_its_index() {
    let request = Product {
        id: "12345".to_string(),
        name: "Product-1".to_string(),
        variants: vec![
            ProductVariant {
                name: "".to_string(),
                price: 0,
            },
            ProductVariant {
                name: "Variant-2".to_string(),
                price: 5000000,
            },
        ],
    };

    let report = request.validate().err().unwrap();
    let errors = report.errors();
    assert_eq!(errors.len(), 2);
    assert_eq!(
        errors[0].path,
        vec![
            Seg::Field("variants".to_string()),
            Seg::At(0),
            Seg::Field("name".to_string()),
        ]
    );
    assert_eq!(errors[0].code, "length");
    assert_eq!(
        errors[1].path,
        vec![
            Seg::Field("variants".to_string()),
            Seg::At(0),
            Seg::Field("price".to_string()),
        ]
    );
    assert_eq!(errors[1].code, "range");
    for v in errors {
        assert!(!v.path.contains(&Seg::At(1)));
    }
}

// The sequence-level minimum-count rule is reported under the field's
// own path, with no index suffix.
#[test]
fn empty_variant_list_fails_count_rule() {
    let request = Product {
        id: "12345".to_string(),
        name: "Product-1".to_string(),
        variants: vec![],
    };

    let report = request.validate().err().unwrap();
    assert_eq!(report.len(), 1);
    assert_eq!(report.errors()[0].code, "length");
    assert_eq!(
        report.errors()[0].path,
        vec![Seg::Field("variants".to_string())]
    );
}

// Range bounds are inclusive: 1 and 1000000000 pass, 0 fails.
#[test]
fn range_bounds_are_inclusive() {
    let at_min = Product {
        id: "12345".to_string(),
        name: "Product-1".to_string(),
        variants: vec![ProductVariant {
            name: "Variant-1".to_string(),
            price: 1,
        }],
    };
    assert!(at_min.validate().is_ok());

    let at_max = Product {
        id: "12345".to_string(),
        name: "Product-1".to_string(),
        variants: vec![ProductVariant {
            name: "Variant-1".to_string(),
            price: 1000000000,
        }],
    };
    assert!(at_max.validate().is_ok());
}

// Length bounds are inclusive: exactly 3 and exactly 15 characters pass.
#[test]
fn length_bounds_are_inclusive() {
    let shortest = LoginRequest {
        username: "abc".to_string(),
        password: "123".to_string(),
    };
    assert!(shortest.validate().is_ok());

    let longest = LoginRequest {
        username: "123456789012345".to_string(),
        password: "12345678901234567890".to_string(),
    };
    assert!(longest.validate().is_ok());
}

// The standalone custom checks agree with the schema-level rules.
#[test]
fn custom_checks_standalone() {
    assert!(not_blank("abc").is_ok());
    assert!(not_blank(" a ").is_ok());
    let e = not_blank("   ").err().unwrap();
    assert_eq!(e.code, "not_blank");
    assert_eq!(e.message, "value cannot be blank");
    assert!(not_blank("").is_err());

    let request = RegisterUserRequest {
        username: "suharjin07".to_string(),
        password: "12345".to_string(),
        confirm_password: "12345".to_string(),
        name: "Suharjin".to_string(),
        address: AddressRequest {
            street: "St. Albert Einstain No. 18".to_string(),
            city: "Sidney".to_string(),
            country: "Australia".to_string(),
        },
    };
    assert!(password_equals_confirm_password(&request).is_ok());

    let mismatched = RegisterUserRequest {
        confirm_password: "other".to_string(),
        ..request
    };
    let e = password_equals_confirm_password(&mismatched).err().unwrap();
    assert_eq!(e.code, "password_equals_confirm_password");

    let roomy = DatabaseContex {
        total: 99,
        max_data: 100,
    };
    assert!(can_register(&mismatched, &roomy).is_ok());

    let full = DatabaseContex {
        total: 100,
        max_data: 100,
    };
    let e = can_register(&mismatched, &full).err().unwrap();
    assert_eq!(e.code, "can_register");
    assert_eq!(e.message, "cannot register user suharjin07, database is full");
}

// Blankness follows trimming: every character the standard trim removes
// counts as whitespace, and only those.
#[test]
fn blankness_matches_trimming() {
    assert!(not_blank("\u{000B}").is_err());
    assert!(not_blank("\u{000C}\u{0085}\u{00A0}").is_err());
    assert!(not_blank("\u{2003}\u{202F}\u{3000}").is_err());
    // zero width space is not White_Space, so the value is not blank
    assert!(not_blank("\u{200B}").is_ok());

    let samples = [
        "",
        " ",
        "\u{000B}",
        "\u{1680}\u{2028}\u{2029}\u{205F}",
        "\u{2000}\u{2001}\u{2002}\u{2004}\u{2005}\u{2006}\u{2007}\u{2008}\u{2009}\u{200A}",
        "a",
        " a\u{00A0}",
        "\u{200B}",
        "\u{180E}",
    ];
    for s in samples {
        assert_eq!(not_blank(s).is_err(), s.trim().is_empty());
    }
}

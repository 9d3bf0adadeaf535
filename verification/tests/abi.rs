use r55::abi::{
    fn_signature, generate_fn_selector, parse_u64, rust_type_to_sol_type, sol_type_name,
    trim_leading, ArrayLen, MethodInfo, RustType, SolType,
};
use r55::naming::{InterfaceArgs, InterfaceNamingStyle};
use r55::testkit::get_selector_from_sig;

fn path(name: &str) -> RustType {
    RustType::Path { name: name.to_string() }
}

fn generic(name: &str, first: RustType) -> RustType {
    RustType::Generic { name: name.to_string(), first: Some(Box::new(first)) }
}

fn array(elem: RustType, len: &str) -> RustType {
    RustType::Array { elem: Box::new(elem), len: ArrayLen::Int(len.to_string()) }
}

fn method(name: &str, args: Vec<RustType>) -> MethodInfo {
    MethodInfo { name: name.to_string(), is_mut: false, args }
}

#[test]
fn test_rust_to_sol_basic_types() {
    let test_cases = vec![
        (path("Address"), SolType::Address),
        (path("Function"), SolType::Function),
        (path("bool"), SolType::Bool),
        (path("Bool"), SolType::Bool),
        (path("String"), SolType::String),
        (path("str"), SolType::String),
        (path("Bytes"), SolType::Bytes),
    ];

    for (rust_type, expected_sol_type) in test_cases {
        assert_eq!(rust_type_to_sol_type(&rust_type).unwrap(), expected_sol_type);
    }
}

#[test]
fn test_rust_to_sol_fixed_bytes() {
    let test_cases = vec![
        (path("B1"), SolType::FixedBytes(1)),
        (path("B16"), SolType::FixedBytes(16)),
        (path("B32"), SolType::FixedBytes(32)),
    ];

    for (rust_type, expected_sol_type) in test_cases {
        assert_eq!(rust_type_to_sol_type(&rust_type).unwrap(), expected_sol_type);
    }

    assert!(rust_type_to_sol_type(&path("B0")).is_err());
    assert!(rust_type_to_sol_type(&path("B33")).is_err());
}

#[test]
fn test_rust_to_sol_integers() {
    let test_cases = vec![
        (path("U8"), SolType::Uint(8)),
        (path("U256"), SolType::Uint(256)),
        (path("I8"), SolType::Int(8)),
        (path("I256"), SolType::Int(256)),
    ];

    for (rust_type, expected_sol_type) in test_cases {
        assert_eq!(rust_type_to_sol_type(&rust_type).unwrap(), expected_sol_type);
    }

    assert!(rust_type_to_sol_type(&path("U0")).is_err());
    assert!(rust_type_to_sol_type(&path("U257")).is_err());
    assert!(rust_type_to_sol_type(&path("U7")).is_err());
    assert!(rust_type_to_sol_type(&path("I0")).is_err());
    assert!(rust_type_to_sol_type(&path("I257")).is_err());
    assert!(rust_type_to_sol_type(&path("I7")).is_err());
}

#[test]
fn test_rust_to_sol_arrays() {
    assert_eq!(
        rust_type_to_sol_type(&generic("Vec", path("U256"))).unwrap(),
        SolType::Array(Box::new(SolType::Uint(256)))
    );

    assert_eq!(
        rust_type_to_sol_type(&generic("Vec", path("Bool"))).unwrap(),
        SolType::Array(Box::new(SolType::Bool))
    );

    assert_eq!(
        rust_type_to_sol_type(&array(path("U256"), "5")).unwrap(),
        SolType::FixedArray(Box::new(SolType::Uint(256)), 5)
    );

    assert_eq!(
        rust_type_to_sol_type(&array(path("Bool"), "3")).unwrap(),
        SolType::FixedArray(Box::new(SolType::Bool), 3)
    );
}

#[test]
fn test_rust_to_sol_tuples() {
    assert_eq!(
        rust_type_to_sol_type(&RustType::Tuple(vec![path("U256"), path("Bool")])).unwrap(),
        SolType::Tuple(vec![SolType::Uint(256), SolType::Bool])
    );

    assert_eq!(
        rust_type_to_sol_type(&RustType::Tuple(vec![path("Address"), path("B32"), path("I128")]))
            .unwrap(),
        SolType::Tuple(vec![SolType::Address, SolType::FixedBytes(32), SolType::Int(128)])
    );
}

#[test]
fn test_rust_to_sol_nested_types() {
    assert_eq!(
        rust_type_to_sol_type(&generic("Vec", generic("Vec", path("U256")))).unwrap(),
        SolType::Array(Box::new(SolType::Array(Box::new(SolType::Uint(256)))))
    );

    assert_eq!(
        rust_type_to_sol_type(&array(array(path("U256"), "2"), "3")).unwrap(),
        SolType::FixedArray(
            Box::new(SolType::FixedArray(Box::new(SolType::Uint(256)), 2)),
            3
        )
    );

    assert_eq!(
        rust_type_to_sol_type(&RustType::Tuple(vec![
            path("U256"),
            RustType::Tuple(vec![path("Bool"), path("Address")])
        ]))
        .unwrap(),
        SolType::Tuple(vec![
            SolType::Uint(256),
            SolType::Tuple(vec![SolType::Bool, SolType::Address])
        ])
    );
}

#[test]
fn test_rust_to_sol_invalid_types() {
    assert!(rust_type_to_sol_type(&path("InvalidType")).is_err());

    assert!(rust_type_to_sol_type(&generic("Option", path("U256"))).is_err());
    assert!(rust_type_to_sol_type(&generic("Result", path("U256"))).is_err());
}

#[test]
fn test_fn_selector() {
    let m = method("balance", vec![]);
    assert_eq!(generate_fn_selector(&m, None).unwrap(), get_selector_from_sig("balance()"),);

    let m = method("transfer", vec![path("Address")]);
    assert_eq!(
        generate_fn_selector(&m, None).unwrap(),
        get_selector_from_sig("transfer(address)"),
    );

    let m = method("transfer_from", vec![path("Address"), path("Address"), path("U256")]);
    assert_eq!(
        generate_fn_selector(&m, None).unwrap(),
        get_selector_from_sig("transfer_from(address,address,uint256)")
    );

    let m = method("batch_transfer", vec![generic("Vec", path("Address"))]);
    assert_eq!(
        generate_fn_selector(&m, None).unwrap(),
        get_selector_from_sig("batch_transfer(address[])")
    );

    let m = method(
        "complex_transfer",
        vec![
            RustType::Tuple(vec![path("Address"), path("U256")]),
            RustType::Tuple(vec![generic("Vec", path("Address")), generic("Vec", path("Bool"))]),
        ],
    );
    assert_eq!(
        generate_fn_selector(&m, None).unwrap(),
        get_selector_from_sig("complex_transfer((address,uint256),(address[],bool[]))")
    );

    let m = method("multi_transfer", vec![array(path("U256"), "3")]);
    assert_eq!(
        generate_fn_selector(&m, None).unwrap(),
        get_selector_from_sig("multi_transfer(uint256[3])")
    );
}

#[test]
fn test_fn_selector_rename_camel_case() {
    let m = method("get_balance", vec![]);
    assert_eq!(
        generate_fn_selector(&m, Some(InterfaceNamingStyle::CamelCase)).unwrap(),
        get_selector_from_sig("getBalance()")
    );

    let m = method("transfer_from_account", vec![path("Address")]);
    assert_eq!(
        generate_fn_selector(&m, Some(InterfaceNamingStyle::CamelCase)).unwrap(),
        get_selector_from_sig("transferFromAccount(address)")
    );
}

#[test]
fn test_fn_selector_erc20() {
    let cases = vec![
        ("totalSupply", vec![], "totalSupply()"),
        ("balanceOf", vec![path("Address")], "balanceOf(address)"),
        ("transfer", vec![path("Address"), path("U256")], "transfer(address,uint256)"),
        ("allowance", vec![path("Address"), path("Address")], "allowance(address,address)"),
        ("approve", vec![path("Address"), path("U256")], "approve(address,uint256)"),
        (
            "transferFrom",
            vec![path("Address"), path("Address"), path("U256")],
            "transferFrom(address,address,uint256)",
        ),
    ];

    for (name, args, signature) in cases {
        let m = method(name, args);
        assert_eq!(
            generate_fn_selector(&m, None).unwrap(),
            get_selector_from_sig(signature),
            "Selector mismatch for {}",
            signature
        );
    }
}

#[test]
fn test_fn_selector_erc721() {
    let cases = vec![
        (
            "safeTransferFrom",
            vec![path("Address"), path("Address"), path("U256"), path("Bytes")],
            "safeTransferFrom(address,address,uint256,bytes)",
        ),
        ("name", vec![], "name()"),
        ("symbol", vec![], "symbol()"),
        ("tokenURI", vec![path("U256")], "tokenURI(uint256)"),
        ("approve", vec![path("Address"), path("U256")], "approve(address,uint256)"),
        (
            "setApprovalForAll",
            vec![path("Address"), path("bool")],
            "setApprovalForAll(address,bool)",
        ),
    ];

    for (name, args, signature) in cases {
        let m = method(name, args);
        assert_eq!(
            generate_fn_selector(&m, None).unwrap(),
            get_selector_from_sig(signature),
            "Selector mismatch for {}",
            signature
        );
    }
}

#[test]
fn every_reason_for_a_type_without_counterpart() {
    let error = |ty: RustType| rust_type_to_sol_type(&ty).unwrap_err();
    assert_eq!(error(RustType::EmptyPath), "Empty type path");
    assert_eq!(error(RustType::Other), "Unsupported type");
    assert_eq!(error(path("u64")), "Unsupported type");
    assert_eq!(error(path("Box")), "Invalid fixed bytes size");
    assert_eq!(error(path("B")), "Invalid fixed bytes size");
    assert_eq!(error(path("B33")), "Invalid fixed bytes size (between 1-32)");
    assert_eq!(error(path("Uint")), "Invalid uint size");
    assert_eq!(error(path("U264")), "Invalid uint size (multiple of 8 + leq 256)");
    assert_eq!(error(path("I")), "Invalid int size");
    assert_eq!(error(path("I12")), "Invalid int size (must be multiple of 8, max 256)");
    assert_eq!(error(generic("Option", path("U256"))), "Unsupported generic type");
    assert_eq!(
        error(RustType::Generic { name: "Vec".to_string(), first: None }),
        "Empty Vec type argument"
    );
    assert_eq!(
        error(RustType::GenericOther { name: "Vec".to_string() }),
        "Invalid Vec type argument"
    );
    assert_eq!(
        error(RustType::GenericOther { name: "Cow".to_string() }),
        "Unsupported generic type"
    );
    assert_eq!(error(generic("Vec", path("u8"))), "Unsupported type");
    assert_eq!(error(array(path("U8"), "x")), "Invalid array size");
    assert_eq!(error(array(path("u8"), "x")), "Unsupported type");
    assert_eq!(
        error(RustType::Array { elem: Box::new(path("U8")), len: ArrayLen::OtherLiteral }),
        "Invalid array size literal"
    );
    assert_eq!(
        error(RustType::Array { elem: Box::new(path("U8")), len: ArrayLen::Expression }),
        "Invalid array size expression"
    );
    assert_eq!(
        error(RustType::Tuple(vec![path("U8"), path("B99"), path("u8")])),
        "Invalid fixed bytes size (between 1-32)"
    );
}

#[test]
fn names_that_stand_for_a_type_by_themselves_ignore_their_arguments() {
    assert_eq!(rust_type_to_sol_type(&generic("Address", path("u8"))).unwrap(), SolType::Address);
    assert_eq!(
        rust_type_to_sol_type(&RustType::GenericOther { name: "U16".to_string() }).unwrap(),
        SolType::Uint(16)
    );
    assert_eq!(rust_type_to_sol_type(&path("UU8")).unwrap(), SolType::Uint(8));
    assert_eq!(rust_type_to_sol_type(&path("B+8")).unwrap(), SolType::FixedBytes(8));
    assert_eq!(trim_leading("UUU8U", 'U'), "8U");
    assert_eq!(trim_leading("UUU", 'U'), "");
    assert_eq!(trim_leading("", 'U'), "");
    assert_eq!(trim_leading("abc", 'U'), "abc");
}

#[test]
fn the_names_of_the_types_of_the_interface() {
    let name = |t: SolType| sol_type_name(&t);
    assert_eq!(name(SolType::Address), "address");
    assert_eq!(name(SolType::Function), "function");
    assert_eq!(name(SolType::Bool), "bool");
    assert_eq!(name(SolType::String), "string");
    assert_eq!(name(SolType::Bytes), "bytes");
    assert_eq!(name(SolType::FixedBytes(32)), "bytes32");
    assert_eq!(name(SolType::Uint(256)), "uint256");
    assert_eq!(name(SolType::Uint(8)), "uint8");
    assert_eq!(name(SolType::Int(0)), "int0");
    assert_eq!(name(SolType::Array(Box::new(SolType::Int(128)))), "int128[]");
    assert_eq!(name(SolType::FixedArray(Box::new(SolType::Bool), 1000)), "bool[1000]");
    assert_eq!(name(SolType::Tuple(vec![])), "()");
    assert_eq!(name(SolType::Tuple(vec![SolType::Bool])), "(bool)");
    assert_eq!(
        name(SolType::Tuple(vec![
            SolType::Array(Box::new(SolType::Tuple(vec![SolType::Address, SolType::Bytes]))),
            SolType::FixedArray(Box::new(SolType::Uint(16)), 2),
        ])),
        "((address,bytes)[],uint16[2])"
    );
}

#[test]
fn a_method_with_an_argument_without_counterpart_has_no_selector() {
    let m = method("f", vec![path("U8"), path("u8")]);
    assert_eq!(fn_signature(&m, None), None);
    assert_eq!(generate_fn_selector(&m, None), None);
    let ok = MethodInfo { name: "set_value".to_string(), is_mut: true, args: vec![path("U8")] };
    assert_eq!(fn_signature(&ok, None), Some("set_value(uint8)".to_string()));
    assert_eq!(
        fn_signature(&ok, Some(InterfaceNamingStyle::CamelCase)),
        Some("setValue(uint8)".to_string())
    );
    assert!(ok.is_mutable());
    assert!(!m.is_mutable());
}

#[test]
fn the_only_style_is_camel_case() {
    assert_eq!(InterfaceArgs::parse(None), Ok(InterfaceArgs { rename: None }));
    assert_eq!(
        InterfaceArgs::parse(Some("camelCase")),
        Ok(InterfaceArgs { rename: Some(InterfaceNamingStyle::CamelCase) })
    );
    assert_eq!(
        InterfaceArgs::parse(Some("snake_case")),
        Err("unsupported style: snake_case. Only 'camelCase' is supported".to_string())
    );
}

#[test]
fn numbers_are_read_as_the_standard_library_reads_them() {
    assert_eq!(parse_u64("256"), Some(256));
    assert_eq!(parse_u64("+8"), Some(8));
    assert_eq!(parse_u64("0008"), Some(8));
    assert_eq!(parse_u64("0"), Some(0));
    assert_eq!(parse_u64("18446744073709551615"), Some(u64::MAX));
    assert_eq!(parse_u64("18446744073709551616"), None);
    assert_eq!(parse_u64("99999999999999999999999"), None);
    assert_eq!(parse_u64(""), None);
    assert_eq!(parse_u64("+"), None);
    assert_eq!(parse_u64("++1"), None);
    assert_eq!(parse_u64("-1"), None);
    assert_eq!(parse_u64("1a"), None);
    assert_eq!(parse_u64(" 1"), None);
    assert_eq!(parse_u64("1_000"), None);
    for text in [
        "256", "+8", "0008", "", "+", "++1", "-0", "1a", "\u{0663}", "18446744073709551615",
        "18446744073709551616", "184467440737095516150", "00000000000000000000000001", "+0",
    ] {
        assert_eq!(parse_u64(text), text.parse::<u64>().ok(), "{:?}", text);
    }
}

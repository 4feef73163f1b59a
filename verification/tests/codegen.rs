use coral_rs::codegen::__private::{
    get_option, get_options, option_separator, split_values, Blob, Error, FromBytes,
    FromBytesError, ItemSource, OptionSource,
};
use coral_rs::codegen::options::{
    generate_option_structure, identifier, option_info, render, vector_type, AgentDefinition,
    AgentOption, AgentOptionKind, AgentOptionTransport, OptionTypeInfo,
};
use std::str::FromStr;

fn unexpected<T>(message: &str) -> Result<T, FromBytesError> {
    Err(FromBytesError::UnexpectedData(message.to_string()))
}

fn option(kind: AgentOptionKind, has_default: bool, required: Option<bool>, fs: bool) -> AgentOption {
    AgentOption {
        kind,
        has_default,
        required,
        transport: if fs { Some(AgentOptionTransport::Fs) } else { None },
    }
}

#[test]
fn single_bytes_take_the_last_byte() {
    assert_eq!(u8::from_bytes(vec![1, 2, 200]), Ok(200));
    assert_eq!(u8::from_bytes(vec![]), unexpected("file is empty"));
    assert_eq!(i8::from_bytes(vec![1, 0x7f]), Ok(127));
    assert_eq!(i8::from_bytes(vec![0x80]), Ok(-128));
    assert_eq!(i8::from_bytes(vec![0xff]), Ok(-1));
    assert_eq!(i8::from_bytes(vec![]), unexpected("file is empty"));
    assert_eq!(bool::from_bytes(vec![0, 1]), Ok(true));
    assert_eq!(bool::from_bytes(vec![7, 0]), Ok(false));
    assert_eq!(bool::from_bytes(vec![2]), Ok(true));
    assert_eq!(bool::from_bytes(vec![]), unexpected("file is empty"));
}

#[test]
fn wider_numbers_are_big_endian() {
    assert_eq!(u16::from_bytes(vec![3, 0]), Ok(768));
    assert_eq!(u16::from_bytes(vec![0xc3, 0x50, 9, 9]), Ok(50000));
    assert_eq!(u16::from_bytes(vec![1]), unexpected("not enough bytes"));
    assert_eq!(i16::from_bytes(vec![0xfb, 0x2e]), Ok(-1234));
    assert_eq!(i16::from_bytes(vec![0x80, 0x00]), Ok(i16::MIN));
    assert_eq!(i16::from_bytes(vec![]), unexpected("not enough bytes"));
    assert_eq!(u32::from_bytes(vec![0xb2, 0xd0, 0x5e, 0x00]), Ok(3_000_000_000));
    assert_eq!(u32::from_bytes(vec![1, 2, 3]), unexpected("not enough bytes"));
    assert_eq!(i32::from_bytes(vec![0x00, 0x0f, 0x12, 0x06]), Ok(987_654));
    assert_eq!(i32::from_bytes(vec![0xff, 0xff, 0xff, 0xfe, 5]), Ok(-2));
    assert_eq!(i32::from_bytes(vec![1, 2, 3]), unexpected("not enough bytes"));
    assert_eq!(u64::from_bytes(vec![0xff; 8]), Ok(u64::MAX));
    assert_eq!(u64::from_bytes(vec![0, 0, 0, 0, 0, 0, 1, 2]), Ok(258));
    assert_eq!(u64::from_bytes(vec![0xff; 7]), unexpected("not enough bytes"));
    assert_eq!(
        i64::from_bytes(vec![0xff, 0xff, 0xff, 0xfd, 0xb3, 0x4f, 0xe9, 0x16]),
        Ok(-9_876_543_210)
    );
    assert_eq!(i64::from_bytes(vec![0x80, 0, 0, 0, 0, 0, 0, 0]), Ok(i64::MIN));
    assert_eq!(i64::from_bytes(vec![0x7f, 0xff, 0xff, 0xff, 0xff, 0xff, 0xff, 0xff]), Ok(i64::MAX));
    assert_eq!(i64::from_bytes(vec![]), unexpected("not enough bytes"));
}

#[test]
fn text_must_be_utf8() {
    assert_eq!(String::from_bytes("Hello, World!".as_bytes().to_vec()), Ok("Hello, World!".to_string()));
    assert_eq!(String::from_bytes(vec![0xc3, 0xa9]), Ok("\u{e9}".to_string()));
    assert_eq!(String::from_bytes(vec![]), Ok(String::new()));
    assert_eq!(String::from_bytes(vec![0xff]), unexpected("invalid utf8 bytes"));
    assert_eq!(String::from_bytes(vec![0xc3]), unexpected("invalid utf8 bytes"));
}

#[test]
fn blob_takes_bytes_as_they_are() {
    assert_eq!(Blob::from_bytes(vec![1, 2, 3]), Ok(Blob { data: vec![1, 2, 3] }));
    assert_eq!(Blob::from_bytes(vec![]), Ok(Blob { data: vec![] }));
}

#[test]
fn blob_parses_base64() {
    assert_eq!(Blob::from_str("SGVsbG8="), Ok(Blob { data: vec![0x48, 0x65, 0x6c, 0x6c, 0x6f] }));
    assert_eq!(Blob::parse("SGVsbG8="), Ok(Blob { data: b"Hello".to_vec() }));
    assert_eq!("AQID".parse::<Blob>(), Ok(Blob { data: vec![1, 2, 3] }));
    assert_eq!(Blob::parse(""), Ok(Blob { data: vec![] }));
    assert_eq!(Blob::parse("not base64!"), unexpected("invalid base64"));
    assert_eq!(Blob::from_str("SGVsbG8"), unexpected("invalid base64"));
    assert_eq!(Blob::from_decoded(Some(vec![9])), Ok(Blob { data: vec![9] }));
    assert_eq!(Blob::from_decoded(None), unexpected("invalid base64"));
}

#[test]
fn option_from_its_source() {
    assert_eq!(
        get_option::<u8>("PORT", OptionSource::Missing),
        Err(Error::MissingOption("PORT".to_string()))
    );
    assert_eq!(
        get_option("PORT", OptionSource::Text { value: "42".to_string(), parsed: Some(42u8) }),
        Ok(42)
    );
    assert_eq!(
        get_option::<u8>("PORT", OptionSource::Text { value: "x".to_string(), parsed: None }),
        Err(Error::BadValue("x".to_string(), "PORT".to_string()))
    );
    assert_eq!(
        get_option::<u16>(
            "PORT",
            OptionSource::File { path: "/p".to_string(), read: Ok(vec![0x1f, 0x90]) }
        ),
        Ok(8080)
    );
    assert_eq!(
        get_option::<u16>("PORT", OptionSource::File { path: "/p".to_string(), read: Ok(vec![1]) }),
        Err(Error::UnexpectedData("/p".to_string(), "not enough bytes".to_string()))
    );
    assert_eq!(
        get_option::<String>(
            "NAME",
            OptionSource::File { path: "/p".to_string(), read: Err("denied".to_string()) }
        ),
        Err(Error::IO("denied".to_string()))
    );
}

#[test]
fn list_values_are_split_at_the_separator() {
    assert_eq!(option_separator(false, false), ',');
    assert_eq!(option_separator(false, true), ',');
    assert_eq!(option_separator(true, false), ':');
    assert_eq!(option_separator(true, true), ';');
    assert_eq!(split_values("a,b,c", ','), vec!["a", "b", "c"]);
    assert_eq!(split_values("", ','), vec![""]);
    assert_eq!(split_values("abc", ','), vec!["abc"]);
    assert_eq!(split_values(",a,,b,", ','), vec!["", "a", "", "b", ""]);
    assert_eq!(split_values("/x/y:/z", ':'), vec!["/x/y", "/z"]);
    assert_eq!(split_values("h\u{e9}:\u{4e16}\u{754c}", ':'), vec!["h\u{e9}", "\u{4e16}\u{754c}"]);
    let std_split: Vec<&str> = ",a,,b,".split(',').collect();
    assert_eq!(split_values(",a,,b,", ','), std_split);
}

#[test]
fn list_option_from_its_sources() {
    assert_eq!(get_options::<u8>("L", None), Err(Error::MissingOption("L".to_string())));
    assert_eq!(get_options::<u8>("L", Some(vec![])), Ok(vec![]));
    assert_eq!(
        get_options(
            "L",
            Some(vec![
                ItemSource::Text { value: "1".to_string(), parsed: Some(1i32) },
                ItemSource::File { path: "/f".to_string(), read: Ok(vec![0, 0, 0, 2]) },
                ItemSource::Text { value: "3".to_string(), parsed: Some(3) },
            ])
        ),
        Ok(vec![1, 2, 3])
    );
    // The first item that holds no value decides; a bad value names the option first.
    assert_eq!(
        get_options(
            "L",
            Some(vec![
                ItemSource::Text { value: "1".to_string(), parsed: Some(1u8) },
                ItemSource::Text { value: "two".to_string(), parsed: None },
                ItemSource::File { path: "/f".to_string(), read: Err("gone".to_string()) },
            ])
        ),
        Err(Error::BadValue("L".to_string(), "two".to_string()))
    );
    assert_eq!(
        get_options::<u8>(
            "L",
            Some(vec![
                ItemSource::File { path: "/f".to_string(), read: Err("gone".to_string()) },
                ItemSource::Text { value: "two".to_string(), parsed: None },
            ])
        ),
        Err(Error::IO("gone".to_string()))
    );
    assert_eq!(
        get_options::<u8>(
            "L",
            Some(vec![ItemSource::File { path: "/f".to_string(), read: Ok(vec![]) }])
        ),
        Err(Error::UnexpectedData("/f".to_string(), "file is empty".to_string()))
    );
}

#[test]
fn identifiers_and_vector_types() {
    assert!(identifier("abc") && identifier("_a1") && identifier("A_B") && identifier("_"));
    assert!(!identifier("") && !identifier("1a") && !identifier("a b") && !identifier("a-b"));
    assert!(!identifier("caf\u{e9}") && !identifier("a\"") && !identifier(" a"));
    assert!(vector_type("Vec<u8>") && vector_type("Vec") && vector_type("Vector"));
    assert!(!vector_type("Ve") && !vector_type("vec<u8>") && !vector_type("Option<Vec<u8>>"));
}

#[test]
fn info_of_single_and_list_options() {
    let single = OptionTypeInfo::new("MY_Port".to_string(), None::<u8>, None, "u16", None);
    assert_eq!(
        single,
        OptionTypeInfo {
            name: "MY_Port".to_string(),
            field_name: "my_port".to_string(),
            optional: true,
            ty: "u16".to_string(),
            file_system: false,
        }
    );
    assert!(!OptionTypeInfo::new("A".to_string(), Some(1), None, "u8", None).optional);
    assert!(!OptionTypeInfo::new("A".to_string(), None::<u8>, Some(true), "u8", None).optional);
    assert!(OptionTypeInfo::new("A".to_string(), None::<u8>, Some(false), "u8", None).optional);
    assert!(!OptionTypeInfo::new("A".to_string(), Some(1), Some(true), "u8", None).optional);
    let fs = Some(AgentOptionTransport::Fs);
    assert!(OptionTypeInfo::new("A".to_string(), Some(1), None, "u8", fs).file_system);
    let env = Some(AgentOptionTransport::Env);
    assert!(!OptionTypeInfo::new("A".to_string(), Some(1), None, "u8", env).file_system);
    assert_eq!(
        OptionTypeInfo::new_list("FS_LIST".to_string(), "i64", fs),
        OptionTypeInfo {
            name: "FS_LIST".to_string(),
            field_name: "fs_list".to_string(),
            optional: false,
            ty: "Vec<i64>".to_string(),
            file_system: true,
        }
    );
    assert_eq!(
        OptionTypeInfo::with_field_name("N".to_string(), "f".to_string(), None::<u8>, None, "bool", None)
            .field_name,
        "f"
    );
    assert_eq!(
        OptionTypeInfo::list_with_field_name("N".to_string(), "f".to_string(), "bool", None).ty,
        "Vec<bool>"
    );
}

#[test]
fn kinds_map_to_types() {
    let info = |kind| option_info(&"X".to_string(), &option(kind, false, None, false));
    assert_eq!(info(AgentOptionKind::Number).ty, "f64");
    assert_eq!(info(AgentOptionKind::Secret).ty, "String");
    assert_eq!(info(AgentOptionKind::Bool).ty, "bool");
    assert_eq!(info(AgentOptionKind::ListF32).ty, "Vec<f32>");
    assert_eq!(info(AgentOptionKind::ListString).ty, "Vec<String>");
    assert_eq!(info(AgentOptionKind::Blob).ty, "Vec<::coral_rs::codegen::__private::Blob>");
    assert_eq!(info(AgentOptionKind::ListBlob).ty, "Vec<::coral_rs::codegen::__private::Blob>");
    assert!(info(AgentOptionKind::U64).optional);
    assert!(!info(AgentOptionKind::ListU64).optional);
    assert!(!info(AgentOptionKind::Blob).optional);
    assert!(AgentOptionKind::Blob.is_list() && !AgentOptionKind::Number.is_list());
    assert_eq!(AgentOptionKind::I16.value_type(), "i16");
}

#[test]
fn rendered_source_before_formatting() {
    let infos = vec![
        OptionTypeInfo::new("A".to_string(), None::<u8>, None, "u8", None),
        OptionTypeInfo::new_list("B".to_string(), "u8", Some(AgentOptionTransport::Fs)),
    ];
    assert_eq!(
        render(&infos),
        "#[derive(Debug, Clone)]\npub struct Options {\na: Option<u8>,\nb: Vec<u8>,\n}\n\
impl Options {\npub fn parse() -> Result<Self, ::coral_rs::codegen::__private::Error> {\nOk(Self {\n\
a: match ::coral_rs::codegen::__private::get_option(\"A\", false) {\nOk(x) => Some(x),\n\
Err(::coral_rs::codegen::__private::Error::MissingOption(_)) => None,\nErr(e) => return Err(e),\n},\n\
b: ::coral_rs::codegen::__private::get_options(\"B\", true)?,\n})\n}\n}\n"
    );
}

#[test]
fn generated_code_for_options() {
    let definition = AgentDefinition {
        options: vec![
            ("REQUIRED_I8".to_string(), option(AgentOptionKind::I8, false, Some(true), false)),
            ("MAYBE_NAME".to_string(), option(AgentOptionKind::String, false, None, false)),
            ("FS_LIST_BLOB".to_string(), option(AgentOptionKind::ListBlob, false, None, true)),
            ("KEY".to_string(), option(AgentOptionKind::Blob, true, Some(false), false)),
        ],
    };
    let expected = "#[derive(Debug, Clone)]
pub struct Options {
    required_i8: i8,
    maybe_name: Option<String>,
    fs_list_blob: Vec<::coral_rs::codegen::__private::Blob>,
    key: Vec<::coral_rs::codegen::__private::Blob>,
}
impl Options {
    pub fn parse() -> Result<Self, ::coral_rs::codegen::__private::Error> {
        Ok(Self {
            required_i8: ::coral_rs::codegen::__private::get_option(
                \"REQUIRED_I8\",
                false,
            )?,
            maybe_name: match ::coral_rs::codegen::__private::get_option(
                \"MAYBE_NAME\",
                false,
            ) {
                Ok(x) => Some(x),
                Err(::coral_rs::codegen::__private::Error::MissingOption(_)) => None,
                Err(e) => return Err(e),
            },
            fs_list_blob: ::coral_rs::codegen::__private::get_options(
                \"FS_LIST_BLOB\",
                true,
            )?,
            key: ::coral_rs::codegen::__private::get_options(\"KEY\", false)?,
        })
    }
}
";
    assert_eq!(generate_option_structure(&definition), Some(expected.to_string()));
}

#[test]
fn generated_code_without_options() {
    let expected = "#[derive(Debug, Clone)]
pub struct Options {}
impl Options {
    pub fn parse() -> Result<Self, ::coral_rs::codegen::__private::Error> {
        Ok(Self {})
    }
}
";
    assert_eq!(
        generate_option_structure(&AgentDefinition { options: vec![] }),
        Some(expected.to_string())
    );
}

#[test]
fn no_code_for_names_that_are_no_identifiers() {
    for name in ["", "two words", "1st", "a-b", "x: u8, y", "caf\u{e9}", "fn", "SELF", "_"] {
        let definition = AgentDefinition {
            options: vec![
                ("GOOD".to_string(), option(AgentOptionKind::U8, false, None, false)),
                (name.to_string(), option(AgentOptionKind::U8, false, None, false)),
            ],
        };
        assert_eq!(generate_option_structure(&definition), None);
    }
}

#[test]
fn no_code_for_a_name_given_twice() {
    let twice = AgentDefinition {
        options: vec![
            ("PORT".to_string(), option(AgentOptionKind::U8, false, None, false)),
            ("HOST".to_string(), option(AgentOptionKind::String, false, None, false)),
            ("PORT".to_string(), option(AgentOptionKind::U16, true, None, false)),
        ],
    };
    assert!(!twice.names_are_distinct());
    assert_eq!(generate_option_structure(&twice), None);
    let once = AgentDefinition {
        options: vec![
            ("PORT".to_string(), option(AgentOptionKind::U8, false, None, false)),
            ("HOST".to_string(), option(AgentOptionKind::String, false, None, false)),
        ],
    };
    assert!(once.names_are_distinct());
    assert!(generate_option_structure(&once).is_some());
    assert!(AgentDefinition { options: vec![] }.names_are_distinct());
}

#[test]
fn field_is_named_by_the_option_in_lowercase() {
    let info = OptionTypeInfo::new::<bool>("Max_Tokens9".to_string(), None, None, "u32", None);
    assert_eq!(info.name, "Max_Tokens9");
    assert_eq!(info.field_name, "max_tokens9");
    let list = OptionTypeInfo::new_list("HOSTS".to_string(), "String", None);
    assert_eq!(list.field_name, "hosts");
}

use wui::Error;
use wui::cargo::CargoManifest;
use wui::manifest::DisplayOr;
use wui::manifest::ProcArch;
use wui::manifest::XMLNS_ASM_V1;
use wui::manifest::asm_comctl6;
use wui::manifest::guess_manifest;
use wui::manifest::ident_xml;
use wui::manifest::quick_manifest;
use wui::manifest::write_manifest;
use wui::manifest::xml_escape_attr;
use wui::resource::FileInfoName;
use wui::resource::ResourceScript;
use wui::resource::StringFileInfo;
use wui::resource::UserData;
use wui::resource::UserDefined;
use wui::resource::Version;
use wui::resource::guess_version_info;
use wui::resource::parse_version;
use wui::target::RcInvocation;
use wui::target::Target;
use wui::target::Toolchain;
use wui::target::io_err;
use wui::textfmt::dec_u32;
use wui::textfmt::hex_fixed;
use wui::textfmt::index_of;
use wui::textfmt::str_ends_with;
use wui::textfmt::str_starts_with;

#[test]
fn test_xml_escape_attr() {
    let xea = xml_escape_attr;
    assert_eq!(xea("abcd"), "abcd");
    assert_eq!(xea("ab'cd"), "ab&apos;cd");
    assert_eq!(xea("ab\"cd"), "ab&quot;cd");
    assert_eq!(xea("ab&cd"), "ab&amp;cd");
    assert_eq!(xea("ab&apos;cd"), "ab&amp;apos;cd");
}

#[test]
fn number_rendering() {
    assert_eq!(dec_u32(0), "0");
    assert_eq!(dec_u32(7), "7");
    assert_eq!(dec_u32(65535), "65535");
    assert_eq!(hex_fixed(0x40000, 8, false), "00040000");
    assert_eq!(hex_fixed(0x040904B0, 8, true), "040904B0");
    assert_eq!(hex_fixed(0xFF, 2, false), "ff");
    assert_eq!(hex_fixed(0x409, 4, false), "0409");
}

#[test]
fn string_scanning() {
    assert!(str_starts_with("x86_64-pc-windows-gnu", "x86_64-"));
    assert!(!str_starts_with("i686-pc-windows-gnu", "x86_64-"));
    assert!(str_ends_with("x86_64-pc-windows-gnu", "-gnu"));
    assert!(!str_ends_with("x86_64-pc-windows-msvc", "-gnu"));
    assert_eq!(index_of("1.2.3", '.', 0), 1);
    assert_eq!(index_of("1.2.3", '.', 2), 3);
    assert_eq!(index_of("123", '.', 0), 3);
}

#[test]
fn version_parses_three_parts() {
    let v = parse_version("1.2.3").unwrap();
    assert_eq!(v.0, [1, 2, 3, 0]);
    let v = parse_version("10.20.30-alpha.1").unwrap();
    assert_eq!(v.0, [10, 20, 30, 0]);
    let v = parse_version("1.2.3.9999").unwrap();
    assert_eq!(v.0, [1, 2, 3, 0]);
}

#[test]
fn version_parse_failures_name_the_part() {
    match parse_version("1.2") {
        Err(Error::Other(m)) => assert_eq!(m, "package version missing revision number"),
        _ => panic!("expected the missing-part error"),
    }
    match parse_version("1") {
        Err(Error::Other(m)) => assert_eq!(m, "package version missing minor number"),
        _ => panic!("expected the missing-part error"),
    }
    match parse_version("x.2.3") {
        Err(Error::Other(m)) => {
            assert_eq!(m, "invalid major number: invalid digit found in string")
        },
        _ => panic!("expected the parse error"),
    }
    match parse_version("") {
        Err(Error::Other(m)) => {
            assert_eq!(m, "invalid major number: cannot parse integer from empty string")
        },
        _ => panic!("expected the parse error"),
    }
    match parse_version("1.70000.2") {
        Err(Error::Other(m)) => {
            assert_eq!(m, "invalid minor number: number too large to fit in target type")
        },
        _ => panic!("expected the overflow error"),
    }
}

#[test]
fn version_text_is_comma_separated() {
    assert_eq!(Version([1, 2, 3, 0]).to_text(), "1,2,3,0");
    assert_eq!(Version([0, 0, 0, 0]).to_text(), "0,0,0,0");
}

#[test]
fn manifest_facts() {
    let cm = CargoManifest::new(Some("hello".to_string()), Some("1.2.3".to_string()));
    assert_eq!(cm.package_name().unwrap(), "hello");
    assert_eq!(cm.version().unwrap(), "1.2.3");
    assert_eq!(cm.description().unwrap(), None);
    let empty = CargoManifest::new(None, None);
    match empty.package_name() {
        Err(Error::Other(m)) => assert_eq!(m, "could not find package name in manifest"),
        _ => panic!("expected the missing-name error"),
    }
    match empty.version() {
        Err(Error::Other(m)) => {
            assert_eq!(m, "could not find package version in manifest")
        },
        _ => panic!("expected the missing-version error"),
    }
}

#[test]
fn identity_renders_optional_attributes() {
    let c = asm_comctl6();
    assert_eq!(
        ident_xml(&c),
        "<assemblyIdentity type='win32' name='Microsoft.Windows.Common-Controls' \
         version='6.0.0.0' processorArchitecture='*'  publicKeyToken='6595b64144ccf1df'/>"
    );
    assert_eq!(XMLNS_ASM_V1, "urn:schemas-microsoft-com:asm.v1");
}

#[test]
fn manifest_document_exact() {
    let cm = CargoManifest::new(Some("hello".to_string()), Some("1.2.3".to_string()));
    let doc = quick_manifest(&cm, "1.2.3", "x86_64-pc-windows-gnu", true);
    let expected = "<?xml version='1.0' encoding='UTF-8' standalone='yes'?>\r\n\
<assembly xmlns='urn:schemas-microsoft-com:asm.v1' manifestVersion='1.0'>\
<assemblyIdentity type='win32' name='hello' version='1.2.3.0' \
processorArchitecture='amd64' />\
<dependency><dependentAssembly>\
<assemblyIdentity type='win32' name='Microsoft.Windows.Common-Controls' \
version='6.0.0.0' processorArchitecture='*' \x20\
publicKeyToken='6595b64144ccf1df'/>\
</dependentAssembly></dependency></assembly>";
    assert_eq!(doc, expected);
    let a = guess_manifest(&cm, "1.2.3", "i686-pc-windows-msvc", false);
    assert_eq!(a.identity.version, "1.2.3.0");
    assert_eq!(a.identity.proc_arch, Some(ProcArch::X86));
    assert_eq!(a.dependencies.len(), 0);
    assert_eq!(write_manifest(&a).contains("<dependency>"), false);
}

#[test]
fn display_or_picks_the_present_value() {
    match DisplayOr::<u32, &str>::some_or(Some(3), "fallback") {
        DisplayOr::Shown(v) => assert_eq!(v, 3),
        DisplayOr::Fallback(_) => panic!("expected the value"),
    }
    match DisplayOr::<u32, &str>::some_or(None, "fallback") {
        DisplayOr::Fallback(f) => assert_eq!(f, "fallback"),
        DisplayOr::Shown(_) => panic!("expected the fallback"),
    }
    assert_eq!(ProcArch::X86.text(), "x86");
    assert_eq!(ProcArch::Amd64.text(), "amd64");
    assert_eq!(ProcArch::Ia64.text(), "ia64");
}

#[test]
fn resource_script_exact() {
    let cm = CargoManifest::new(Some("hello".to_string()), Some("1.2.3".to_string()));
    let rc = ResourceScript::guess(&cm).unwrap();
    let expected = "#pragma code_page(65001)\n\
\n\
1 VERSIONINFO\n\
FILEVERSION     1,2,3,0\n\
PRODUCTVERSION  1,2,3,0\n\
FILEFLAGSMASK   0x00000000\n\
FILEFLAGS       0x00000000\n\
FILEOS          0x00040000\n\
FILETYPE        0x00000001\n\
FILESUBTYPE     0x00000000\n\
BEGIN\n\
BLOCK \"StringFileInfo\"\n\
BEGIN\n\
BLOCK \"040904B0\"\n\
BEGIN\n\
VALUE \"Comments\", \"(unknown comments)\\0\"\n\
VALUE \"CompanyName\", \"(unknown company)\\0\"\n\
VALUE \"FileDescription\", \"(unknown file description)\\0\"\n\
VALUE \"FileVersion\", \"1.2.3\\0\"\n\
VALUE \"InternalName\", \"hello\\0\"\n\
VALUE \"LegalCopyright\", \"(unknown copyright)\\0\"\n\
VALUE \"LegalTrademarks\", \"(unknown trademarks)\\0\"\n\
VALUE \"OriginalFilename\", \"(unknown filename)\\0\"\n\
VALUE \"PrivateBuild\", \"(unknown private build)\\0\"\n\
VALUE \"ProductName\", \"hello\\0\"\n\
VALUE \"ProductVersion\", \"1.2.3\\0\"\n\
VALUE \"SpecialBuild\", \"(unknown special build)\\0\"\n\
END\n\
END\n\
BLOCK \"VarFileInfo\"\n\
BEGIN\n\
VALUE \"Translation\", 0x0409, 0x04b0\n\
END\n\
END\n\
\n\
\n";
    assert_eq!(rc.to_text(), expected);
}

#[test]
fn version_guess_fails_as_its_inputs_do() {
    let no_name = CargoManifest::new(None, Some("1.2.3".to_string()));
    match guess_version_info(&no_name) {
        Err(Error::Other(m)) => assert_eq!(m, "could not find package name in manifest"),
        _ => panic!("expected the missing-name error"),
    }
    let bad_version = CargoManifest::new(Some("x".to_string()), Some("1.2".to_string()));
    match ResourceScript::guess(&bad_version) {
        Err(Error::Other(m)) => assert_eq!(m, "package version missing revision number"),
        _ => panic!("expected the version error"),
    }
}

#[test]
fn user_defined_entries_render() {
    let ud = UserDefined {
        name_id: 1,
        type_id: 24,
        data: UserData::Data(vec![0, 1, 255]),
    };
    assert_eq!(ud.to_text(), "1 24 {\n  \"\\x00\\x01\\xff\"\n}\n");
    let path = UserDefined {
        name_id: 2,
        type_id: 10,
        data: UserData::Path("a\\b\"c".to_string()),
    };
    assert_eq!(path.to_text(), "2 10 \"a\\\\b\\\"c\"\n");
    let long = UserDefined {
        name_id: 3,
        type_id: 10,
        data: UserData::Data(vec![0xAB; 33]),
    };
    let text = long.to_text();
    assert_eq!(text.matches("\n  \"").count(), 2);
    assert_eq!(text.matches("\\xab").count(), 33);
}

#[test]
fn string_table_renders_in_order() {
    let sfi = StringFileInfo {
        entries: vec![
            (FileInfoName::ProductName, "p".to_string()),
            (FileInfoName::Comments, "c".to_string()),
        ],
    };
    assert_eq!(
        sfi.to_text(),
        "BEGIN\nVALUE \"ProductName\", \"p\\0\"\nVALUE \"Comments\", \"c\\0\"\nEND\n"
    );
    assert_eq!(FileInfoName::LegalCopyright.as_str(), "LegalCopyright");
}

#[test]
fn target_classification() {
    let t = Target::guess("x86_64-pc-windows-gnu".to_string()).unwrap();
    assert_eq!(t.toolchain, Toolchain::MinGW);
    assert_eq!(t.res_ext(), "o");
    let t = Target::guess("i686-pc-windows-msvc".to_string()).unwrap();
    assert_eq!(t.toolchain, Toolchain::Msvc);
    assert_eq!(t.res_ext(), "lib");
    match Target::guess("wasm32-unknown-unknown".to_string()) {
        Err(Error::Other(m)) => {
            assert_eq!(m, "unknown toolchain for target `wasm32-unknown-unknown`")
        },
        _ => panic!("expected the unknown-toolchain error"),
    }
}

#[test]
fn resource_compiler_invocations() {
    let t = Target::guess("x86_64-pc-windows-gnu".to_string()).unwrap();
    let RcInvocation { program, args } = t.rc_invocation("in.rc", "out.o", None).unwrap();
    assert_eq!(program, "windres");
    assert_eq!(args, ["-J", "rc", "-i", "in.rc", "-O", "coff", "-o", "out.o"]);
    let t = Target::guess("x86_64-pc-windows-msvc".to_string()).unwrap();
    let RcInvocation { program, args } =
        t.rc_invocation("in.rc", "out.lib", Some("rc.exe")).unwrap();
    assert_eq!(program, "rc.exe");
    assert_eq!(args, ["/nologo", "/fo", "out.lib", "in.rc"]);
    match t.rc_invocation("in.rc", "out.lib", None) {
        Err(Error::Other(m)) => {
            assert_eq!(m, "could not find `rc` for target `x86_64-pc-windows-msvc`")
        },
        _ => panic!("expected the missing-tool error"),
    }
    match io_err("broken") {
        Error::Other(m) => assert_eq!(m, "broken"),
        _ => panic!("expected the constructed message"),
    }
}

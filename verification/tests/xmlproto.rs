use penumbra::error::XmlErrorKind;
use penumbra::xml::{get_tag, get_tag_usize};
use penumbra::xmlcmd::{classify_status, next_lifetime, XmlCmdLifetime};
use penumbra::xmlcmd::{
    parse_args, render, to_cmd_name, u64_hex_string, ExtAck, ExtReadMem, ExtSej, ExtSetSejBase,
    XmlArg,
};

#[test]
fn get_tag_reads_a_status_reply() {
    let resp = "<?xml version=\"1.0\"?><root><status>OK</status></root>";
    assert_eq!(get_tag(resp, "status").unwrap(), "OK");
}

#[test]
fn get_tag_navigates_a_path_and_trims() {
    let resp = "<a><b><c>  hello  </c></b></a>";
    assert_eq!(get_tag(resp, "a/b/c").unwrap(), "hello");
    assert_eq!(get_tag(resp, "b/c").unwrap(), "hello");
    assert!(get_tag(resp, "a/z").is_err());
}

#[test]
fn get_tag_usize_parses_hex_values() {
    let resp = "<root><len>0x8000</len><plain>1F</plain></root>";
    assert_eq!(get_tag_usize(resp, "len").unwrap(), 0x8000);
    assert_eq!(get_tag_usize(resp, "plain").unwrap(), 0x1F);
    assert!(get_tag_usize("<root><len>zz</len></root>", "len").is_err());
}

#[test]
fn hex_strings_are_prefixed_uppercase() {
    assert_eq!(u64_hex_string(0), "0x0");
    assert_eq!(u64_hex_string(0x68000000), "0x68000000");
    assert_eq!(u64_hex_string(0xABCDEF), "0xABCDEF");
}

#[test]
fn camel_case_names_become_upper_kebab_tags() {
    assert_eq!(to_cmd_name("BootTo"), "BOOT-TO");
    assert_eq!(to_cmd_name("NotifyInitHw"), "NOTIFY-INIT-HW");
    assert_eq!(to_cmd_name("Reboot"), "REBOOT");
}

#[test]
fn ext_sej_renders_its_flag_tuple() {
    let cmd = ExtSej::new(false, true, true, 0x20);
    assert_eq!(cmd.encrypt, "no");
    assert_eq!(cmd.legacy, "yes");
    assert_eq!(cmd.anti_clone, "yes");
    let args = cmd.args();
    assert_eq!(args.len(), 4);
    assert_eq!(args[0].tag, "encrypt");
    assert_eq!(args[0].value, "no");
    assert_eq!(args[3].tag, "length");
    assert_eq!(args[3].value, "0x20");
}

#[test]
fn commands_carry_their_names_and_args() {
    assert_eq!(ExtAck::new().cmd_name(), "CMD:EXT-ACK");
    assert_eq!(ExtAck::new().args().len(), 0);
    let base = ExtSetSejBase::new(0x1000A000);
    assert_eq!(base.cmd_name(), "CMD:EXT-SET-SEJ-BASE");
    assert_eq!(base.args()[0].value, "0x1000A000");
    let mem = ExtReadMem::new(0x200000, 0x100);
    assert_eq!(mem.args()[0].tag, "address");
    assert_eq!(mem.args()[0].value, "0x200000");
    assert_eq!(mem.args()[1].value, "0x100");
}

#[test]
fn rendered_documents_hold_version_command_and_args() {
    let cmd = ExtSej::new(true, false, true, 0x40);
    let doc = render(cmd.cmd_name(), cmd.version(), &cmd.args());
    let text = String::from_utf8(doc).unwrap();
    assert!(text.starts_with("<?xml version=\"1.0\" encoding=\"utf-8\"?>"));
    assert!(text.contains("<command>CMD:EXT-SEJ</command>"));
    assert!(text.contains("<version>1.0</version>"));
    assert!(text.contains("<encrypt>yes</encrypt>"));
    assert!(text.contains("<ac>yes</ac>"));
    assert!(text.contains("<length>0x40</length>"));
}

#[test]
fn rendered_args_parse_back_to_the_same_fields() {
    let cmd = ExtSej::new(false, false, true, 0x1234);
    let args = cmd.args();
    let mut rendered: Vec<u8> = Vec::new();
    for a in &args {
        rendered.push(b'<');
        rendered.extend_from_slice(a.tag.as_bytes());
        rendered.push(b'>');
        rendered.extend_from_slice(a.value.as_bytes());
        rendered.push(b'<');
        rendered.push(b'/');
        rendered.extend_from_slice(a.tag.as_bytes());
        rendered.push(b'>');
    }
    let parsed = parse_args(&rendered).unwrap();
    assert_eq!(parsed.len(), args.len());
    for (i, (tag, value)) in parsed.iter().enumerate() {
        assert_eq!(tag, args[i].tag.as_bytes());
        assert_eq!(value, args[i].value.as_bytes());
    }
}

#[test]
fn a_rendered_document_reads_back_through_get_tag() {
    let cmd = ExtReadMem::new(0x68000000, 0x8000);
    let doc = render(cmd.cmd_name(), cmd.version(), &cmd.args());
    let text = String::from_utf8(doc).unwrap();
    assert_eq!(get_tag(&text, "command").unwrap(), "CMD:EXT-READ-MEM");
    assert_eq!(get_tag(&text, "arg/address").unwrap(), "0x68000000");
    assert_eq!(get_tag_usize(&text, "arg/length").unwrap(), 0x8000);
}

#[test]
fn sectioned_args_render_inside_their_section() {
    let args = vec![XmlArg {
        section: Some(String::from("adv")),
        tag: String::from("mode"),
        value: String::from("fast"),
    }];
    let doc = render("CMD:TEST", "1.0", &args);
    let text = String::from_utf8(doc).unwrap();
    assert!(text.contains("<adv><mode>fast</mode></adv>"));
}

#[test]
fn malformed_arg_lists_are_refused() {
    assert!(parse_args(b"no-tag").is_none());
    assert!(parse_args(b"<a>1</b>").is_none());
    assert!(parse_args(b"<a>1").is_none());
    assert_eq!(parse_args(b"").unwrap().len(), 0);
}

#[test]
fn status_replies_classify_as_the_protocol_defines() {
    assert!(classify_status(b"OK").is_ok());
    assert!(classify_status(b"OK\0\0").is_ok());
    let e = classify_status(b"ERR!UNSUPPORTED").unwrap_err();
    assert_eq!(e.kind, XmlErrorKind::UnsupportedCmd);
    let e = classify_status(b"ERR!CANCEL").unwrap_err();
    assert_eq!(e.kind, XmlErrorKind::Cancel);
    assert!(classify_status(b"ERR!WHATEVER").is_err());
}

#[test]
fn command_lifecycle_only_moves_forward() {
    let s = XmlCmdLifetime::Send;
    let s = next_lifetime(s, false, false);
    assert_eq!(s, XmlCmdLifetime::CmdAck);
    let s = next_lifetime(s, false, false);
    assert_eq!(s, XmlCmdLifetime::Status);
    let s = next_lifetime(s, false, false);
    assert_eq!(s, XmlCmdLifetime::CmdEnd);
    assert_eq!(
        next_lifetime(XmlCmdLifetime::CmdAck, true, true),
        XmlCmdLifetime::Progress
    );
    assert_eq!(
        next_lifetime(XmlCmdLifetime::Progress, true, true),
        XmlCmdLifetime::FileTransfer
    );
}

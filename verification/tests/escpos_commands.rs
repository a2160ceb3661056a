use eco_print::commands::command::{
    ESCPOSBuilder, ESCPOSBuilderTrait, ESCPOSCommand, ESCPOSDataBuilder,
};
use eco_print::commands::qrcode::ESCPOSQRCode;
use eco_print::escpos::basic::ESCPOSCommandsBasic;
use eco_print::escpos::command::{ESCPOSCommand as ListCommand, ESCPOSCommandList};
use eco_print::escpos::printer_terminal::PrinterESCPOSTerminal;
use eco_print::escpos::printers::PrinterTrait;
use eco_print::EcoPrintError;

#[test]
fn terminal_printer_never_fails() {
    let mut printer = PrinterESCPOSTerminal;
    let mut commands = ESCPOSCommandList::new();
    commands.add_command(ListCommand::Text("diagnostic line".to_string()));
    assert!(printer.print(commands.to_string()).is_ok());
}

#[test]
fn basic_command_table_is_exact() {
    let cases: Vec<(ESCPOSCommandsBasic, &[u8])> = vec![
        (ESCPOSCommandsBasic::LineFeed, b"\x0A"),
        (ESCPOSCommandsBasic::FontBold, b"\x1B\x45\x01"),
        (ESCPOSCommandsBasic::FontNormal, b"\x1B\x45\x00"),
        (ESCPOSCommandsBasic::Underline, b"\x1B\x2D\x01"),
        (ESCPOSCommandsBasic::Cut, b"\x1D\x56\x00"),
        (ESCPOSCommandsBasic::AlignLeft, b"\x1B\x61\x00"),
        (ESCPOSCommandsBasic::AlignCenter, b"\x1B\x61\x01"),
        (ESCPOSCommandsBasic::AlignRight, b"\x1B\x61\x02"),
        (ESCPOSCommandsBasic::FontA, b"\x1B\x4D\x00"),
        (ESCPOSCommandsBasic::FontB, b"\x1B\x4D\x01"),
        (ESCPOSCommandsBasic::EmphasizeOn, b"\x1B\x45\x01"),
        (ESCPOSCommandsBasic::EmphasizeOff, b"\x1B\x45\x00"),
        (ESCPOSCommandsBasic::DoubleHeightOn, b"\x1B\x21\x10"),
        (ESCPOSCommandsBasic::DoubleHeightOff, b"\x1B\x21\x00"),
        (ESCPOSCommandsBasic::DoubleWidthOn, b"\x1B\x21\x20"),
        (ESCPOSCommandsBasic::DoubleWidthOff, b"\x1B\x21\x00"),
        (ESCPOSCommandsBasic::UpsideDownOn, b"\x1B\x7B\x01"),
        (ESCPOSCommandsBasic::UpsideDownOff, b"\x1B\x7B\x00"),
    ];
    for (cmd, expected) in cases {
        assert_eq!(cmd.to_escpos().as_bytes(), expected);
    }
}

#[test]
fn builder_command_table_is_exact() {
    let cases: Vec<(ESCPOSCommand, &[u8])> = vec![
        (ESCPOSCommand::LineFeed, b"\x0A"),
        (ESCPOSCommand::FontBold, b"\x1B\x45\x01"),
        (ESCPOSCommand::FontNormal, b"\x1B\x45\x00"),
        (ESCPOSCommand::Underline, b"\x1B\x2D\x01"),
        (ESCPOSCommand::Cut, b"\x1D\x56\x00"),
        (ESCPOSCommand::AlignLeft, b"\x1B\x61\x00"),
        (ESCPOSCommand::AlignCenter, b"\x1B\x61\x01"),
        (ESCPOSCommand::AlignRight, b"\x1B\x61\x02"),
        (ESCPOSCommand::FontA, b"\x1B\x4D\x00"),
        (ESCPOSCommand::FontB, b"\x1B\x4D\x01"),
        (ESCPOSCommand::EmphasizeOn, b"\x1B\x45\x01"),
        (ESCPOSCommand::EmphasizeOff, b"\x1B\x45\x00"),
        (ESCPOSCommand::DoubleHeightOn, b"\x1B\x21\x10"),
        (ESCPOSCommand::DoubleHeightOff, b"\x1B\x21\x00"),
        (ESCPOSCommand::DoubleWidthOn, b"\x1B\x21\x20"),
        (ESCPOSCommand::DoubleWidthOff, b"\x1B\x21\x00"),
        (ESCPOSCommand::UpsideDownOn, b"\x1B\x7B\x01"),
        (ESCPOSCommand::UpsideDownOff, b"\x1B\x7B\x00"),
    ];
    for (cmd, expected) in cases {
        assert_eq!(cmd.to_escpos().unwrap().as_bytes(), expected);
    }
}

#[test]
fn double_off_variants_share_reset_bytes() {
    assert_eq!(
        ESCPOSCommandsBasic::DoubleHeightOff.to_escpos(),
        ESCPOSCommandsBasic::DoubleWidthOff.to_escpos()
    );
}

#[test]
fn command_list_scenario_center_hi_feed_cut() {
    let mut commands = ESCPOSCommandList::new();
    commands.add_list(vec![
        ListCommand::Command(ESCPOSCommandsBasic::AlignCenter),
        ListCommand::Text("HI".to_string()),
        ListCommand::Command(ESCPOSCommandsBasic::LineFeed),
        ListCommand::Command(ESCPOSCommandsBasic::Cut),
    ]);
    let serialized = commands.to_string();
    assert_eq!(
        serialized.as_bytes(),
        b"\x1B\x61\x01\x48\x49\x0A\x1D\x56\x00"
    );
}

#[test]
fn builder_scenario_center_hi_feed_cut() {
    let mut builder = ESCPOSBuilder::new();
    builder.add_commands(vec![
        ESCPOSDataBuilder::Command(ESCPOSCommand::AlignCenter),
        ESCPOSDataBuilder::Text("HI".to_string()),
        ESCPOSDataBuilder::Command(ESCPOSCommand::LineFeed),
        ESCPOSDataBuilder::Command(ESCPOSCommand::Cut),
    ]);
    let serialized = builder.to_escpos().unwrap();
    assert_eq!(
        serialized.as_bytes(),
        b"\x1B\x61\x01\x48\x49\x0A\x1D\x56\x00"
    );
}

#[test]
fn serialization_distributes_over_append() {
    let mut base = ESCPOSCommandList::new();
    base.add_command(ListCommand::Command(ESCPOSCommandsBasic::FontBold));
    base.add_command(ListCommand::Text("x".to_string()));
    let before = base.to_string();

    let a = ListCommand::Command(ESCPOSCommandsBasic::AlignRight);
    let b = ListCommand::Text("tail".to_string());
    let a_alone = {
        let mut l = ESCPOSCommandList::new();
        l.add_command(ListCommand::Command(ESCPOSCommandsBasic::AlignRight));
        l.to_string()
    };
    base.add_command(a);
    base.add_command(b);

    let mut expected = before.clone();
    expected.push_str(&a_alone);
    expected.push_str("tail");
    assert_eq!(base.to_string(), expected);
}

#[test]
fn empty_job_serializes_to_nothing() {
    let list = ESCPOSCommandList::new();
    assert_eq!(list.to_string(), "");
    let builder = ESCPOSBuilder::new();
    assert_eq!(builder.to_escpos().unwrap(), "");
}

#[test]
fn default_builders_are_empty() {
    let list = ESCPOSCommandList::default();
    assert_eq!(list.to_string(), "");
    let builder = ESCPOSBuilder::default();
    assert_eq!(builder.to_escpos().unwrap(), "");
}

#[test]
fn image_job_item_fails_fast() {
    let mut builder = ESCPOSBuilder::new();
    builder.add_command(ESCPOSDataBuilder::Text("receipt".to_string()));
    builder.add_command(ESCPOSDataBuilder::Image);
    let r = builder.to_escpos();
    assert!(matches!(r, Err(EcoPrintError::UnsupportedFeature(_))));
}

#[test]
fn qr_code_job_item_fails_fast() {
    let mut builder = ESCPOSBuilder::new();
    builder.add_command(ESCPOSDataBuilder::QrCode);
    let r = builder.to_escpos();
    assert!(matches!(r, Err(EcoPrintError::UnsupportedFeature(_))));
}

#[test]
fn qr_code_constructor_is_a_stub() {
    let r = ESCPOSQRCode::new("https://example.com".to_string());
    assert!(matches!(r, Err(EcoPrintError::UnsupportedFeature(_))));
}

#[test]
fn text_is_emitted_unescaped() {
    let mut list = ESCPOSCommandList::new();
    list.add_command(ListCommand::Text("a\x1Bb".to_string()));
    assert_eq!(list.to_string().as_bytes(), b"a\x1Bb");
}

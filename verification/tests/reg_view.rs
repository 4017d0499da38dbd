use syncrim::gui_egui::mips_reg_view_window::{reg_value_string, RegFormat, RegViewWindow};

fn window() -> RegViewWindow {
    RegViewWindow::new("regs".to_string(), "Registers".to_string())
}

#[test]
fn new_window_defaults() {
    let w = window();
    assert!(!w.visible);
    assert_eq!(w.id, "regs");
    assert_eq!(w.title, "Registers");
    assert_eq!(w.max_rows, 1024);
    assert_eq!(w.row_offset, 0);
    assert!(w.big_endian);
    assert!(w.show_reg_names);
    assert_eq!(w.reg_format, RegFormat::Hex);
    assert!(w.show_settings.symbols);
    assert!(!w.show_settings.sections);
    assert!(!w.show_settings.program_counter);
    assert_eq!(w.show_settings.registers, [false; 32]);
    assert_eq!(w.register_values, [0; 32]);
}

#[test]
fn lines_show_names_and_hex_values() {
    let mut w = window();
    let mut vals = [0u32; 32];
    vals[1] = 0x10;
    vals[31] = 0xffff_fffc;
    w.set_reg_values(vals);
    assert_eq!(w.register_values, vals);
    let lines = w.render_registers();
    assert_eq!(lines.len(), 32);
    assert_eq!(lines[0], "zero \t 0x00000000");
    assert_eq!(lines[1], "at   \t 0x00000010");
    assert_eq!(lines[15], "s7   \t 0x00000000");
    assert_eq!(lines[31], "ra   \t 0xfffffffc");
}

#[test]
fn lines_show_numbers_when_names_are_off() {
    let mut w = window();
    w.show_reg_names = false;
    w.reg_format = RegFormat::DecSigned;
    let mut vals = [0u32; 32];
    vals[2] = 0xffff_ffff;
    vals[12] = 7;
    w.set_reg_values(vals);
    assert_eq!(w.reg_line(2), "r2   \t -1");
    assert_eq!(w.reg_line(12), "r12  \t 7");
    assert_eq!(w.reg_line(2), format!("r{:<3} \t {}", 2, 0xffff_ffffu32 as i32));
}

#[test]
fn value_formats_match_std() {
    for v in [0u32, 0x41, 0x4142_4344, 0xffff_ffff, 0x8000_0000] {
        assert_eq!(reg_value_string(RegFormat::Hex, v), format!("{:#010x}", v));
        assert_eq!(reg_value_string(RegFormat::Bin, v), format!("{:#034b}", v));
        assert_eq!(reg_value_string(RegFormat::DecSigned, v), format!("{}", v as i32));
        assert_eq!(reg_value_string(RegFormat::DecUnsigned, v), format!("{}", v));
        assert_eq!(
            reg_value_string(RegFormat::UTF8BE, v),
            String::from_utf8_lossy(&v.to_be_bytes()).escape_debug().to_string()
        );
        assert_eq!(
            reg_value_string(RegFormat::UTF8LE, v),
            String::from_utf8_lossy(&v.to_le_bytes()).escape_debug().to_string()
        );
    }
}

#[test]
fn utf8_formats_decode_and_escape() {
    assert_eq!(reg_value_string(RegFormat::UTF8BE, 0x4142_4344), "ABCD");
    assert_eq!(reg_value_string(RegFormat::UTF8LE, 0x4142_4344), "DCBA");
    assert_eq!(reg_value_string(RegFormat::UTF8BE, 0x4100_0a42), "A\\0\\nB");
    assert_eq!(reg_value_string(RegFormat::UTF8BE, 0xff41_4243), "\u{fffd}ABC");
}

#[test]
fn format_names_are_debug_names() {
    for f in [
        RegFormat::Hex,
        RegFormat::Bin,
        RegFormat::DecSigned,
        RegFormat::DecUnsigned,
        RegFormat::UTF8BE,
        RegFormat::UTF8LE,
    ] {
        assert_eq!(f.name(), format!("{:?}", f));
    }
}

#[test]
fn set_values_keeps_the_rest() {
    let mut w = window();
    w.reg_format = RegFormat::Bin;
    w.visible = true;
    let vals = [3u32; 32];
    w.set_reg_values(vals);
    assert!(w.visible);
    assert_eq!(w.reg_format, RegFormat::Bin);
    assert_eq!(w.reg_label(4), "a0  ");
    assert_eq!(w.reg_line(4), format!("a0   \t {:#034b}", 3));
}

#[test]
fn close_request_hides_the_window() {
    let mut w = window();
    w.visible = true;
    w.handle_close_request(false);
    assert!(w.visible);
    w.handle_close_request(true);
    assert!(!w.visible);
    w.handle_close_request(false);
    assert!(!w.visible);
}

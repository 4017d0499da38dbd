//! The register view of the MIPS model: a window that lists the 32
//! registers, each under its name or number, in a chosen number format.
use vstd::prelude::*;

use crate::text::{
    as_signed, be_bytes, bin_text, bin_u32, dec_signed_u32, dec_u64, decimal, hex_text, hex_u32,
    le_bytes, pad_right, push_decimal, push_padded, push_str, signed_decimal, to_be_bytes,
    to_le_bytes,
};

verus! {

/// How the register values are shown.
#[derive(Clone, Copy, PartialEq, Eq, Structural, Debug)]
pub enum RegFormat {
    Hex,
    Bin,
    DecSigned,
    DecUnsigned,
    UTF8BE,
    UTF8LE,
}

/// Which markers the view shows.
pub struct ShowSettings {
    pub symbols: bool,
    pub sections: bool,
    pub program_counter: bool,
    pub registers: [bool; 32],
}

/// The register view window.
pub struct RegViewWindow {
    pub visible: bool,
    pub title: String,
    pub id: String,
    pub row_offset: u32,
    pub max_rows: u32,
    /// Byte order of the view; MIPS is big endian.
    pub big_endian: bool,
    pub show_settings: ShowSettings,
    pub register_values: [u32; 32],
    pub show_reg_names: bool,
    pub reg_format: RegFormat,
}

/// The conventional names of the 32 MIPS registers, as this view spells them.
pub const REG_NAMES: [&'static str; 32] = [
    "zero", "at", "v0", "v1", "a0", "a1", "a2", "a3", "t0", "t1", "t2", "t3", "t4", "t5", "t6",
    "s7", "s0", "s1", "s2", "s3", "s4", "s5", "s6", "s7", "t8", "t9", "k0", "k1", "gp", "sp", "fp",
    "ra",
];

/// What `String::from_utf8_lossy` makes of a byte sequence.
pub uninterp spec fn utf8_lossy(bytes: Seq<u8>) -> Seq<char>;

/// What `str::escape_debug` makes of a string.
pub uninterp spec fn debug_escaped(s: Seq<char>) -> Seq<char>;

/// `String::from_utf8_lossy`: the bytes decoded as UTF-8, every invalid
/// sequence replaced by U+FFFD. The result is named `utf8_lossy`; stated
/// beyond that is only what the documentation says of valid input: it is
/// decoded as it stands. Where the replacement characters go is not stated.
#[verifier::external_body]
fn from_utf8_lossy(bytes: &[u8]) -> (r: String)
    ensures
        r@ == utf8_lossy(bytes@),
        vstd::utf8::valid_utf8(bytes@) ==> r@ == vstd::utf8::decode_utf8(bytes@),
{
    String::from_utf8_lossy(bytes).into_owned()
}

/// `str::escape_debug`, collected into a `String`: every character escaped
/// as `Debug` for `str` escapes it. The result is named `debug_escaped`;
/// nothing more of the escaping rules is stated.
#[verifier::external_body]
fn escape_debug(s: &str) -> (r: String)
    ensures
        r@ == debug_escaped(s@),
{
    s.escape_debug().to_string()
}

/// The text of a register value in format `format`.
pub open spec fn reg_value_text(format: RegFormat, v: u32) -> Seq<char> {
    match format {
        RegFormat::Hex => hex_text(v),
        RegFormat::DecSigned => signed_decimal(as_signed(v)),
        RegFormat::DecUnsigned => decimal(v as nat),
        RegFormat::Bin => bin_text(v),
        RegFormat::UTF8BE => debug_escaped(utf8_lossy(be_bytes(v))),
        RegFormat::UTF8LE => debug_escaped(utf8_lossy(le_bytes(v))),
    }
}

/// The label of register `i`: its name padded to four characters, or `r`
/// and its number padded to three.
pub open spec fn reg_label(show_reg_names: bool, i: int) -> Seq<char> {
    if show_reg_names {
        pad_right(REG_NAMES@[i]@, 4)
    } else {
        seq!['r'] + pad_right(decimal(i as nat), 3)
    }
}

/// A line of the view: label, a space, a tab, a space and the value text.
pub open spec fn reg_line_with(label: Seq<char>, value_text: Seq<char>) -> Seq<char> {
    label + " \t "@ + value_text
}

/// The line that the view shows for register `i`.
pub open spec fn reg_line(w: &RegViewWindow, i: int) -> Seq<char> {
    reg_line_with(
        reg_label(w.show_reg_names, i),
        reg_value_text(w.reg_format, w.register_values@[i]),
    )
}

impl RegFormat {
    /// The name under which the format is listed (its `Debug` name).
    pub fn name(&self) -> (r: &'static str)
        ensures
            r@ == match *self {
                RegFormat::Hex => "Hex"@,
                RegFormat::Bin => "Bin"@,
                RegFormat::DecSigned => "DecSigned"@,
                RegFormat::DecUnsigned => "DecUnsigned"@,
                RegFormat::UTF8BE => "UTF8BE"@,
                RegFormat::UTF8LE => "UTF8LE"@,
            },
    {
        match self {
            RegFormat::Hex => "Hex",
            RegFormat::Bin => "Bin",
            RegFormat::DecSigned => "DecSigned",
            RegFormat::DecUnsigned => "DecUnsigned",
            RegFormat::UTF8BE => "UTF8BE",
            RegFormat::UTF8LE => "UTF8LE",
        }
    }
}

/// The text of a register value in format `format`.
pub fn reg_value_string(format: RegFormat, v: u32) -> (r: String)
    ensures
        r@ == reg_value_text(format, v),
{
    match format {
        RegFormat::Hex => hex_u32(v),
        RegFormat::DecSigned => dec_signed_u32(v),
        RegFormat::DecUnsigned => dec_u64(v as u64),
        RegFormat::Bin => bin_u32(v),
        RegFormat::UTF8BE => {
            let bytes = to_be_bytes(v);
            let text = from_utf8_lossy(bytes.as_slice());
            escape_debug(text.as_str())
        },
        RegFormat::UTF8LE => {
            let bytes = to_le_bytes(v);
            let text = from_utf8_lossy(bytes.as_slice());
            escape_debug(text.as_str())
        },
    }
}

impl RegViewWindow {
    /// Sets the register values shown; nothing else changes.
    pub fn set_reg_values(&mut self, reg_values: [u32; 32])
        ensures
            final(self).register_values == reg_values,
            final(self).visible == old(self).visible,
            final(self).title == old(self).title,
            final(self).id == old(self).id,
            final(self).row_offset == old(self).row_offset,
            final(self).max_rows == old(self).max_rows,
            final(self).big_endian == old(self).big_endian,
            final(self).show_settings == old(self).show_settings,
            final(self).show_reg_names == old(self).show_reg_names,
            final(self).reg_format == old(self).reg_format,
    {
        self.register_values = reg_values;
    }

    /// A hidden register view with identifier `id` and window title `title`:
    /// all registers zero and shown by name in hexadecimal, big endian, 1024
    /// rows from row 0, the symbol marker on and every other marker off.
    pub fn new(id: String, title: String) -> (r: Self)
        ensures
            r.title == title,
            r.id == id,
            !r.visible,
            r.row_offset == 0,
            r.max_rows == 1024,
            r.big_endian,
            r.show_settings.symbols,
            !r.show_settings.sections,
            !r.show_settings.program_counter,
            forall|i: int| 0 <= i < 32 ==> !r.show_settings.registers@[i],
            forall|i: int| 0 <= i < 32 ==> r.register_values@[i] == 0,
            r.show_reg_names,
            r.reg_format == RegFormat::Hex,
    {
        RegViewWindow {
            title,
            id,
            visible: false,
            row_offset: 0,
            max_rows: 1024,
            big_endian: true,
            show_settings: ShowSettings {
                symbols: true,
                sections: false,
                program_counter: false,
                registers: [false; 32],
            },
            register_values: [0; 32],
            show_reg_names: true,
            reg_format: RegFormat::Hex,
        }
    }

    /// Takes a request to close the window: a requested close hides it,
    /// otherwise nothing changes.
    pub fn handle_close_request(&mut self, close_requested: bool)
        ensures
            final(self).visible == (old(self).visible && !close_requested),
            final(self).title == old(self).title,
            final(self).id == old(self).id,
            final(self).row_offset == old(self).row_offset,
            final(self).max_rows == old(self).max_rows,
            final(self).big_endian == old(self).big_endian,
            final(self).show_settings == old(self).show_settings,
            final(self).register_values == old(self).register_values,
            final(self).show_reg_names == old(self).show_reg_names,
            final(self).reg_format == old(self).reg_format,
    {
        if close_requested {
            self.visible = false;
        }
    }

    /// The label of register `i` as the view currently shows it.
    pub fn reg_label(&self, i: usize) -> (r: String)
        requires
            i < 32,
        ensures
            r@ == reg_label(self.show_reg_names, i as int),
    {
        let mut s = String::new();
        if self.show_reg_names {
            push_padded(&mut s, REG_NAMES[i], 4);
        } else {
            push_str(&mut s, "r");
            proof {
                reveal_strlit("r");
            }
            let mut number = String::new();
            push_decimal(&mut number, i as u64);
            push_padded(&mut s, number.as_str(), 3);
        }
        assert(s@ =~= reg_label(self.show_reg_names, i as int));
        s
    }

    /// The line for register `i`, given the text of its value.
    pub fn reg_line_with_text(&self, i: usize, value_text: &str) -> (r: String)
        requires
            i < 32,
        ensures
            r@ == reg_line_with(reg_label(self.show_reg_names, i as int), value_text@),
    {
        let mut s = self.reg_label(i);
        push_str(&mut s, " \t ");
        push_str(&mut s, value_text);
        s
    }

    /// The line that the view shows for register `i`.
    pub fn reg_line(&self, i: usize) -> (r: String)
        requires
            i < 32,
        ensures
            r@ == reg_line(self, i as int),
    {
        let text = reg_value_string(self.reg_format, self.register_values[i]);
        self.reg_line_with_text(i, text.as_str())
    }

    /// The 32 lines that the view shows, one per register, in order.
    pub fn render_registers(&self) -> (r: Vec<String>)
        ensures
            r.len() == 32,
            forall|i: int| 0 <= i < 32 ==> (#[trigger] r[i])@ == reg_line(self, i),
    {
        let mut lines: Vec<String> = Vec::new();
        let mut i: usize = 0;
        while i < 32
            invariant
                i <= 32,
                lines.len() == i,
                forall|j: int| 0 <= j < i ==> (#[trigger] lines[j])@ == reg_line(self, j),
            decreases 32 - i,
        {
            let line = self.reg_line(i);
            lines.push(line);
            i += 1;
        }
        lines
    }
}

/// After `set_reg_values`, the line of every register shows the value that
/// was set, under the label and in the format the view had before.
pub proof fn lemma_lines_show_set_values(before: &RegViewWindow, after: &RegViewWindow, values: [u32; 32], i: int)
    requires
        0 <= i < 32,
        after.register_values == values,
        after.show_reg_names == before.show_reg_names,
        after.reg_format == before.reg_format,
    ensures
        reg_line(after, i) == reg_line_with(
            reg_label(before.show_reg_names, i),
            reg_value_text(before.reg_format, values@[i]),
        ),
{
}

} // verus!

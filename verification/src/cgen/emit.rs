//! The instructions and data of the target assembly, as text.

use crate::cgen::{Label, MemLocation, DEFAULT_OBJFIELDS, LG_WORD_SIZE, WORD_SIZE};
use crate::text::{bits16, bits_of, decimal, decimal_text, hex_digits, hex_fixed};
use vstd::prelude::*;
use vstd::string::{StringExecFns, StringSliceAdditionalSpecFns};

verus! {

/// The registers that the generated code uses.
#[derive(Clone, Copy, Debug, PartialEq, Eq, Structural)]
pub enum Register {
    ZERO,
    ACC,
    A1,
    SELF,
    T1,
    T2,
    T3,
    SP,
    FP,
    RA,
}

impl Register {
    /// The register as it is written in the assembly.
    pub open spec fn text(&self) -> Seq<char> {
        match self {
            Register::ZERO => "$zero"@,
            Register::ACC => "$a0"@,
            Register::A1 => "$a1"@,
            Register::SELF => "$s0"@,
            Register::T1 => "$t1"@,
            Register::T2 => "$t2"@,
            Register::T3 => "$t3"@,
            Register::SP => "$sp"@,
            Register::FP => "$fp"@,
            Register::RA => "$ra"@,
        }
    }

    /// The register as it is written in the assembly.
    pub fn name(&self) -> (r: &'static str)
        ensures
            r@ == self.text(),
    {
        match self {
            Register::ZERO => "$zero",
            Register::ACC => "$a0",
            Register::A1 => "$a1",
            Register::SELF => "$s0",
            Register::T1 => "$t1",
            Register::T2 => "$t2",
            Register::T3 => "$t3",
            Register::SP => "$sp",
            Register::FP => "$fp",
            Register::RA => "$ra",
        }
    }
}

/// What can stand in a `.word` directive.
pub trait AsWord: Sized {
    /// The value as it is written in the directive.
    spec fn word_text(&self) -> Seq<char>;

    /// The value as it is written in the directive.
    fn as_word(self) -> (r: String)
        ensures
            r@ == self.word_text(),
    ;
}

impl AsWord for u32 {
    open spec fn word_text(&self) -> Seq<char> {
        "0x"@ + hex_digits(*self as nat, 8)
    }

    fn as_word(self) -> (r: String) {
        let mut r = String::from_str("0x");
        r.append(hex_fixed(self as u64, 8).as_str());
        r
    }
}

impl AsWord for String {
    open spec fn word_text(&self) -> Seq<char> {
        self@
    }

    fn as_word(self) -> (r: String) {
        self
    }
}

impl AsWord for &str {
    open spec fn word_text(&self) -> Seq<char> {
        self@
    }

    fn as_word(self) -> (r: String) {
        String::from_str(self)
    }
}

/// The text of a directive that makes a symbol global.
pub open spec fn global_text(sym: Seq<char>) -> Seq<char> {
    "\t.globl "@ + sym + "\n"@
}

/// A directive that makes a symbol global.
pub fn emit_global(sym: &str) -> (text: String)
    ensures
        text@ == global_text(sym@),
{
    let mut text = String::from_str("\t.globl ");
    text.append(sym);
    text.append("\n");
    text
}

/// The text of a directive that aligns what follows.
pub open spec fn align_text(n: i16) -> Seq<char> {
    "\t.align "@ + decimal_text(n as int) + "\n"@
}

/// A directive that aligns what follows.
pub fn emit_align(n: i16) -> (text: String)
    ensures
        text@ == align_text(n),
{
    let mut text = String::from_str("\t.align ");
    text.append(decimal(n as i64).as_str());
    text.append("\n");
    text
}

/// The text of a directive that holds one word.
pub open spec fn word_line(w: Seq<char>) -> Seq<char> {
    "\t.word "@ + w + "\n"@
}

/// A directive that holds one word.
pub fn emit_word<W: AsWord>(w: W) -> (text: String)
    ensures
        text@ == word_line(w.word_text()),
{
    let mut text = String::from_str("\t.word ");
    text.append(w.as_word().as_str());
    text.append("\n");
    text
}

/// The text of the word that the garbage collector wants before an object.
pub open spec fn gc_tag_text() -> Seq<char> {
    "\t.word -1\n"@
}

/// The word that the garbage collector wants before an object.
pub fn emit_gc_tag() -> (text: String)
    ensures
        text@ == gc_tag_text(),
{
    let mut text = String::from_str("\t.word -1\n");
    text
}

/// The text of an integer constant.
pub open spec fn int_const_text(int_tag: u32, val: u32) -> Seq<char> {
    gc_tag_text() + "int_const_"@ + hex_digits(val as nat, 8) + ":\n"@ + word_line(int_tag.word_text()) + word_line(4u32.word_text()) + word_line("Int_dispTab"@) + word_line(val.word_text())
}

/// An integer constant.
pub fn emit_int_const(int_tag: u32, val: u32) -> (text: String)
    ensures
        text@ == int_const_text(int_tag, val),
{
    let mut text = String::new();
    text.append(emit_gc_tag().as_str());
    text.append("int_const_");
    text.append(hex_fixed(val as u64, 8).as_str());
    text.append(":\n");
    text.append(emit_word(int_tag).as_str());
    text.append(emit_word(4u32).as_str());
    text.append(emit_word("Int_dispTab").as_str());
    text.append(emit_word(val).as_str());
    proof {
        assert(text@ =~= int_const_text(int_tag, val));
    }
    text
}

/// The text of a jump to the address in a register, with link.
pub open spec fn jalr_text(dest: Register) -> Seq<char> {
    "\tjalr "@ + dest.text() + "\n"@
}

/// A jump to the address in a register, with link.
pub fn emit_jalr(dest: Register) -> (text: String)
    ensures
        text@ == jalr_text(dest),
{
    let mut text = String::from_str("\tjalr ");
    text.append(dest.name());
    text.append("\n");
    text
}

/// The text of a jump to a symbol, with link.
pub open spec fn jal_text(target: Seq<char>) -> Seq<char> {
    "\tjal "@ + target + "\n"@
}

/// A jump to a symbol, with link.
pub fn emit_jal(target: &str) -> (text: String)
    ensures
        text@ == jal_text(target@),
{
    let mut text = String::from_str("\tjal ");
    text.append(target);
    text.append("\n");
    text
}

/// The text of a return.
pub open spec fn return_text() -> Seq<char> {
    "\tjr "@ + Register::RA.text() + "\n"@
}

/// A return.
pub fn emit_return() -> (text: String)
    ensures
        text@ == return_text(),
{
    let mut text = String::from_str("\tjr ");
    text.append(Register::RA.name());
    text.append("\n");
    text
}

/// The text of a store of a register into memory.
pub open spec fn store_word_text(src: Register, location: MemLocation) -> Seq<char> {
    "\tsw "@ + src.text() + " "@ + decimal_text(4 * location.offset) + "("@ + location.reg.text() + ")\n"@
}

/// A store of a register into memory.
pub fn emit_store_word(src: Register, location: MemLocation) -> (text: String)
    requires
        -8192 <= location.offset <= 8191,
    ensures
        text@ == store_word_text(src, location),
{
    let mut text = String::from_str("\tsw ");
    text.append(src.name());
    text.append(" ");
    text.append(decimal((WORD_SIZE * location.offset) as i64).as_str());
    text.append("(");
    text.append(location.reg.name());
    text.append(")\n");
    text
}

/// The text of a load of a register from memory.
pub open spec fn load_word_text(dest: Register, location: MemLocation) -> Seq<char> {
    "\tlw "@ + dest.text() + " "@ + decimal_text(4 * location.offset) + "("@ + location.reg.text() + ")\n"@
}

/// A load of a register from memory.
pub fn emit_load_word(dest: Register, location: MemLocation) -> (text: String)
    requires
        -8192 <= location.offset <= 8191,
    ensures
        text@ == load_word_text(dest, location),
{
    let mut text = String::from_str("\tlw ");
    text.append(dest.name());
    text.append(" ");
    text.append(decimal((WORD_SIZE * location.offset) as i64).as_str());
    text.append("(");
    text.append(location.reg.name());
    text.append(")\n");
    text
}

/// The text of a load of a number into a register.
pub open spec fn load_imm_text(dest: Register, imm: i16) -> Seq<char> {
    "\tli "@ + dest.text() + " 0x"@ + hex_digits(bits16(imm), 4) + "\n"@
}

/// A load of a number into a register.
pub fn emit_load_imm(dest: Register, imm: i16) -> (text: String)
    ensures
        text@ == load_imm_text(dest, imm),
{
    let mut text = String::from_str("\tli ");
    text.append(dest.name());
    text.append(" 0x");
    text.append(hex_fixed(bits_of(imm), 4).as_str());
    text.append("\n");
    text
}

/// The text of a load of an address into a register.
pub open spec fn load_address_text(dest: Register, addr: Seq<char>) -> Seq<char> {
    "\tla "@ + dest.text() + " "@ + addr + "\n"@
}

/// A load of an address into a register.
pub fn emit_load_address(dest: Register, addr: String) -> (text: String)
    ensures
        text@ == load_address_text(dest, addr@),
{
    let mut text = String::from_str("\tla ");
    text.append(dest.name());
    text.append(" ");
    text.append(addr.as_str());
    text.append("\n");
    text
}

/// The text of a copy of a register.
pub open spec fn move_text(dest: Register, src: Register) -> Seq<char> {
    "\tmove "@ + dest.text() + " "@ + src.text() + "\n"@
}

/// A copy of a register.
pub fn emit_move(dest: Register, src: Register) -> (text: String)
    ensures
        text@ == move_text(dest, src),
{
    let mut text = String::from_str("\tmove ");
    text.append(dest.name());
    text.append(" ");
    text.append(src.name());
    text.append("\n");
    text
}

/// The text of a negation.
pub open spec fn neg_text(dest: Register, src: Register) -> Seq<char> {
    "\tneg "@ + dest.text() + " "@ + src.text() + "\n"@
}

/// A negation.
pub fn emit_neg(dest: Register, src: Register) -> (text: String)
    ensures
        text@ == neg_text(dest, src),
{
    let mut text = String::from_str("\tneg ");
    text.append(dest.name());
    text.append(" ");
    text.append(src.name());
    text.append("\n");
    text
}

/// The text of an addition.
pub open spec fn add_text(dest: Register, src1: Register, src2: Register) -> Seq<char> {
    "\tadd "@ + dest.text() + " "@ + src1.text() + " "@ + src2.text() + "\n"@
}

/// An addition.
pub fn emit_add(dest: Register, src1: Register, src2: Register) -> (text: String)
    ensures
        text@ == add_text(dest, src1, src2),
{
    let mut text = String::from_str("\tadd ");
    text.append(dest.name());
    text.append(" ");
    text.append(src1.name());
    text.append(" ");
    text.append(src2.name());
    text.append("\n");
    text
}

/// The text of an addition without overflow trap.
pub open spec fn addu_text(dest: Register, src1: Register, src2: Register) -> Seq<char> {
    "\taddu "@ + dest.text() + " "@ + src1.text() + " "@ + src2.text() + "\n"@
}

/// An addition without overflow trap.
pub fn emit_addu(dest: Register, src1: Register, src2: Register) -> (text: String)
    ensures
        text@ == addu_text(dest, src1, src2),
{
    let mut text = String::from_str("\taddu ");
    text.append(dest.name());
    text.append(" ");
    text.append(src1.name());
    text.append(" ");
    text.append(src2.name());
    text.append("\n");
    text
}

/// The text of an addition of a number to a register.
pub open spec fn addiu_text(dest: Register, src: Register, imm: i16) -> Seq<char> {
    "\taddiu "@ + dest.text() + " "@ + src.text() + " "@ + decimal_text(imm as int) + "\n"@
}

/// An addition of a number to a register.
pub fn emit_addiu(dest: Register, src: Register, imm: i16) -> (text: String)
    ensures
        text@ == addiu_text(dest, src, imm),
{
    let mut text = String::from_str("\taddiu ");
    text.append(dest.name());
    text.append(" ");
    text.append(src.name());
    text.append(" ");
    text.append(decimal(imm as i64).as_str());
    text.append("\n");
    text
}

/// The text of a division.
pub open spec fn div_text(dest: Register, src1: Register, src2: Register) -> Seq<char> {
    "\tdiv "@ + dest.text() + " "@ + src1.text() + " "@ + src2.text() + "\n"@
}

/// A division.
pub fn emit_div(dest: Register, src1: Register, src2: Register) -> (text: String)
    ensures
        text@ == div_text(dest, src1, src2),
{
    let mut text = String::from_str("\tdiv ");
    text.append(dest.name());
    text.append(" ");
    text.append(src1.name());
    text.append(" ");
    text.append(src2.name());
    text.append("\n");
    text
}

/// The text of a multiplication.
pub open spec fn mul_text(dest: Register, src1: Register, src2: Register) -> Seq<char> {
    "\tmul "@ + dest.text() + " "@ + src1.text() + " "@ + src2.text() + "\n"@
}

/// A multiplication.
pub fn emit_mul(dest: Register, src1: Register, src2: Register) -> (text: String)
    ensures
        text@ == mul_text(dest, src1, src2),
{
    let mut text = String::from_str("\tmul ");
    text.append(dest.name());
    text.append(" ");
    text.append(src1.name());
    text.append(" ");
    text.append(src2.name());
    text.append("\n");
    text
}

/// The text of a subtraction.
pub open spec fn sub_text(dest: Register, src1: Register, src2: Register) -> Seq<char> {
    "\tsub "@ + dest.text() + " "@ + src1.text() + " "@ + src2.text() + "\n"@
}

/// A subtraction.
pub fn emit_sub(dest: Register, src1: Register, src2: Register) -> (text: String)
    ensures
        text@ == sub_text(dest, src1, src2),
{
    let mut text = String::from_str("\tsub ");
    text.append(dest.name());
    text.append(" ");
    text.append(src1.name());
    text.append(" ");
    text.append(src2.name());
    text.append("\n");
    text
}

/// The text of a shift to the left.
pub open spec fn sll_text(dest: Register, src: Register, shift: u8) -> Seq<char> {
    "\tsll "@ + dest.text() + " "@ + src.text() + " "@ + decimal_text(shift as int) + "\n"@
}

/// A shift to the left.
pub fn emit_sll(dest: Register, src: Register, shift: u8) -> (text: String)
    ensures
        text@ == sll_text(dest, src, shift),
{
    let mut text = String::from_str("\tsll ");
    text.append(dest.name());
    text.append(" ");
    text.append(src.name());
    text.append(" ");
    text.append(decimal(shift as i64).as_str());
    text.append("\n");
    text
}

/// The text of a jump to a label.
pub open spec fn branch_text(label: Label) -> Seq<char> {
    "\tb "@ + label.text() + "\n"@
}

/// A jump to a label.
pub fn emit_branch(label: Label) -> (text: String)
    ensures
        text@ == branch_text(label),
{
    let mut text = String::from_str("\tb ");
    text.append(label.name().as_str());
    text.append("\n");
    text
}

/// The text of a jump where a register is zero.
pub open spec fn beqz_text(src: Register, label: Label) -> Seq<char> {
    "\tbeqz "@ + src.text() + " "@ + label.text() + "\n"@
}

/// A jump where a register is zero.
pub fn emit_beqz(src: Register, label: Label) -> (text: String)
    ensures
        text@ == beqz_text(src, label),
{
    let mut text = String::from_str("\tbeqz ");
    text.append(src.name());
    text.append(" ");
    text.append(label.name().as_str());
    text.append("\n");
    text
}

/// The text of a jump where a register is not zero.
pub open spec fn bnez_text(src: Register, label: Label) -> Seq<char> {
    "\tbnez "@ + src.text() + " "@ + label.text() + "\n"@
}

/// A jump where a register is not zero.
pub fn emit_bnez(src: Register, label: Label) -> (text: String)
    ensures
        text@ == bnez_text(src, label),
{
    let mut text = String::from_str("\tbnez ");
    text.append(src.name());
    text.append(" ");
    text.append(label.name().as_str());
    text.append("\n");
    text
}

/// The text of a jump where two registers are equal.
pub open spec fn beq_text(src1: Register, src2: Register, label: Label) -> Seq<char> {
    "\tbeq "@ + src1.text() + " "@ + src2.text() + " "@ + label.text() + "\n"@
}

/// A jump where two registers are equal.
pub fn emit_beq(src1: Register, src2: Register, label: Label) -> (text: String)
    ensures
        text@ == beq_text(src1, src2, label),
{
    let mut text = String::from_str("\tbeq ");
    text.append(src1.name());
    text.append(" ");
    text.append(src2.name());
    text.append(" ");
    text.append(label.name().as_str());
    text.append("\n");
    text
}

/// The text of a jump where a register is at most another.
pub open spec fn bleq_text(src1: Register, src2: Register, label: Label) -> Seq<char> {
    "\tble "@ + src1.text() + " "@ + src2.text() + " "@ + label.text() + "\n"@
}

/// A jump where a register is at most another.
pub fn emit_bleq(src1: Register, src2: Register, label: Label) -> (text: String)
    ensures
        text@ == bleq_text(src1, src2, label),
{
    let mut text = String::from_str("\tble ");
    text.append(src1.name());
    text.append(" ");
    text.append(src2.name());
    text.append(" ");
    text.append(label.name().as_str());
    text.append("\n");
    text
}

/// The text of a jump where a register is below another.
pub open spec fn blt_text(src1: Register, src2: Register, label: Label) -> Seq<char> {
    "\tblt "@ + src1.text() + " "@ + src2.text() + " "@ + label.text() + "\n"@
}

/// A jump where a register is below another.
pub fn emit_blt(src1: Register, src2: Register, label: Label) -> (text: String)
    ensures
        text@ == blt_text(src1, src2, label),
{
    let mut text = String::from_str("\tblt ");
    text.append(src1.name());
    text.append(" ");
    text.append(src2.name());
    text.append(" ");
    text.append(label.name().as_str());
    text.append("\n");
    text
}

/// The text of a jump where a register is below a number.
pub open spec fn blti_text(src: Register, imm: u32, label: Label) -> Seq<char> {
    "\tblt "@ + src.text() + " "@ + decimal_text(imm as int) + " "@ + label.text() + "\n"@
}

/// A jump where a register is below a number.
pub fn emit_blti(src: Register, imm: u32, label: Label) -> (text: String)
    ensures
        text@ == blti_text(src, imm, label),
{
    let mut text = String::from_str("\tblt ");
    text.append(src.name());
    text.append(" ");
    text.append(decimal(imm as i64).as_str());
    text.append(" ");
    text.append(label.name().as_str());
    text.append("\n");
    text
}

/// The text of a jump where a register is at least a number.
pub open spec fn bgei_text(src: Register, imm: u32, label: Label) -> Seq<char> {
    "\tbge "@ + src.text() + " "@ + decimal_text(imm as int) + " "@ + label.text() + "\n"@
}

/// A jump where a register is at least a number.
pub fn emit_bgei(src: Register, imm: u32, label: Label) -> (text: String)
    ensures
        text@ == bgei_text(src, imm, label),
{
    let mut text = String::from_str("\tbge ");
    text.append(src.name());
    text.append(" ");
    text.append(decimal(imm as i64).as_str());
    text.append(" ");
    text.append(label.name().as_str());
    text.append("\n");
    text
}

/// The text of the definition of a label.
pub open spec fn label_def_text(label: Label) -> Seq<char> {
    label.text() + ":\n"@
}

/// The definition of a label.
pub fn emit_label_def(label: Label) -> (text: String)
    ensures
        text@ == label_def_text(label),
{
    let mut text = String::new();
    text.append(label.name().as_str());
    text.append(":\n");
    proof {
        assert(text@ =~= label_def_text(label));
    }
    text
}

/// The text of an integer's value loaded from the object that a register
/// points to.
pub open spec fn fetch_int_text(dest: Register, src: Register) -> Seq<char> {
    load_word_text(dest, MemLocation { reg: src, offset: DEFAULT_OBJFIELDS })
}

/// A load of an integer's value from the object that a register points to.
pub fn emit_fetch_int(dest: Register, src: Register) -> (text: String)
    ensures
        text@ == fetch_int_text(dest, src),
{
    emit_load_word(dest, MemLocation { reg: src, offset: DEFAULT_OBJFIELDS })
}

/// The text of a store of an integer's value into the object that a
/// register points to.
pub open spec fn store_int_text(src: Register, dest: Register) -> Seq<char> {
    store_word_text(src, MemLocation { reg: dest, offset: DEFAULT_OBJFIELDS })
}

/// A store of an integer's value into the object that a register points to.
pub fn emit_store_int(src: Register, dest: Register) -> (text: String)
    ensures
        text@ == store_int_text(src, dest),
{
    emit_store_word(src, MemLocation { reg: dest, offset: DEFAULT_OBJFIELDS })
}

/// The text of a push of a register onto the stack.
pub open spec fn push_text(src: Register) -> Seq<char> {
    store_word_text(src, MemLocation { reg: Register::SP, offset: 0 }) + addiu_text(
        Register::SP,
        Register::SP,
        -4i16,
    )
}

/// A push of a register onto the stack.
pub fn emit_push(src: Register) -> (text: String)
    ensures
        text@ == push_text(src),
{
    let mut text = emit_store_word(src, MemLocation { reg: Register::SP, offset: 0 });
    text.append(emit_addiu(Register::SP, Register::SP, -WORD_SIZE).as_str());
    text
}

/// The text of a pop of the top of the stack into a register.
pub open spec fn pop_text(dest: Register) -> Seq<char> {
    addiu_text(Register::SP, Register::SP, 4) + load_word_text(
        dest,
        MemLocation { reg: Register::SP, offset: 0 },
    )
}

/// A pop of the top of the stack into a register.
pub fn emit_pop(dest: Register) -> (text: String)
    ensures
        text@ == pop_text(dest),
{
    let mut text = emit_addiu(Register::SP, Register::SP, WORD_SIZE);
    text.append(emit_load_word(dest, MemLocation { reg: Register::SP, offset: 0 }).as_str());
    text
}

/// The text of a load of the address of a boolean constant.
pub open spec fn load_bool_text(dest: Register, val: bool) -> Seq<char> {
    load_address_text(
        dest,
        if val {
            "bool_const1"@
        } else {
            "bool_const0"@
        },
    )
}

/// A load of the address of a boolean constant.
pub fn emit_load_bool(dest: Register, val: bool) -> (text: String)
    ensures
        text@ == load_bool_text(dest, val),
{
    if val {
        emit_load_address(dest, String::from_str("bool_const1"))
    } else {
        emit_load_address(dest, String::from_str("bool_const0"))
    }
}

/// The name of an integer constant.
pub open spec fn int_const_name(val: nat) -> Seq<char> {
    "int_const_"@ + hex_digits(val, 8)
}

/// The text of a load of the address of an integer constant.
pub open spec fn load_int_text(dest: Register, val: u32) -> Seq<char> {
    load_address_text(dest, int_const_name(val as nat))
}

/// A load of the address of an integer constant.
pub fn emit_load_int(dest: Register, val: u32) -> (text: String)
    ensures
        text@ == load_int_text(dest, val),
{
    let mut name = String::from_str("int_const_");
    name.append(hex_fixed(val as u64, 8).as_str());
    emit_load_address(dest, name)
}

/// The name of a string constant.
pub open spec fn str_const_name(base_name: Seq<char>, val_id: u32) -> Seq<char> {
    base_name + "_"@ + hex_digits(val_id as nat, 8)
}

/// The text of a load of the address of a string constant.
pub open spec fn load_string_text(dest: Register, base_name: Seq<char>, val_id: u32) -> Seq<char> {
    load_address_text(dest, str_const_name(base_name, val_id))
}

/// A load of the address of a string constant.
pub fn emit_load_string(dest: Register, base_name: &str, val_id: u32) -> (text: String)
    ensures
        text@ == load_string_text(dest, base_name@, val_id),
{
    let mut name = String::from_str(base_name);
    name.append("_");
    name.append(hex_fixed(val_id as u64, 8).as_str());
    emit_load_address(dest, name)
}

/// The text of a boolean constant.
pub open spec fn bool_const_text(bool_tag: u32, val: bool) -> Seq<char> {
    gc_tag_text() + (if val {
        "bool_const1:\n"@
    } else {
        "bool_const0:\n"@
    }) + word_line(bool_tag.word_text()) + word_line(4u32.word_text()) + word_line(
        "Bool_dispTab"@,
    ) + word_line(
        if val {
            1u32.word_text()
        } else {
            0u32.word_text()
        },
    )
}

/// A boolean constant.
pub fn emit_bool_const(bool_tag: u32, val: bool) -> (text: String)
    ensures
        text@ == bool_const_text(bool_tag, val),
{
    let mut text = emit_gc_tag();
    if val {
        text.append("bool_const1:\n");
    } else {
        text.append("bool_const0:\n");
    }
    text.append(emit_word(bool_tag).as_str());
    text.append(emit_word(4u32).as_str());
    text.append(emit_word("Bool_dispTab").as_str());
    if val {
        text.append(emit_word(1u32).as_str());
    } else {
        text.append(emit_word(0u32).as_str());
    }
    text
}

/// The text of the bytes of a string constant from position `i` on.
pub open spec fn bytes_text(bytes: Seq<u8>, i: int) -> Seq<char>
    decreases bytes.len() - i,
{
    if 0 <= i < bytes.len() {
        " 0x"@ + hex_digits(bytes[i] as nat, 2) + bytes_text(bytes, i + 1)
    } else {
        Seq::empty()
    }
}

/// The text of a string constant.
pub open spec fn string_const_text(
    base_name: Seq<char>,
    string_tag: u32,
    bytes: Seq<u8>,
    val_id: u32,
) -> Seq<char> {
    gc_tag_text() + str_const_name(base_name, val_id) + ":\n"@ + word_line(string_tag.word_text())
        + word_line(((bytes.len() / 4 + 5) as u32).word_text()) + word_line("String_dispTab"@)
        + word_line(int_const_name(bytes.len())) + "\t.byte"@ + bytes_text(bytes, 0) + " 0x00\n"@
        + align_text(LG_WORD_SIZE)
}

/// A string constant: its size, its length and its bytes, ended by a zero.
pub fn emit_string_const(base_name: &str, string_tag: u32, val: &str, val_id: u32) -> (text:
    String)
    requires
        val.spec_bytes().len() <= u32::MAX,
    ensures
        text@ == string_const_text(base_name@, string_tag, val.spec_bytes(), val_id),
{
    let bytes = val.as_bytes();
    let len = bytes.len();
    let mut text = emit_gc_tag();
    text.append(base_name);
    text.append("_");
    text.append(hex_fixed(val_id as u64, 8).as_str());
    text.append(":\n");
    text.append(emit_word(string_tag).as_str());
    text.append(emit_word((len / 4 + 5) as u32).as_str());
    text.append(emit_word("String_dispTab").as_str());
    let mut name = String::from_str("int_const_");
    name.append(hex_fixed(len as u64, 8).as_str());
    text.append(emit_word(name).as_str());
    text.append("\t.byte");
    let ghost head = text@;
    let mut tail = String::new();
    let mut i: usize = len;
    while i > 0
        invariant
            i <= len,
            len == bytes@.len(),
            tail@ == bytes_text(bytes@, i as int),
        decreases i,
    {
        i -= 1;
        let mut piece = String::from_str(" 0x");
        piece.append(hex_fixed(bytes[i] as u64, 2).as_str());
        piece.append(tail.as_str());
        tail = piece;
    }
    text.append(tail.as_str());
    text.append(" 0x00\n");
    text.append(emit_align(LG_WORD_SIZE).as_str());
    proof {
        assert(text@ =~= string_const_text(base_name@, string_tag, val.spec_bytes(), val_id));
    }
    text
}

/// The text of the start of a method: the caller's frame pointer, self
/// and return address go onto the stack, and the frame pointer and self
/// are set for the method.
pub open spec fn method_start_text() -> Seq<char> {
    addiu_text(Register::SP, Register::SP, -12i16) + store_word_text(
        Register::FP,
        MemLocation { reg: Register::SP, offset: 3 },
    ) + store_word_text(Register::SELF, MemLocation { reg: Register::SP, offset: 2 })
        + store_word_text(Register::RA, MemLocation { reg: Register::SP, offset: 1 }) + addiu_text(
        Register::FP,
        Register::SP,
        4,
    ) + move_text(Register::SELF, Register::ACC)
}

/// The start of a method.
pub fn emit_method_start() -> (text: String)
    ensures
        text@ == method_start_text(),
{
    let mut text = emit_addiu(Register::SP, Register::SP, -3 * WORD_SIZE);
    text.append(emit_store_word(Register::FP, MemLocation { reg: Register::SP, offset: 3 }).as_str());
    text.append(
        emit_store_word(Register::SELF, MemLocation { reg: Register::SP, offset: 2 }).as_str(),
    );
    text.append(emit_store_word(Register::RA, MemLocation { reg: Register::SP, offset: 1 }).as_str());
    text.append(emit_addiu(Register::FP, Register::SP, WORD_SIZE).as_str());
    text.append(emit_move(Register::SELF, Register::ACC).as_str());
    text
}

/// The text of the end of a method with `formal_count` formals: what the
/// start has saved comes back, the arguments leave the stack, and the
/// method returns.
pub open spec fn method_end_text(formal_count: i16) -> Seq<char> {
    load_word_text(Register::FP, MemLocation { reg: Register::SP, offset: 3 }) + load_word_text(
        Register::SELF,
        MemLocation { reg: Register::SP, offset: 2 },
    ) + load_word_text(Register::RA, MemLocation { reg: Register::SP, offset: 1 }) + addiu_text(
        Register::SP,
        Register::SP,
        ((3 + formal_count) * 4) as i16,
    ) + return_text()
}

/// The end of a method with `formal_count` formals.
pub fn emit_method_end(formal_count: i16) -> (text: String)
    requires
        -8195 <= formal_count <= 8188,
    ensures
        text@ == method_end_text(formal_count),
{
    let mut text = emit_load_word(Register::FP, MemLocation { reg: Register::SP, offset: 3 });
    text.append(emit_load_word(Register::SELF, MemLocation { reg: Register::SP, offset: 2 }).as_str());
    text.append(emit_load_word(Register::RA, MemLocation { reg: Register::SP, offset: 1 }).as_str());
    text.append(
        emit_addiu(Register::SP, Register::SP, (3 + formal_count) * WORD_SIZE).as_str(),
    );
    text.append(emit_return().as_str());
    text
}

} // verus!

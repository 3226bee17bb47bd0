use indexmap::IndexMap;
use kjit::specgen::metadata::{
    contains_text, decode_var_map, eq_ignore_ascii_case, infer_operand_roles, normalize_role_field, operand_width,
    simplify_roles, starts_with_text, text_order, RoleSet, TextOrder,
};
use kjit::specgen::model::{AsmOperand, FieldSlice, OperandRoleSpec};

fn docvars(pairs: &[(&str, &str)]) -> IndexMap<String, String> {
    let mut m = IndexMap::new();
    for (k, v) in pairs {
        m.insert(k.to_string(), v.to_string());
    }
    m
}

fn field(name: &str, hi: u8, width: u8, variable: bool) -> FieldSlice {
    FieldSlice { name: name.to_string(), hi, width, variable }
}

fn operand(text: &str, hover: &str) -> AsmOperand {
    AsmOperand { text: text.to_string(), link: String::new(), hover: hover.to_string() }
}

fn role(kind: &str, field: &str, width: &str) -> OperandRoleSpec {
    OperandRoleSpec { kind: kind.to_string(), field: field.to_string(), width: width.to_string() }
}

#[test]
fn normalizes_implicit_lr_write() {
    let mut roles = RoleSet::new();
    roles.insert("RegWrite", "x30", "Unknown");

    let simplified = simplify_roles(&roles);

    assert!(simplified.contains("ImplicitRegWrite", "x30", "X64"));
    assert!(!simplified.contains("RegWrite", "x30", "Unknown"));
}

#[test]
fn simplify_prefers_known_widths_and_read_write() {
    let mut roles = RoleSet::new();
    roles.insert("RegRead", "Rn", "Unknown");
    roles.insert("RegRead", "Rn", "X64");
    roles.insert("RegReadWrite", "Rn", "X64");
    roles.insert("RegWrite", "Rn", "X64");
    roles.insert("MemOffset", "imm9", "Unknown");
    let s = simplify_roles(&roles);
    assert_eq!(s.len(), 2);
    assert!(s.contains("RegReadWrite", "Rn", "X64"));
    assert!(s.contains("MemOffset", "imm9", "Unknown"));
    assert!(!s.contains("RegRead", "Rn", "Unknown"));
}

#[test]
fn role_sets_keep_text_order_without_repeats() {
    let mut roles = RoleSet::new();
    roles.insert("RegWrite", "Rt", "X64");
    roles.insert("MemBase", "Rn", "X64");
    roles.insert("Memory", "", "Unknown");
    roles.insert("MemOffset", "imm9", "Unknown");
    roles.insert("MemBase", "Rn", "X64");
    assert_eq!(roles.len(), 4);
    assert_eq!(roles.get(0).0, "MemBase");
    assert_eq!(roles.get(1).0, "MemOffset");
    assert_eq!(roles.get(2).0, "Memory");
    assert_eq!(roles.get(3).0, "RegWrite");
    roles.remove("Memory", "", "Unknown");
    roles.remove("Memory", "", "Unknown");
    assert_eq!(roles.len(), 3);
    assert!(!roles.contains("Memory", "", "Unknown"));
}

#[test]
fn text_helpers() {
    assert_eq!(text_order("MemBase", "MemOffset"), TextOrder::Before);
    assert_eq!(text_order("Memory", "MemOffset"), TextOrder::After);
    assert_eq!(text_order("Rn", "Rn"), TextOrder::Same);
    assert_eq!(text_order("Rn", "Rn2"), TextOrder::Before);
    assert!(contains_text("abc", "bc"));
    assert!(contains_text("abc", ""));
    assert!(!contains_text("", "a"));
    assert!(starts_with_text("imm19", "imm"));
    assert!(!starts_with_text("im", "imm"));
    assert!(eq_ignore_ascii_case("rN", "Rn"));
    assert!(!eq_ignore_ascii_case("Rn", "Rm"));
}

#[test]
fn operand_width_from_docvars_and_operands() {
    assert_eq!(operand_width(&docvars(&[("datatype", "32")]), None), "W32");
    assert_eq!(operand_width(&docvars(&[("reg-type", "64-reg")]), None), "X64");
    assert_eq!(operand_width(&docvars(&[]), None), "Unknown");
    let op = operand("<Wd>", "Is the name of the destination register");
    assert_eq!(operand_width(&docvars(&[]), Some(&op)), "W32");
    let op = operand("<d>", "Is the 64-BIT name");
    assert_eq!(operand_width(&docvars(&[]), Some(&op)), "X64");
}

#[test]
fn role_fields_follow_the_form_names() {
    let names = vec!["Rn".to_string(), "imm9".to_string(), "rN".to_string()];
    assert_eq!(normalize_role_field("rn", &names), "Rn");
    assert_eq!(normalize_role_field("30", &names), "x30");
    assert_eq!(normalize_role_field("x30", &names), "x30");
    assert_eq!(normalize_role_field("IMM9", &names), "imm9");
    assert_eq!(normalize_role_field("foo", &names), "foo");
}

#[test]
fn decode_bindings_come_from_let_and_var() {
    let pairs = decode_var_map("let t = UInt(Rt); var n : integer = UInt(Rn); let t = UInt(Rt2);").unwrap();
    assert_eq!(
        pairs,
        vec![
            ("t".to_string(), "Rt".to_string()),
            ("t".to_string(), "Rt2".to_string()),
            ("n".to_string(), "Rn".to_string()),
        ]
    );
}

#[test]
fn infers_post_indexed_load_roles() {
    let d = docvars(&[("mnemonic", "LDR"), ("address-form", "post-indexed"), ("datatype", "64")]);
    let fields = vec![
        field("size", 31, 2, false),
        field("imm9", 20, 9, true),
        field("Rn", 9, 5, true),
        field("Rt", 4, 5, true),
    ];
    let operands = vec![
        operand(
            "<Xt>",
            "Is the 64-bit name of the general-purpose register to be transferred, encoded in the \"Rt\" field.",
        ),
        operand(
            "<Xn|SP>",
            "Is the 64-bit name of the general-purpose base register or stack pointer, encoded in the \"Rn\" field.",
        ),
    ];
    let decode = "let t = UInt(Rt); let n = UInt(Rn);";
    let execute = "address = X[n, 64]; data = Mem[address, 8]; X[t, 64] = data; X[n, 64] = address + offset;";
    let roles = infer_operand_roles(&d, &fields, &operands, decode, execute).unwrap();
    assert_eq!(
        roles,
        vec![
            role("MemBase", "Rn", "X64"),
            role("MemOffset", "imm9", "Unknown"),
            role("Memory", "", "Unknown"),
            role("RegReadWrite", "Rn", "X64"),
            role("RegWrite", "Rt", "X64"),
        ]
    );
}

#[test]
fn infers_branch_with_link_roles() {
    let d = docvars(&[("mnemonic", "BL"), ("branch-offset", "br26")]);
    let fields = vec![field("op", 31, 1, false), field("imm26", 25, 26, true)];
    let execute = "X[30, 64] = PC64() + 4; BranchTo(PC64() + offset, BranchType_DIRCALL, FALSE);";
    let roles = infer_operand_roles(&d, &fields, &[], "", execute).unwrap();
    assert_eq!(
        roles,
        vec![
            role("BranchTarget", "imm26", "Unknown"),
            role("ControlFlow", "", "Unknown"),
            role("ImplicitRegWrite", "x30", "X64"),
        ]
    );
}

#[test]
fn infers_register_accessor_reads_and_flags() {
    let d = docvars(&[("mnemonic", "ADDS"), ("datatype", "32")]);
    let fields = vec![field("Rd", 4, 5, true), field("Rn", 9, 5, true), field("imm12", 21, 12, true)];
    let decode = "let d = UInt(Rd); let n = UInt(Rn);";
    let execute = "operand1 = X{32}(n); (result, nzcv) = AddWithCarry(operand1, imm, '0'); PSTATE.NZCV = nzcv; X{32}(d) = result;";
    let roles = infer_operand_roles(&d, &fields, &[], decode, execute).unwrap();
    assert_eq!(
        roles,
        vec![
            role("FlagsWrite", "", "Unknown"),
            role("RegRead", "Rn", "W32"),
            role("RegWrite", "Rd", "W32"),
        ]
    );
}

use kjit::specgen::model::FieldSlice;
use kjit::specgen::subset::{form_source_file, unique_instruction_files};

#[test]
fn form_source_file_uses_section_prefix() {
    assert_eq!(form_source_file("CBNZ.CBNZ_64_compbranch").unwrap(), "cbnz.xml");
}

#[test]
fn form_source_file_rejects_malformed_keys() {
    assert!(form_source_file("CBNZ").is_err());
    assert!(form_source_file(".CBNZ_64_compbranch").is_err());
}

#[test]
fn unique_instruction_files_keeps_first_use_order() {
    let forms = vec![
        "MOVZ.MOVZ_64_movewide".to_string(),
        "ADD_addsub_imm.ADD_64_addsub_imm".to_string(),
        "MOVZ.MOVZ_32_movewide".to_string(),
    ];
    assert_eq!(unique_instruction_files(&forms).unwrap(), vec!["movz.xml".to_string(), "add_addsub_imm.xml".to_string()]);
    let bad = vec!["MOVZ.MOVZ_64_movewide".to_string(), "nodot".to_string()];
    assert!(unique_instruction_files(&bad).is_err());
}

#[test]
fn field_slice_low_bit() {
    let slice = FieldSlice { name: "Rd".to_string(), hi: 4, width: 5, variable: true };
    assert_eq!(slice.lo(), 0);
    let slice = FieldSlice { name: "imm16".to_string(), hi: 20, width: 16, variable: true };
    assert_eq!(slice.lo(), 5);
}

fn variant(section: &str, encoding: &str) -> kjit::specgen::model::VariantSpec {
    kjit::specgen::model::VariantSpec {
        section_id: section.to_string(),
        heading: String::new(),
        title: String::new(),
        iclass: String::new(),
        encoding_name: encoding.to_string(),
        encoding_label: String::new(),
        mnemonic: String::new(),
        docvars: indexmap::IndexMap::new(),
        asm_operands: Vec::new(),
        mask: String::new(),
        value: String::new(),
        fields: Vec::new(),
        operand_roles: Vec::new(),
        assembly: String::new(),
    }
}

fn instruction(section: &str, encodings: &[&str]) -> kjit::specgen::model::InstructionSpec {
    kjit::specgen::model::InstructionSpec {
        source_file: format!("{}.xml", section.to_lowercase()),
        section_id: section.to_string(),
        heading: String::new(),
        title: String::new(),
        docvars: indexmap::IndexMap::new(),
        variants: encodings.iter().map(|e| variant(section, e)).collect(),
    }
}

#[test]
fn filter_specs_keeps_only_configured_forms() {
    let specs = vec![
        instruction("MOVZ", &["MOVZ_32_movewide", "MOVZ_64_movewide"]),
        instruction("CBNZ", &["CBNZ_32_compbranch"]),
    ];
    let forms = vec!["MOVZ.MOVZ_64_movewide".to_string()];
    let kept = kjit::specgen::subset::filter_specs_by_forms(specs, &forms).unwrap();
    assert_eq!(kept.len(), 1);
    assert_eq!(kept[0].section_id, "MOVZ");
    assert_eq!(kept[0].variants.len(), 1);
    assert_eq!(kept[0].variants[0].encoding_name, "MOVZ_64_movewide");
}

#[test]
fn filter_specs_lists_missing_forms_in_order() {
    let specs = vec![instruction("MOVZ", &["MOVZ_64_movewide"])];
    let forms = vec![
        "B.B_only_branch_imm".to_string(),
        "MOVZ.MOVZ_64_movewide".to_string(),
        "BL.BL_only_branch_imm".to_string(),
    ];
    match kjit::specgen::subset::filter_specs_by_forms(specs, &forms) {
        Err(kjit::specgen::subset::SubsetError::MissingForms { forms }) => {
            assert_eq!(forms, vec!["B.B_only_branch_imm".to_string(), "BL.BL_only_branch_imm".to_string()]);
        }
        _ => panic!("expected missing forms"),
    }
}

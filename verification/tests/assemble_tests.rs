use mkdbupgrade::assemble::{assemble_script, ScriptInput};

fn contents(texts: &[&str]) -> Vec<String> {
    texts.iter().map(|t| String::from(*t)).collect()
}

fn end_to_end_input() -> ScriptInput {
    ScriptInput {
        prepend: None,
        from_version: String::from("3.2.1"),
        version: String::from("3.3.0"),
        main_upgrades: contents(&["BEGIN;\nCREATE TABLE t3 (id INT);\nCOMMIT;\n"]),
        moved_upgrades: contents(&["BEGIN;\nCREATE INDEX i4 ON t3 (id);\nCOMMIT;\n"]),
        append: None,
    }
}

#[test]
fn script_with_moved_section() {
    let expected = "-- Upgrade script for Evergreen 3.2.1 to 3.3.0\n\\set eg_version '''3.3.0'''\n\nBEGIN;\nCREATE TABLE t3 (id INT);\nCOMMIT;\n\n-- Start of moved upgrades\nBEGIN;\nCREATE INDEX i4 ON t3 (id);\nCOMMIT;\n-- End of moved upgrades\n\n-- Update auditor tables to catch changes in source tables.\n-- Can be removed/skipped if there were no schema changes.\nSELECT auditor.update_auditors();\n";
    assert_eq!(assemble_script(&end_to_end_input()), String::from(expected));
}

#[test]
fn assembly_is_deterministic() {
    let first = assemble_script(&end_to_end_input());
    let second = assemble_script(&end_to_end_input());
    assert_eq!(first, second);
}

#[test]
fn script_without_moved_section() {
    let input = ScriptInput {
        prepend: None,
        from_version: String::from("1.0.0"),
        version: String::from("1.1.0"),
        main_upgrades: contents(&["SELECT 1;\n"]),
        moved_upgrades: contents(&[]),
        append: None,
    };
    let expected = "-- Upgrade script for Evergreen 1.0.0 to 1.1.0\n\\set eg_version '''1.1.0'''\n\nBEGIN;\nSELECT 1;\nCOMMIT;\n\n-- Update auditor tables to catch changes in source tables.\n-- Can be removed/skipped if there were no schema changes.\nSELECT auditor.update_auditors();\n";
    assert_eq!(assemble_script(&input), String::from(expected));
}

#[test]
fn prepended_and_appended_files_are_copied_verbatim() {
    let input = ScriptInput {
        prepend: Some(contents(&["-- first\n", "BEGIN;\n"])),
        from_version: String::from("1.0.0"),
        version: String::from("1.1.0"),
        main_upgrades: contents(&[]),
        moved_upgrades: contents(&[]),
        append: Some(contents(&["-- last\n"])),
    };
    let expected = "-- Start of prepended code\n-- first\nBEGIN;\n-- End of prepended code\n\n-- Upgrade script for Evergreen 1.0.0 to 1.1.0\n\\set eg_version '''1.1.0'''\n\nBEGIN;\nCOMMIT;\n\n-- Update auditor tables to catch changes in source tables.\n-- Can be removed/skipped if there were no schema changes.\nSELECT auditor.update_auditors();\n\n-- Start of appended code\n-- last\n-- End of appended code\n";
    assert_eq!(assemble_script(&input), String::from(expected));
}

#[test]
fn main_upgrades_are_filtered_moved_upgrades_are_not() {
    let body = "BEGIN;\nSELECT 1;\nCOMMIT;\n";
    let input = ScriptInput {
        prepend: None,
        from_version: String::from("2.0.0"),
        version: String::from("2.1.0"),
        main_upgrades: contents(&[body]),
        moved_upgrades: contents(&[body]),
        append: None,
    };
    let script = assemble_script(&input);
    let split_at = script.find("-- Start of moved upgrades").unwrap();
    let transactional = &script[..split_at];
    let moved = &script[split_at..];
    assert_eq!(transactional.matches("BEGIN;\n").count(), 1);
    assert_eq!(transactional.matches("COMMIT;\n").count(), 1);
    assert!(moved.contains("BEGIN;\nSELECT 1;\nCOMMIT;\n"));
}

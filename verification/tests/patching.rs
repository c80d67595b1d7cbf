use tx_scaffold::fields::parse_fields;
use tx_scaffold::patch::{find_anchor, replace_first};
use tx_scaffold::patcher::{modify_state_file, modify_tx_file};
use tx_scaffold::render::{render_field_block, render_field_pattern, render_variant};

const TX_TEMPLATE: &str = "use clap::Subcommand;\nuse serde::{Deserialize, Serialize};\n\n#[derive(Subcommand, Clone, Serialize, Deserialize, Debug)]\npub enum Transaction {\n    Noop,\n}\n\nimpl Transaction {\n    pub fn verify(&self) -> Result<()> {\n        match self {\n            Transaction::Noop => Ok(()),\n        }\n    }\n}\n";

const STATE_TEMPLATE: &str = "use crate::tx::Transaction;\n\npub struct State;\n\nimpl State {\n    pub fn validate_tx(tx: &Transaction) -> Result<()> {\n        match tx {\n            Transaction::Noop => Ok(()),\n        }\n    }\n\n    pub fn process_tx(tx: &Transaction) -> Result<()> {\n        match tx {\n            Transaction::Noop => Ok(()),\n        }\n    }\n}\n";

fn strings(tokens: &[&str]) -> Vec<String> {
    tokens.iter().map(|t| t.to_string()).collect()
}

#[test]
fn parse_fields_pairs_even_tokens_in_order() {
    let args = strings(&["amount", "u64", "to", "String"]);
    let fields = parse_fields(&args);
    assert_eq!(
        fields,
        vec![
            ("amount".to_string(), "u64".to_string()),
            ("to".to_string(), "String".to_string()),
        ]
    );
}

#[test]
fn parse_fields_defaults_odd_trailing_token() {
    let args = strings(&["flag"]);
    let fields = parse_fields(&args);
    assert_eq!(fields, vec![("flag".to_string(), "String".to_string())]);
}

#[test]
fn parse_fields_empty_input_gives_empty_list() {
    let args: Vec<String> = Vec::new();
    let fields = parse_fields(&args);
    assert!(fields.is_empty());
}

#[test]
fn parse_fields_longer_odd_sequence() {
    let args = strings(&["a", "u8", "b", "u16", "c"]);
    let fields = parse_fields(&args);
    assert_eq!(
        fields,
        vec![
            ("a".to_string(), "u8".to_string()),
            ("b".to_string(), "u16".to_string()),
            ("c".to_string(), "String".to_string()),
        ]
    );
}

#[test]
fn render_field_block_preserves_order() {
    let fields = vec![
        ("amount".to_string(), "u64".to_string()),
        ("to".to_string(), "String".to_string()),
    ];
    let block = render_field_block(&fields);
    assert_eq!(block, "        amount: u64,\n        to: String");
    let swapped = vec![
        ("to".to_string(), "String".to_string()),
        ("amount".to_string(), "u64".to_string()),
    ];
    let block = render_field_block(&swapped);
    assert_eq!(block, "        to: String,\n        amount: u64");
}

#[test]
fn render_field_pattern_preserves_order() {
    let fields = vec![
        ("amount".to_string(), "u64".to_string()),
        ("to".to_string(), "String".to_string()),
    ];
    assert_eq!(render_field_pattern(&fields), "amount, to");
    let empty: Vec<(String, String)> = Vec::new();
    assert_eq!(render_field_pattern(&empty), "");
}

#[test]
fn render_variant_unit_style_for_empty_fields() {
    let empty: Vec<(String, String)> = Vec::new();
    assert_eq!(render_variant("Ping", &empty), "    Ping,\n    Noop");
}

#[test]
fn render_variant_structured_for_fields() {
    let fields = vec![("amount".to_string(), "u64".to_string())];
    assert_eq!(
        render_variant("Mint", &fields),
        "    Mint {\n        amount: u64\n    },\n    Noop"
    );
}

#[test]
fn find_anchor_reports_first_occurrence() {
    assert_eq!(find_anchor("x ab y ab z", "ab"), Some(2));
    assert_eq!(find_anchor("x ab y ab z", "zz"), None);
    assert_eq!(find_anchor("aaa", "aa"), Some(0));
}

#[test]
fn replace_first_touches_only_first_occurrence() {
    assert_eq!(replace_first("x A y A z", "A", "B"), "x B y A z");
    assert_eq!(replace_first("no anchor here", "A", "B"), "no anchor here");
}

#[test]
fn tx_patch_inserts_structured_variant() {
    let fields = vec![
        ("amount".to_string(), "u64".to_string()),
        ("to".to_string(), "String".to_string()),
    ];
    let out = modify_tx_file("Transfer", &fields, TX_TEMPLATE);
    assert!(out.contains(
        "pub enum Transaction {\n    Transfer {\n        amount: u64,\n        to: String\n    },\n    Noop\n}"
    ));
    assert!(out.contains("Self::Transfer { amount, to } =>"));
    assert!(out.contains("Self::Noop => Ok(()),"));
    // The rest of the template survives byte for byte.
    assert!(out.starts_with("use clap::Subcommand;\nuse serde::{Deserialize, Serialize};\n\n"));
    assert!(out.ends_with("    }\n}\n"));
}

#[test]
fn tx_patch_inserts_bare_variant_for_empty_fields() {
    let empty: Vec<(String, String)> = Vec::new();
    let out = modify_tx_file("Ping", &empty, TX_TEMPLATE);
    assert!(out.contains("pub enum Transaction {\n    Ping,\n    Noop\n}"));
    assert!(out.contains("Self::Ping {  } => {"));
    assert!(out.contains("Ok(())"));
}

#[test]
fn tx_patch_passes_through_on_anchor_miss() {
    let fields = vec![("amount".to_string(), "u64".to_string())];
    let plain = "fn unrelated() {}\n";
    let out = modify_tx_file("Transfer", &fields, plain);
    assert_eq!(out, plain);
}

#[test]
fn state_patch_fills_both_dispatches() {
    let fields = vec![("qty".to_string(), "u64".to_string())];
    let out = modify_state_file("Mint", &fields, STATE_TEMPLATE);
    let block = "        match tx {\n            Transaction::Mint { qty } => Ok(()),\n            Transaction::Noop => Ok(()),\n        }";
    assert_eq!(out.matches(block).count(), 2);
    // One block per dispatch function, at distinct positions.
    let first = out.find(block).unwrap();
    let second = out.rfind(block).unwrap();
    assert!(first < second);
    assert!(out[..first].contains("validate_tx"));
    assert!(out[first..second].contains("process_tx"));
}

#[test]
fn state_patch_empty_fields_destructures_nothing() {
    let empty: Vec<(String, String)> = Vec::new();
    let out = modify_state_file("Ping", &empty, STATE_TEMPLATE);
    assert_eq!(
        out.matches("Transaction::Ping {  } => Ok(()),").count(),
        2
    );
}

#[test]
fn state_patch_passes_through_on_anchor_miss() {
    let fields = vec![("qty".to_string(), "u64".to_string())];
    let plain = "nothing to see\n";
    let out = modify_state_file("Mint", &fields, plain);
    assert_eq!(out, plain);
}

#[test]
fn state_patch_single_occurrence_patches_once() {
    let template = "    fn only(tx: &Transaction) -> Result<()> {\n        match tx {\n            Transaction::Noop => Ok(()),\n        }\n    }\n";
    let fields = vec![("qty".to_string(), "u64".to_string())];
    let out = modify_state_file("Mint", &fields, template);
    let block = "        match tx {\n            Transaction::Mint { qty } => Ok(()),\n            Transaction::Noop => Ok(()),\n        }";
    assert_eq!(out.matches(block).count(), 1);
}

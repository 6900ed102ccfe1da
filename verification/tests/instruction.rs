use raydium_monitor::instruction::{InstructionData, InstructionDataValue};

#[test]
fn amount_value_exposes_no_accounts_view() {
    let v = InstructionDataValue::Amount(42);
    assert_eq!(v.amount(), Some(42));
    assert!(v.accounts().is_none());
    assert!(v.data().is_none());
}

#[test]
fn accounts_value_exposes_no_amount_view() {
    let accounts = vec![String::from("alpha"), String::from("beta")];
    let data = Some(String::from("payload"));
    let v = InstructionDataValue::AccountsAndData {
        accounts: accounts.clone(),
        data: data.clone(),
    };
    assert_eq!(v.amount(), None);
    assert_eq!(v.accounts(), Some(&accounts));
    assert_eq!(v.data(), Some(&data));
}

#[test]
fn accounts_value_keeps_order() {
    let accounts = vec![
        String::from("first"),
        String::from("second"),
        String::from("third"),
    ];
    let v = InstructionDataValue::AccountsAndData {
        accounts: accounts.clone(),
        data: None,
    };
    assert_eq!(v.accounts(), Some(&accounts));
    assert_eq!(v.data(), Some(&None));
}

#[test]
fn instruction_data_wraps_one_value() {
    let d = InstructionData {
        value: InstructionDataValue::Amount(7),
    };
    assert_eq!(d.value.amount(), Some(7));
    let copy = d.clone();
    assert_eq!(copy.value.amount(), Some(7));
}

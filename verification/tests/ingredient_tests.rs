use rettle::ingredient::{
    Argument, Field, Ingredient, Skim, SkimArgs, StageError, Steep, SteepArgs, Pour, Transform,
};
use rettle::tea::TextTea;
use std::sync::Arc;

#[test]
fn create_steep_no_params() {
    let steep = Steep {
        name: Arc::new(String::from("test_steep")),
        computation: Transform::AddConstant { amount: 5 },
        params: None,
    };
    let orig_tea = vec![TextTea { x: Some(0), str_val: None, y: None }];
    let orig_tea_copy = orig_tea.clone();
    let new_tea = steep.exec(orig_tea).unwrap();
    assert_eq!(steep.get_name(), "test_steep");
    assert_eq!(new_tea[0].x.unwrap(), orig_tea_copy[0].x.unwrap() + 5);
}

#[test]
fn create_steep_with_params() {
    let steep = Steep {
        name: Arc::new(String::from("test_steep")),
        computation: Transform::AddOffset,
        params: Some(Argument::Steep(SteepArgs { increment: 10 })),
    };
    let orig_tea = vec![TextTea { x: Some(0), str_val: None, y: None }];
    let orig_tea_copy = orig_tea.clone();
    let new_tea = steep.exec(orig_tea).unwrap();
    assert_eq!(steep.get_name(), "test_steep");
    assert_eq!(new_tea[0].x.unwrap(), orig_tea_copy[0].x.unwrap() + 10);
}

#[test]
fn create_pour_no_params() {
    let pour = Pour {
        name: Arc::new(String::from("test_pour")),
        computation: Transform::Identity,
        params: None,
    };
    let orig_tea = vec![TextTea::default()];
    let orig_tea_copy = orig_tea.clone();
    let new_tea = pour.exec(orig_tea).unwrap();
    assert_eq!(pour.get_name(), "test_pour");
    assert_eq!(new_tea[0].x, orig_tea_copy[0].x);
}

#[test]
fn create_pour_with_params() {
    let pour = Pour {
        name: Arc::new(String::from("test_pour")),
        computation: Transform::Identity,
        params: Some(Argument::Steep(SteepArgs { increment: 10 })),
    };
    let orig_tea = vec![TextTea::default()];
    let orig_tea_copy = orig_tea.clone();
    let new_tea = pour.exec(orig_tea).unwrap();
    assert_eq!(pour.get_name(), "test_pour");
    assert_eq!(new_tea[0].x, orig_tea_copy[0].x);
}

#[test]
fn create_skim_no_params() {
    let skim = Skim {
        name: Arc::new(String::from("test_skim")),
        computation: Transform::Clear { field: Field::X },
        params: None,
    };
    let orig_tea = vec![TextTea::default()];
    let new_tea = skim.exec(orig_tea).unwrap();
    assert_eq!(skim.get_name(), "test_skim");
    assert_eq!(new_tea[0].x, None);
}

#[test]
fn create_skim_with_params() {
    let skim = Skim {
        name: Arc::new(String::from("test_skim")),
        computation: Transform::ClearSelected,
        params: Some(Argument::Skim(SkimArgs { field: Field::X })),
    };
    let orig_tea = vec![TextTea::default()];
    let new_tea = skim.exec(orig_tea).unwrap();
    assert_eq!(skim.get_name(), "test_skim");
    assert_eq!(new_tea[0].x, None);
}

#[test]
fn pour_identity_returns_batch_unchanged() {
    let pour = Pour {
        name: Arc::new(String::from("sink")),
        computation: Transform::Identity,
        params: None,
    };
    let orig_tea = vec![
        TextTea { x: Some(3), str_val: Some(String::from("a")), y: Some(true) },
        TextTea { x: None, str_val: None, y: Some(false) },
    ];
    let orig_tea_copy = orig_tea.clone();
    let new_tea = pour.exec(orig_tea).unwrap();
    assert_eq!(new_tea, orig_tea_copy);
}

#[test]
fn steep_subtracts_offset_preserving_count_and_order() {
    let steep = Steep {
        name: Arc::new(String::from("offset")),
        computation: Transform::SubtractOffset,
        params: Some(Argument::Steep(SteepArgs { increment: 3 })),
    };
    let orig_tea = vec![
        TextTea { x: Some(7), str_val: Some(String::from("keep")), y: Some(true) },
        TextTea { x: Some(0), str_val: None, y: None },
        TextTea { x: Some(-4), str_val: None, y: Some(false) },
    ];
    let new_tea = steep.exec(orig_tea).unwrap();
    assert_eq!(new_tea.len(), 3);
    assert_eq!(new_tea[0].x, Some(4));
    assert_eq!(new_tea[1].x, Some(-3));
    assert_eq!(new_tea[2].x, Some(-7));
    assert_eq!(new_tea[0].str_val.as_deref(), Some("keep"));
    assert_eq!(new_tea[0].y, Some(true));
}

#[test]
fn steep_offset_wraps_on_overflow() {
    let steep = Steep {
        name: Arc::new(String::from("wrap")),
        computation: Transform::SubtractOffset,
        params: Some(Argument::Steep(SteepArgs { increment: 1 })),
    };
    let orig_tea = vec![TextTea { x: Some(i32::MIN), str_val: None, y: None }];
    let new_tea = steep.exec(orig_tea).unwrap();
    assert_eq!(new_tea[0].x, Some(i32::MAX));
}

#[test]
fn skim_clears_only_the_selected_field() {
    let skim = Skim {
        name: Arc::new(String::from("narrow")),
        computation: Transform::ClearSelected,
        params: Some(Argument::Skim(SkimArgs { field: Field::StrVal })),
    };
    let orig_tea = vec![TextTea { x: Some(1), str_val: Some(String::from("abc")), y: Some(true) }];
    let new_tea = skim.exec(orig_tea).unwrap();
    assert_eq!(new_tea[0].str_val, None);
    assert_eq!(new_tea[0].x, Some(1));
    assert_eq!(new_tea[0].y, Some(true));
}

#[test]
fn steep_missing_argument_fails() {
    let steep = Steep {
        name: Arc::new(String::from("needs_args")),
        computation: Transform::AddOffset,
        params: None,
    };
    let outcome = steep.exec(vec![TextTea::default()]);
    assert_eq!(outcome, Err(StageError::MissingArgument));
}

#[test]
fn steep_argument_mismatch_fails() {
    let steep = Steep {
        name: Arc::new(String::from("wrong_args")),
        computation: Transform::AddOffset,
        params: Some(Argument::Skim(SkimArgs { field: Field::X })),
    };
    let outcome = steep.exec(vec![TextTea::default()]);
    assert_eq!(outcome, Err(StageError::ArgumentMismatch));
}

#[test]
fn stages_accept_an_empty_batch() {
    let steep = Steep {
        name: Arc::new(String::from("noop")),
        computation: Transform::AddConstant { amount: 1 },
        params: None,
    };
    let new_tea = steep.exec(Vec::new()).unwrap();
    assert!(new_tea.is_empty());
}

#[test]
fn argument_downcast_is_checked() {
    let arg = Argument::Steep(SteepArgs { increment: 2 });
    assert_eq!(arg.as_steep(), Some(SteepArgs { increment: 2 }));
    assert_eq!(arg.as_skim(), None);
    assert_eq!(arg.as_fill(), None);
}

#[test]
fn ingredient_dispatches_by_kind() {
    let step = Ingredient::Steep(Steep {
        name: Arc::new(String::from("steep1")),
        computation: Transform::AddConstant { amount: 2 },
        params: None,
    });
    let new_tea = step.exec(vec![TextTea { x: Some(40), str_val: None, y: None }]).unwrap();
    assert_eq!(step.get_name(), "steep1");
    assert_eq!(new_tea[0].x, Some(42));
}

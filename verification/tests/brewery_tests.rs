use rettle::brewery::{make_tea, Brewery, BreweryError, Order};
use rettle::ingredient::{Argument, Ingredient, StageError, Steep, SteepArgs, Transform};
use rettle::tea::TextTea;
use std::sync::Arc;

fn empty_recipe() -> Arc<Vec<Ingredient>> {
    Arc::new(Vec::new())
}

fn one_record_batch(x: i32) -> Vec<TextTea> {
    vec![TextTea { x: Some(x), str_val: None, y: None }]
}

#[test]
fn brewer_create_brewery_with_brewers() {
    let brewery = Brewery::new(4).unwrap();
    assert_eq!(brewery.get_brewer_info(), 4);
}

#[test]
fn brewery_create_brewery_with_brewers() {
    let brewery = Brewery::new(4).unwrap();
    assert_eq!(brewery.get_brewer_info(), 4);
    assert_eq!(brewery.pending(), 0);
    assert_eq!(brewery.completed(), 0);
    assert!(!brewery.is_terminated());
}

#[test]
fn create_brewery_with_no_brewers_fails() {
    let outcome = Brewery::new(0);
    assert!(matches!(outcome, Err(BreweryError::NoBrewers)));
}

#[test]
fn teardown_completes_all_submitted_jobs() {
    let mut brewery = Brewery::new(3).unwrap();
    for x in 0..5 {
        brewery.take_order(Order { tea_batch: one_record_batch(x), recipe: empty_recipe() });
    }
    assert_eq!(brewery.pending(), 5);
    brewery.teardown();
    assert!(brewery.is_terminated());
    assert_eq!(brewery.pending(), 0);
    assert_eq!(brewery.completed(), 5);
    assert_eq!(brewery.get_brewer_info(), 0);
    // An empty recipe hands every batch back unchanged, in submission order.
    let results = brewery.get_results();
    for x in 0..5 {
        let batch = results[x as usize].as_ref().unwrap();
        assert_eq!(batch[0].x, Some(x));
    }
}

#[test]
fn next_order_hands_out_jobs_in_submission_order() {
    let mut brewery = Brewery::new(1).unwrap();
    brewery.take_order(Order { tea_batch: one_record_batch(10), recipe: empty_recipe() });
    brewery.take_order(Order { tea_batch: one_record_batch(20), recipe: empty_recipe() });
    let first = brewery.next_order().unwrap();
    assert_eq!(first.tea_batch[0].x, Some(10));
    let second = brewery.next_order().unwrap();
    assert_eq!(second.tea_batch[0].x, Some(20));
    assert!(brewery.next_order().is_none());
    brewery.teardown();
    assert_eq!(brewery.completed(), 0);
}

#[test]
fn make_tea_with_empty_recipe_returns_batch_unchanged() {
    let batch = one_record_batch(9);
    let expected = batch.clone();
    let out = make_tea(batch, empty_recipe()).unwrap();
    assert_eq!(out, expected);
}

#[test]
fn make_tea_reports_first_stage_error() {
    let recipe = Arc::new(vec![
        Ingredient::Steep(Steep {
            name: Arc::new(String::from("broken")),
            computation: Transform::AddOffset,
            params: None,
        }),
        Ingredient::Steep(Steep {
            name: Arc::new(String::from("after")),
            computation: Transform::AddConstant { amount: 1 },
            params: None,
        }),
    ]);
    let out = make_tea(one_record_batch(0), recipe);
    assert_eq!(out, Err(StageError::MissingArgument));
}

#[test]
fn make_tea_applies_stages_in_recipe_order() {
    // Subtracting 1 and then clearing differs from the reverse order, so the
    // result pins the order down: (x - 1) then + 10 gives x + 9.
    let recipe = Arc::new(vec![
        Ingredient::Steep(Steep {
            name: Arc::new(String::from("sub")),
            computation: Transform::SubtractOffset,
            params: Some(Argument::Steep(SteepArgs { increment: 1 })),
        }),
        Ingredient::Steep(Steep {
            name: Arc::new(String::from("add")),
            computation: Transform::AddConstant { amount: 10 },
            params: None,
        }),
    ]);
    let out = make_tea(one_record_batch(5), recipe).unwrap();
    assert_eq!(out[0].x, Some(14));
}

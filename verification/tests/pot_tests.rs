use rettle::brewery::Brewery;
use rettle::ingredient::{Argument, Ingredient, Pour, Steep, SteepArgs, Skim, Transform, Field};
use rettle::pot::Pot;
use rettle::source::Fill;
use rettle::tea::TextTea;
use std::sync::Arc;

fn plain_steep(name: &str) -> Ingredient {
    Ingredient::Steep(Steep {
        name: Arc::new(String::from(name)),
        computation: Transform::Identity,
        params: None,
    })
}

fn plain_pour(name: &str) -> Ingredient {
    Ingredient::Pour(Pour {
        name: Arc::new(String::from(name)),
        computation: Transform::Identity,
        params: None,
    })
}

#[test]
fn create_fill_no_params() {
    let fill = Fill {
        name: String::from("test_fill"),
        source: String::from("text"),
        template: TextTea::default(),
        params: None,
    };
    assert_eq!(fill.get_name(), "test_fill");
    assert_eq!(fill.get_source(), "text");
    assert!(fill.get_params().is_none());
}

#[test]
fn create_fill_with_params() {
    let fill = Fill {
        name: String::from("test_fill"),
        source: String::from("text"),
        template: TextTea::default(),
        params: Some(Argument::Steep(SteepArgs { increment: 5 })),
    };
    assert_eq!(fill.get_name(), "test_fill");
    assert_eq!(fill.get_source(), "text");
    assert_eq!(*fill.get_params(), Some(Argument::Steep(SteepArgs { increment: 5 })));
}

#[test]
fn pot_create_empty_pot() {
    let new_pot = Pot::new();
    assert_eq!(new_pot.get_recipe().len(), 0);
}

#[test]
fn lib_create_empty_pot() {
    let new_pot = Pot::new();
    assert_eq!(new_pot.get_recipe().len(), 0);
    assert_eq!(new_pot.get_sources().len(), 0);
}

#[test]
fn create_pot_with_source() {
    let mut new_pot = Pot::new();
    new_pot.add_source(Fill {
        name: String::from("fake_tea"),
        source: String::from("hardcoded"),
        template: TextTea::default(),
        params: None,
    });
    assert_eq!(new_pot.get_sources().len(), 1);
    assert_eq!(new_pot.get_sources()[0].get_name(), "fake_tea");
    assert_eq!(new_pot.get_sources()[0].get_source(), "hardcoded");
}

#[test]
fn pot_create_pot_with_recipe() {
    let mut new_pot = Pot::new();
    new_pot.add_ingredient(plain_steep("steep1"));
    new_pot.add_ingredient(plain_pour("pour1"));
    assert_eq!(new_pot.get_recipe().len(), 2);
    assert_eq!(new_pot.get_recipe()[0].get_name(), "steep1");
    assert_eq!(new_pot.get_recipe()[1].get_name(), "pour1");
}

#[test]
fn lib_create_pot_with_recipe() {
    let mut new_pot = Pot::new();
    new_pot.add_ingredient(plain_steep("steep1"));
    new_pot.add_ingredient(Ingredient::Skim(Skim {
        name: Arc::new(String::from("skim1")),
        computation: Transform::Clear { field: Field::X },
        params: None,
    }));
    new_pot.add_ingredient(plain_pour("pour1"));
    assert_eq!(new_pot.get_recipe().len(), 3);
}

#[test]
fn create_pot_with_recipe_and_optional_params() {
    let mut new_pot = Pot::new();
    new_pot.add_ingredient(Ingredient::Steep(Steep {
        name: Arc::new(String::from("steep1")),
        computation: Transform::AddOffset,
        params: Some(Argument::Steep(SteepArgs { increment: 0 })),
    }));
    new_pot.add_ingredient(plain_pour("pour1"));
    assert_eq!(new_pot.get_recipe().len(), 2);
    assert_eq!(new_pot.get_recipe()[0].get_name(), "steep1");
    assert_eq!(new_pot.get_recipe()[1].get_name(), "pour1");
}

#[test]
fn create_pot_with_source_and_recipe() {
    let mut new_pot = Pot::new();
    new_pot.add_source(Fill {
        name: String::from("fake_tea"),
        source: String::from("hardcoded"),
        template: TextTea::default(),
        params: None,
    });
    new_pot.add_ingredient(plain_steep("steep1"));
    new_pot.add_ingredient(plain_pour("pour1"));
    assert_eq!(new_pot.get_sources().len(), 1);
    assert_eq!(new_pot.get_recipe().len(), 2);
    assert_eq!(new_pot.get_sources()[0].get_name(), "fake_tea");
    assert_eq!(new_pot.get_sources()[0].get_source(), "hardcoded");
    assert_eq!(new_pot.get_recipe()[0].get_name(), "steep1");
    assert_eq!(new_pot.get_recipe()[1].get_name(), "pour1");
}

#[test]
fn brew_recipe() {
    let mut new_pot = Pot::new();
    new_pot.add_ingredient(plain_steep("steep1"));
    new_pot.add_ingredient(plain_steep("steep2"));
    new_pot.add_ingredient(plain_pour("pour1"));
    assert_eq!(new_pot.get_recipe().len(), 3);
    // With no sources registered, brewing submits nothing and reports
    // nothing, and teardown completes zero jobs.
    let mut brewery = Brewery::new(2).unwrap();
    let reports = new_pot.brew(&mut brewery);
    assert_eq!(reports.len(), 0);
    brewery.teardown();
    assert_eq!(brewery.completed(), 0);
}

use looksyk::config::{Config, Design, Favourite};
use looksyk::favourite::{add_favourite, is_favourite, remove_favourite, set_favourites};
use looksyk::model::SimplePageName;

fn empty_design() -> Design {
    Design {
        primary_color: "".to_string(),
        background_color: "".to_string(),
    }
}

fn config_with_fav(name: &str) -> Config {
    Config {
        favourites: vec![Favourite {
            name: SimplePageName {
                name: name.to_string(),
            },
        }],
        design: empty_design(),
    }
}

#[test]
fn when_fav_is_set_in_config_should_return_fav() {
    let config: Config = config_with_fav("MySite");

    let result = is_favourite(
        &SimplePageName {
            name: "MySite".to_string(),
        },
        &config,
    );

    assert_eq!(result, true);
}

#[test]
fn when_fav_is_not_set_in_config_should_return_not_fav() {
    let config: Config = Config {
        favourites: vec![],
        design: empty_design(),
    };

    let result = is_favourite(
        &SimplePageName {
            name: "MySite".to_string(),
        },
        &config,
    );

    assert_eq!(result, false);
}

#[test]
fn test_add_favourite() {
    let config: Config = config_with_fav("MySite");

    let result = add_favourite(
        SimplePageName {
            name: "MySite2".to_string(),
        },
        &config,
    );

    assert_eq!(result.favourites.len(), 2);
    assert_eq!(result.favourites.get(1).unwrap().name.name, "MySite2");
}

#[test]
fn test_delete_favourite() {
    let config: Config = Config {
        favourites: vec![
            Favourite {
                name: SimplePageName {
                    name: "MySite".to_string(),
                },
            },
            Favourite {
                name: SimplePageName {
                    name: "MySite2".to_string(),
                },
            },
        ],
        design: empty_design(),
    };

    let result = remove_favourite(
        SimplePageName {
            name: "MySite".to_string(),
        },
        &config,
    );

    assert_eq!(result.favourites.len(), 1);
    assert_eq!(result.favourites.get(0).unwrap().name.name, "MySite2");
}

#[test]
fn test_set_favourites_should_set_favourites() {
    let old_config = config_with_fav("MyOldSite");
    let result = set_favourites(
        vec![SimplePageName {
            name: "MyNewSite".to_string(),
        }],
        &old_config,
    );

    assert_eq!(result.favourites.len(), 1);
    assert_eq!(result.favourites.get(0).unwrap().name.name, "MyNewSite");
}

#[test]
fn updates_keep_the_design_settings() {
    let config = Config {
        favourites: vec![],
        design: Design {
            primary_color: "#112233".to_string(),
            background_color: "#445566".to_string(),
        },
    };

    let added = add_favourite(
        SimplePageName {
            name: "MySite".to_string(),
        },
        &config,
    );
    assert_eq!(added.design.primary_color, "#112233");
    assert_eq!(added.design.background_color, "#445566");

    let removed = remove_favourite(
        SimplePageName {
            name: "MySite".to_string(),
        },
        &added,
    );
    assert_eq!(removed.favourites.len(), 0);
    assert_eq!(removed.design.primary_color, "#112233");

    let replaced = set_favourites(vec![], &added);
    assert_eq!(replaced.design.background_color, "#445566");
}

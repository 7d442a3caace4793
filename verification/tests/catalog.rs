use baz_launcher::catalog::{catalog, game_by_slug, games, native_pick, Delivery, Kind};
use baz_launcher::platform::Platform;

#[test]
fn the_shelf_in_order() {
    let slugs: Vec<&str> = catalog().iter().map(|g| g.slug).collect();
    assert_eq!(
        slugs,
        vec![
            "wriftheart",
            "wingman",
            "violet-edge",
            "divus-factus",
            "crashout",
            "please-dont-shake",
            "fly-on-the-wall",
            "ranger",
            "opificium",
        ]
    );
}

#[test]
fn games_are_found_by_slug() {
    let game = game_by_slug("divus-factus").unwrap();
    assert_eq!(game.name, "Divus Factus");
    assert_eq!(game.repo, "Baz-Studios-LLC/egregore");
    let payload = game.payload.unwrap();
    assert_eq!(payload.tag, "models-1");
    assert_eq!(payload.assets, vec![".gguf"]);
    assert_eq!(payload.support_dir, "Divus Factus");
    assert_eq!(payload.into, "models");
    assert!(game_by_slug("egregore").is_none());
    assert!(game_by_slug("").is_none());
    assert!(game_by_slug("Ranger").is_none());
}

#[test]
fn every_game_is_found_under_its_own_slug() {
    for game in catalog() {
        let found = game_by_slug(game.slug).unwrap();
        assert_eq!(found.repo, game.repo);
        assert_eq!(found.name, game.name);
    }
}

#[test]
fn slugs_repos_and_ports_are_distinct() {
    let all = catalog();
    for (i, a) in all.iter().enumerate() {
        for (j, b) in all.iter().enumerate() {
            if i != j {
                assert_ne!(a.slug, b.slug);
                assert_ne!(a.repo, b.repo);
                match (&a.delivery, &b.delivery) {
                    (Delivery::Web { port: p, .. }, Delivery::Web { port: q, .. }) => {
                        assert_ne!(p, q)
                    }
                    _ => {}
                }
            }
        }
    }
}

#[test]
fn the_asset_goes_by_the_platform() {
    let native = game_by_slug("ranger").unwrap().delivery;
    assert_eq!(native.asset(Platform::Mac), "-macos-aarch64.app.tar.gz");
    assert_eq!(native.asset(Platform::Windows), "-windows-x86_64.zip");
    assert_eq!(native.asset(Platform::Other), "-macos-aarch64.app.tar.gz");
    let web = game_by_slug("wingman").unwrap().delivery;
    assert_eq!(web.asset(Platform::Mac), "wingman-game.zip");
    assert_eq!(web.asset(Platform::Windows), "wingman-game.zip");
    assert_eq!(native_pick("m", "w", Platform::Windows), "w");
    assert_eq!(native_pick("m", "w", Platform::Other), "m");
}

#[test]
fn web_bundles_are_called_after_the_slug() {
    for game in catalog() {
        match game.delivery {
            Delivery::Web { asset, .. } => assert_eq!(asset, format!("{}-game.zip", game.slug)),
            Delivery::Native { .. } => {}
        }
    }
}

#[test]
fn one_card_per_game() {
    let cards = games();
    assert_eq!(cards.len(), 9);
    assert_eq!(cards[2].slug, "violet-edge");
    assert_eq!(cards[2].name, "VIOLET EDGE");
    assert_eq!(
        cards[2].tagline,
        "A neon-vector Asteroids love letter \u{2014} cut the field, hold the edge."
    );
    assert_eq!(cards[2].repo, "Baz-Studios-LLC/Violet-Edge");
    assert_eq!(cards[2].accent, "#8a5cff");
    assert_eq!(cards[2].kind, "game");
    assert_eq!(cards[8].slug, "opificium");
    assert_eq!(cards[8].kind, "tool");
    let tools = catalog().iter().filter(|g| g.kind == Kind::Tool).count();
    assert_eq!(tools, 1);
}

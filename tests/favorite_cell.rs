use dynamic_htmx::favorite::FavoriteColor;

#[test]
fn fresh_cell_is_empty() {
    let favorite = FavoriteColor::new();
    assert_eq!(favorite.get(), None);
}

#[test]
fn get_after_set_returns_color() {
    let mut favorite = FavoriteColor::new();
    favorite.set("green");
    assert_eq!(favorite.get(), Some("green".to_string()));
}

#[test]
fn last_write_wins() {
    let mut favorite = FavoriteColor::new();
    favorite.set("red");
    favorite.set("blue");
    assert_eq!(favorite.get(), Some("blue".to_string()));
}

#[test]
fn stored_copy_is_independent() {
    let mut favorite = FavoriteColor::new();
    let mut source = String::from("purple");
    favorite.set(&source);
    source.push_str("ish");
    assert_eq!(favorite.get(), Some("purple".to_string()));
}

#[test]
fn get_does_not_change_cell() {
    let mut favorite = FavoriteColor::new();
    favorite.set("orange");
    assert_eq!(favorite.get(), Some("orange".to_string()));
    assert_eq!(favorite.get(), Some("orange".to_string()));
}

#[test]
fn writes_never_mix() {
    let colors = ["red", "green", "blue", "cyan", "magenta"];
    let mut favorite = FavoriteColor::new();
    for c in colors {
        favorite.set(c);
        let got = favorite.get().unwrap();
        assert!(colors.contains(&got.as_str()));
        assert_eq!(got, c);
    }
}

use localtoolbox::locations::{
    home_or_default, script_install_dir, script_location, script_relative_location,
    tier_tools_dir, Tier,
};
use localtoolbox::text::{join2, owned_all, same_text};

#[test]
fn each_tier_has_its_place() {
    let place = |tier| script_location(tier, "/exe", "/home/u", "tool_a", "toola");
    assert_eq!(place(Tier::Packaged), "/exe/tools/tool_a/toola.py");
    assert_eq!(place(Tier::UserLocal), "/home/u/.local/share/localtoolbox/tools/tool_a/toola.py");
    assert_eq!(place(Tier::AppImageUsr), "/exe/usr/share/localtoolbox/tools/tool_a/toola.py");
    assert_eq!(place(Tier::AppImageShare), "/exe/share/localtoolbox/tools/tool_a/toola.py");
    assert_eq!(place(Tier::System), "/usr/share/localtoolbox/tools/tool_a/toola.py");
    assert_eq!(place(Tier::Development), "/exe/../tools/tool_a/toola.py");
}

#[test]
fn tiers_follow_each_other_in_search_order() {
    let mut order = vec![Tier::Packaged];
    while let Some(next) = order[order.len() - 1].next() {
        order.push(next);
    }
    assert_eq!(order.len(), 6);
    assert!(matches!(order[1], Tier::UserLocal));
    assert!(matches!(order[2], Tier::AppImageUsr));
    assert!(matches!(order[3], Tier::AppImageShare));
    assert!(matches!(order[4], Tier::System));
    assert!(matches!(order[5], Tier::Development));
}

#[test]
fn scripts_are_installed_in_the_user_local_tier() {
    assert_eq!(
        script_install_dir("/home/u", "tool_a"),
        "/home/u/.local/share/localtoolbox/tools/tool_a"
    );
    assert_eq!(tier_tools_dir(Tier::UserLocal, "/exe", "/home/u"), "/home/u/.local/share/localtoolbox/tools");
    assert_eq!(
        format!("{}/{}.py", script_install_dir("/home/u", "tool_a"), "toola"),
        script_location(Tier::UserLocal, "/anywhere", "/home/u", "tool_a", "toola")
    );
}

#[test]
fn the_relative_place_is_one_directory_up() {
    assert_eq!(script_relative_location("tool_a", "toola"), "../tools/tool_a/toola.py");
}

#[test]
fn the_home_directory_defaults_to_tmp() {
    assert_eq!(home_or_default(Some("/home/u".to_string())), "/home/u");
    assert_eq!(home_or_default(None), "/tmp");
}

#[test]
fn texts_are_joined_and_compared_by_their_characters() {
    assert_eq!(join2("a", "bc"), "abc");
    assert_eq!(join2("", "é"), "é");
    assert!(same_text("tool", "tool"));
    assert!(!same_text("tool", "tools"));
    assert_eq!(owned_all(&["x", "y"]), vec!["x".to_string(), "y".to_string()]);
}

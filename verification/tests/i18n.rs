use komari::i18n::{fill_template, language_name, Language};

#[test]
fn templates_are_filled_like_replace() {
    for (template, name) in [
        ("Delete {name}?", "map"),
        ("{name} and {name}", "x"),
        ("no placeholder", "y"),
        ("{nam{name}}", "z"),
        ("", "w"),
        ("{name", "v"),
    ] {
        assert_eq!(fill_template(template, name), template.replace("{name}", name));
    }
    assert_eq!(fill_template("删除 {name}？", "地图"), "删除 地图？");
}

#[test]
fn languages_name_themselves() {
    assert_eq!(language_name(Language::English), "English");
    assert_eq!(language_name(Language::SimplifiedChinese), "简体中文");
}

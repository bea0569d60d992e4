use datetime::system::{extract_timezone, timezone_of_link};

#[test]
fn system_two() {
    let timezone = extract_timezone("/usr/share/zoneinfo/Europe/London");
    assert_eq!(timezone, Some("Europe/London".to_string()));
}

#[test]
fn system_one() {
    let timezone = extract_timezone("/usr/share/zoneinfo/CST6CDT");
    assert_eq!(timezone, Some("CST6CDT".to_string()));
}

#[test]
fn factory_two() {
    let timezone = extract_timezone("/usr/share/zoneinfo/Europe/London");
    assert_eq!(timezone, Some("Europe/London".to_string()));
}

#[test]
fn factory_one() {
    let timezone = extract_timezone("/usr/share/zoneinfo/CST6CDT");
    assert_eq!(timezone, Some("CST6CDT".to_string()));
}

#[test]
fn system_names_end_where_capitals_end() {
    let name = |path| extract_timezone(path).unwrap();
    assert_eq!(name("/usr/share/zoneinfo/America/Argentina/Buenos_Aires"), "America/Argentina/Buenos_Aires");
    assert_eq!(name("America/New_York"), "America/New_York");
    assert_eq!(name("/America/New_York"), "America/New_York");
    assert_eq!(name("/usr/share/zoneinfo/posix/Europe/London"), "Europe/London");
    assert_eq!(name("/usr/share/zoneinfo/Europe/london"), "");
    assert_eq!(name("/etc/localtime"), "");
    assert_eq!(name(""), "");
    assert_eq!(name("/"), "");
    assert_eq!(name("UTC"), "UTC");
    assert_eq!(name("/usr/share/zoneinfo/Europe/London/"), "Europe/London");
    assert_eq!(name("/usr/share/zoneinfo//Europe//London"), "Europe/London");
    assert_eq!(name("/usr/share/zoneinfo/Europe/./London"), "Europe/London");
    assert_eq!(name("/usr/share/zoneinfo/Europe/../London"), "London");
    assert_eq!(name("../Europe/London"), "Europe/London");
    assert_eq!(name("./Europe/London"), "Europe/London");
    assert_eq!(name("/usr/share/zoneinfo/Europe/9London"), "");
    assert_eq!(name("/usr/share/zoneinfo/\u{c9}urope/\u{141}\u{f3}d\u{17a}"), "\u{c9}urope/\u{141}\u{f3}d\u{17a}");
    assert_eq!(name("/usr/share/zoneinfo/\u{e9}urope/London"), "London");
}

#[test]
fn system_names_agree_with_the_components_of_a_path() {
    for path in [
        "/usr/share/zoneinfo/Europe/London",
        "/usr/share/zoneinfo/Europe/./London/",
        "//usr//share/Zoneinfo//Europe/London//",
        "./Europe/London",
        "Europe/../London",
        "/",
        "",
        ".",
        "A/.",
        "./A",
        "/A/./.",
    ]
    .iter()
    {
        let mut bits: Vec<&str> = Vec::new();
        for pathlet in std::path::Path::new(path).iter().rev() {
            let piece = pathlet.to_str().unwrap();
            if !piece.chars().next().unwrap().is_uppercase() {
                break;
            }
            bits.insert(0, piece);
        }
        assert_eq!(extract_timezone(path), Some(bits.join("/")));
    }
}

#[test]
fn system_link_gives_the_name_or_nothing() {
    assert_eq!(
        timezone_of_link(Some("/usr/share/zoneinfo/Europe/London")),
        Some("Europe/London".to_string())
    );
    assert_eq!(timezone_of_link(Some("/etc/localtime")), None);
    assert_eq!(timezone_of_link(Some("")), None);
    assert_eq!(timezone_of_link(None), None);
}

#[test]
fn system_names_end_at_a_component_that_is_no_text() {
    // What the program hands on for a component that is not UTF-8.
    let name = |path| extract_timezone(path).unwrap();
    assert_eq!(name("/usr/\u{fffd}/zoneinfo/Europe/London"), "Europe/London");
    assert_eq!(name("/usr/share/\u{fffd}/Europe/London"), "Europe/London");
    assert_eq!(name("/usr/share/zoneinfo/\u{fffd}/London"), "London");
    assert_eq!(name("/usr/share/zoneinfo/Europe/\u{fffd}"), "");
    assert_eq!(timezone_of_link(Some("/usr/share/zoneinfo/Europe/\u{fffd}")), None);
}

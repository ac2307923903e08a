use data_processor::json::JsonValue;
use data_processor::parser::bukkit_minecraft_version::parse_bukkit_minecraft_version;
use data_processor::parser::bukkit_server_software::parse_bukkit_server_software;
use data_processor::parser::bungeecord_version::parse_bungeecord_version;
use data_processor::parser::java_version::get_java_major_version;
use data_processor::parser::os::parse_os;
use data_processor::parser::predefined_value::PredefinedValueParser;

#[test]
fn test_parse_bukkit_minecraft_version() {
    let test_cases = vec![
        ("Paper 1.21", "1.21-38-1f5db50 (MC: 1.21)", "1.21"),
        ("Paper 1.20", "git-Paper-196 (MC: 1.20.1)", "1.20.1"),
        ("Spigot 1.21", "4226-Spigot-146439e-2889b3a (MC: 1.21)", "1.21"),
        ("\"CraftBukkit\" 1.21", "4226-Bukkit-2889b3a (MC: 1.21)", "1.21"),
        ("Legacy Metrics Class", "1.8", "1.8"),
    ];
    for (name, bukkit_version, expected) in test_cases {
        let result = parse_bukkit_minecraft_version(Some(bukkit_version));
        assert_eq!(result.unwrap(), expected, "Wrong result for {}", name);
    }
}

#[test]
fn test_parse_bukkit_server_software() {
    let test_cases = vec![
        ("Paper 1.21", "1.21-38-1f5db50 (MC: 1.21)", "Paper", "Paper"),
        ("Paper 1.20", "git-Paper-196 (MC: 1.20.1)", "Paper", "Paper"),
        (
            "Spigot 1.21",
            "4226-Spigot-146439e-2889b3a (MC: 1.21)",
            "CraftBukkit",
            "Spigot",
        ),
        ("Purpur 1.21", "1.21-2250-797ce6b (MC: 1.21)", "Purpur", "Purpur"),
        ("Purpur 1.20", "git-Purpur-2062 (MC: 1.20.1)", "Purpur", "Purpur"),
        (
            "Glowstone 1.12.2",
            "2021.7.0-SNAPSHOT.09043bd (MC: 1.12.2)",
            "Glowstone",
            "Glowstone",
        ),
        (
            "\"CraftBukkit\" 1.21",
            "4226-Bukkit-2889b3a (MC: 1.21)",
            "CraftBukkit",
            "Bukkit",
        ),
        ("CatServer 1.18", "1.18.2-edda1229 (MC: 1.18.2)", "CatServer", "CatServer"),
        ("Folia 1.20.6", "1.20.6-5-d797082 (MC: 1.20.6)", "Folia", "Folia"),
        ("Folia 1.20.1", "git-Folia-17 (MC: 1.20.1)", "Folia", "Folia"),
        (
            "Arclight 1.21",
            "arclight-1.21-1.0.0-SNAPSHOT-b3349e9 (MC: 1.21)",
            "Arclight",
            "Arclight",
        ),
        (
            "TacoSpigot 1.9.4",
            "git-TacoSpigot-\"af15657\" (MC: 1.9.4)",
            "Paper",
            "TacoSpigot",
        ),
        ("Leaves 1.20.6", "1.20.6-215-e234432 (MC: 1.20.6)", "Leaves", "Leaves"),
        ("Leaf 1.21", "1.21-DEV-3d7de13 (MC: 1.21)", "Leaf", "Leaf"),
        ("Pufferfish 1.20.4", "git-Pufferfish-52 (MC: 1.20.4)", "Pufferfish", "Pufferfish"),
    ];
    for (name, bukkit_version, bukkit_name, expected) in test_cases {
        let result = parse_bukkit_server_software(Some(bukkit_version), Some(bukkit_name));
        assert_eq!(result.unwrap(), expected, "Wrong result for {}", name);
    }
}

#[test]
fn test_parse_bungeecord_version() {
    let test_cases = vec![("Made up example", "Abc:Xyz:1.2.3", "1.2.3")];
    for (name, bungeecord_version, expected) in test_cases {
        let result = parse_bungeecord_version(bungeecord_version);
        assert_eq!(result, expected, "Wrong result for {}", name);
    }
}

#[test]
fn test_get_java_major_version() {
    assert_eq!(get_java_major_version("1.8.0_101"), "8");
    assert_eq!(get_java_major_version("9.0.1"), "9");
    assert_eq!(get_java_major_version("11.0.1"), "11");
    assert_eq!(get_java_major_version("21.0.1-internal"), "21");
    assert_eq!(get_java_major_version("21.0.4-ea"), "21");
    assert_eq!(get_java_major_version("21"), "21");
    assert_eq!(get_java_major_version("21-ea"), "21");
    assert_eq!(get_java_major_version("22.0.1"), "22");

    // Garbage data must not cause a panic; garbage in, garbage out is fine.
    let _ = get_java_major_version("garbage data");
    let _ = get_java_major_version("..");
    let _ = get_java_major_version("");
    let _ = get_java_major_version("1.");
    let _ = get_java_major_version("9.");
}

#[test]
fn os_test_parse_os() {
    let test_cases = vec![
        ("Windows Server 2022", "Windows Server 2022", "", "Windows Server", "Windows Server 2022"),
        (
            "Windows Server 2012 R2",
            "Windows Server 2012 R2",
            "",
            "Windows Server",
            "Windows Server 2012 R2",
        ),
        ("Windows 11", "Windows 11", "10.0", "Windows", "Windows 11"),
        ("Mac OS X 14.5", "Mac OS X", "14.5", "Mac OS X", "Mac OS X 14.5"),
        ("FreeBSD 13.1", "FreeBSD", "13.1-RELEASE-p9", "BSD", "FreeBSD 13.1-RELEASE-p9"),
        ("Linux", "Linux", "5.15.0-105-generic", "Linux", "5.15.0-105-generic"),
        (
            "Linux WSL2",
            "Linux",
            "5.15.153.1-microsoft-standard-WSL2",
            "Linux",
            "5.15.153.1-microsoft-standard-WSL2",
        ),
        ("Made-Up OS", "bStats OS", "1.2.3", "Other", "bStats OS (1.2.3)"),
    ];
    for (name, os_name, os_version, expected_outer, expected_inner) in test_cases {
        let result = parse_os(os_name, os_version);
        assert_eq!(
            (result.0.as_str(), result.1.as_str()),
            (expected_outer, expected_inner),
            "Wrong result for {}",
            name
        );
    }
}

#[test]
fn predefined_value_test_parse_os() {
    let parser = PredefinedValueParser {
        value: JsonValue::Str(String::from("%country.name%")),
        country_name: Some(String::from("Germany")),
    };
    let result = parser.parse();
    assert_eq!(result.unwrap(), JsonValue::Str(String::from("Germany")));

    let parser = PredefinedValueParser {
        value: JsonValue::Object(vec![(
            String::from("key"),
            JsonValue::Str(String::from("value")),
        )]),
        country_name: None,
    };
    let result = parser.parse();
    assert_eq!(
        result.unwrap(),
        JsonValue::Object(vec![(String::from("key"), JsonValue::Str(String::from("value")))])
    );
}

#[test]
fn predefined_value_without_country_yields_nothing() {
    let parser = PredefinedValueParser {
        value: JsonValue::Str(String::from("%country.name%")),
        country_name: None,
    };
    assert_eq!(parser.parse(), None);
}

#[test]
fn server_software_without_marker_yields_nothing() {
    assert_eq!(parse_bukkit_server_software(Some("1.8"), Some("Paper")), None);
    assert_eq!(parse_bukkit_server_software(None, Some("Paper")), None);
}

#[test]
fn server_software_unknown_brand_is_unknown() {
    assert_eq!(
        parse_bukkit_server_software(Some("something-novel (MC: 1.21)"), Some("Novel")).unwrap(),
        "Unknown"
    );
}

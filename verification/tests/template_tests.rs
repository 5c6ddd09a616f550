use wszl::string_map::StringMap;
use wszl::template::{
    get_template_vars, process_template_string, url_without_protocol, HOST_TEMPLATE_VAR,
    URL_TEMPLATE_VAR, URL_WITHOUT_PROTOCOL_TEMPLATE_VAR,
};

const EXAMPLE_INPUT: &str =
    "This is a ${HOST}, url check ${URL}. Without url ${URL_WITHOUT_PROTOCOL}.";

fn vars_of(pairs: &[(&str, &str)]) -> StringMap {
    let mut vars = StringMap::new();
    for (key, value) in pairs {
        vars.insert(key.to_string(), value.to_string());
    }
    vars
}

#[test]
fn template_vars_must_be_present() {
    let vars = get_template_vars("demo", "https://zabbix.com");

    assert!(vars.contains_key(HOST_TEMPLATE_VAR));
    assert!(vars.contains_key(URL_TEMPLATE_VAR));
    assert!(vars.contains_key(URL_WITHOUT_PROTOCOL_TEMPLATE_VAR));

    assert_eq!(vars.get(HOST_TEMPLATE_VAR).unwrap(), "demo");
    assert_eq!(vars.get(URL_TEMPLATE_VAR).unwrap(), "https://zabbix.com");
    assert_eq!(vars.get(URL_WITHOUT_PROTOCOL_TEMPLATE_VAR).unwrap(), "zabbix.com");
}

#[test]
fn template_vars_should_be_resolved() {
    let hostname = "demo";
    let url = "https://zabbix.com";
    let url_without_protocol = "zabbix.com";

    let template_vars = vars_of(&[
        (HOST_TEMPLATE_VAR, hostname),
        (URL_TEMPLATE_VAR, url),
        (URL_WITHOUT_PROTOCOL_TEMPLATE_VAR, url_without_protocol),
    ]);

    let result = process_template_string(EXAMPLE_INPUT, &template_vars);

    assert_eq!(
        result,
        "This is a demo, url check https://zabbix.com. Without url zabbix.com.".to_string()
    )
}

#[test]
fn unknown_vars_should_be_ignored() {
    let hostname = "demo";

    let template_vars = vars_of(&[(HOST_TEMPLATE_VAR, hostname)]);

    let result = process_template_string(EXAMPLE_INPUT, &template_vars);

    assert_eq!(
        result,
        "This is a demo, url check ${URL}. Without url ${URL_WITHOUT_PROTOCOL}.".to_string()
    )
}

#[test]
fn placeholder_is_replaced_inside_quotes() {
    let vars = vars_of(&[("URL", "https://x")]);
    assert_eq!(process_template_string("Check '${URL}'", &vars), "Check 'https://x'");
}

#[test]
fn unknown_placeholder_is_left_verbatim() {
    let vars = vars_of(&[("URL", "https://x")]);
    assert_eq!(process_template_string("${FOO}", &vars), "${FOO}");
    assert_eq!(process_template_string("a ${FOO} b ${URL}", &vars), "a ${FOO} b https://x");
}

#[test]
fn template_without_variables_is_unchanged() {
    let vars = StringMap::new();
    assert_eq!(process_template_string(EXAMPLE_INPUT, &vars), EXAMPLE_INPUT);
    assert_eq!(process_template_string("", &vars), "");
}

#[test]
fn values_are_not_scanned_again() {
    let vars = vars_of(&[("A", "${B}"), ("B", "x")]);
    assert_eq!(process_template_string("${A}", &vars), "${B}");
    assert_eq!(process_template_string("${A}${B}", &vars), "${B}x");
}

#[test]
fn unclosed_and_nested_placeholders() {
    let vars = vars_of(&[("URL", "u")]);
    assert_eq!(process_template_string("${URL", &vars), "${URL");
    assert_eq!(process_template_string("$URL}", &vars), "$URL}");
    assert_eq!(process_template_string("${FOO${URL}", &vars), "${FOOu");
    assert_eq!(process_template_string("$${URL}}", &vars), "$u}");
    assert_eq!(process_template_string("${}", &vars), "${}");
}

#[test]
fn empty_name_can_be_a_variable() {
    let vars = vars_of(&[("", "nothing")]);
    assert_eq!(process_template_string("a${}b", &vars), "anothingb");
}

#[test]
fn non_ascii_text_is_kept() {
    let vars = vars_of(&[("HOST", "сервер")]);
    assert_eq!(process_template_string("хост ${HOST} ✓", &vars), "хост сервер ✓");
}

#[test]
fn https_prefix_is_removed() {
    assert_eq!(url_without_protocol("https://zabbix.com"), "zabbix.com");
}

#[test]
fn http_prefix_is_removed() {
    assert_eq!(url_without_protocol("http://zabbix.com"), "zabbix.com");
}

#[test]
fn url_without_prefix_is_unchanged() {
    assert_eq!(url_without_protocol("zabbix.com"), "zabbix.com");
    assert_eq!(url_without_protocol(""), "");
}

#[test]
fn only_a_leading_prefix_is_removed_and_only_one() {
    assert_eq!(url_without_protocol("a https://zabbix.com"), "a https://zabbix.com");
    assert_eq!(url_without_protocol("http://https://zabbix.com"), "https://zabbix.com");
    assert_eq!(url_without_protocol("https://http://zabbix.com"), "http://zabbix.com");
    assert_eq!(url_without_protocol("HTTPS://zabbix.com"), "HTTPS://zabbix.com");
    assert_eq!(url_without_protocol("https://"), "");
}

#[test]
fn string_map_replaces_and_counts() {
    let mut map = StringMap::new();
    assert!(map.is_empty());
    assert_eq!(map.len(), 0);
    map.insert("a".to_string(), "1".to_string());
    map.insert("b".to_string(), "2".to_string());
    map.insert("a".to_string(), "3".to_string());
    assert_eq!(map.len(), 2);
    assert!(!map.is_empty());
    assert_eq!(map.get("a").unwrap(), "3");
    assert_eq!(map.get("b").unwrap(), "2");
    assert!(map.get("c").is_none());
    assert!(!map.contains_key("c"));
}

#[test]
fn string_map_lists_its_entries_in_order() {
    let mut map = StringMap::new();
    map.insert("b".to_string(), "1".to_string());
    map.insert("a".to_string(), "2".to_string());
    map.insert("b".to_string(), "3".to_string());
    assert_eq!(
        *map.entries(),
        vec![("b".to_string(), "3".to_string()), ("a".to_string(), "2".to_string())]
    );
}

#[test]
fn order_of_variables_makes_no_difference() {
    let forward = vars_of(&[("HOST", "h"), ("URL", "u")]);
    let backward = vars_of(&[("URL", "u"), ("HOST", "h")]);
    assert_eq!(
        process_template_string("${URL}@${HOST}", &forward),
        process_template_string("${URL}@${HOST}", &backward)
    );
    assert_eq!(process_template_string("${URL}@${HOST}", &forward), "u@h");
}

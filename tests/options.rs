use schema_tui::resolver::{
    expand_home_with, file_list_pattern, names_from_paths, output_lines, parse_script_output,
    substitute_variables,
};
use schema_tui::{
    ConfigValue, OptionCache, OptionProvider, OptionResolver, OptionSource, Resolution,
    ResolveError, ScriptPlan, ScriptRun, ValueMap,
};

fn strings(items: &[&str]) -> Vec<String> {
    items.iter().map(|s| s.to_string()).collect()
}

struct Fixed(Vec<String>);

impl OptionProvider for Fixed {
    fn get_options(&self) -> Result<Vec<String>, String> {
        Ok(self.0.clone())
    }
}

struct Failing;

impl OptionProvider for Failing {
    fn get_options(&self) -> Result<Vec<String>, String> {
        Err("backend down".to_string())
    }
}

fn resolver() -> OptionResolver<Box<dyn OptionProvider>> {
    OptionResolver::new()
}

#[test]
fn test_substitute_variables() {
    let mut values = ValueMap::new();
    values.insert("daemon.language".to_string(), ConfigValue::Text("en".to_string()));
    values.insert("daemon.count".to_string(), ConfigValue::Integer(42));
    values.insert("daemon.enabled".to_string(), ConfigValue::Bool(true));

    let result = substitute_variables("script.sh ${daemon.language} ${daemon.count}", &values);
    assert_eq!(result, "script.sh en 42");

    let result = substitute_variables("check ${daemon.enabled}", &values);
    assert_eq!(result, "check true");
}

#[test]
fn test_substitute_missing_variable() {
    let values = ValueMap::new();

    let result = substitute_variables("script.sh ${missing.var}", &values);
    assert_eq!(result, "script.sh ");
}

#[test]
fn test_substitute_no_variables() {
    let values = ValueMap::new();

    let result = substitute_variables("script.sh static args", &values);
    assert_eq!(result, "script.sh static args");
}

#[test]
fn substitution_replaces_every_occurrence() {
    let mut values = ValueMap::new();
    values.insert("a.b".to_string(), ConfigValue::Text("X".to_string()));
    let result = substitute_variables("${a.b}-${a.b}-${a.b}", &values);
    assert_eq!(result, "X-X-X");
}

#[test]
fn substitution_does_not_expand_replacements_again() {
    let mut values = ValueMap::new();
    values.insert("a".to_string(), ConfigValue::Text("${b}".to_string()));
    values.insert("b".to_string(), ConfigValue::Text("no".to_string()));
    assert_eq!(substitute_variables("${a} ${b}", &values), "${b} no");
}

#[test]
fn substitution_leaves_incomplete_placeholders() {
    let mut values = ValueMap::new();
    values.insert("x".to_string(), ConfigValue::Text("1".to_string()));
    assert_eq!(substitute_variables("${} ${x ${x}", &values), "${} ");
    assert_eq!(substitute_variables("$x {x} ${x", &values), "$x {x} ${x");
}

#[test]
fn substitution_writes_numbers_and_other_values() {
    let mut values = ValueMap::new();
    values.insert("n".to_string(), ConfigValue::Integer(-15));
    values.insert("f".to_string(), ConfigValue::Number("2.5".to_string()));
    values.insert("off".to_string(), ConfigValue::Bool(false));
    values.insert("list".to_string(), ConfigValue::Raw("[1,2]".to_string()));
    assert_eq!(substitute_variables("${n} ${f} ${off} [${list}]", &values), "-15 2.5 false []");
}

#[test]
fn script_output_json_array() {
    assert_eq!(parse_script_output("[\"a\", \"b\"]\n"), strings(&["a", "b"]));
}

#[test]
fn script_output_falls_back_to_lines() {
    assert_eq!(parse_script_output("  one \n\ntwo\r\n   \nthree"), strings(&["one", "two", "three"]));
    assert_eq!(parse_script_output("[1, 2]"), strings(&["[1, 2]"]));
    assert!(output_lines("").is_empty());
    assert!(output_lines("\n \n").is_empty());
}

#[test]
fn file_names_use_first_capture_group() {
    let paths = strings(&["/cfg/themes/dark.json", "/cfg/themes/notes.txt", "/cfg/themes/light.json"]);
    let names = names_from_paths(&paths, Some("([a-z]+)\\.json$")).unwrap();
    assert_eq!(names, strings(&["dark", "light"]));
}

#[test]
fn file_names_without_pattern_are_base_names() {
    let paths = strings(&["/cfg/themes/dark.json", "relative.txt"]);
    assert_eq!(names_from_paths(&paths, None).unwrap(), strings(&["dark.json", "relative.txt"]));
}

#[test]
fn file_names_without_a_captured_group_are_left_out() {
    let paths = strings(&["/w/a.png", "/w/xb.jpg"]);
    let names = names_from_paths(&paths, Some("(x)?(b)?\\.(png|jpg)$")).unwrap();
    assert_eq!(names, strings(&["x"]));
}

#[test]
fn file_names_bad_pattern_is_an_error() {
    let paths = strings(&["/w/a.png"]);
    assert!(matches!(names_from_paths(&paths, Some("(")), Err(ResolveError::Pattern(_))));
    assert_eq!(names_from_paths(&Vec::new(), Some("(")).unwrap(), Vec::<String>::new());
}

#[test]
fn home_expansion() {
    assert_eq!(expand_home_with("~/walls", Some("/home/me")), "/home/me/walls");
    assert_eq!(expand_home_with("~walls", Some("/home/me")), "~walls");
    assert_eq!(expand_home_with("~/walls", None), "~/walls");
    assert_eq!(expand_home_with("/abs", Some("/home/me")), "/abs");
}

#[test]
fn listing_pattern_joins_directory_and_pattern() {
    assert_eq!(file_list_pattern("/etc/themes", "*.json"), "/etc/themes/*.json");
    let p = file_list_pattern("~/themes", "*.json");
    assert!(p.ends_with("/themes/*.json"));
}

#[test]
fn cache_entries_expire_after_ttl() {
    let mut cache = OptionCache::new();
    cache.insert_at("k".to_string(), strings(&["a"]), 2, 10_000);
    assert_eq!(cache.get_at("k", 10_000), Some(&strings(&["a"])));
    assert_eq!(cache.get_at("k", 11_999), Some(&strings(&["a"])));
    assert_eq!(cache.get_at("k", 12_000), None);
    assert_eq!(cache.get_at("k", 5_000), Some(&strings(&["a"])));
    assert_eq!(cache.get_at("other", 10_000), None);
    cache.insert_at("k".to_string(), strings(&["b"]), 0, 20_000);
    assert_eq!(cache.get_at("k", 20_000), None);
    cache.insert("n".to_string(), strings(&["x"]), 60);
    assert_eq!(cache.get("n"), Some(&strings(&["x"])));
    cache.clear();
    assert_eq!(cache.get("n"), None);
}

#[test]
fn providers_resolve_by_name() {
    let mut r = resolver();
    r.register_provider("langs".to_string(), Box::new(Fixed(strings(&["en", "fr"]))));
    r.register_provider("broken".to_string(), Box::new(Failing));
    assert_eq!(r.resolve_from_provider("langs"), Ok(strings(&["en", "fr"])));
    assert_eq!(r.resolve_from_provider("broken"), Err(ResolveError::Provider("backend down".to_string())));
    assert_eq!(
        r.resolve_from_provider("nope"),
        Err(ResolveError::UnknownProvider("nope".to_string()))
    );
    r.register_provider("langs".to_string(), Box::new(Fixed(strings(&["de"]))));
    assert_eq!(r.resolve_from_provider("langs"), Ok(strings(&["de"])));
}

#[test]
fn static_and_provider_sources_resolve_directly() {
    let mut r = resolver();
    r.register_provider("p".to_string(), Box::new(Fixed(strings(&["x"]))));
    let values = ValueMap::new();
    let src = OptionSource::Static { values: strings(&["Light", "Dark"]) };
    assert!(matches!(r.resolve(&src, &values, 0), Resolution::Ready(Ok(v)) if v == strings(&["Light", "Dark"])));
    let src = OptionSource::Function { name: "p".to_string() };
    assert!(matches!(r.resolve(&src, &values, 0), Resolution::Ready(Ok(v)) if v == strings(&["x"])));
    let src = OptionSource::Provider { provider: "q".to_string() };
    assert!(matches!(
        r.resolve(&src, &values, 0),
        Resolution::Ready(Err(ResolveError::UnknownProvider(_)))
    ));
    let src = OptionSource::FileList {
        directory: "/data".to_string(),
        pattern: "*.txt".to_string(),
        extract: Some("(.*)".to_string()),
    };
    assert!(matches!(
        r.resolve(&src, &values, 0),
        Resolution::ListFiles { pattern, extract: Some(e) } if pattern == "/data/*.txt" && e == "(.*)"
    ));
}

fn run_cmd(plan: ScriptPlan) -> (String, String) {
    match plan {
        ScriptPlan::Run { command, cache_key } => (command, cache_key),
        ScriptPlan::Cached(_) => panic!("expected a run"),
    }
}

#[test]
fn script_without_ttl_always_runs() {
    let mut r = resolver();
    let values = ValueMap::new();
    let cmd = "echo '[\"a\",\"b\"]'";
    for now in [0u64, 1_000, 2_000] {
        let (command, key) = run_cmd(r.plan_script(cmd, None, &values, now));
        assert_eq!(command, cmd);
        let out = r.finish_script(key, None, ScriptRun::Succeeded("[\"a\",\"b\"]\n".to_string()), now);
        assert_eq!(out, Ok(strings(&["a", "b"])));
    }
}

#[test]
fn script_with_ttl_is_answered_from_cache() {
    let mut r = resolver();
    let values = ValueMap::new();
    let cmd = "echo '[\"a\",\"b\"]'";
    let (_, key) = run_cmd(r.plan_script(cmd, Some(60), &values, 1_000));
    assert_eq!(key, format!("{}:{}", cmd, cmd));
    let out = r.finish_script(key, Some(60), ScriptRun::Succeeded("[\"a\",\"b\"]".to_string()), 1_000);
    assert_eq!(out, Ok(strings(&["a", "b"])));
    match r.plan_script(cmd, Some(60), &values, 59_000) {
        ScriptPlan::Cached(v) => assert_eq!(v, strings(&["a", "b"])),
        ScriptPlan::Run { .. } => panic!("expected a cache hit"),
    }
    let (_, key) = run_cmd(r.plan_script(cmd, Some(60), &values, 61_000));
    let out = r.finish_script(key, Some(60), ScriptRun::Succeeded("c\n".to_string()), 61_000);
    assert_eq!(out, Ok(strings(&["c"])));
}

#[test]
fn script_cache_key_depends_on_substituted_values() {
    let mut r = resolver();
    let mut values = ValueMap::new();
    values.insert("s.lang".to_string(), ConfigValue::Text("en".to_string()));
    let cmd = "list ${s.lang}";
    let (command, key) = run_cmd(r.plan_script(cmd, Some(60), &values, 0));
    assert_eq!(command, "list en");
    assert_eq!(key, "list ${s.lang}:list en");
    r.finish_script(key, Some(60), ScriptRun::Succeeded("x".to_string()), 0).unwrap();
    values.insert("s.lang".to_string(), ConfigValue::Text("fr".to_string()));
    let (command, _) = run_cmd(r.plan_script(cmd, Some(60), &values, 10));
    assert_eq!(command, "list fr");
}

#[test]
fn failed_script_is_an_error_and_not_cached() {
    let mut r = resolver();
    let values = ValueMap::new();
    let (_, key) = run_cmd(r.plan_script("false", Some(60), &values, 0));
    let out = r.finish_script(key, Some(60), ScriptRun::Failed("boom".to_string()), 0);
    assert_eq!(out, Err(ResolveError::Script("boom".to_string())));
    run_cmd(r.plan_script("false", Some(60), &values, 1));
}

use mail_oauth::params::extract_google_oauth_params;
use mail_oauth::strmap::StrMap;

fn map(items: &[(&str, &str)]) -> StrMap<String> {
    let mut m = StrMap::new();
    for (k, v) in items {
        m.insert(k.to_string(), v.to_string());
    }
    m
}

const ALL: [(&str, &str); 5] = [
    ("state", "st"),
    ("code", "cd"),
    ("scope", "sc"),
    ("authuser", "0"),
    ("prompt", "consent"),
];

#[test]
fn extract_all_present() {
    let p = extract_google_oauth_params(&map(&ALL)).unwrap();
    assert_eq!(p.state, "st");
    assert_eq!(p.code, "cd");
    assert_eq!(p.scope, "sc");
    assert_eq!(p.authuser, "0");
    assert_eq!(p.prompt, "consent");
}

#[test]
fn extract_reports_each_missing_param() {
    for (i, (name, _)) in ALL.iter().enumerate() {
        let rest: Vec<(&str, &str)> = ALL.iter().enumerate().filter(|(j, _)| *j != i).map(|(_, p)| *p).collect();
        let e = extract_google_oauth_params(&map(&rest)).err().unwrap();
        assert_eq!(e, format!("Missing '{}' in OAuth params", name));
    }
}

#[test]
fn extract_reports_first_missing() {
    let e = extract_google_oauth_params(&map(&[("scope", "x")])).err().unwrap();
    assert_eq!(e, "Missing 'state' in OAuth params");
}

#[test]
fn map_get_after_insert() {
    let mut m: StrMap<u32> = StrMap::new();
    assert!(m.get("a").is_none());
    m.insert("a".to_string(), 1);
    m.insert("b".to_string(), 2);
    m.insert("a".to_string(), 3);
    assert_eq!(m.get("a"), Some(&3));
    assert_eq!(m.get("b"), Some(&2));
    assert!(!m.contains_key("c"));
    assert!(m.contains_key("b"));
}

#[test]
fn map_from_pairs_last_wins() {
    let m = StrMap::from_pairs(vec![("k".to_string(), 1u8), ("k".to_string(), 2u8)]);
    assert_eq!(m.get("k"), Some(&2));
}

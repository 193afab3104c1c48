use foundry::parser::{
    extract_endpoint_url, extract_first_line, extract_model_id, extract_model_names,
    listing_names, normalize_base_url, strip_ansi, text_mentions,
};
use foundry::text::{find, from_chars, has, split_lines, split_whitespace, to_chars, trim};

/// A small generator of texts over the characters that the parsing rules look at.
struct Texts {
    state: u64,
}

const ALPHABET: [&str; 40] = [
    " ", "  ", "\t", "\n", "\r\n", "\r", "/", "//", ":", "://", ".", ",", "a", "B", "z9", "1", "-",
    "_", "\u{1F7E2}", "\u{1F7E1}", "\u{1F7E0}", "\u{1F534}", "\u{e9}", "\u{a0}", "\u{1b}[", "\u{1b}[0m",
    "\u{1b}[1;32m", "\u{1b}[K", "m", "K", ";", "http", "https", "http://", "h:1", "phi:3", "NAME",
    "--------", "not running", "\u{3a3}",
];

impl Texts {
    fn new(seed: u64) -> Texts {
        Texts { state: seed }
    }

    fn next(&mut self) -> u64 {
        self.state = self.state.wrapping_mul(6364136223846793005).wrapping_add(1442695040888963407);
        self.state >> 33
    }

    fn text(&mut self) -> String {
        let parts = self.next() % 12;
        let mut text = String::new();
        for _ in 0..parts {
            text.push_str(ALPHABET[(self.next() % 40) as usize]);
        }
        text
    }
}

fn normalize_by_std(url: &str) -> String {
    if let Some(scheme_end) = url.find("://") {
        let scheme = &url[..scheme_end];
        let rest = &url[(scheme_end + 3)..];
        if let Some(host_end) = rest.find('/') {
            let host = &rest[..host_end];
            return format!("{}://{}/v1", scheme, host);
        }
    }
    format!("{}/v1", url.trim_end_matches('/'))
}

fn strip_by_regex(input: &str) -> String {
    let re = regex::Regex::new(r"\x1B\[[0-9;]*[mK]").unwrap();
    re.replace_all(input, "").to_string()
}

fn endpoint_by_std(output: &str) -> Option<String> {
    let sanitized = strip_by_regex(output);
    for line in sanitized.lines() {
        let re = regex::Regex::new(r"(https?://\S+)").unwrap();
        if let Some(captures) = re.captures(line) {
            let raw_url = captures[1].trim_end_matches(|c| c == '.' || c == ',');
            return Some(normalize_by_std(raw_url));
        }
    }
    None
}

fn model_id_by_std(output: &str) -> Option<String> {
    let sanitized = strip_by_regex(output);
    for line in sanitized.lines() {
        let trimmed = line.trim();
        if trimmed.is_empty() {
            continue;
        }
        if trimmed.starts_with('\u{1F7E2}')
            || trimmed.starts_with('\u{1F7E1}')
            || trimmed.starts_with('\u{1F7E0}')
            || trimmed.starts_with('\u{1F534}')
        {
            let without_status =
                trimmed.trim_start_matches(|c: char| !c.is_ascii_alphanumeric()).trim();
            let parts: Vec<&str> = without_status.split_whitespace().collect();
            if parts.len() >= 2 {
                return Some(parts[parts.len() - 1].to_string());
            }
        }
    }
    let re = regex::Regex::new(r"([A-Za-z0-9_\-\.]+:[0-9]+)").unwrap();
    re.captures(&sanitized).and_then(|c| c.get(1)).map(|m| m.as_str().to_string())
}

fn model_names_by_std(listing: &str) -> Vec<String> {
    listing
        .lines()
        .filter(|line| !line.trim().is_empty() && !line.contains("NAME") && !line.contains("--------"))
        .map(|line| line.split_whitespace().next().unwrap_or("").to_string())
        .filter(|s| !s.is_empty())
        .collect()
}

#[test]
fn splitting_and_trimming_agree_with_std() {
    let mut texts = Texts::new(1);
    for _ in 0..3000 {
        let text = texts.text();
        let chars = to_chars(&text);
        let lines: Vec<String> = split_lines(&chars).iter().map(from_chars).collect();
        assert_eq!(lines, text.lines().map(|l| l.to_string()).collect::<Vec<String>>(), "lines of {:?}", text);
        let words: Vec<String> = split_whitespace(&chars).iter().map(from_chars).collect();
        assert_eq!(
            words,
            text.split_whitespace().map(|w| w.to_string()).collect::<Vec<String>>(),
            "words of {:?}",
            text
        );
        assert_eq!(from_chars(&trim(&chars)), text.trim(), "trim of {:?}", text);
        assert_eq!(extract_first_line(&text), text.lines().next().unwrap_or("").trim(), "first line of {:?}", text);
    }
}

#[test]
fn searching_agrees_with_std() {
    let mut texts = Texts::new(2);
    for _ in 0..3000 {
        let text = texts.text();
        let chars = to_chars(&text);
        for pattern in ["://", "/", "not running", "a", "", "\u{1F7E2}", "\r\n", "h:1"] {
            let wanted = to_chars(pattern);
            assert_eq!(has(&chars, &wanted), text.contains(pattern), "{:?} in {:?}", pattern, text);
            let by_std = text.find(pattern).map(|bytes| text[..bytes].chars().count());
            assert_eq!(find(&chars, &wanted), by_std, "{:?} in {:?}", pattern, text);
        }
        assert_eq!(
            text_mentions(&text, "not running"),
            text.to_lowercase().contains("not running"),
            "mention in {:?}",
            text
        );
    }
}

#[test]
fn name_matching_agrees_with_std() {
    let mut texts = Texts::new(3);
    for _ in 0..1000 {
        let listing = texts.text();
        for name in ["phi", "A", "b", "\u{3a3}", "Z9"] {
            let by_std = listing.lines().any(|line| line.to_lowercase().contains(&name.to_lowercase()));
            assert_eq!(listing_names(&listing, name), by_std, "{:?} in {:?}", name, listing);
        }
    }
}

#[test]
fn normalizing_agrees_with_std() {
    let mut texts = Texts::new(4);
    for _ in 0..3000 {
        let url = texts.text();
        assert_eq!(normalize_base_url(&url), normalize_by_std(&url), "normalizing {:?}", url);
    }
}

#[test]
fn extraction_agrees_with_regex_and_std() {
    let mut texts = Texts::new(5);
    for _ in 0..600 {
        let text = texts.text();
        assert_eq!(strip_ansi(&text), strip_by_regex(&text), "cleaning {:?}", text);
        assert_eq!(extract_endpoint_url(&text).ok(), endpoint_by_std(&text), "endpoint of {:?}", text);
        assert_eq!(extract_model_id(&text).ok(), model_id_by_std(&text), "model id of {:?}", text);
        assert_eq!(extract_model_names(&text), model_names_by_std(&text), "names in {:?}", text);
    }
}

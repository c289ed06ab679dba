use antiphish_bot::messages::masked_link::contains_masked_links;
use regex::Regex;

const PATTERN: &str = r"\[\s*([^\]]*?)\s*]\(\s*(https?://[^\s)]+)\s*\)";

#[test]
fn finds_plain_masked_link() {
    assert!(contains_masked_links("[click here](https://evil.example/login)"));
    assert!(contains_masked_links("free nitro: [discord.gift](http://phish.example)"));
}

#[test]
fn finds_link_with_spaces_around_parts() {
    assert!(contains_masked_links("[ steam gift ]( https://x.example/a?b=c   )"));
    assert!(!contains_masked_links("[]\u{2003}(https://a)"));
    assert!(contains_masked_links("[](\u{2003}https://a\u{3000})"));
}

#[test]
fn rejects_near_misses() {
    assert!(!contains_masked_links(""));
    assert!(!contains_masked_links("https://plain.example"));
    assert!(!contains_masked_links("[text] (https://gap.example)"));
    assert!(!contains_masked_links("[text](ftp://files.example)"));
    assert!(!contains_masked_links("[text](https://)"));
    assert!(!contains_masked_links("[text](https://unterminated.example"));
    assert!(!contains_masked_links("[text](https://a b)"));
    assert!(!contains_masked_links("[text](httpss://a)"));
    assert!(!contains_masked_links("[te]xt](https://a)"));
}

#[test]
fn later_bracket_can_start_the_link() {
    assert!(contains_masked_links("[a [b](https://c)"));
    assert!(contains_masked_links("](x) [y](http://z) tail"));
    assert!(contains_masked_links("[multi\nline](https://n)"));
}

fn agree(text: &str) {
    let re = Regex::new(PATTERN).unwrap();
    assert_eq!(contains_masked_links(text), re.is_match(text), "disagree on {:?}", text);
}

#[test]
fn agrees_with_regex_on_samples() {
    let samples = [
        "[a](http://b)",
        "[a](https://b)",
        "[a](https:/b)",
        "[a](http//b)",
        "[a]( http://b )",
        "[a](http://b\t)",
        "[a](http://b\u{85})",
        "[a](http://b\u{200b})",
        "[a](http://)c)",
        "[a](http://b) [c](d)",
        "[[a]](http://b)",
        "[a]](http://b)",
        "[a](http://b)(",
        "x[a](\nhttps://b\n)y",
        "[\u{00e9}t\u{00e9}](https://\u{00fc}ber)",
        "[a](HTTP://b)",
        "[a](https://b))",
        "[a)(https://b)",
    ];
    for s in samples.iter() {
        agree(s);
    }
}

#[test]
fn agrees_with_regex_on_generated_texts() {
    let alphabet = ['[', ']', '(', ')', 'h', 't', 'p', 's', ':', '/', ' ', 'x', '\n'];
    let mut state: u64 = 0x2545_f491_4f6c_dd1d;
    for _ in 0..4000 {
        let mut text = String::new();
        state ^= state << 13;
        state ^= state >> 7;
        state ^= state << 17;
        let len = (state % 24) as usize;
        for _ in 0..len {
            state ^= state << 13;
            state ^= state >> 7;
            state ^= state << 17;
            text.push(alphabet[(state % alphabet.len() as u64) as usize]);
        }
        agree(&text);
        let seeded = format!("{}[a](http{}", &text, &text);
        agree(&seeded);
        let seeded = format!("[{}](https://{}", &text, &text);
        agree(&seeded);
    }
}

use g2g_client::account::{
    check_if_listed, extract_screenshot_url, line_kind, load_account_folders, name_comes_first,
    parse_account_to_csv, receipt_file_name, receipt_text, ExtractError, FoundFolder, LineKind,
};

const MESSAGE: &str = "Order #1\nHi there,\nLogin: summoner\nPassword: hunter2\nEmail is someone@example.com\nmail[DOT]com/email/abc123 open it\nSay \"hi\"\nThank you for buying from Accounterra, gl&hf!\nScreenshot URL: https://imgur.com/x.png\n";

#[test]
fn payload_holds_the_fields_and_the_quoted_message() {
    let csv = parse_account_to_csv(MESSAGE).expect("payload");
    assert_eq!(
        csv,
        "summoner,hunter2,,,,,,,,someone@example.com,mail[DOT]com/email/abc123,\"Hi there,\nLogin: summoner\nPassword: hunter2\nEmail is someone@example.com\nmail[DOT]com/email/abc123 open it\nSay \"\"hi\"\"\nThank you for buying from Accounterra, gl&hf!\"\r\n"
    );
}

#[test]
fn payload_needs_the_greeting() {
    let error = parse_account_to_csv("Login: a\nPassword: b\nEmail is c\n").expect_err("greeting");
    assert!(matches!(error, ExtractError::MissingGreeting));
    assert_eq!(error.describe(), "Could not find 'Hi there,' in account file");
}

#[test]
fn payload_needs_the_login() {
    let text = "Hi there,\nPassword: b\nEmail is c\ngl&hf!";
    let error = parse_account_to_csv(text).expect_err("login");
    assert_eq!(error.describe(), "Missing fields - Login: '', Password: 'b', Email: 'c'");
}

#[test]
fn payload_needs_the_password() {
    let text = "Hi there,\nLogin: a\nEmail is c\ngl&hf!";
    let error = parse_account_to_csv(text).expect_err("password");
    assert_eq!(error.describe(), "Missing fields - Login: 'a', Password: '', Email: 'c'");
}

#[test]
fn payload_needs_the_email() {
    let text = "Hi there,\nLogin: a\nPassword: b\ngl&hf!";
    let error = parse_account_to_csv(text).expect_err("email");
    match &error {
        ExtractError::MissingFields { login, password, email } => {
            assert_eq!(login, "a");
            assert_eq!(password, "b");
            assert_eq!(email, "");
        }
        other => panic!("unexpected error {:?}", other),
    }
    assert_eq!(error.describe(), "Missing fields - Login: 'a', Password: 'b', Email: ''");
}

#[test]
fn payload_ignores_fields_outside_the_message() {
    let text = "Login: early\nHi there,\nPassword: b\nEmail is c\ngl&hf!\nLogin: late\n";
    let error = parse_account_to_csv(text).expect_err("login outside");
    assert_eq!(error.describe(), "Missing fields - Login: '', Password: 'b', Email: 'c'");
}

#[test]
fn payload_takes_the_last_line_of_each_kind() {
    let text = "Hi there,\nLogin: one\n  Login:   two  \nPassword: p\nEmail is e\ngl&hf!";
    let csv = parse_account_to_csv(text).expect("payload");
    assert!(csv.starts_with("two,p,,,,,,,,e,,\""), "{}", csv);
}

#[test]
fn payload_without_a_closing_phrase_ends_at_the_screenshot_line() {
    let text = "Hi there,\r\nLogin: a\r\nPassword: b\r\nEmail is c\r\n\r\nScreenshot URL: http://x\r\nLogin: z";
    let csv = parse_account_to_csv(text).expect("payload");
    assert_eq!(csv, "a,b,,,,,,,,c,,\"Hi there,\nLogin: a\nPassword: b\nEmail is c\"\r\n");
}

#[test]
fn payload_without_any_marker_takes_the_rest_of_the_text() {
    let text = "noise Hi there,\nLogin: a\nPassword: b\nEmail is c\n\n  ";
    let csv = parse_account_to_csv(text).expect("payload");
    assert_eq!(csv, "a,b,,,,,,,,c,,\"Hi there,\nLogin: a\nPassword: b\nEmail is c\"\r\n");
}

#[test]
fn payload_prefers_the_longer_closing_phrases() {
    let text = "Hi there,\nLogin: a\nPassword: b\nEmail is c\ngl&hf! early\nThank you for buying from Accounterra,gl&hf! tail";
    let csv = parse_account_to_csv(text).expect("payload");
    assert!(csv.ends_with("gl&hf! early\nThank you for buying from Accounterra,gl&hf!\"\r\n"));
}

#[test]
fn payload_turns_lone_carriage_returns_into_line_feeds() {
    let text = "Hi there,\nLogin: a\nPassword: b\nEmail is c\rnote\ngl&hf!";
    let csv = parse_account_to_csv(text).expect("payload");
    assert_eq!(csv, "a,b,,,,,,,,c\rnote,,\"Hi there,\nLogin: a\nPassword: b\nEmail is c\nnote\ngl&hf!\"\r\n");
}

#[test]
fn lines_are_told_apart_by_how_they_begin() {
    let kind = |s: &str| line_kind(&s.chars().collect::<Vec<char>>());
    assert_eq!(kind("Login: a"), LineKind::Login);
    assert_eq!(kind("Password: a"), LineKind::Password);
    assert_eq!(kind("Email is a"), LineKind::Email);
    assert_eq!(kind("Email is at mail[DOT]com/email/x"), LineKind::Email);
    assert_eq!(kind("mail[DOT]com/email/x"), LineKind::Access);
    assert_eq!(kind("login: a"), LineKind::Other);
    assert_eq!(kind(""), LineKind::Other);
}

#[test]
fn screenshot_is_found_on_a_labelled_line() {
    assert_eq!(
        extract_screenshot_url("Hi\n  Screenshot URL: https://host/a.png (open)\nmore"),
        Some("https://host/a.png".to_string())
    );
    assert_eq!(
        extract_screenshot_url("SCREENSHOT url=http://h/x"),
        Some("http://h/x".to_string())
    );
}

#[test]
fn screenshot_is_found_as_a_link_to_an_image_host() {
    assert_eq!(
        extract_screenshot_url("a\nhttps://i.imgur.com/q.png view\n"),
        Some("https://i.imgur.com/q.png".to_string())
    );
    assert_eq!(
        extract_screenshot_url("https://gyazo.com/1"),
        Some("https://gyazo.com/1".to_string())
    );
    assert_eq!(extract_screenshot_url("http://prnt.sc/1"), Some("http://prnt.sc/1".to_string()));
    assert_eq!(
        extract_screenshot_url("\thttps://i.postimg.cc/1.jpg\r\n"),
        Some("https://i.postimg.cc/1.jpg".to_string())
    );
}

#[test]
fn screenshot_is_absent_without_an_address() {
    assert_eq!(extract_screenshot_url(""), None);
    assert_eq!(extract_screenshot_url("Screenshot URL: none"), None);
    assert_eq!(extract_screenshot_url("https://example.com/a.png"), None);
    assert_eq!(extract_screenshot_url("see https://imgur.com/a.png"), None);
}

#[test]
fn screenshot_is_taken_from_the_first_line_that_gives_one() {
    assert_eq!(
        extract_screenshot_url("https://imgur.com/first\nScreenshot URL: https://second"),
        Some("https://imgur.com/first".to_string())
    );
}

#[test]
fn account_is_listed_where_a_receipt_is_among_its_files() {
    let names = |list: &[&str]| list.iter().map(|s| s.to_string()).collect::<Vec<String>>();
    assert!(check_if_listed(&names(&["a.png", "G1712345.txt"])));
    assert!(check_if_listed(&names(&["G17.txt"])));
    assert!(!check_if_listed(&names(&[])));
    assert!(!check_if_listed(&names(&["G17.tx", "g1712345.txt", "G16.txt", "G17.txt.bak", "notes.txt"])));
}

#[test]
fn receipt_names_the_offer_and_marks_it_live() {
    assert_eq!(receipt_file_name("G1712345"), "G1712345.txt");
    assert_eq!(
        receipt_text("G1712345", "2024-05-06 07:08:09"),
        "Offer ID: G1712345\nCreated: 2024-05-06 07:08:09\nStatus: Live\n"
    );
    assert!(check_if_listed(&vec![receipt_file_name("G1712345")]));
}

fn folder(name: &str, path: &str, files: &[&str]) -> FoundFolder {
    FoundFolder {
        name: name.to_string(),
        path: path.to_string(),
        file_names: files.iter().map(|f| f.to_string()).collect(),
    }
}

#[test]
fn account_folders_are_arranged_by_name() {
    let found = vec![
        folder("zed", "/b/zed", &["zed.txt"]),
        folder("Ahri", "/b/Ahri", &["G1799.txt", "Ahri.txt"]),
        folder("ahri", "/b/ahri", &[]),
        folder("Zed", "/b/Zed", &["shot.png"]),
        folder("", "/b/", &[]),
        folder("ahri2", "/b/ahri2", &["G17x.txt"]),
    ];
    let data = load_account_folders("/b".to_string(), &found);
    assert_eq!(data.base_path, "/b");
    let rows: Vec<(&str, &str, bool)> =
        data.accounts.iter().map(|a| (a.name.as_str(), a.path.as_str(), a.is_listed)).collect();
    assert_eq!(
        rows,
        vec![
            ("", "/b/", false),
            ("Ahri", "/b/Ahri", true),
            ("Zed", "/b/Zed", false),
            ("ahri", "/b/ahri", false),
            ("ahri2", "/b/ahri2", true),
            ("zed", "/b/zed", false),
        ]
    );
}

#[test]
fn account_folders_of_the_same_name_keep_their_order() {
    let found = vec![
        folder("b", "second", &[]),
        folder("a", "first", &[]),
        folder("b", "third", &[]),
        folder("a", "fourth", &[]),
    ];
    let data = load_account_folders(String::new(), &found);
    let paths: Vec<&str> = data.accounts.iter().map(|a| a.path.as_str()).collect();
    assert_eq!(paths, vec!["first", "fourth", "second", "third"]);
    assert!(load_account_folders(String::new(), &Vec::new()).accounts.is_empty());
}

#[test]
fn names_are_ordered_as_strings_are() {
    let samples = ["", "a", "A", "ab", "b", "ä", "z", "аккаунт", "😀", "a b", "a\u{0}"];
    for a in samples {
        for b in samples {
            let left: Vec<char> = a.chars().collect();
            let right: Vec<char> = b.chars().collect();
            assert_eq!(name_comes_first(&left, &right), a <= b, "{:?} {:?}", a, b);
        }
    }
}

//! The text of an account file: where the credentials of an account and the
//! address of its screenshot are found in a loosely structured message, and
//! how the receipt of a published listing is written.
//!
//! The grammar is small. The message proper begins with a greeting and ends
//! with one of a few closing phrases; inside it, a line that begins with
//! `Login:`, `Password:` or `Email is` gives the field of that name, and a
//! line that holds an e-mail access link gives that link as its first word.

use vstd::prelude::*;
use vstd::string::*;
use crate::text::{
    begins_with, chars_of, contains, ends_with, extend, find, finishes_with, first_word,
    first_word_of, lines, lines_of, lowercase, lowercase_text, occurs, position_of, replace,
    replaced, slice, starts_with, string_of, trim, trim_start_of, trimmed,
};

verus! {

/// An account folder on disk.
#[derive(Debug, Clone)]
pub struct AccountFolder {
    pub name: String,
    pub path: String,
    pub is_listed: bool,
}

/// The account folders found under a base folder.
#[derive(Debug, Clone)]
pub struct AccountsData {
    pub accounts: Vec<AccountFolder>,
    pub base_path: String,
}

/// Why no credential payload could be made of a text.
#[derive(Debug, Clone)]
pub enum ExtractError {
    /// The text holds no greeting, so the message proper cannot be found.
    MissingGreeting,
    /// The login, the password or the e-mail address is missing. The fields
    /// hold what was found.
    MissingFields { login: String, password: String, email: String },
}

/// What a line of the message says.
#[derive(Debug, Clone, Copy, PartialEq, Eq, Structural)]
pub enum LineKind {
    Login,
    Password,
    Email,
    /// The line holds the link that gives access to the e-mail account.
    Access,
    Other,
}

/// The phrase that the message proper begins with.
pub open spec fn greeting() -> Seq<char> {
    "Hi there,"@
}

/// What a line says, once the white space around it is removed.
pub open spec fn kind_of(line: Seq<char>) -> LineKind {
    if begins_with(line, "Login:"@) {
        LineKind::Login
    } else if begins_with(line, "Password:"@) {
        LineKind::Password
    } else if begins_with(line, "Email is"@) {
        LineKind::Email
    } else if occurs(line, "[DOT]com/email/"@) {
        LineKind::Access
    } else {
        LineKind::Other
    }
}

/// The value that a line of the given kind gives: what is left of the line
/// when its label is taken out, or the first word of a line with an access
/// link.
pub open spec fn value_of(line: Seq<char>, kind: LineKind) -> Seq<char> {
    match kind {
        LineKind::Login => trimmed(replaced(line, "Login:"@, Seq::empty())),
        LineKind::Password => trimmed(replaced(line, "Password:"@, Seq::empty())),
        LineKind::Email => trimmed(replaced(line, "Email is"@, Seq::empty())),
        LineKind::Access => first_word_of(line),
        LineKind::Other => Seq::empty(),
    }
}

/// The field of the given kind in a message: the value of the last line of
/// that kind, or the empty text where there is no such line.
pub open spec fn field_of(lines: Seq<Seq<char>>, kind: LineKind) -> Seq<char>
    decreases lines.len(),
{
    if lines.len() == 0 {
        Seq::empty()
    } else {
        let line = trimmed(lines.last());
        if kind_of(line) == kind {
            value_of(line, kind)
        } else {
            field_of(lines.drop_last(), kind)
        }
    }
}

/// The message proper in a text that begins with the greeting: up to and
/// including the first closing phrase that occurs, the longer phrases being
/// looked for first; failing that, up to the screenshot line; failing that,
/// all of it. Without a closing phrase the white space around the message is
/// removed.
pub open spec fn message_of(tail: Seq<char>) -> Seq<char> {
    let long = "Thank you for buying from Accounterra,gl&hf!"@;
    let spaced = "Thank you for buying from Accounterra, gl&hf!"@;
    let short = "gl&hf!"@;
    match position_of(tail, long) {
        Some(at) => tail.subrange(0, at + long.len()),
        None => match position_of(tail, spaced) {
            Some(at) => tail.subrange(0, at + spaced.len()),
            None => match position_of(tail, short) {
                Some(at) => tail.subrange(0, at + short.len()),
                None => match position_of(tail, "Screenshot URL"@) {
                    Some(at) => trimmed(tail.subrange(0, at)),
                    None => trimmed(tail),
                },
            },
        },
    }
}

/// The message in a form that can stand between double quotes in a line of
/// comma-separated values: every double quote doubled, every line ending a
/// single line feed.
pub open spec fn quoted_form(message: Seq<char>) -> Seq<char> {
    replaced(
        replaced(replaced(message, "\""@, "\"\""@), "\r\n"@, "\n"@),
        "\r"@,
        "\n"@,
    )
}

/// The credential payload for a message: one line of comma-separated values
/// with the login, the password, the e-mail address, the access link and the
/// message itself.
pub open spec fn payload_of(message: Seq<char>) -> Seq<char> {
    let rows = lines_of(message);
    field_of(rows, LineKind::Login) + ","@ + field_of(rows, LineKind::Password) + ",,,,,,,,"@
        + field_of(rows, LineKind::Email) + ","@ + field_of(rows, LineKind::Access) + ",\""@
        + quoted_form(message) + "\"\r\n"@
}

/// Whether a message gives all the fields that a payload needs: login,
/// password and e-mail address.
pub open spec fn has_required_fields(message: Seq<char>) -> bool {
    let rows = lines_of(message);
    &&& field_of(rows, LineKind::Login).len() > 0
    &&& field_of(rows, LineKind::Password).len() > 0
    &&& field_of(rows, LineKind::Email).len() > 0
}

/// The message proper of a text: what [`message_of`] finds from the first
/// greeting on, or nothing where the text holds no greeting.
pub open spec fn message_in(text: Seq<char>) -> Option<Seq<char>> {
    match position_of(text, greeting()) {
        Some(at) => Some(message_of(text.subrange(at, text.len() as int))),
        None => None,
    }
}

/// What a line says, once the white space around it is removed.
pub fn line_kind(line: &Vec<char>) -> (kind: LineKind)
    ensures
        kind == kind_of(line@),
{
    if starts_with(line, &chars_of("Login:")) {
        LineKind::Login
    } else if starts_with(line, &chars_of("Password:")) {
        LineKind::Password
    } else if starts_with(line, &chars_of("Email is")) {
        LineKind::Email
    } else if contains(line, &chars_of("[DOT]com/email/")) {
        LineKind::Access
    } else {
        LineKind::Other
    }
}

/// The value that a line of the given kind gives.
pub fn line_value(line: &Vec<char>, kind: LineKind) -> (value: Vec<char>)
    ensures
        value@ == value_of(line@, kind),
{
    let nothing: Vec<char> = Vec::new();
    match kind {
        LineKind::Login => trim(&replace(line, &chars_of("Login:"), &nothing)),
        LineKind::Password => trim(&replace(line, &chars_of("Password:"), &nothing)),
        LineKind::Email => trim(&replace(line, &chars_of("Email is"), &nothing)),
        LineKind::Access => first_word(line),
        LineKind::Other => nothing,
    }
}

/// The message proper in a text that begins with the greeting.
pub fn message(tail: &Vec<char>) -> (block: Vec<char>)
    ensures
        block@ == message_of(tail@),
{
    let long = chars_of("Thank you for buying from Accounterra,gl&hf!");
    let spaced = chars_of("Thank you for buying from Accounterra, gl&hf!");
    let short = chars_of("gl&hf!");
    match find(tail, &long) {
        Some(at) => slice(tail, 0, at + long.len()),
        None => match find(tail, &spaced) {
            Some(at) => slice(tail, 0, at + spaced.len()),
            None => match find(tail, &short) {
                Some(at) => slice(tail, 0, at + short.len()),
                None => match find(tail, &chars_of("Screenshot URL")) {
                    Some(at) => trim(&slice(tail, 0, at)),
                    None => trim(tail),
                },
            },
        },
    }
}

/// The four fields of a message, in the order login, password, e-mail
/// address, access link.
pub fn fields(rows: &Vec<Vec<char>>) -> (found: (Vec<char>, Vec<char>, Vec<char>, Vec<char>))
    ensures
        found.0@ == field_of(Seq::new(rows@.len(), |i: int| rows@[i]@), LineKind::Login),
        found.1@ == field_of(Seq::new(rows@.len(), |i: int| rows@[i]@), LineKind::Password),
        found.2@ == field_of(Seq::new(rows@.len(), |i: int| rows@[i]@), LineKind::Email),
        found.3@ == field_of(Seq::new(rows@.len(), |i: int| rows@[i]@), LineKind::Access),
{
    let ghost all = Seq::new(rows@.len(), |i: int| rows@[i]@);
    let mut login: Vec<char> = Vec::new();
    let mut password: Vec<char> = Vec::new();
    let mut email: Vec<char> = Vec::new();
    let mut access: Vec<char> = Vec::new();
    let mut i: usize = 0;
    proof {
        assert(all.take(0).len() == 0);
    }
    while i < rows.len()
        invariant
            i <= rows.len(),
            all == Seq::new(rows@.len(), |k: int| rows@[k]@),
            login@ == field_of(all.take(i as int), LineKind::Login),
            password@ == field_of(all.take(i as int), LineKind::Password),
            email@ == field_of(all.take(i as int), LineKind::Email),
            access@ == field_of(all.take(i as int), LineKind::Access),
        decreases rows.len() - i,
    {
        let line = trim(&rows[i]);
        let kind = line_kind(&line);
        proof {
            let upto = all.take(i + 1);
            assert(upto.last() == rows@[i as int]@);
            assert(upto.drop_last() == all.take(i as int));
        }
        match kind {
            LineKind::Login => {
                login = line_value(&line, kind);
            },
            LineKind::Password => {
                password = line_value(&line, kind);
            },
            LineKind::Email => {
                email = line_value(&line, kind);
            },
            LineKind::Access => {
                access = line_value(&line, kind);
            },
            LineKind::Other => {},
        }
        i = i + 1;
    }
    proof {
        assert(all.take(rows@.len() as int) == all);
    }
    (login, password, email, access)
}

/// The message in a form that can stand between double quotes in a line of
/// comma-separated values.
pub fn quoted(block: &Vec<char>) -> (safe: Vec<char>)
    ensures
        safe@ == quoted_form(block@),
{
    let doubled = replace(block, &chars_of("\""), &chars_of("\"\""));
    let unix = replace(&doubled, &chars_of("\r\n"), &chars_of("\n"));
    replace(&unix, &chars_of("\r"), &chars_of("\n"))
}

/// Makes the credential payload of an account out of the text of its account
/// file.
///
/// The message proper is looked for from the first greeting on; a text
/// without a greeting is turned down. So is a message that lacks the login,
/// the password or the e-mail address; the error then holds the fields that
/// were found.
pub fn parse_account_to_csv(text: &str) -> (r: Result<String, ExtractError>)
    ensures
        match r {
            Ok(csv) => {
                &&& message_in(text@) matches Some(block)
                &&& has_required_fields(block)
                &&& csv@ == payload_of(block)
            },
            Err(ExtractError::MissingGreeting) => message_in(text@) is None,
            Err(ExtractError::MissingFields { login, password, email }) => {
                &&& message_in(text@) matches Some(block)
                &&& !has_required_fields(block)
                &&& login@ == field_of(lines_of(block), LineKind::Login)
                &&& password@ == field_of(lines_of(block), LineKind::Password)
                &&& email@ == field_of(lines_of(block), LineKind::Email)
            },
        },
{
    let all = chars_of(text);
    let start = match find(&all, &chars_of("Hi there,")) {
        Some(at) => at,
        None => {
            return Err(ExtractError::MissingGreeting);
        },
    };
    let tail = slice(&all, start, all.len());
    let block = message(&tail);
    let rows = lines(&block);
    proof {
        assert(Seq::new(rows@.len(), |i: int| rows@[i]@) == lines_of(block@));
    }
    let (login, password, email, access) = fields(&rows);
    if login.len() == 0 || password.len() == 0 || email.len() == 0 {
        return Err(
            ExtractError::MissingFields {
                login: string_of(&login),
                password: string_of(&password),
                email: string_of(&email),
            },
        );
    }
    let mut csv: Vec<char> = Vec::new();
    extend(&mut csv, &login);
    extend(&mut csv, &chars_of(","));
    extend(&mut csv, &password);
    extend(&mut csv, &chars_of(",,,,,,,,"));
    extend(&mut csv, &email);
    extend(&mut csv, &chars_of(","));
    extend(&mut csv, &access);
    extend(&mut csv, &chars_of(",\""));
    extend(&mut csv, &quoted(&block));
    extend(&mut csv, &chars_of("\"\r\n"));
    proof {
        assert(csv@ == payload_of(block@));
    }
    Ok(string_of(&csv))
}

impl ExtractError {
    /// The text that describes the error.
    pub open spec fn description(self) -> Seq<char> {
        match self {
            ExtractError::MissingGreeting => "Could not find 'Hi there,' in account file"@,
            ExtractError::MissingFields { login, password, email } => "Missing fields - Login: '"@
                + login@ + "', Password: '"@ + password@ + "', Email: '"@ + email@ + "'"@,
        }
    }

    /// Describes the error in words, naming the fields that were found.
    pub fn describe(&self) -> (text: String)
        ensures
            text@ == self.description(),
    {
        match self {
            ExtractError::MissingGreeting => "Could not find 'Hi there,' in account file".to_owned(),
            ExtractError::MissingFields { login, password, email } => {
                let mut text = "Missing fields - Login: '".to_owned();
                text.append(login.as_str());
                text.append("', Password: '");
                text.append(password.as_str());
                text.append("', Email: '");
                text.append(email.as_str());
                text.append("'");
                text
            },
        }
    }
}

/// Whether a line, without the white space around it, is the address of an
/// image on one of the known image hosts.
pub open spec fn is_image_link(line: Seq<char>) -> bool {
    &&& begins_with(line, "http"@)
    &&& (occurs(line, "imgur.com"@) || occurs(line, "gyazo.com"@) || occurs(line, "prnt.sc"@)
        || occurs(line, "i.postimg.cc"@))
}

/// The first word of a text, or the text itself where it has no word.
pub open spec fn leading_word_of(text: Seq<char>) -> Seq<char> {
    if trim_start_of(text).len() == 0 {
        text
    } else {
        first_word_of(text)
    }
}

/// The screenshot address that a line gives, if it gives one. `folded` is the
/// line in lower case. A line that mentions a screenshot URL gives the word
/// that begins at its first `http`; a line that is an image link gives its
/// first word.
pub open spec fn screenshot_in(line: Seq<char>, folded: Seq<char>) -> Option<Seq<char>> {
    let labelled = occurs(folded, "screenshot url"@);
    match position_of(line, "http"@) {
        Some(at) => if labelled {
            Some(leading_word_of(line.subrange(at, line.len() as int)))
        } else if is_image_link(line) {
            Some(leading_word_of(line))
        } else {
            None
        },
        None => None,
    }
}

/// The screenshot address in a text, given its lines: what the first line
/// that gives one gives.
pub open spec fn screenshot_url_of(rows: Seq<Seq<char>>) -> Option<Seq<char>>
    decreases rows.len(),
{
    if rows.len() == 0 {
        None
    } else {
        let line = trimmed(rows[0]);
        match screenshot_in(line, lowercase_text(line)) {
            Some(url) => Some(url),
            None => screenshot_url_of(rows.drop_first()),
        }
    }
}

fn leading_word(text: &Vec<char>) -> (word: Vec<char>)
    ensures
        word@ == leading_word_of(text@),
{
    let word = first_word(text);
    if word.len() == 0 {
        proof {
            lemma_no_word(text@);
        }
        slice(text, 0, text.len())
    } else {
        proof {
            if trim_start_of(text@).len() == 0 {
                assert(first_word_of(text@).len() == 0);
            }
        }
        word
    }
}

proof fn lemma_no_word(text: Seq<char>)
    requires
        first_word_of(text).len() == 0,
    ensures
        trim_start_of(text).len() == 0,
        text.subrange(0, text.len() as int) == text,
    decreases text.len(),
{
    if text.len() > 0 && crate::text::is_white(text[0]) {
        lemma_no_word(text.drop_first());
    }
}

/// The screenshot address that a line gives, if it gives one, given the line
/// without the white space around it and the same in lower case.
pub fn screenshot_in_line(line: &Vec<char>, folded: &Vec<char>) -> (url: Option<Vec<char>>)
    ensures
        match url {
            Some(found) => screenshot_in(line@, folded@) == Some(found@),
            None => screenshot_in(line@, folded@) is None,
        },
{
    let at = match find(line, &chars_of("http")) {
        Some(at) => at,
        None => {
            return None;
        },
    };
    if contains(folded, &chars_of("screenshot url")) {
        Some(leading_word(&slice(line, at, line.len())))
    } else if starts_with(line, &chars_of("http")) && (contains(line, &chars_of("imgur.com"))
        || contains(line, &chars_of("gyazo.com")) || contains(line, &chars_of("prnt.sc"))
        || contains(line, &chars_of("i.postimg.cc"))) {
        Some(leading_word(line))
    } else {
        None
    }
}

/// Looks for the address of a screenshot in the text of an account file:
/// the first line that mentions a screenshot URL, in any letter case, and
/// holds an address, or that is a link to a known image host, gives it.
pub fn extract_screenshot_url(text: &str) -> (url: Option<String>)
    ensures
        match url {
            Some(found) => screenshot_url_of(lines_of(text@)) == Some(found@),
            None => screenshot_url_of(lines_of(text@)) is None,
        },
{
    let all = chars_of(text);
    let rows = lines(&all);
    let ghost whole = lines_of(text@);
    let mut i: usize = 0;
    proof {
        assert(whole.skip(0) == whole);
    }
    while i < rows.len()
        invariant
            i <= rows.len(),
            whole == lines_of(text@),
            rows@.len() == whole.len(),
            forall|k: int| 0 <= k < rows@.len() ==> (#[trigger] rows@[k])@ == whole[k],
            screenshot_url_of(whole) == screenshot_url_of(whole.skip(i as int)),
        decreases rows.len() - i,
    {
        let line = trim(&rows[i]);
        let folded = chars_of(lowercase(string_of(&line).as_str()).as_str());
        proof {
            let rest = whole.skip(i as int);
            assert(rest[0] == whole[i as int]);
            assert(rest.drop_first() == whole.skip(i + 1));
        }
        match screenshot_in_line(&line, &folded) {
            Some(found) => {
                return Some(string_of(&found));
            },
            None => {},
        }
        i = i + 1;
    }
    None
}

/// Whether a file name is that of the receipt of a published listing.
pub open spec fn is_receipt_name(name: Seq<char>) -> bool {
    begins_with(name, "G17"@) && ends_with(name, ".txt"@)
}

/// Whether an account is listed, given the names of the files in its folder:
/// it is when one of them is the receipt of a published listing.
pub fn check_if_listed(file_names: &Vec<String>) -> (listed: bool)
    ensures
        listed == exists|i: int|
            0 <= i < file_names@.len() && is_receipt_name(#[trigger] file_names@[i]@),
{
    let mut i: usize = 0;
    while i < file_names.len()
        invariant
            i <= file_names.len(),
            forall|k: int| 0 <= k < i ==> !is_receipt_name(#[trigger] file_names@[k]@),
        decreases file_names.len() - i,
    {
        let name = chars_of(file_names[i].as_str());
        if starts_with(&name, &chars_of("G17")) && finishes_with(&name, &chars_of(".txt")) {
            return true;
        }
        i = i + 1;
    }
    false
}

/// The name of the receipt file of a published listing.
pub open spec fn receipt_name_of(offer_id: Seq<char>) -> Seq<char> {
    offer_id + ".txt"@
}

/// The text of the receipt of a published listing.
pub open spec fn receipt_text_of(offer_id: Seq<char>, created: Seq<char>) -> Seq<char> {
    "Offer ID: "@ + offer_id + "\nCreated: "@ + created + "\nStatus: Live\n"@
}

/// The name of the receipt file of a published listing: its identifier with
/// the extension of a text file.
pub fn receipt_file_name(offer_id: &str) -> (name: String)
    ensures
        name@ == receipt_name_of(offer_id@),
{
    let mut name = offer_id.to_owned();
    name.append(".txt");
    name
}

/// The text of the receipt of a published listing: its identifier, the time
/// of its creation as the caller wrote it, and the marker of a live listing.
pub fn receipt_text(offer_id: &str, created: &str) -> (text: String)
    ensures
        text@ == receipt_text_of(offer_id@, created@),
{
    let mut text = "Offer ID: ".to_owned();
    text.append(offer_id);
    text.append("\nCreated: ");
    text.append(created);
    text.append("\nStatus: Live\n");
    text
}

/// A folder as it was found on disk: its name, its path and the names of the
/// files in it.
#[derive(Debug, Clone)]
pub struct FoundFolder {
    pub name: String,
    pub path: String,
    pub file_names: Vec<String>,
}

/// Whether the text `a` comes before the text `b`, or is the same, in the
/// order of a dictionary whose letters are ordered by their code points.
pub open spec fn comes_first(a: Seq<char>, b: Seq<char>) -> bool
    decreases a.len(),
{
    if a.len() == 0 {
        true
    } else if b.len() == 0 {
        false
    } else if a[0] == b[0] {
        comes_first(a.drop_first(), b.drop_first())
    } else {
        (a[0] as u32) < (b[0] as u32)
    }
}

/// Whether folder `i` is to stand before folder `j`: by name, and by place
/// found where the names are the same.
pub open spec fn ranks_before(names: Seq<Seq<char>>, i: int, j: int) -> bool {
    if names[i] == names[j] {
        i < j
    } else {
        comes_first(names[i], names[j])
    }
}

/// Whether `order` arranges the folders with the given names by name, leaving
/// folders of the same name in the order in which they were found:
/// `order[x]` is the place found of the folder that stands at `x`.
pub open spec fn is_arrangement(order: Seq<int>, names: Seq<Seq<char>>) -> bool {
    &&& order.len() == names.len()
    &&& forall|x: int| 0 <= x < order.len() ==> 0 <= #[trigger] order[x] < names.len()
    &&& forall|x: int, y: int|
        0 <= x < y < order.len() ==> ranks_before(names, #[trigger] order[x], #[trigger] order[y])
}

/// Whether `account` is the account of the folder `found`: same name and
/// path, and listed exactly when a receipt is among the files of the folder.
pub open spec fn is_account_of(account: AccountFolder, found: FoundFolder) -> bool {
    &&& account.name@ == found.name@
    &&& account.path@ == found.path@
    &&& account.is_listed == exists|i: int|
        0 <= i < found.file_names@.len() && is_receipt_name(#[trigger] found.file_names@[i]@)
}

/// The names of the folders found.
pub open spec fn names_of(found: Seq<FoundFolder>) -> Seq<Seq<char>> {
    Seq::new(found.len(), |i: int| found[i].name@)
}

/// Every text comes first with respect to itself.
pub proof fn lemma_comes_first_reflexive(a: Seq<char>)
    ensures
        comes_first(a, a),
    decreases a.len(),
{
    if a.len() > 0 {
        lemma_comes_first_reflexive(a.drop_first());
    }
}

/// Of two texts one comes first.
pub proof fn lemma_comes_first_total(a: Seq<char>, b: Seq<char>)
    ensures
        comes_first(a, b) || comes_first(b, a),
    decreases a.len(),
{
    if a.len() > 0 && b.len() > 0 {
        if a[0] == b[0] {
            lemma_comes_first_total(a.drop_first(), b.drop_first());
        } else {
            vstd::utf8::char_u32_cast(a[0], a[0] as u32);
            vstd::utf8::char_u32_cast(b[0], b[0] as u32);
        }
    }
}

/// Two texts that each come first with respect to the other are the same.
pub proof fn lemma_comes_first_antisymmetric(a: Seq<char>, b: Seq<char>)
    requires
        comes_first(a, b),
        comes_first(b, a),
    ensures
        a == b,
    decreases a.len(),
{
    if a.len() > 0 && b.len() > 0 {
        lemma_comes_first_antisymmetric(a.drop_first(), b.drop_first());
        assert(a == seq![a[0]] + a.drop_first());
        assert(b == seq![b[0]] + b.drop_first());
    } else {
        assert(a =~= b);
    }
}

/// Coming first carries over: from `a` to `b` and from `b` to `c` gives from
/// `a` to `c`.
pub proof fn lemma_comes_first_transitive(a: Seq<char>, b: Seq<char>, c: Seq<char>)
    requires
        comes_first(a, b),
        comes_first(b, c),
    ensures
        comes_first(a, c),
    decreases a.len(),
{
    if a.len() > 0 && b.len() > 0 && c.len() > 0 {
        if a[0] == b[0] && b[0] == c[0] {
            lemma_comes_first_transitive(a.drop_first(), b.drop_first(), c.drop_first());
        }
    }
}

/// Whether the text `a` comes before the text `b`, or is the same, in
/// dictionary order by code points.
pub fn name_comes_first(a: &Vec<char>, b: &Vec<char>) -> (first: bool)
    ensures
        first == comes_first(a@, b@),
{
    let mut i: usize = 0;
    proof {
        assert(a@.skip(0) == a@);
        assert(b@.skip(0) == b@);
    }
    while i < a.len() && i < b.len() && a[i] == b[i]
        invariant
            i <= a.len(),
            i <= b.len(),
            comes_first(a@, b@) == comes_first(a@.skip(i as int), b@.skip(i as int)),
        decreases a.len() - i,
    {
        proof {
            assert(a@.skip(i as int).drop_first() == a@.skip(i + 1));
            assert(b@.skip(i as int).drop_first() == b@.skip(i + 1));
        }
        i = i + 1;
    }
    if i == a.len() {
        true
    } else if i == b.len() {
        false
    } else {
        (a[i] as u32) < (b[i] as u32)
    }
}

/// Arranges the folders found under a base folder: by name, folders of the
/// same name staying in the order in which they were found, each marked as
/// listed where a receipt is among its files.
pub fn load_account_folders(folder_path: String, found: &Vec<FoundFolder>) -> (data: AccountsData)
    ensures
        data.base_path@ == folder_path@,
        data.accounts@.len() == found@.len(),
        exists|order: Seq<int>|
            {
                &&& is_arrangement(order, names_of(found@))
                &&& forall|x: int|
                    0 <= x < found@.len() ==> is_account_of(
                        #[trigger] data.accounts@[x],
                        found@[order[x]],
                    )
            },
{
    let ghost names = names_of(found@);
    let ghost mut order: Seq<int> = Seq::empty();
    let mut accounts: Vec<AccountFolder> = Vec::new();
    let mut k: usize = 0;
    while k < found.len()
        invariant
            k <= found.len(),
            names == names_of(found@),
            accounts@.len() == k,
            order.len() == k,
            forall|x: int| 0 <= x < k ==> 0 <= #[trigger] order[x] < k,
            forall|x: int, y: int|
                0 <= x < y < k ==> ranks_before(names, #[trigger] order[x], #[trigger] order[y]),
            forall|x: int|
                0 <= x < k ==> is_account_of(#[trigger] accounts@[x], found@[order[x]]),
        decreases found.len() - k,
    {
        let folder = &found[k];
        let name = chars_of(folder.name.as_str());
        let mut at: usize = 0;
        while at < accounts.len() && name_comes_first(
            &chars_of(accounts[at].name.as_str()),
            &name,
        )
            invariant
                at <= accounts.len(),
                k < found.len(),
                names == names_of(found@),
                accounts@.len() == k,
                order.len() == k,
                name@ == names[k as int],
                forall|x: int| 0 <= x < k ==> 0 <= #[trigger] order[x] < k,
                forall|x: int|
                    0 <= x < k ==> is_account_of(#[trigger] accounts@[x], found@[order[x]]),
                forall|x: int| 0 <= x < at ==> comes_first(names[#[trigger] order[x]], names[k as int]),
            decreases accounts.len() - at,
        {
            proof {
                assert(is_account_of(accounts@[at as int], found@[order[at as int]]));
            }
            at = at + 1;
        }
        let account = AccountFolder {
            name: folder.name.clone(),
            path: folder.path.clone(),
            is_listed: check_if_listed(&folder.file_names),
        };
        let ghost before = order;
        let ghost held = accounts@;
        proof {
            let new = names[k as int];
            if at < k {
                let pivot = names[before[at as int]];
                assert(is_account_of(held[at as int], found@[before[at as int]]));
                assert(!comes_first(pivot, new));
                assert forall|y: int| at <= y < k implies comes_first(new, names[#[trigger] before[y]])
                    && new != names[before[y]] by {
                    let other = names[before[y]];
                    if y > at {
                        assert(ranks_before(names, before[at as int], before[y]));
                    }
                    lemma_comes_first_reflexive(pivot);
                    assert(comes_first(pivot, other));
                    if comes_first(other, new) {
                        lemma_comes_first_transitive(pivot, other, new);
                    }
                    lemma_comes_first_total(new, other);
                    if new == other {
                        lemma_comes_first_reflexive(new);
                    }
                }
            }
            order = before.insert(at as int, k as int);
        }
        accounts.insert(at, account);
        proof {
            assert forall|x: int| 0 <= x < k + 1 implies 0 <= #[trigger] order[x] < k + 1 by {
                if x < at {
                    assert(order[x] == before[x]);
                } else if x > at {
                    assert(order[x] == before[x - 1]);
                }
            }
            assert forall|x: int| 0 <= x < k + 1 implies is_account_of(
                #[trigger] accounts@[x],
                found@[order[x]],
            ) by {
                if x < at {
                    assert(accounts@[x] == held[x]);
                    assert(order[x] == before[x]);
                } else if x > at {
                    assert(accounts@[x] == held[x - 1]);
                    assert(order[x] == before[x - 1]);
                }
            }
            assert forall|x: int, y: int| 0 <= x < y < k + 1 implies ranks_before(
                names,
                #[trigger] order[x],
                #[trigger] order[y],
            ) by {
                if y < at {
                    assert(order[x] == before[x] && order[y] == before[y]);
                } else if y == at {
                    assert(order[x] == before[x]);
                    assert(comes_first(names[before[x]], names[k as int]));
                } else if x < at {
                    assert(order[x] == before[x] && order[y] == before[y - 1]);
                    assert(ranks_before(names, before[x], before[y - 1]));
                } else if x == at {
                    assert(order[y] == before[y - 1]);
                    assert(comes_first(names[k as int], names[before[y - 1]]) && names[k as int]
                        != names[before[y - 1]]);
                } else {
                    assert(order[x] == before[x - 1] && order[y] == before[y - 1]);
                    assert(ranks_before(names, before[x - 1], before[y - 1]));
                }
            }
        }
        k = k + 1;
    }
    proof {
        assert(is_arrangement(order, names_of(found@)));
        assert forall|x: int| 0 <= x < found@.len() implies is_account_of(
            #[trigger] accounts@[x],
            found@[order[x]],
        ) by {}
    }
    AccountsData { accounts, base_path: folder_path }
}

/// Whether `order` lists places found in rising rank, each place at most
/// once.
pub open spec fn is_ranked(order: Seq<int>, names: Seq<Seq<char>>) -> bool {
    &&& forall|x: int| 0 <= x < order.len() ==> 0 <= #[trigger] order[x] < names.len()
    &&& forall|x: int, y: int|
        0 <= x < y < order.len() ==> ranks_before(names, #[trigger] order[x], #[trigger] order[y])
}

proof fn lemma_ranked_has_no_duplicates(order: Seq<int>, names: Seq<Seq<char>>)
    requires
        is_ranked(order, names),
    ensures
        order.no_duplicates(),
{
    assert forall|i: int, j: int|
        0 <= i < order.len() && 0 <= j < order.len() && i != j implies order[i] != order[j] by {
        if i < j {
            assert(ranks_before(names, order[i], order[j]));
        } else {
            assert(ranks_before(names, order[j], order[i]));
        }
    }
}

proof fn lemma_ranked_is_determined(a: Seq<int>, b: Seq<int>, names: Seq<Seq<char>>)
    requires
        is_ranked(a, names),
        is_ranked(b, names),
        a.len() == b.len(),
        a.to_set() == b.to_set(),
    ensures
        a == b,
    decreases a.len(),
{
    if a.len() == 0 {
        assert(a =~= b);
    } else {
        lemma_ranked_has_no_duplicates(a, names);
        lemma_ranked_has_no_duplicates(b, names);
        // The first places are the same: each is the lowest of the same set.
        assert(b.to_set().contains(a[0])) by {
            assert(a.contains(a[0]));
        }
        assert(a.to_set().contains(b[0])) by {
            assert(b.contains(b[0]));
        }
        let y = choose|y: int| 0 <= y < b.len() && b[y] == a[0];
        let x = choose|x: int| 0 <= x < a.len() && a[x] == b[0];
        assert(b.contains(a[0]));
        assert(a.contains(b[0]));
        if a[0] != b[0] {
            assert(ranks_before(names, a[0], a[x]));
            assert(ranks_before(names, b[0], b[y]));
            if names[a[0]] != names[b[0]] {
                lemma_comes_first_antisymmetric(names[a[0]], names[b[0]]);
            }
        }
        let rest_a = a.drop_first();
        let rest_b = b.drop_first();
        assert forall|x: int, y: int| 0 <= x < y < rest_a.len() implies ranks_before(
            names,
            #[trigger] rest_a[x],
            #[trigger] rest_a[y],
        ) by {
            assert(ranks_before(names, a[x + 1], a[y + 1]));
        }
        assert forall|x: int, y: int| 0 <= x < y < rest_b.len() implies ranks_before(
            names,
            #[trigger] rest_b[x],
            #[trigger] rest_b[y],
        ) by {
            assert(ranks_before(names, b[x + 1], b[y + 1]));
        }
        assert forall|x: int| 0 <= x < rest_a.len() implies 0 <= #[trigger] rest_a[x]
            < names.len() by {
            assert(rest_a[x] == a[x + 1]);
        }
        assert forall|x: int| 0 <= x < rest_b.len() implies 0 <= #[trigger] rest_b[x]
            < names.len() by {
            assert(rest_b[x] == b[x + 1]);
        }
        assert(rest_a.to_set() =~= rest_b.to_set()) by {
            assert forall|v: int| rest_a.to_set().contains(v) == rest_b.to_set().contains(v) by {
                lemma_rest_holds(a, v);
                lemma_rest_holds(b, v);
                assert(a.to_set().contains(v) == b.to_set().contains(v));
            }
        }
        lemma_ranked_is_determined(rest_a, rest_b, names);
        assert(a == seq![a[0]] + rest_a);
        assert(b == seq![b[0]] + rest_b);
    }
}

proof fn lemma_rest_holds(order: Seq<int>, v: int)
    requires
        order.len() > 0,
        order.no_duplicates(),
    ensures
        order.drop_first().to_set().contains(v) == (order.to_set().contains(v) && v != order[0]),
{
    let rest = order.drop_first();
    if rest.to_set().contains(v) {
        assert(rest.contains(v));
        let i = choose|i: int| 0 <= i < rest.len() && rest[i] == v;
        assert(order[i + 1] == v);
        assert(order.contains(v));
    }
    if order.to_set().contains(v) && v != order[0] {
        assert(order.contains(v));
        let i = choose|i: int| 0 <= i < order.len() && order[i] == v;
        assert(rest[i - 1] == v);
        assert(rest.contains(v));
    }
}

/// There is one way only to arrange folders: two arrangements of the same
/// names are the same. So the arrangement that [`load_account_folders`]
/// promises determines its result.
pub proof fn law_arrangement_is_determined(
    first: Seq<int>,
    second: Seq<int>,
    names: Seq<Seq<char>>,
)
    requires
        is_arrangement(first, names),
        is_arrangement(second, names),
    ensures
        first == second,
{
    let all = vstd::set_lib::set_int_range(0, names.len() as int);
    vstd::set_lib::lemma_int_range(0, names.len() as int);
    lemma_ranked_has_no_duplicates(first, names);
    lemma_ranked_has_no_duplicates(second, names);
    first.unique_seq_to_set();
    second.unique_seq_to_set();
    assert(first.to_set().subset_of(all)) by {
        assert forall|v: int| first.to_set().contains(v) implies all.contains(v) by {
            assert(first.contains(v));
        }
    }
    assert(second.to_set().subset_of(all)) by {
        assert forall|v: int| second.to_set().contains(v) implies all.contains(v) by {
            assert(second.contains(v));
        }
    }
    vstd::set_lib::lemma_len_subset(first.to_set(), all);
    vstd::set_lib::lemma_len_subset(second.to_set(), all);
    vstd::set_lib::lemma_subset_equality(first.to_set(), all);
    vstd::set_lib::lemma_subset_equality(second.to_set(), all);
    lemma_ranked_is_determined(first, second, names);
}

} // verus!
